//! Data records of the corporate factory: document and policy
//! templates, document orders and workflow blueprints.

use vstd::prelude::*;

verus! {

/// A reusable corporate document blueprint.
#[derive(Debug, Clone)]
pub struct DocumentTemplate {
    pub id: String,
    pub name: String,
    pub description: String,
    pub category: String,
    pub document_type: String,
    pub sections: Vec<String>,
    pub required_fields: Vec<String>,
}

/// A reusable policy blueprint and the standards it complies with.
#[derive(Debug, Clone)]
pub struct PolicyTemplate {
    pub id: String,
    pub name: String,
    pub description: String,
    pub category: String,
    pub policy_type: String,
    pub compliance: Vec<String>,
    pub sections: Vec<String>,
}

/// What a caller asks for when ordering a corporate document.
#[derive(Debug, Clone)]
pub struct DocumentCreationRequest {
    pub document_type: String,
    pub company_name: String,
    pub document_title: Option<String>,
    pub party_names: Vec<String>,
    pub position: Option<String>,
    pub location: Option<String>,
    pub amount: Option<u32>,
    pub currency: Option<String>,
    pub jurisdiction: Option<String>,
    pub description: Option<String>,
    pub contact_email: Option<String>,
    pub duration_months: Option<u32>,
    pub manager_name: Option<String>,
    pub project_type: Option<String>,
    pub objectives: Option<String>,
    pub scope: Option<String>,
    pub timeline: Option<String>,
    pub team_info: Option<String>,
    pub risks: Option<String>,
    pub success_criteria: Option<String>,
    pub employee_name: Option<String>,
    pub period: Option<String>,
    pub summary: Option<String>,
    pub achievements: Option<String>,
    pub improvement_areas: Option<String>,
    pub future_goals: Option<String>,
    pub recommendations: Option<String>,
    pub evaluation: Option<String>,
    pub rating: Option<u8>,
}

/// A report-producing capability and the formats it offers.
#[derive(Debug, Clone)]
pub struct ReportGenerator {
    pub id: String,
    pub name: String,
    pub report_types: Vec<String>,
    pub supported_formats: Vec<String>,
}

/// A workflow blueprint: ordered steps and how many approvals they
/// need.
#[derive(Debug, Clone)]
pub struct WorkflowTemplate {
    pub id: String,
    pub name: String,
    pub description: String,
    pub steps: Vec<String>,
    pub approvals_required: usize,
}

} // verus!
