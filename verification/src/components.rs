//! Shared system components: the core factory-type names, component
//! status, operation results and identifier generation.

use vstd::prelude::*;
use vstd::string::{StrSliceExecFns, StringExecFns};

use crate::providers::{new_uuid_string, now_timestamp_millis};
use crate::text::{eq_ignore_ascii_case, lower_spec};

verus! {

/// The four content factories, as the core addresses them.
#[derive(Debug, Clone, Copy, PartialEq, Eq, Structural)]
pub enum FactoryType {
    Education,
    Creative,
    Corporate,
    Technology,
}

/// The machine-readable name of each factory type.
pub open spec fn factory_type_str_spec(t: FactoryType) -> Seq<char> {
    match t {
        FactoryType::Education => "education"@,
        FactoryType::Creative => "creative"@,
        FactoryType::Corporate => "corporate"@,
        FactoryType::Technology => "technology"@,
    }
}

/// The factory type a name denotes, compared without regard to ASCII
/// case: the full name or its three- or four-letter shorthand.
pub open spec fn factory_type_from_str_spec(s: Seq<char>) -> Option<FactoryType> {
    let l = lower_spec(s);
    if l == "education"@ || l == "edu"@ {
        Some(FactoryType::Education)
    } else if l == "creative"@ || l == "cre"@ {
        Some(FactoryType::Creative)
    } else if l == "corporate"@ || l == "corp"@ {
        Some(FactoryType::Corporate)
    } else if l == "technology"@ || l == "tech"@ {
        Some(FactoryType::Technology)
    } else {
        None
    }
}

impl FactoryType {
    /// The machine-readable name of this factory type.
    pub fn as_str(&self) -> (r: &'static str)
        ensures
            r@ == factory_type_str_spec(*self),
    {
        match self {
            FactoryType::Education => "education",
            FactoryType::Creative => "creative",
            FactoryType::Corporate => "corporate",
            FactoryType::Technology => "technology",
        }
    }

    /// Parses a factory name, ignoring ASCII case; accepts the full
    /// name and its shorthand, rejects everything else.
    pub fn from_str(s: &str) -> (r: Option<FactoryType>)
        ensures
            r == factory_type_from_str_spec(s@),
    {
        if eq_ignore_ascii_case(s, "education") || eq_ignore_ascii_case(s, "edu") {
            Some(FactoryType::Education)
        } else if eq_ignore_ascii_case(s, "creative") || eq_ignore_ascii_case(s, "cre") {
            Some(FactoryType::Creative)
        } else if eq_ignore_ascii_case(s, "corporate") || eq_ignore_ascii_case(s, "corp") {
            Some(FactoryType::Corporate)
        } else if eq_ignore_ascii_case(s, "technology") || eq_ignore_ascii_case(s, "tech") {
            Some(FactoryType::Technology)
        } else {
            None
        }
    }
}

/// A component every part of the system implements: identity, lifecycle
/// and status reporting.
pub trait CoreComponent {
    fn get_name(&self) -> String;

    fn get_version(&self) -> String;

    fn initialize(&self) -> Result<(), String>;

    fn shutdown(&self) -> Result<(), String>;

    fn get_status(&self) -> ComponentStatus;
}

/// The lifecycle state of a component.
#[derive(Debug, Clone, Copy, PartialEq, Eq, Structural)]
pub enum ComponentStatus {
    Initializing,
    Ready,
    Running,
    Warning,
    Error,
    Shutdown,
}

/// The machine-readable name of each component status.
pub open spec fn component_status_str_spec(s: ComponentStatus) -> Seq<char> {
    match s {
        ComponentStatus::Initializing => "initializing"@,
        ComponentStatus::Ready => "ready"@,
        ComponentStatus::Running => "running"@,
        ComponentStatus::Warning => "warning"@,
        ComponentStatus::Error => "error"@,
        ComponentStatus::Shutdown => "shutdown"@,
    }
}

impl ComponentStatus {
    /// The machine-readable name of this status.
    pub fn as_str(&self) -> (r: &'static str)
        ensures
            r@ == component_status_str_spec(*self),
    {
        match self {
            ComponentStatus::Initializing => "initializing",
            ComponentStatus::Ready => "ready",
            ComponentStatus::Running => "running",
            ComponentStatus::Warning => "warning",
            ComponentStatus::Error => "error",
            ComponentStatus::Shutdown => "shutdown",
        }
    }
}

/// The outcome of one operation: either data or an error message, with
/// the execution time and the moment of completion.
#[derive(Debug, Clone)]
pub struct OperationResult<T> {
    pub success: bool,
    pub data: Option<T>,
    pub error: Option<String>,
    pub execution_time_ms: u64,
    pub timestamp: i64,
}

impl<T> OperationResult<T> {
    /// A successful outcome carrying `data`.
    pub fn success(data: T, execution_time_ms: u64) -> (r: OperationResult<T>)
        ensures
            r.success,
            r.data == Some(data),
            r.error is None,
            r.execution_time_ms == execution_time_ms,
    {
        OperationResult {
            success: true,
            data: Some(data),
            error: None,
            execution_time_ms,
            timestamp: now_timestamp_millis(),
        }
    }

    /// A failed outcome carrying an error message.
    pub fn error(error: String, execution_time_ms: u64) -> (r: OperationResult<T>)
        ensures
            !r.success,
            r.data is None,
            r.error == Some(error),
            r.execution_time_ms == execution_time_ms,
    {
        OperationResult {
            success: false,
            data: None,
            error: Some(error),
            execution_time_ms,
            timestamp: now_timestamp_millis(),
        }
    }
}

/// A fresh identifier: the prefix, an underscore, and eight random
/// hexadecimal characters.
pub fn generate_id(prefix: &str) -> (r: String)
    ensures
        r@.len() == prefix@.len() + 9,
        r@.subrange(0, prefix@.len() as int) == prefix@,
        r@[prefix@.len() as int] == '_',
{
    proof {
        reveal_strlit("_");
    }
    let u = new_uuid_string();
    let short = u.as_str().substring_ascii(0, 8);
    let r = prefix.to_owned().concat("_").concat(short);
    proof {
        assert(r@.subrange(0, prefix@.len() as int) =~= prefix@);
    }
    r
}

} // verus!
