//! Smart content factory management library.
//!
//! The heart of the crate is the quality-gate scoring engine in [`quality`]:
//! weighted criteria roll up into per-gate scores, and per-gate scores roll
//! up into an overall weighted score with a pass/fail verdict and generated
//! recommendations.  All scores, weights and thresholds are fixed-point
//! fractions: the value [`score::SCALE`] stands for 1.0, so a weight of
//! 2_500 means 0.25.
//!
//! Around that core stand the shared data types of the factory system:
//! factory descriptors, component status, configuration and the small
//! dashboard/monitor vocabulary.

use vstd::prelude::*;

pub mod components;
pub mod corporate;
pub mod education;
pub mod config;
pub mod mhos;
pub mod factory;
pub mod providers;
pub mod text;
pub mod quality;
pub mod score;

verus! {

/// General information about the system build.
pub struct SystemInfo {
    pub version: String,
    pub name: String,
    pub description: String,
    pub rust_version: String,
    pub build_time: String,
}

impl Default for SystemInfo {
    /// The compiled-in identity of the system.  The toolchain version and
    /// build time are environment facts; callers that know them fill the
    /// two fields in, the default leaves them unknown/empty.
    fn default() -> (r: SystemInfo)
        ensures
            r.version@ == "3.0.0"@,
            r.name@ == "Marwan Hub Factories"@,
            r.rust_version@ == "unknown"@,
            r.build_time@ == ""@,
    {
        SystemInfo {
            version: "3.0.0".to_owned(),
            name: "Marwan Hub Factories".to_owned(),
            description: "نظام المصانع الذكية للتعليم والإبداع والتقنية".to_owned(),
            rust_version: "unknown".to_owned(),
            build_time: "".to_owned(),
        }
    }
}

/// System information with the default identity.
pub fn get_system_info() -> (r: SystemInfo)
    ensures
        r.version@ == "3.0.0"@,
        r.name@ == "Marwan Hub Factories"@,
        r.rust_version@ == "unknown"@,
        r.build_time@ == ""@,
{
    SystemInfo::default()
}

} // verus!
