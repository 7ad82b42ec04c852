//! The factory vocabulary: factory kinds, their lifecycle status,
//! request priorities and output descriptions.

use vstd::prelude::*;
use vstd::string::StringExecFns;

verus! {

/// The four content factories.
#[derive(Debug, Clone, Copy, PartialEq, Eq, Structural)]
pub enum FactoryType {
    Education,
    Creative,
    Corporate,
    Technology,
}

/// The display name of each factory.
pub open spec fn factory_display_name_spec(t: FactoryType) -> Seq<char> {
    match t {
        FactoryType::Education => "مصنع التعليم"@,
        FactoryType::Creative => "مصنع الإبداع"@,
        FactoryType::Corporate => "مصنع المؤسسات"@,
        FactoryType::Technology => "مصنع التقنية"@,
    }
}

/// The description of each factory.
pub open spec fn factory_description_spec(t: FactoryType) -> Seq<char> {
    match t {
        FactoryType::Education => "إنشاء المحتوى التعليمي والتدريبي الذكي"@,
        FactoryType::Creative => "التصميم والمحتوى الإبداعي والجرافيك"@,
        FactoryType::Corporate => "حلول المؤسسات والشركات والإدارة"@,
        FactoryType::Technology => "التطوير البرمجي والحلول التقنية"@,
    }
}

impl FactoryType {
    /// The display name of this factory.
    pub fn display_name(&self) -> (r: &'static str)
        ensures
            r@ == factory_display_name_spec(*self),
    {
        match self {
            FactoryType::Education => "مصنع التعليم",
            FactoryType::Creative => "مصنع الإبداع",
            FactoryType::Corporate => "مصنع المؤسسات",
            FactoryType::Technology => "مصنع التقنية",
        }
    }

    /// What this factory produces.
    pub fn description(&self) -> (r: &'static str)
        ensures
            r@ == factory_description_spec(*self),
    {
        match self {
            FactoryType::Education => "إنشاء المحتوى التعليمي والتدريبي الذكي",
            FactoryType::Creative => "التصميم والمحتوى الإبداعي والجرافيك",
            FactoryType::Corporate => "حلول المؤسسات والشركات والإدارة",
            FactoryType::Technology => "التطوير البرمجي والحلول التقنية",
        }
    }
}

/// The lifecycle state of a factory.
#[derive(Debug, Clone)]
pub enum FactoryStatus {
    Initializing,
    Ready,
    Processing,
    Paused,
    Error(String),
    Maintenance,
    Shutdown,
}

/// The machine-readable name of each status.
pub open spec fn factory_status_str_spec(s: FactoryStatus) -> Seq<char> {
    match s {
        FactoryStatus::Initializing => "initializing"@,
        FactoryStatus::Ready => "ready"@,
        FactoryStatus::Processing => "processing"@,
        FactoryStatus::Paused => "paused"@,
        FactoryStatus::Error(_) => "error"@,
        FactoryStatus::Maintenance => "maintenance"@,
        FactoryStatus::Shutdown => "shutdown"@,
    }
}

impl FactoryStatus {
    /// A factory does useful work only while ready or processing.
    pub fn is_operational(&self) -> (r: bool)
        ensures
            r == (*self is Ready || *self is Processing),
    {
        match self {
            FactoryStatus::Ready => true,
            FactoryStatus::Processing => true,
            _ => false,
        }
    }

    /// The machine-readable name of this status.
    pub fn as_str(&self) -> (r: &'static str)
        ensures
            r@ == factory_status_str_spec(*self),
    {
        match self {
            FactoryStatus::Initializing => "initializing",
            FactoryStatus::Ready => "ready",
            FactoryStatus::Processing => "processing",
            FactoryStatus::Paused => "paused",
            FactoryStatus::Error(_) => "error",
            FactoryStatus::Maintenance => "maintenance",
            FactoryStatus::Shutdown => "shutdown",
        }
    }
}

/// The type a capability parameter expects.
#[derive(Debug, Clone, Copy, PartialEq, Eq, Structural)]
pub enum ParameterType {
    String,
    Integer,
    Float,
    Boolean,
    Array,
    Object,
}

/// How urgent a factory request is.
#[derive(Debug, Clone, Copy, PartialEq, Eq, Structural)]
pub enum RequestPriority {
    Low,
    Normal,
    High,
    Critical,
}

impl RequestPriority {
    /// The numeric rank of this priority, from 1 (low) to 4 (critical).
    pub fn value(&self) -> (r: u8)
        ensures
            r == match *self {
                RequestPriority::Low => 1u8,
                RequestPriority::Normal => 2u8,
                RequestPriority::High => 3u8,
                RequestPriority::Critical => 4u8,
            },
    {
        match self {
            RequestPriority::Low => 1,
            RequestPriority::Normal => 2,
            RequestPriority::High => 3,
            RequestPriority::Critical => 4,
        }
    }
}

/// What kind of artifact a factory produced.
#[derive(Debug, Clone, Copy, PartialEq, Eq, Structural)]
pub enum OutputType {
    Text,
    Document,
    Code,
    Design,
    Data,
    Media,
}

/// The serialisation format of a produced artifact.
#[derive(Debug, Clone, Copy, PartialEq, Eq, Structural)]
pub enum OutputFormat {
    Markdown,
    Html,
    Json,
    Yaml,
    Pdf,
    Image,
    Video,
    Audio,
    Archive,
}

/// One produced file.
#[derive(Debug, Clone)]
pub struct OutputFile {
    pub filename: String,
    pub content_type: String,
    pub content: Vec<u8>,
    pub size_bytes: usize,
    pub checksum: String,
}

/// What went wrong in a factory.
#[derive(Debug, Clone)]
pub enum FactoryError {
    InitializationFailed(String),
    InvalidRequest(String),
    ProcessingFailed(String),
    ResourceUnavailable(String),
    ValidationFailed(String),
    Timeout,
    Unknown(String),
}

/// The user-facing message of each factory error.
pub open spec fn factory_error_message_spec(e: FactoryError) -> Seq<char> {
    match e {
        FactoryError::InitializationFailed(m) => "فشل التهيئة: "@ + m@,
        FactoryError::InvalidRequest(m) => "طلب غير صالح: "@ + m@,
        FactoryError::ProcessingFailed(m) => "فشل المعالجة: "@ + m@,
        FactoryError::ResourceUnavailable(m) => "مورد غير متاح: "@ + m@,
        FactoryError::ValidationFailed(m) => "فشل التحقق: "@ + m@,
        FactoryError::Timeout => "انتهى وقت الانتظار"@,
        FactoryError::Unknown(m) => "خطأ غير معروف: "@ + m@,
    }
}

impl FactoryError {
    /// The user-facing message of this error.
    pub fn message(&self) -> (r: String)
        ensures
            r@ == factory_error_message_spec(*self),
    {
        match self {
            FactoryError::InitializationFailed(m) => "فشل التهيئة: ".to_owned().concat(
                m.as_str(),
            ),
            FactoryError::InvalidRequest(m) => "طلب غير صالح: ".to_owned().concat(m.as_str()),
            FactoryError::ProcessingFailed(m) => "فشل المعالجة: ".to_owned().concat(m.as_str()),
            FactoryError::ResourceUnavailable(m) => "مورد غير متاح: ".to_owned().concat(
                m.as_str(),
            ),
            FactoryError::ValidationFailed(m) => "فشل التحقق: ".to_owned().concat(m.as_str()),
            FactoryError::Timeout => "انتهى وقت الانتظار".to_owned(),
            FactoryError::Unknown(m) => "خطأ غير معروف: ".to_owned().concat(m.as_str()),
        }
    }
}

} // verus!
