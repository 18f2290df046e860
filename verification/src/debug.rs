//! The debug sink of diagnostic builds: which of the driver's diagnostic
//! events are emitted, and as what text.
//!
//! An event carries a severity, a category and a message. The filter looks
//! at the severity first and at the category second; what passes both is
//! emitted, and the rest is discarded.

use vstd::prelude::*;

verus! {

/// The raw flags of the severities that the sink accepts: warning and
/// error.
pub const ACCEPTED_SEVERITIES: u32 = 0x1100;

/// The raw flags of the categories that the sink accepts: validation and
/// performance.
pub const ACCEPTED_CATEGORIES: u32 = 0x6;

/// How grave a diagnostic event is.
#[derive(Clone, Copy, Debug, PartialEq, Eq, Structural)]
pub enum Severity {
    Verbose,
    Info,
    Warning,
    Error,
}

/// What a diagnostic event is about.
#[derive(Clone, Copy, Debug, PartialEq, Eq, Structural)]
pub enum Category {
    General,
    Validation,
    Performance,
}

/// The severity that a raw flag of the graphics API stands for.
pub open spec fn severity_of_raw(raw: u32) -> Option<Severity> {
    if raw == 0x1 {
        Some(Severity::Verbose)
    } else if raw == 0x10 {
        Some(Severity::Info)
    } else if raw == 0x100 {
        Some(Severity::Warning)
    } else if raw == 0x1000 {
        Some(Severity::Error)
    } else {
        None
    }
}

/// The category that a raw flag of the graphics API stands for.
pub open spec fn category_of_raw(raw: u32) -> Option<Category> {
    if raw == 0x1 {
        Some(Category::General)
    } else if raw == 0x2 {
        Some(Category::Validation)
    } else if raw == 0x4 {
        Some(Category::Performance)
    } else {
        None
    }
}

/// Tells the constants of `ash::vk::DebugUtilsMessageSeverityFlagsEXT`
/// apart: `VERBOSE` is the flag 0x1, `INFO` 0x10, `WARNING` 0x100 and
/// `ERROR` 0x1000. Any other value is no single severity.
#[verifier::external_body]
fn severity_from_ash(raw: u32) -> (severity: Option<Severity>)
    ensures
        severity == severity_of_raw(raw),
{
    match ash::vk::DebugUtilsMessageSeverityFlagsEXT::from_raw(raw) {
        ash::vk::DebugUtilsMessageSeverityFlagsEXT::VERBOSE => Some(Severity::Verbose),
        ash::vk::DebugUtilsMessageSeverityFlagsEXT::INFO => Some(Severity::Info),
        ash::vk::DebugUtilsMessageSeverityFlagsEXT::WARNING => Some(Severity::Warning),
        ash::vk::DebugUtilsMessageSeverityFlagsEXT::ERROR => Some(Severity::Error),
        _ => None,
    }
}

/// Tells the constants of `ash::vk::DebugUtilsMessageTypeFlagsEXT` apart:
/// `GENERAL` is the flag 0x1, `VALIDATION` 0x2 and `PERFORMANCE` 0x4. Any
/// other value is no single category that the sink knows.
#[verifier::external_body]
fn category_from_ash(raw: u32) -> (category: Option<Category>)
    ensures
        category == category_of_raw(raw),
{
    match ash::vk::DebugUtilsMessageTypeFlagsEXT::from_raw(raw) {
        ash::vk::DebugUtilsMessageTypeFlagsEXT::GENERAL => Some(Category::General),
        ash::vk::DebugUtilsMessageTypeFlagsEXT::VALIDATION => Some(Category::Validation),
        ash::vk::DebugUtilsMessageTypeFlagsEXT::PERFORMANCE => Some(Category::Performance),
        _ => None,
    }
}

/// The union of `WARNING` and `ERROR` of
/// `ash::vk::DebugUtilsMessageSeverityFlagsEXT`, as its raw value: the
/// bitwise or of the flags 0x100 and 0x1000.
#[verifier::external_body]
fn accepted_severities_from_ash() -> (mask: u32)
    ensures
        mask == ACCEPTED_SEVERITIES,
{
    (ash::vk::DebugUtilsMessageSeverityFlagsEXT::WARNING
        | ash::vk::DebugUtilsMessageSeverityFlagsEXT::ERROR).as_raw()
}

/// The union of `VALIDATION` and `PERFORMANCE` of
/// `ash::vk::DebugUtilsMessageTypeFlagsEXT`, as its raw value: the bitwise
/// or of the flags 0x2 and 0x4.
#[verifier::external_body]
fn accepted_categories_from_ash() -> (mask: u32)
    ensures
        mask == ACCEPTED_CATEGORIES,
{
    (ash::vk::DebugUtilsMessageTypeFlagsEXT::VALIDATION
        | ash::vk::DebugUtilsMessageTypeFlagsEXT::PERFORMANCE).as_raw()
}

impl Severity {
    /// The severity that a raw flag stands for, if it is a single one.
    pub fn from_raw(raw: u32) -> (severity: Option<Severity>)
        ensures
            severity == severity_of_raw(raw),
    {
        severity_from_ash(raw)
    }

    pub open spec fn spec_raw(self) -> u32 {
        match self {
            Severity::Verbose => 0x1,
            Severity::Info => 0x10,
            Severity::Warning => 0x100,
            Severity::Error => 0x1000,
        }
    }

    /// The raw flag of the severity.
    #[verifier::when_used_as_spec(spec_raw)]
    pub fn raw(self) -> (raw: u32)
        ensures
            raw == self.spec_raw(),
            severity_of_raw(raw) == Some(self),
    {
        match self {
            Severity::Verbose => 0x1,
            Severity::Info => 0x10,
            Severity::Warning => 0x100,
            Severity::Error => 0x1000,
        }
    }

    pub open spec fn spec_name(self) -> Seq<char> {
        match self {
            Severity::Verbose => "VERBOSE"@,
            Severity::Info => "INFO"@,
            Severity::Warning => "WARNING"@,
            Severity::Error => "ERROR"@,
        }
    }

    /// The severity's name in emitted text.
    pub fn name(self) -> (name: &'static str)
        ensures
            name@ == self.spec_name(),
    {
        match self {
            Severity::Verbose => "VERBOSE",
            Severity::Info => "INFO",
            Severity::Warning => "WARNING",
            Severity::Error => "ERROR",
        }
    }
}

impl Category {
    /// The category that a raw flag stands for, if it is a single one.
    pub fn from_raw(raw: u32) -> (category: Option<Category>)
        ensures
            category == category_of_raw(raw),
    {
        category_from_ash(raw)
    }

    pub open spec fn spec_raw(self) -> u32 {
        match self {
            Category::General => 0x1,
            Category::Validation => 0x2,
            Category::Performance => 0x4,
        }
    }

    /// The raw flag of the category.
    #[verifier::when_used_as_spec(spec_raw)]
    pub fn raw(self) -> (raw: u32)
        ensures
            raw == self.spec_raw(),
            category_of_raw(raw) == Some(self),
    {
        match self {
            Category::General => 0x1,
            Category::Validation => 0x2,
            Category::Performance => 0x4,
        }
    }

    pub open spec fn spec_name(self) -> Seq<char> {
        match self {
            Category::General => "GENERAL"@,
            Category::Validation => "VALIDATION"@,
            Category::Performance => "PERFORMANCE"@,
        }
    }

    /// The category's name in emitted text.
    pub fn name(self) -> (name: &'static str)
        ensures
            name@ == self.spec_name(),
    {
        match self {
            Category::General => "GENERAL",
            Category::Validation => "VALIDATION",
            Category::Performance => "PERFORMANCE",
        }
    }
}

/// One diagnostic event of the driver.
pub struct DebugEvent {
    pub severity: Severity,
    pub category: Category,
    pub message: String,
}

/// Whether the sink emits events of a severity: warnings and errors only.
pub open spec fn severity_accepted(severity: Severity) -> bool {
    severity == Severity::Warning || severity == Severity::Error
}

/// Whether the sink emits events of a category: validation and performance
/// only.
pub open spec fn category_accepted(category: Category) -> bool {
    category == Category::Validation || category == Category::Performance
}

/// Whether the sink emits an event of the given severity and category.
pub open spec fn accepted(severity: Severity, category: Category) -> bool {
    severity_accepted(severity) && category_accepted(category)
}

/// The text as which an event is emitted.
pub open spec fn event_text(severity: Severity, category: Category, message: Seq<char>) -> Seq<
    char,
> {
    "Type: "@ + category.spec_name() + ", Severity: "@ + severity.spec_name() + ", Message: "@
        + message
}

/// The filter that the debug sink registers with the driver and applies to
/// each event: the accepted severities and categories, as raw flags.
#[derive(Clone, Copy, Debug, PartialEq, Eq, Structural)]
pub struct VkDebug {
    pub severities: u32,
    pub categories: u32,
}

impl VkDebug {
    /// The filter of a diagnostic build.
    pub open spec fn diagnostic() -> VkDebug {
        VkDebug { severities: ACCEPTED_SEVERITIES, categories: ACCEPTED_CATEGORIES }
    }

    /// The filter of a diagnostic build, with the flags as the graphics
    /// API defines them.
    pub fn new() -> (sink: VkDebug)
        ensures
            sink == VkDebug::diagnostic(),
    {
        VkDebug {
            severities: accepted_severities_from_ash(),
            categories: accepted_categories_from_ash(),
        }
    }

    /// Whether the filter lets a severity pass.
    pub fn accepts_severity(&self, severity: Severity) -> (pass: bool)
        ensures
            pass == (severity.spec_raw() & self.severities != 0),
            *self == VkDebug::diagnostic() ==> pass == severity_accepted(severity),
    {
        proof {
            assert(0x1u32 & 0x1100u32 == 0 && 0x10u32 & 0x1100u32 == 0 && 0x100u32 & 0x1100u32 != 0
                && 0x1000u32 & 0x1100u32 != 0) by (bit_vector);
        }
        severity.raw() & self.severities != 0
    }

    /// Whether the filter lets a category pass.
    pub fn accepts_category(&self, category: Category) -> (pass: bool)
        ensures
            pass == (category.spec_raw() & self.categories != 0),
            *self == VkDebug::diagnostic() ==> pass == category_accepted(category),
    {
        proof {
            assert(0x1u32 & 0x6u32 == 0 && 0x2u32 & 0x6u32 != 0 && 0x4u32 & 0x6u32 != 0)
                by (bit_vector);
        }
        category.raw() & self.categories != 0
    }

    /// Whether the filter lets an event pass: first the severity is looked
    /// at, then the category.
    pub fn accepts(&self, severity: Severity, category: Category) -> (pass: bool)
        ensures
            pass == (severity.spec_raw() & self.severities != 0 && category.spec_raw()
                & self.categories != 0),
            *self == VkDebug::diagnostic() ==> pass == accepted(severity, category),
    {
        if !self.accepts_severity(severity) {
            return false;
        }
        self.accepts_category(category)
    }

    /// What the sink does with an event: the text that is emitted, or
    /// nothing where the event is discarded.
    pub fn vk_debug_callback(&self, event: &DebugEvent) -> (emitted: Option<String>)
        ensures
            emitted is Some <==> (event.severity.spec_raw() & self.severities != 0
                && event.category.spec_raw() & self.categories != 0),
            *self == VkDebug::diagnostic() ==> (emitted is Some <==> accepted(
                event.severity,
                event.category,
            )),
            emitted is Some ==> emitted->0@ == event_text(
                event.severity,
                event.category,
                event.message@,
            ),
    {
        if !self.accepts(event.severity, event.category) {
            return None;
        }
        let mut line = String::from_str("Type: ");
        line.append(event.category.name());
        line.append(", Severity: ");
        line.append(event.severity.name());
        line.append(", Message: ");
        line.append(event.message.as_str());
        Some(line)
    }
}

} // verus!
