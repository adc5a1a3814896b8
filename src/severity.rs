use vstd::prelude::*;

verus! {

/// How important a message is; it picks the message's colour and its tag.
#[derive(PartialEq, Eq, Structural, Hash, Debug, Clone, Copy)]
pub enum Severity {
    Error,
    Warning,
    Info,
    Debug,
}

/// The lowercase tag written in front of a message of severity `s`.
pub open spec fn severity_label(s: Severity) -> Seq<char> {
    match s {
        Severity::Error => "error"@,
        Severity::Warning => "warning"@,
        Severity::Info => "info"@,
        Severity::Debug => "debug"@,
    }
}

impl Severity {
    /// The lowercase name of the severity: "error", "warning", "info" or "debug".
    pub fn to_string(&self) -> (r: String)
        ensures
            r@ == severity_label(*self),
    {
        let s = match self {
            Severity::Error => "error",
            Severity::Warning => "warning",
            Severity::Info => "info",
            Severity::Debug => "debug",
        };
        String::from_str(s)
    }
}

} // verus!
