use vstd::prelude::*;

verus! {

/// The fatal errors the configuration runtime can surface to a caller.
///
/// `InvalidDuration` is raised inside the `poll` binding when an interval
/// string has no recognized form; it reaches a caller of `load` re-wrapped
/// as a `ScriptError`, because the host interpreter reports it as an
/// evaluation failure of the script.
#[derive(Debug, Clone, PartialEq, Eq)]
pub enum ConfigError {
    /// A duration string was neither `"<n>ms"` nor `"<n>s"`.
    InvalidDuration,
    /// The interpreter failed to evaluate the script; the diagnostic text
    /// is carried verbatim.
    ScriptError(String),
}

impl ConfigError {
    /// The printable description of this error.
    pub fn message(&self) -> (r: String)
        ensures
            *self is InvalidDuration ==> r@ == "Invalid duration format (use '1s' or '500ms')"@,
            *self matches ConfigError::ScriptError(d) ==> r@ == d@,
    {
        match self {
            ConfigError::InvalidDuration => "Invalid duration format (use '1s' or '500ms')"
                .to_owned(),
            ConfigError::ScriptError(d) => d.clone(),
        }
    }
}

} // verus!
