//! The process-wide model configuration: one mutable model identifier,
//! validated against a fixed allow-list.  Sharing it between sessions
//! (behind a lock) is the host's work; the value and its validation live
//! here.
use vstd::prelude::*;
use vstd::string::StringExecFns;

verus! {

/// Rejection of a configuration update.
#[derive(Clone, Copy, Debug, PartialEq, Eq, Structural)]
pub enum ConfigError {
    InvalidModel,
}

/// The fixed allow-list of model identifiers.
pub open spec fn spec_is_allowed_model(m: Seq<char>) -> bool {
    m == "gemini-2.5-flash"@ || m == "gemini-2.5-flash-lite"@ || m == "gemini-2.5-pro"@
}

/// The currently selected model identifier.  Every session snapshots it
/// once at start; an update never touches sessions already running.
pub struct ModelConfig {
    current: String,
}

impl ModelConfig {
    /// The selected model.
    pub closed spec fn model(&self) -> Seq<char> {
        self.current@
    }

    /// The selected model is always one of the allow-list.
    pub closed spec fn wf(&self) -> bool {
        spec_is_allowed_model(self.current@)
    }

    /// A fresh configuration, holding the default model.
    pub fn new() -> (r: ModelConfig)
        ensures
            r.model() == "gemini-2.5-flash"@,
            r.wf(),
    {
        ModelConfig { current: String::from_str("gemini-2.5-flash") }
    }

    /// A snapshot of the selected model.
    pub fn get(&self) -> (r: String)
        ensures
            r@ == self.model(),
    {
        self.current.clone()
    }

    /// Select `candidate` if the allow-list has it; otherwise reject it
    /// and keep the selection unchanged.
    pub fn set(&mut self, candidate: &str) -> (r: Result<(), ConfigError>)
        ensures
            spec_is_allowed_model(candidate@) ==> r is Ok && final(self).model() == candidate@,
            !spec_is_allowed_model(candidate@) ==> r == Err::<(), ConfigError>(
                ConfigError::InvalidModel,
            ) && *final(self) == *old(self),
            old(self).wf() ==> final(self).wf(),
    {
        let c = String::from_str(candidate);
        if c == String::from_str("gemini-2.5-flash") || c == String::from_str(
            "gemini-2.5-flash-lite",
        ) || c == String::from_str("gemini-2.5-pro") {
            self.current = c;
            Ok(())
        } else {
            Err(ConfigError::InvalidModel)
        }
    }
}

/// The rejection text for an unknown model identifier, listing what is
/// allowed.
pub fn invalid_model_message(candidate: &str) -> (r: String)
    ensures
        r@ == "Invalid model '"@ + candidate@
            + "'. Valid models: gemini-2.5-flash, gemini-2.5-flash-lite, gemini-2.5-pro"@,
{
    let mut out = String::from_str("Invalid model '");
    out.append(candidate);
    out.append("'. Valid models: gemini-2.5-flash, gemini-2.5-flash-lite, gemini-2.5-pro");
    out
}

} // verus!
