//! The ways in which scaffolding a project can fail.

use crate::config::ConfigFault;
use crate::plan::Artifact;
use vstd::prelude::*;

verus! {

/// Every failure ends the run; nothing is retried and nothing is cleaned up.
#[derive(Clone, Copy, Debug, PartialEq, Eq, Structural)]
pub enum ScaffoldError {
    /// The raw values do not make a configuration. Nothing was planned.
    InvalidConfiguration(ConfigFault),
    /// No generator is registered under the configured identifier. Nothing
    /// was planned.
    UnsupportedGenerator,
    /// The action at position `step` of the plan could not be carried out;
    /// the actions before it were, the actions after it were not tried.
    Io { step: usize, artifact: Artifact },
}

} // verus!
