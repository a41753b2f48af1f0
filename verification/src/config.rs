//! Tool configuration.
//!
//! Three knobs vary across generations of the tool and are therefore
//! explicit here rather than hard-coded: the parameter-count ceiling, how
//! severely an unrecognized bare type name is treated, and the shape of the
//! emitted function.

use vstd::prelude::*;

use crate::diag::Severity;

verus! {

/// How an unrecognized bare parameter type name is reported. The tool cannot
/// resolve names, so such a name may be a legitimate custom accessor: the
/// lenient policy reports a warning that does not fail the signature, the
/// strict policy an error that does.
#[derive(Debug, Clone, Copy, PartialEq, Eq, Structural)]
pub enum Strictness {
    Warn,
    Error,
}

impl Strictness {
    /// The severity this policy assigns to an unrecognized bare name.
    pub open spec fn spec_severity(self) -> Severity {
        match self {
            Strictness::Warn => Severity::Warning,
            Strictness::Error => Severity::Error,
        }
    }

    pub fn severity(self) -> (s: Severity)
        ensures
            s == self.spec_severity(),
    {
        match self {
            Strictness::Warn => Severity::Warning,
            Strictness::Error => Severity::Error,
        }
    }
}

/// The shape of the function the pass emits.
#[derive(Debug, Clone, Copy, PartialEq, Eq, Structural)]
pub enum EmitMode {
    /// Emit the function unchanged when the signature is clean, and a
    /// parameterless stub with an empty body when it is not, suppressing the
    /// cascade of downstream errors a known-bad signature would cause.
    StubOnError,
    /// Always rewrite the body into a self-check block: one capability probe
    /// per parameter type when the signature is clean, and a deliberate
    /// runtime failure either way, reminding the user to remove the
    /// diagnostic wrapper once the root cause is fixed.
    SelfCheckRewrite,
}

/// One invocation's configuration.
#[derive(Debug, Clone, Copy, PartialEq, Eq, Structural)]
pub struct Config {
    /// Signatures with more parameters than this draw a single error and no
    /// per-parameter reports.
    pub max_params: usize,
    pub strictness: Strictness,
    pub mode: EmitMode,
}

impl Default for Config {
    /// A ceiling of twelve parameters, lenient treatment of unrecognized
    /// names, and the self-check rewrite.
    fn default() -> (c: Config)
        ensures
            c == (Config { max_params: 12, strictness: Strictness::Warn, mode: EmitMode::SelfCheckRewrite }),
    {
        Config { max_params: 12, strictness: Strictness::Warn, mode: EmitMode::SelfCheckRewrite }
    }
}

} // verus!
