//! The entry point of the pass.
//!
//! One invocation inspects one function: it runs the signature validator
//! once, converts a hard structural failure into a single report, and then
//! decides the shape of the function to emit under the configured mode. The
//! diagnostic sequence is a function of the input signature and the
//! configuration alone, so repeated runs on identical input produce
//! identical reports in identical order.

use vstd::prelude::*;

use crate::ast::{FunctionSig, Parameter, TypeExpr};
use crate::config::{Config, EmitMode};
use crate::diag::{d_missing_generic, diag_views, mk_missing_generic, push_diag, Diagnostic,
    DiagRecord};
use crate::signature::{signature_check, validate_signature};

verus! {

/// The shape of the emitted function.
#[derive(Debug)]
pub enum EmittedShape {
    /// The original function, untouched.
    Unchanged,
    /// A parameterless function with the original name and return type and
    /// an empty body.
    Stub,
    /// The original parameter list dropped, the body replaced by one
    /// capability probe per listed type followed by a deliberate runtime
    /// failure.
    SelfCheck { probes: Vec<TypeExpr> },
}

/// What one invocation hands back to the caller.
#[derive(Debug)]
pub struct PassResult {
    /// Every report raised, in emission order.
    pub diags: Vec<Diagnostic>,
    /// Whether any report is error-severity.
    pub has_error: bool,
    pub emission: EmittedShape,
}

/// The diagnostic sequence of one invocation: the signature validator's
/// reports, or the single missing-generic report when the walk aborted.
pub open spec fn pass_diags(f: FunctionSig, cfg: Config) -> Seq<DiagRecord> {
    let o = signature_check(f, cfg);
    match o.abort {
        Some(m) => seq![d_missing_generic(m.span)],
        None => o.diags,
    }
}

/// Whether the signature has at least one error-severity problem. An
/// aborted walk counts as an error.
pub open spec fn pass_err(f: FunctionSig, cfg: Config) -> bool {
    let o = signature_check(f, cfg);
    o.abort is Some || o.err
}

/// The probe list of a clean self-check rewrite: the declared type of every
/// non-receiver parameter, in declared order.
pub open spec fn probe_types(s: Seq<Parameter>) -> Seq<TypeExpr>
    decreases s.len(),
{
    if s.len() == 0 {
        Seq::empty()
    } else {
        match s[0] {
            Parameter::Receiver { .. } => probe_types(s.drop_first()),
            Parameter::Typed { ty, .. } => seq![ty] + probe_types(s.drop_first()),
        }
    }
}

/// What the emitted shape must be for a given input and configuration.
pub open spec fn emission_matches(e: EmittedShape, f: FunctionSig, cfg: Config) -> bool {
    match cfg.mode {
        EmitMode::StubOnError => if pass_err(f, cfg) {
            e is Stub
        } else {
            e is Unchanged
        },
        EmitMode::SelfCheckRewrite => match e {
            EmittedShape::SelfCheck { probes } => probes@ == if pass_err(f, cfg) {
                Seq::<TypeExpr>::empty()
            } else {
                probe_types(f.params@)
            },
            _ => false,
        },
    }
}

/// Collect the declared type of every non-receiver parameter, in order.
fn collect_probes(params: Vec<Parameter>) -> (v: Vec<TypeExpr>)
    ensures
        v@ == probe_types(params@),
{
    let ghost orig = params@;
    let mut rest = params;
    let mut v: Vec<TypeExpr> = Vec::new();
    while rest.len() > 0
        invariant
            probe_types(orig) == v@ + probe_types(rest@),
        decreases rest@.len(),
    {
        let ghost pre = rest@;
        let p = rest.remove(0);
        proof {
            assert(rest@ =~= pre.drop_first());
            assert(pre[0] == p);
        }
        match p {
            Parameter::Receiver { .. } => {
                proof {
                    assert(v@ + probe_types(pre) =~= v@ + probe_types(rest@));
                }
            },
            Parameter::Typed { ty, .. } => {
                let ghost tyg = ty;
                v.push(ty);
                proof {
                    assert(v@ + probe_types(rest@) =~= (v@.drop_last() + seq![tyg]) + probe_types(
                        rest@,
                    ));
                    assert(v@.drop_last() + probe_types(pre) =~= v@ + probe_types(rest@));
                }
            },
        }
    }
    proof {
        assert(probe_types(rest@) =~= Seq::<TypeExpr>::empty());
        assert(v@ =~= v@ + probe_types(rest@));
    }
    v
}

/// Run the whole pass on one function: validate the signature, then decide
/// the emission. The returned reports, verdict and emission are pinned to
/// the input and the configuration.
pub fn run_pass(f: FunctionSig, cfg: &Config) -> (r: PassResult)
    ensures
        diag_views(r.diags@) == pass_diags(f, *cfg),
        r.has_error == pass_err(f, *cfg),
        emission_matches(r.emission, f, *cfg),
{
    let mut diags: Vec<Diagnostic> = Vec::new();
    let verdict = validate_signature(&f, cfg, &mut diags);
    let (has_error, out_diags): (bool, Vec<Diagnostic>) = match verdict {
        Ok(b) => (b, diags),
        Err(m) => {
            let mut only: Vec<Diagnostic> = Vec::new();
            push_diag(&mut only, mk_missing_generic(m.span));
            (true, only)
        },
    };
    let emission = match cfg.mode {
        EmitMode::StubOnError => {
            if has_error {
                EmittedShape::Stub
            } else {
                EmittedShape::Unchanged
            }
        },
        EmitMode::SelfCheckRewrite => {
            if has_error {
                EmittedShape::SelfCheck { probes: Vec::new() }
            } else {
                EmittedShape::SelfCheck { probes: collect_probes(f.params) }
            }
        },
    };
    PassResult { diags: out_diags, has_error, emission }
}

} // verus!
