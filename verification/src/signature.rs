//! The signature validator.
//!
//! A signature with more parameters than the configured ceiling draws one
//! error and no per-parameter reports. Otherwise every parameter is
//! validated in declared order and the error verdicts combine by logical OR,
//! so one run reports every problem found, not just the first.

use vstd::prelude::*;

use crate::ast::{FunctionSig, Parameter};
use crate::config::Config;
use crate::diag::{diag_views, push_diag, Diagnostic, MissingGeneric, Outcome};
use crate::diag::{d_too_many, mk_too_many};
use crate::param::{param_check, validate_param};

verus! {

/// The model of validating a parameter list in declared order.
pub open spec fn params_check(s: Seq<Parameter>, strict: crate::config::Strictness) -> Outcome
    decreases s.len(),
{
    if s.len() == 0 {
        Outcome::clean()
    } else {
        param_check(s[0], strict).followed_by(params_check(s.drop_first(), strict))
    }
}

/// The model of validating a whole signature under a configuration.
pub open spec fn signature_check(f: FunctionSig, cfg: Config) -> Outcome {
    if f.params@.len() > cfg.max_params {
        Outcome::report(d_too_many(f.span))
    } else {
        params_check(f.params@, cfg.strictness)
    }
}

/// Validate the parameters `params[i..]` in order, appending their
/// diagnostics.
pub fn validate_params(
    params: &Vec<Parameter>,
    i: usize,
    strict: crate::config::Strictness,
    diags: &mut Vec<Diagnostic>,
) -> (r: Result<bool, MissingGeneric>)
    requires
        i <= params@.len(),
    ensures
        match r {
            Ok(b) => {
                &&& params_check(params@.skip(i as int), strict).abort is None
                &&& b == params_check(params@.skip(i as int), strict).err
                &&& diag_views(final(diags)@) == diag_views(old(diags)@) + params_check(
                    params@.skip(i as int),
                    strict,
                ).diags
            },
            Err(m) => params_check(params@.skip(i as int), strict).abort == Some(m),
        },
    decreases params@.len() - i,
{
    let ghost suffix = params@.skip(i as int);
    if i == params.len() {
        Ok(false)
    } else {
        proof {
            assert(suffix[0] == params@[i as int]);
            assert(suffix.drop_first() =~= params@.skip(i as int + 1));
        }
        match validate_param(&params[i], strict, diags) {
            Err(m) => Err(m),
            Ok(b0) => {
                match validate_params(params, i + 1, strict, diags) {
                    Err(m) => Err(m),
                    Ok(b1) => {
                        proof {
                            assert(diag_views(diags@) =~= diag_views(old(diags)@) + params_check(
                                suffix,
                                strict,
                            ).diags);
                        }
                        Ok(b0 || b1)
                    },
                }
            },
        }
    }
}

/// Validate a whole signature, appending its diagnostics.
pub fn validate_signature(f: &FunctionSig, cfg: &Config, diags: &mut Vec<Diagnostic>) -> (r: Result<
    bool,
    MissingGeneric,
>)
    ensures
        match r {
            Ok(b) => {
                &&& signature_check(*f, *cfg).abort is None
                &&& b == signature_check(*f, *cfg).err
                &&& diag_views(final(diags)@) == diag_views(old(diags)@) + signature_check(
                    *f,
                    *cfg,
                ).diags
            },
            Err(m) => signature_check(*f, *cfg).abort == Some(m),
        },
{
    if f.params.len() > cfg.max_params {
        push_diag(diags, mk_too_many(f.span));
        Ok(true)
    } else {
        let r = validate_params(&f.params, 0, cfg.strictness, diags);
        proof {
            assert(f.params@.skip(0) =~= f.params@);
        }
        r
    }
}

} // verus!
