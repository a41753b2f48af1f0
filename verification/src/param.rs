//! The per-parameter validator.
//!
//! A parameter groups into a tuple of independent parameters, dispatches to
//! the query or query-set validator when its type is named `Query` or
//! `QuerySet`, and is otherwise checked against the bare accessor table. Two
//! reference misuses have a single deterministic fix and draw tailored
//! errors: a command buffer and an asset table taken by reference. Any other
//! unrecognized shape is reported conservatively, without failing the
//! signature; for an unrecognized bare name the severity is the configured
//! strictness policy. A method-style receiver is always an error.

use vstd::prelude::*;

use crate::ast::{Parameter, TypeExpr};
use crate::config::Strictness;
use crate::diag::{diag_views, push_diag, Diagnostic, MissingGeneric, Outcome, Severity};
use crate::diag::{d_assets_by_ref, d_commands_by_ref, d_receiver, d_unrecognized,
    d_unrecognized_shape};
use crate::diag::{mk_assets_by_ref, mk_commands_by_ref, mk_receiver, mk_unrecognized,
    mk_unrecognized_shape};
use crate::names;
use crate::query::{query_generics_check, query_set_check, validate_query_generics,
    validate_query_set};

verus! {

/// The pattern name attached to a parameter, as a character sequence.
pub open spec fn pat_of(p: Option<String>) -> Option<Seq<char>> {
    match p {
        Some(s) => Some(s@),
        None => None,
    }
}

/// A present pattern name, or the conventional fallback for its kind.
pub open spec fn pat_or(p: Option<Seq<char>>, fallback: Seq<char>) -> Seq<char> {
    match p {
        Some(s) => s,
        None => fallback,
    }
}

/// The name of a `Named` type expression.
pub open spec fn named_name(e: TypeExpr) -> Seq<char> {
    match e {
        TypeExpr::Named { name, .. } => name@,
        _ => Seq::empty(),
    }
}

/// The model of validating one parameter type expression.
pub open spec fn param_ty_check(e: TypeExpr, pat: Option<Seq<char>>, strict: Strictness) -> Outcome
    decreases e, 0nat,
{
    match e {
        TypeExpr::Tuple { elems, .. } => param_seq_check(elems@, pat, strict),
        TypeExpr::Named { name, args, span } => {
            if name@ == "Query"@ {
                query_generics_check(args@, span)
            } else if name@ == "QuerySet"@ {
                query_set_check(args@, span)
            } else if names::is_bare_accessor_name(name@) {
                Outcome::clean()
            } else {
                Outcome::report(d_unrecognized(span, name@, strict.spec_severity()))
            }
        },
        TypeExpr::Reference { inner, span, .. } => {
            match *inner {
                TypeExpr::Named { name: iname, args: iargs, .. } => {
                    if iname@ == "Commands"@ {
                        Outcome::report(d_commands_by_ref(span, pat_or(pat, "commands"@)))
                    } else if iname@ == "Assets"@ && iargs@.len() >= 1 && iargs@[0] is Named {
                        Outcome::report(
                            d_assets_by_ref(span, pat_or(pat, "assets"@), named_name(iargs@[0])),
                        )
                    } else {
                        Outcome::report(d_unrecognized_shape(span))
                    }
                },
                _ => Outcome::report(d_unrecognized_shape(span)),
            }
        },
        TypeExpr::Other { span } => Outcome::report(d_unrecognized_shape(span)),
    }
}

/// The model of validating the elements of a tuple parameter, each as an
/// independent parameter.
pub open spec fn param_seq_check(s: Seq<TypeExpr>, pat: Option<Seq<char>>, strict: Strictness) -> Outcome
    decreases s, s.len(),
{
    if s.len() == 0 {
        Outcome::clean()
    } else {
        param_ty_check(s[0], pat, strict).followed_by(param_seq_check(s.drop_first(), pat, strict))
    }
}

/// The model of validating one parameter: a receiver is an error outright,
/// a typed parameter is checked by shape.
pub open spec fn param_check(p: Parameter, strict: Strictness) -> Outcome {
    match p {
        Parameter::Receiver { span } => Outcome::report(d_receiver(span)),
        Parameter::Typed { pattern, ty } => param_ty_check(ty, pat_of(pattern), strict),
    }
}

/// Validate one parameter type expression, appending its diagnostics.
pub fn validate_param_ty(
    e: &TypeExpr,
    pat: &Option<String>,
    strict: Strictness,
    diags: &mut Vec<Diagnostic>,
) -> (r: Result<bool, MissingGeneric>)
    ensures
        match r {
            Ok(b) => {
                &&& param_ty_check(*e, pat_of(*pat), strict).abort is None
                &&& b == param_ty_check(*e, pat_of(*pat), strict).err
                &&& diag_views(final(diags)@) == diag_views(old(diags)@) + param_ty_check(
                    *e,
                    pat_of(*pat),
                    strict,
                ).diags
            },
            Err(m) => param_ty_check(*e, pat_of(*pat), strict).abort == Some(m),
        },
    decreases *e, 0nat,
{
    match e {
        TypeExpr::Tuple { elems, .. } => {
            let r = validate_param_seq(elems, 0, pat, strict, diags);
            proof {
                assert(elems@.skip(0) =~= elems@);
            }
            r
        },
        TypeExpr::Named { name, args, span } => {
            if names::query_name(name) {
                validate_query_generics(args, *span, diags)
            } else if names::query_set_name(name) {
                validate_query_set(args, *span, diags)
            } else if names::bare_accessor_name(name) {
                Ok(false)
            } else {
                let sev = strict.severity();
                push_diag(diags, mk_unrecognized(*span, name, sev));
                Ok(sev == Severity::Error)
            }
        },
        TypeExpr::Reference { inner, span, .. } => {
            match &**inner {
                TypeExpr::Named { name: iname, args: iargs, .. } => {
                    if names::commands_name(iname) {
                        let d = match pat {
                            Some(s) => mk_commands_by_ref(*span, s),
                            None => {
                                let fallback = String::from_str("commands");
                                mk_commands_by_ref(*span, &fallback)
                            },
                        };
                        push_diag(diags, d);
                        Ok(true)
                    } else if names::assets_name(iname) && iargs.len() >= 1 {
                        match &iargs[0] {
                            TypeExpr::Named { name: elem, .. } => {
                                let d = match pat {
                                    Some(s) => mk_assets_by_ref(*span, s, elem),
                                    None => {
                                        let fallback = String::from_str("assets");
                                        mk_assets_by_ref(*span, &fallback, elem)
                                    },
                                };
                                push_diag(diags, d);
                                Ok(true)
                            },
                            _ => {
                                push_diag(diags, mk_unrecognized_shape(*span));
                                Ok(false)
                            },
                        }
                    } else {
                        push_diag(diags, mk_unrecognized_shape(*span));
                        Ok(false)
                    }
                },
                _ => {
                    push_diag(diags, mk_unrecognized_shape(*span));
                    Ok(false)
                },
            }
        },
        TypeExpr::Other { span } => {
            push_diag(diags, mk_unrecognized_shape(*span));
            Ok(false)
        },
    }
}

/// Validate the tuple elements `elems[i..]` as independent parameters,
/// appending their diagnostics.
pub fn validate_param_seq(
    elems: &Vec<TypeExpr>,
    i: usize,
    pat: &Option<String>,
    strict: Strictness,
    diags: &mut Vec<Diagnostic>,
) -> (r: Result<bool, MissingGeneric>)
    requires
        i <= elems@.len(),
    ensures
        match r {
            Ok(b) => {
                &&& param_seq_check(elems@.skip(i as int), pat_of(*pat), strict).abort is None
                &&& b == param_seq_check(elems@.skip(i as int), pat_of(*pat), strict).err
                &&& diag_views(final(diags)@) == diag_views(old(diags)@) + param_seq_check(
                    elems@.skip(i as int),
                    pat_of(*pat),
                    strict,
                ).diags
            },
            Err(m) => param_seq_check(elems@.skip(i as int), pat_of(*pat), strict).abort == Some(
                m,
            ),
        },
    decreases *elems, elems@.len() - i,
{
    let ghost suffix = elems@.skip(i as int);
    if i == elems.len() {
        Ok(false)
    } else {
        proof {
            assert(suffix[0] == elems@[i as int]);
            assert(suffix.drop_first() =~= elems@.skip(i as int + 1));
        }
        match validate_param_ty(&elems[i], pat, strict, diags) {
            Err(m) => Err(m),
            Ok(b0) => {
                match validate_param_seq(elems, i + 1, pat, strict, diags) {
                    Err(m) => Err(m),
                    Ok(b1) => {
                        proof {
                            assert(diag_views(diags@) =~= diag_views(old(diags)@)
                                + param_seq_check(suffix, pat_of(*pat), strict).diags);
                        }
                        Ok(b0 || b1)
                    },
                }
            },
        }
    }
}

/// Validate one parameter, appending its diagnostics.
pub fn validate_param(p: &Parameter, strict: Strictness, diags: &mut Vec<Diagnostic>) -> (r: Result<
    bool,
    MissingGeneric,
>)
    ensures
        match r {
            Ok(b) => {
                &&& param_check(*p, strict).abort is None
                &&& b == param_check(*p, strict).err
                &&& diag_views(final(diags)@) == diag_views(old(diags)@) + param_check(
                    *p,
                    strict,
                ).diags
            },
            Err(m) => param_check(*p, strict).abort == Some(m),
        },
{
    match p {
        Parameter::Receiver { span } => {
            push_diag(diags, mk_receiver(*span));
            Ok(true)
        },
        Parameter::Typed { pattern, ty } => validate_param_ty(ty, pattern, strict, diags),
    }
}

} // verus!
