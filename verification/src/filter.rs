//! The query-filter validator.
//!
//! A filter narrows which entities a query yields. Recognized shapes:
//! a component-parameterized filter (`With`-style) whose single generic
//! argument must be a plain component name — never another filter; and the
//! disjunction filter `Or`, whose single generic argument must be a tuple of
//! filters, each validated recursively. A bare reference is never a valid
//! filter; an unrecognized name is an error; a tuple or an unmodeled shape
//! reaching the validator directly is conservatively accepted.

use vstd::prelude::*;

use crate::ast::TypeExpr;
use crate::diag::{diag_views, push_diag, Diagnostic, MissingGeneric, Outcome};
use crate::diag::{d_filter_nesting, d_filter_ref, d_or_needs_tuple, d_unknown_filter};
use crate::diag::{mk_filter_nesting, mk_filter_ref, mk_or_needs_tuple, mk_unknown_filter};
use crate::names;

verus! {

/// The model of validating one filter type expression.
pub open spec fn filter_check(e: TypeExpr) -> Outcome
    decreases e, 0nat,
{
    match e {
        TypeExpr::Named { name, args, span } => {
            if names::is_component_filter_name(name@) {
                if args@.len() == 0 {
                    Outcome::aborted(span)
                } else {
                    match args@[0] {
                        TypeExpr::Named { name: arg_name, .. } => {
                            if names::is_filter_name(arg_name@) {
                                Outcome::report(d_filter_nesting(span))
                            } else {
                                Outcome::clean()
                            }
                        },
                        _ => Outcome::report(d_filter_nesting(span)),
                    }
                }
            } else if name@ == "Or"@ {
                if args@.len() == 0 {
                    Outcome::aborted(span)
                } else {
                    match args@[0] {
                        TypeExpr::Tuple { elems, .. } => filter_seq_check(elems@),
                        _ => Outcome::report(d_or_needs_tuple(span)),
                    }
                }
            } else {
                Outcome::report(d_unknown_filter(span, name@))
            }
        },
        TypeExpr::Reference { inner, span, .. } => {
            match *inner {
                TypeExpr::Named { name, .. } => Outcome::report(d_filter_ref(span, name@)),
                _ => Outcome::report(d_filter_ref(span, "T"@)),
            }
        },
        TypeExpr::Tuple { .. } => Outcome::clean(),
        TypeExpr::Other { .. } => Outcome::clean(),
    }
}

/// The model of validating a sequence of filters in order.
pub open spec fn filter_seq_check(s: Seq<TypeExpr>) -> Outcome
    decreases s, s.len(),
{
    if s.len() == 0 {
        Outcome::clean()
    } else {
        filter_check(s[0]).followed_by(filter_seq_check(s.drop_first()))
    }
}

/// The model of validating a query's filter argument: a tuple of filters is
/// split and each element validated on its own; anything else is validated
/// as a single filter.
pub open spec fn filter_arg_check(e: TypeExpr) -> Outcome {
    match e {
        TypeExpr::Tuple { elems, .. } => filter_seq_check(elems@),
        _ => filter_check(e),
    }
}

/// Validate one filter type expression, appending its diagnostics.
pub fn validate_filter(e: &TypeExpr, diags: &mut Vec<Diagnostic>) -> (r: Result<
    bool,
    MissingGeneric,
>)
    ensures
        match r {
            Ok(b) => {
                &&& filter_check(*e).abort is None
                &&& b == filter_check(*e).err
                &&& diag_views(final(diags)@) == diag_views(old(diags)@) + filter_check(*e).diags
            },
            Err(m) => filter_check(*e).abort == Some(m),
        },
    decreases *e, 0nat,
{
    match e {
        TypeExpr::Named { name, args, span } => {
            if names::component_filter_name(name) {
                if args.len() == 0 {
                    Err(MissingGeneric { span: *span })
                } else {
                    match &args[0] {
                        TypeExpr::Named { name: arg_name, .. } => {
                            if names::filter_name(arg_name) {
                                push_diag(diags, mk_filter_nesting(*span));
                                Ok(true)
                            } else {
                                Ok(false)
                            }
                        },
                        _ => {
                            push_diag(diags, mk_filter_nesting(*span));
                            Ok(true)
                        },
                    }
                }
            } else if names::or_filter_name(name) {
                if args.len() == 0 {
                    Err(MissingGeneric { span: *span })
                } else {
                    match &args[0] {
                        TypeExpr::Tuple { elems, .. } => {
                            let r = validate_filter_seq(elems, 0, diags);
                            proof {
                                assert(elems@.skip(0) =~= elems@);
                            }
                            r
                        },
                        _ => {
                            push_diag(diags, mk_or_needs_tuple(*span));
                            Ok(true)
                        },
                    }
                }
            } else {
                push_diag(diags, mk_unknown_filter(*span, name));
                Ok(true)
            }
        },
        TypeExpr::Reference { inner, span, .. } => {
            match &**inner {
                TypeExpr::Named { name, .. } => {
                    push_diag(diags, mk_filter_ref(*span, name));
                    Ok(true)
                },
                _ => {
                    let placeholder = String::from_str("T");
                    push_diag(diags, mk_filter_ref(*span, &placeholder));
                    Ok(true)
                },
            }
        },
        TypeExpr::Tuple { .. } => Ok(false),
        TypeExpr::Other { .. } => Ok(false),
    }
}

/// Validate the filters `elems[i..]` in order, appending their diagnostics.
pub fn validate_filter_seq(elems: &Vec<TypeExpr>, i: usize, diags: &mut Vec<Diagnostic>) -> (r:
    Result<bool, MissingGeneric>)
    requires
        i <= elems@.len(),
    ensures
        match r {
            Ok(b) => {
                &&& filter_seq_check(elems@.skip(i as int)).abort is None
                &&& b == filter_seq_check(elems@.skip(i as int)).err
                &&& diag_views(final(diags)@) == diag_views(old(diags)@) + filter_seq_check(
                    elems@.skip(i as int),
                ).diags
            },
            Err(m) => filter_seq_check(elems@.skip(i as int)).abort == Some(m),
        },
    decreases *elems, elems@.len() - i,
{
    let ghost suffix = elems@.skip(i as int);
    if i == elems.len() {
        Ok(false)
    } else {
        proof {
            assert(suffix[0] == elems@[i as int]);
            assert(suffix.drop_first() =~= elems@.skip(i as int + 1));
        }
        match validate_filter(&elems[i], diags) {
            Err(m) => Err(m),
            Ok(b0) => {
                match validate_filter_seq(elems, i + 1, diags) {
                    Err(m) => Err(m),
                    Ok(b1) => {
                        proof {
                            assert(diag_views(diags@) =~= diag_views(old(diags)@)
                                + filter_seq_check(suffix).diags);
                        }
                        Ok(b0 || b1)
                    },
                }
            },
        }
    }
}

/// Validate a query's filter argument, appending its diagnostics.
pub fn validate_filter_arg(e: &TypeExpr, diags: &mut Vec<Diagnostic>) -> (r: Result<
    bool,
    MissingGeneric,
>)
    ensures
        match r {
            Ok(b) => {
                &&& filter_arg_check(*e).abort is None
                &&& b == filter_arg_check(*e).err
                &&& diag_views(final(diags)@) == diag_views(old(diags)@) + filter_arg_check(
                    *e,
                ).diags
            },
            Err(m) => filter_arg_check(*e).abort == Some(m),
        },
{
    match e {
        TypeExpr::Tuple { elems, .. } => {
            let r = validate_filter_seq(elems, 0, diags);
            proof {
                assert(elems@.skip(0) =~= elems@);
            }
            r
        },
        _ => validate_filter(e, diags),
    }
}

} // verus!
