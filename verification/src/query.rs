//! The query and query-set validators.
//!
//! A query's first generic argument is its result: component data is always
//! requested by reference, at any depth of `Option` wrapping; the only names
//! valid bare are the entity identity and the change-flag bits. A tuple of
//! results is split by the caller and each element validated here. A
//! query-set's single generic argument must be a tuple whose elements are
//! query types; each element's filter argument is checked, while its result
//! argument is accepted as written.

use vstd::prelude::*;

use crate::ast::TypeExpr;
use crate::diag::{diag_views, push_diag, Diagnostic, MissingGeneric, Outcome};
use crate::diag::{d_extra_generics, d_query_bare, d_query_set_shape, d_query_shape};
use crate::diag::{mk_extra_generics, mk_query_bare, mk_query_set_shape, mk_query_shape};
use crate::filter::{filter_arg_check, validate_filter_arg};
use crate::names;

verus! {

/// The model of validating one query result type expression.
pub open spec fn query_result_check(e: TypeExpr) -> Outcome
    decreases e,
{
    match e {
        TypeExpr::Named { name, args, span } => {
            if name@ == "Option"@ {
                if args@.len() == 0 {
                    Outcome::aborted(span)
                } else {
                    query_result_check(args@[0])
                }
            } else if names::is_special_query_result_name(name@) {
                Outcome::clean()
            } else {
                Outcome::report(d_query_bare(span, name@))
            }
        },
        TypeExpr::Reference { .. } => Outcome::clean(),
        TypeExpr::Tuple { span, .. } => Outcome::report(d_query_shape(span)),
        TypeExpr::Other { span } => Outcome::report(d_query_shape(span)),
    }
}

/// The model of validating a sequence of query results in order.
pub open spec fn query_result_seq_check(s: Seq<TypeExpr>) -> Outcome
    decreases s.len(),
{
    if s.len() == 0 {
        Outcome::clean()
    } else {
        query_result_check(s[0]).followed_by(query_result_seq_check(s.drop_first()))
    }
}

/// The model of validating a query's result argument: a tuple of results is
/// split and each element validated on its own; anything else is validated
/// as a single result.
pub open spec fn query_result_arg_check(e: TypeExpr) -> Outcome {
    match e {
        TypeExpr::Tuple { elems, .. } => query_result_seq_check(elems@),
        _ => query_result_check(e),
    }
}

/// The model of validating the generic argument list of a `Query` type: the
/// result argument is required, the filter argument is optional, and any
/// further argument is an error.
pub open spec fn query_generics_check(args: Seq<TypeExpr>, span: usize) -> Outcome {
    if args.len() == 0 {
        Outcome::aborted(span)
    } else {
        let res = query_result_arg_check(args[0]);
        let flt = if args.len() >= 2 {
            filter_arg_check(args[1])
        } else {
            Outcome::clean()
        };
        let extra = if args.len() > 2 {
            Outcome::report(d_extra_generics(span))
        } else {
            Outcome::clean()
        };
        res.followed_by(flt).followed_by(extra)
    }
}

/// The model of validating one element of a query-set tuple: it must be a
/// query type; its filter argument, when present, is validated.
pub open spec fn query_set_elem_check(e: TypeExpr) -> Outcome {
    match e {
        TypeExpr::Named { name, args, span } => {
            if name@ == "Query"@ {
                let flt = if args@.len() >= 2 {
                    filter_arg_check(args@[1])
                } else {
                    Outcome::clean()
                };
                let extra = if args@.len() > 2 {
                    Outcome::report(d_extra_generics(span))
                } else {
                    Outcome::clean()
                };
                flt.followed_by(extra)
            } else {
                Outcome::report(d_query_set_shape(span))
            }
        },
        _ => Outcome::report(d_query_set_shape(e.spec_span())),
    }
}

/// The model of validating a sequence of query-set elements in order.
pub open spec fn query_set_seq_check(s: Seq<TypeExpr>) -> Outcome
    decreases s.len(),
{
    if s.len() == 0 {
        Outcome::clean()
    } else {
        query_set_elem_check(s[0]).followed_by(query_set_seq_check(s.drop_first()))
    }
}

/// The model of validating the generic argument list of a `QuerySet` type:
/// its single argument must be a tuple of queries. A non-tuple argument and
/// a tuple holding a non-query element draw the same report.
pub open spec fn query_set_check(args: Seq<TypeExpr>, span: usize) -> Outcome {
    if args.len() == 0 {
        Outcome::aborted(span)
    } else {
        match args[0] {
            TypeExpr::Tuple { elems, .. } => query_set_seq_check(elems@),
            _ => Outcome::report(d_query_set_shape(span)),
        }
    }
}

/// Validate one query result type expression, appending its diagnostics.
pub fn validate_query_result(e: &TypeExpr, diags: &mut Vec<Diagnostic>) -> (r: Result<
    bool,
    MissingGeneric,
>)
    ensures
        match r {
            Ok(b) => {
                &&& query_result_check(*e).abort is None
                &&& b == query_result_check(*e).err
                &&& diag_views(final(diags)@) == diag_views(old(diags)@) + query_result_check(
                    *e,
                ).diags
            },
            Err(m) => query_result_check(*e).abort == Some(m),
        },
    decreases *e,
{
    match e {
        TypeExpr::Named { name, args, span } => {
            if names::option_name(name) {
                if args.len() == 0 {
                    Err(MissingGeneric { span: *span })
                } else {
                    validate_query_result(&args[0], diags)
                }
            } else if names::special_query_result_name(name) {
                Ok(false)
            } else {
                push_diag(diags, mk_query_bare(*span, name));
                Ok(true)
            }
        },
        TypeExpr::Reference { .. } => Ok(false),
        TypeExpr::Tuple { span, .. } => {
            push_diag(diags, mk_query_shape(*span));
            Ok(true)
        },
        TypeExpr::Other { span } => {
            push_diag(diags, mk_query_shape(*span));
            Ok(true)
        },
    }
}

/// Validate the query results `elems[i..]` in order, appending their
/// diagnostics.
pub fn validate_query_result_seq(
    elems: &Vec<TypeExpr>,
    i: usize,
    diags: &mut Vec<Diagnostic>,
) -> (r: Result<bool, MissingGeneric>)
    requires
        i <= elems@.len(),
    ensures
        match r {
            Ok(b) => {
                &&& query_result_seq_check(elems@.skip(i as int)).abort is None
                &&& b == query_result_seq_check(elems@.skip(i as int)).err
                &&& diag_views(final(diags)@) == diag_views(old(diags)@) + query_result_seq_check(
                    elems@.skip(i as int),
                ).diags
            },
            Err(m) => query_result_seq_check(elems@.skip(i as int)).abort == Some(m),
        },
    decreases elems@.len() - i,
{
    let ghost suffix = elems@.skip(i as int);
    if i == elems.len() {
        Ok(false)
    } else {
        proof {
            assert(suffix[0] == elems@[i as int]);
            assert(suffix.drop_first() =~= elems@.skip(i as int + 1));
        }
        match validate_query_result(&elems[i], diags) {
            Err(m) => Err(m),
            Ok(b0) => {
                match validate_query_result_seq(elems, i + 1, diags) {
                    Err(m) => Err(m),
                    Ok(b1) => {
                        proof {
                            assert(diag_views(diags@) =~= diag_views(old(diags)@)
                                + query_result_seq_check(suffix).diags);
                        }
                        Ok(b0 || b1)
                    },
                }
            },
        }
    }
}

/// Validate a query's result argument, appending its diagnostics.
pub fn validate_query_result_arg(e: &TypeExpr, diags: &mut Vec<Diagnostic>) -> (r: Result<
    bool,
    MissingGeneric,
>)
    ensures
        match r {
            Ok(b) => {
                &&& query_result_arg_check(*e).abort is None
                &&& b == query_result_arg_check(*e).err
                &&& diag_views(final(diags)@) == diag_views(old(diags)@) + query_result_arg_check(
                    *e,
                ).diags
            },
            Err(m) => query_result_arg_check(*e).abort == Some(m),
        },
{
    match e {
        TypeExpr::Tuple { elems, .. } => {
            let r = validate_query_result_seq(elems, 0, diags);
            proof {
                assert(elems@.skip(0) =~= elems@);
            }
            r
        },
        _ => validate_query_result(e, diags),
    }
}

/// Validate the generic argument list of a `Query` type, appending its
/// diagnostics.
pub fn validate_query_generics(
    args: &Vec<TypeExpr>,
    span: usize,
    diags: &mut Vec<Diagnostic>,
) -> (r: Result<bool, MissingGeneric>)
    ensures
        match r {
            Ok(b) => {
                &&& query_generics_check(args@, span).abort is None
                &&& b == query_generics_check(args@, span).err
                &&& diag_views(final(diags)@) == diag_views(old(diags)@) + query_generics_check(
                    args@,
                    span,
                ).diags
            },
            Err(m) => query_generics_check(args@, span).abort == Some(m),
        },
{
    if args.len() == 0 {
        Err(MissingGeneric { span })
    } else {
        match validate_query_result_arg(&args[0], diags) {
            Err(m) => Err(m),
            Ok(b_res) => {
                let b_flt = if args.len() >= 2 {
                    match validate_filter_arg(&args[1], diags) {
                        Err(m) => {
                            return Err(m);
                        },
                        Ok(b) => b,
                    }
                } else {
                    false
                };
                let b_extra = if args.len() > 2 {
                    push_diag(diags, mk_extra_generics(span));
                    true
                } else {
                    false
                };
                proof {
                    assert(diag_views(diags@) =~= diag_views(old(diags)@) + query_generics_check(
                        args@,
                        span,
                    ).diags);
                }
                Ok(b_res || b_flt || b_extra)
            },
        }
    }
}

/// Validate one query-set element, appending its diagnostics.
pub fn validate_query_set_elem(e: &TypeExpr, diags: &mut Vec<Diagnostic>) -> (r: Result<
    bool,
    MissingGeneric,
>)
    ensures
        match r {
            Ok(b) => {
                &&& query_set_elem_check(*e).abort is None
                &&& b == query_set_elem_check(*e).err
                &&& diag_views(final(diags)@) == diag_views(old(diags)@) + query_set_elem_check(
                    *e,
                ).diags
            },
            Err(m) => query_set_elem_check(*e).abort == Some(m),
        },
{
    match e {
        TypeExpr::Named { name, args, span } => {
            if names::query_name(name) {
                let b_flt = if args.len() >= 2 {
                    match validate_filter_arg(&args[1], diags) {
                        Err(m) => {
                            return Err(m);
                        },
                        Ok(b) => b,
                    }
                } else {
                    false
                };
                let b_extra = if args.len() > 2 {
                    push_diag(diags, mk_extra_generics(*span));
                    true
                } else {
                    false
                };
                proof {
                    assert(diag_views(diags@) =~= diag_views(old(diags)@) + query_set_elem_check(
                        *e,
                    ).diags);
                }
                Ok(b_flt || b_extra)
            } else {
                push_diag(diags, mk_query_set_shape(*span));
                Ok(true)
            }
        },
        _ => {
            push_diag(diags, mk_query_set_shape(e.span()));
            Ok(true)
        },
    }
}

/// Validate the query-set elements `elems[i..]` in order, appending their
/// diagnostics.
pub fn validate_query_set_seq(
    elems: &Vec<TypeExpr>,
    i: usize,
    diags: &mut Vec<Diagnostic>,
) -> (r: Result<bool, MissingGeneric>)
    requires
        i <= elems@.len(),
    ensures
        match r {
            Ok(b) => {
                &&& query_set_seq_check(elems@.skip(i as int)).abort is None
                &&& b == query_set_seq_check(elems@.skip(i as int)).err
                &&& diag_views(final(diags)@) == diag_views(old(diags)@) + query_set_seq_check(
                    elems@.skip(i as int),
                ).diags
            },
            Err(m) => query_set_seq_check(elems@.skip(i as int)).abort == Some(m),
        },
    decreases elems@.len() - i,
{
    let ghost suffix = elems@.skip(i as int);
    if i == elems.len() {
        Ok(false)
    } else {
        proof {
            assert(suffix[0] == elems@[i as int]);
            assert(suffix.drop_first() =~= elems@.skip(i as int + 1));
        }
        match validate_query_set_elem(&elems[i], diags) {
            Err(m) => Err(m),
            Ok(b0) => {
                match validate_query_set_seq(elems, i + 1, diags) {
                    Err(m) => Err(m),
                    Ok(b1) => {
                        proof {
                            assert(diag_views(diags@) =~= diag_views(old(diags)@)
                                + query_set_seq_check(suffix).diags);
                        }
                        Ok(b0 || b1)
                    },
                }
            },
        }
    }
}

/// Validate the generic argument list of a `QuerySet` type, appending its
/// diagnostics.
pub fn validate_query_set(args: &Vec<TypeExpr>, span: usize, diags: &mut Vec<Diagnostic>) -> (r:
    Result<bool, MissingGeneric>)
    ensures
        match r {
            Ok(b) => {
                &&& query_set_check(args@, span).abort is None
                &&& b == query_set_check(args@, span).err
                &&& diag_views(final(diags)@) == diag_views(old(diags)@) + query_set_check(
                    args@,
                    span,
                ).diags
            },
            Err(m) => query_set_check(args@, span).abort == Some(m),
        },
{
    if args.len() == 0 {
        Err(MissingGeneric { span })
    } else {
        match &args[0] {
            TypeExpr::Tuple { elems, .. } => {
                let r = validate_query_set_seq(elems, 0, diags);
                proof {
                    assert(elems@.skip(0) =~= elems@);
                }
                r
            },
            _ => {
                push_diag(diags, mk_query_set_shape(span));
                Ok(true)
            },
        }
    }
}

} // verus!
