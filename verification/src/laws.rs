//! Laws of the pass, stated and proved against the validators' models.
//!
//! Each proof function here is a public statement about every input the
//! library accepts, not about chosen examples; the concrete scenarios live
//! in the test suite.

use vstd::prelude::*;

use crate::ast::{FunctionSig, Parameter, TypeExpr};
use crate::config::Config;
use crate::diag::{d_filter_nesting, d_or_needs_tuple, d_query_bare, DiagRecord, Outcome};
use crate::entry::{pass_diags, pass_err};
use crate::filter::{filter_arg_check, filter_check, filter_seq_check};
use crate::names;
use crate::param::{named_name, param_check, param_seq_check, param_ty_check};
use crate::query::{query_generics_check, query_result_arg_check, query_result_check,
    query_result_seq_check, query_set_check, query_set_elem_check, query_set_seq_check};
use crate::signature::{params_check, signature_check};

verus! {

/// How many reports in `s` carry the message `m`.
pub open spec fn count_msg(s: Seq<DiagRecord>, m: Seq<char>) -> nat
    decreases s.len(),
{
    if s.len() == 0 {
        0
    } else {
        (if s[0].message == m {
            1nat
        } else {
            0nat
        }) + count_msg(s.drop_first(), m)
    }
}

proof fn lemma_count_single(d: DiagRecord, m: Seq<char>)
    ensures
        count_msg(seq![d], m) == if d.message == m {
            1nat
        } else {
            0nat
        },
{
    assert(seq![d].drop_first() =~= Seq::<DiagRecord>::empty());
    assert(count_msg(Seq::<DiagRecord>::empty(), m) == 0);
}

proof fn lemma_count_concat(a: Seq<DiagRecord>, b: Seq<DiagRecord>, m: Seq<char>)
    ensures
        count_msg(a + b, m) == count_msg(a, m) + count_msg(b, m),
    decreases a.len(),
{
    if a.len() == 0 {
        assert(a + b =~= b);
    } else {
        assert((a + b)[0] == a[0]);
        assert((a + b).drop_first() =~= a.drop_first() + b);
        lemma_count_concat(a.drop_first(), b, m);
    }
}

/// The message reserved for a receiver parameter is not shared by any other
/// report of the parameter-type walk.
proof fn lemma_msgs_ne_receiver()
    ensures
        "possibly invalid system parameter"@ != "invalid system parameter"@,
        "commands must be taken by value"@ != "invalid system parameter"@,
        "assets must be accessed through a resource"@ != "invalid system parameter"@,
        "not a valid query parameter"@ != "invalid system parameter"@,
        "invalid query filter nesting"@ != "invalid system parameter"@,
        "this filter expects a tuple of filters"@ != "invalid system parameter"@,
        "unknown query filter"@ != "invalid system parameter"@,
        "a reference is not a valid query filter"@ != "invalid system parameter"@,
        "should be a tuple of queries"@ != "invalid system parameter"@,
        "filter expects type parameters"@ != "invalid system parameter"@,
{
    reveal_strlit("possibly invalid system parameter");
    reveal_strlit("commands must be taken by value");
    reveal_strlit("assets must be accessed through a resource");
    reveal_strlit("not a valid query parameter");
    reveal_strlit("invalid query filter nesting");
    reveal_strlit("this filter expects a tuple of filters");
    reveal_strlit("unknown query filter");
    reveal_strlit("a reference is not a valid query filter");
    reveal_strlit("should be a tuple of queries");
    reveal_strlit("filter expects type parameters");
    reveal_strlit("invalid system parameter");
    assert("invalid system parameter"@.len() == 24);
    assert("possibly invalid system parameter"@.len() == 33);
    assert("commands must be taken by value"@.len() == 31);
    assert("assets must be accessed through a resource"@.len() == 42);
    assert("not a valid query parameter"@.len() == 27);
    assert("invalid query filter nesting"@.len() == 28);
    assert("this filter expects a tuple of filters"@.len() == 38);
    assert("unknown query filter"@.len() == 20);
    assert("a reference is not a valid query filter"@.len() == 39);
    assert("should be a tuple of queries"@.len() == 28);
    assert("filter expects type parameters"@.len() == 30);
}

proof fn lemma_filter_no_recv(e: TypeExpr)
    ensures
        filter_check(e).abort is None ==> count_msg(
            filter_check(e).diags,
            "invalid system parameter"@,
        ) == 0,
    decreases e, 0nat,
{
    lemma_msgs_ne_receiver();
    let m = "invalid system parameter"@;
    match e {
        TypeExpr::Named { name, args, span } => {
            if names::is_component_filter_name(name@) {
                if args@.len() > 0 {
                    lemma_count_single(d_filter_nesting(span), m);
                }
            } else if name@ == "Or"@ {
                if args@.len() > 0 {
                    match args@[0] {
                        TypeExpr::Tuple { elems, .. } => {
                            lemma_filter_seq_no_recv(elems@);
                        },
                        _ => {
                            lemma_count_single(d_or_needs_tuple(span), m);
                        },
                    }
                }
            } else {
                lemma_count_single(crate::diag::d_unknown_filter(span, name@), m);
            }
        },
        TypeExpr::Reference { inner, span, .. } => {
            match *inner {
                TypeExpr::Named { name, .. } => {
                    lemma_count_single(crate::diag::d_filter_ref(span, name@), m);
                },
                _ => {
                    lemma_count_single(crate::diag::d_filter_ref(span, "T"@), m);
                },
            }
        },
        _ => {},
    }
}

proof fn lemma_filter_seq_no_recv(s: Seq<TypeExpr>)
    ensures
        filter_seq_check(s).abort is None ==> count_msg(
            filter_seq_check(s).diags,
            "invalid system parameter"@,
        ) == 0,
    decreases s, s.len(),
{
    if s.len() > 0 {
        lemma_filter_no_recv(s[0]);
        lemma_filter_seq_no_recv(s.drop_first());
        if filter_seq_check(s).abort is None {
            lemma_count_concat(
                filter_check(s[0]).diags,
                filter_seq_check(s.drop_first()).diags,
                "invalid system parameter"@,
            );
        }
    }
}

proof fn lemma_filter_arg_no_recv(e: TypeExpr)
    ensures
        filter_arg_check(e).abort is None ==> count_msg(
            filter_arg_check(e).diags,
            "invalid system parameter"@,
        ) == 0,
{
    match e {
        TypeExpr::Tuple { elems, .. } => lemma_filter_seq_no_recv(elems@),
        _ => lemma_filter_no_recv(e),
    }
}

proof fn lemma_query_result_no_recv(e: TypeExpr)
    ensures
        query_result_check(e).abort is None ==> count_msg(
            query_result_check(e).diags,
            "invalid system parameter"@,
        ) == 0,
    decreases e,
{
    lemma_msgs_ne_receiver();
    let m = "invalid system parameter"@;
    match e {
        TypeExpr::Named { name, args, span } => {
            if name@ == "Option"@ {
                if args@.len() > 0 {
                    lemma_query_result_no_recv(args@[0]);
                }
            } else if !names::is_special_query_result_name(name@) {
                lemma_count_single(d_query_bare(span, name@), m);
            }
        },
        TypeExpr::Tuple { span, .. } => {
            lemma_count_single(crate::diag::d_query_shape(span), m);
        },
        TypeExpr::Other { span } => {
            lemma_count_single(crate::diag::d_query_shape(span), m);
        },
        _ => {},
    }
}

proof fn lemma_query_result_seq_no_recv(s: Seq<TypeExpr>)
    ensures
        query_result_seq_check(s).abort is None ==> count_msg(
            query_result_seq_check(s).diags,
            "invalid system parameter"@,
        ) == 0,
    decreases s.len(),
{
    if s.len() > 0 {
        lemma_query_result_no_recv(s[0]);
        lemma_query_result_seq_no_recv(s.drop_first());
        if query_result_seq_check(s).abort is None {
            lemma_count_concat(
                query_result_check(s[0]).diags,
                query_result_seq_check(s.drop_first()).diags,
                "invalid system parameter"@,
            );
        }
    }
}

proof fn lemma_query_generics_no_recv(args: Seq<TypeExpr>, span: usize)
    ensures
        query_generics_check(args, span).abort is None ==> count_msg(
            query_generics_check(args, span).diags,
            "invalid system parameter"@,
        ) == 0,
{
    lemma_msgs_ne_receiver();
    let m = "invalid system parameter"@;
    if args.len() > 0 {
        match args[0] {
            TypeExpr::Tuple { elems, .. } => lemma_query_result_seq_no_recv(elems@),
            _ => lemma_query_result_no_recv(args[0]),
        }
        if args.len() >= 2 {
            lemma_filter_arg_no_recv(args[1]);
        }
        let res = query_result_arg_check(args[0]);
        let flt = if args.len() >= 2 {
            filter_arg_check(args[1])
        } else {
            Outcome::clean()
        };
        let extra = if args.len() > 2 {
            Outcome::report(crate::diag::d_extra_generics(span))
        } else {
            Outcome::clean()
        };
        if query_generics_check(args, span).abort is None {
            lemma_count_single(crate::diag::d_extra_generics(span), m);
            assert(count_msg(Seq::<DiagRecord>::empty(), m) == 0);
            lemma_count_concat(res.diags, flt.diags, m);
            lemma_count_concat(res.diags + flt.diags, extra.diags, m);
        }
    }
}

proof fn lemma_query_set_elem_no_recv(e: TypeExpr)
    ensures
        query_set_elem_check(e).abort is None ==> count_msg(
            query_set_elem_check(e).diags,
            "invalid system parameter"@,
        ) == 0,
{
    lemma_msgs_ne_receiver();
    let m = "invalid system parameter"@;
    match e {
        TypeExpr::Named { name, args, span } => {
            if name@ == "Query"@ {
                if args@.len() >= 2 {
                    lemma_filter_arg_no_recv(args@[1]);
                }
                let flt = if args@.len() >= 2 {
                    filter_arg_check(args@[1])
                } else {
                    Outcome::clean()
                };
                let extra = if args@.len() > 2 {
                    Outcome::report(crate::diag::d_extra_generics(span))
                } else {
                    Outcome::clean()
                };
                if query_set_elem_check(e).abort is None {
                    lemma_count_single(crate::diag::d_extra_generics(span), m);
                    assert(count_msg(Seq::<DiagRecord>::empty(), m) == 0);
                    lemma_count_concat(flt.diags, extra.diags, m);
                }
            } else {
                lemma_count_single(crate::diag::d_query_set_shape(span), m);
            }
        },
        _ => {
            lemma_count_single(crate::diag::d_query_set_shape(e.spec_span()), m);
        },
    }
}

proof fn lemma_query_set_seq_no_recv(s: Seq<TypeExpr>)
    ensures
        query_set_seq_check(s).abort is None ==> count_msg(
            query_set_seq_check(s).diags,
            "invalid system parameter"@,
        ) == 0,
    decreases s.len(),
{
    if s.len() > 0 {
        lemma_query_set_elem_no_recv(s[0]);
        lemma_query_set_seq_no_recv(s.drop_first());
        if query_set_seq_check(s).abort is None {
            lemma_count_concat(
                query_set_elem_check(s[0]).diags,
                query_set_seq_check(s.drop_first()).diags,
                "invalid system parameter"@,
            );
        }
    }
}

proof fn lemma_query_set_no_recv(args: Seq<TypeExpr>, span: usize)
    ensures
        query_set_check(args, span).abort is None ==> count_msg(
            query_set_check(args, span).diags,
            "invalid system parameter"@,
        ) == 0,
{
    lemma_msgs_ne_receiver();
    if args.len() > 0 {
        match args[0] {
            TypeExpr::Tuple { elems, .. } => lemma_query_set_seq_no_recv(elems@),
            _ => lemma_count_single(
                crate::diag::d_query_set_shape(span),
                "invalid system parameter"@,
            ),
        }
    }
}

proof fn lemma_param_ty_no_recv(
    e: TypeExpr,
    pat: Option<Seq<char>>,
    strict: crate::config::Strictness,
)
    ensures
        param_ty_check(e, pat, strict).abort is None ==> count_msg(
            param_ty_check(e, pat, strict).diags,
            "invalid system parameter"@,
        ) == 0,
    decreases e, 0nat,
{
    lemma_msgs_ne_receiver();
    let m = "invalid system parameter"@;
    match e {
        TypeExpr::Tuple { elems, .. } => {
            lemma_param_seq_no_recv(elems@, pat, strict);
        },
        TypeExpr::Named { name, args, span } => {
            if name@ == "Query"@ {
                lemma_query_generics_no_recv(args@, span);
            } else if name@ == "QuerySet"@ {
                lemma_query_set_no_recv(args@, span);
            } else if !names::is_bare_accessor_name(name@) {
                lemma_count_single(
                    crate::diag::d_unrecognized(span, name@, strict.spec_severity()),
                    m,
                );
            }
        },
        TypeExpr::Reference { inner, span, .. } => {
            match *inner {
                TypeExpr::Named { name: iname, args: iargs, .. } => {
                    if iname@ == "Commands"@ {
                        lemma_count_single(
                            crate::diag::d_commands_by_ref(
                                span,
                                crate::param::pat_or(pat, "commands"@),
                            ),
                            m,
                        );
                    } else if iname@ == "Assets"@ && iargs@.len() >= 1 && iargs@[0] is Named {
                        lemma_count_single(
                            crate::diag::d_assets_by_ref(
                                span,
                                crate::param::pat_or(pat, "assets"@),
                                named_name(iargs@[0]),
                            ),
                            m,
                        );
                    } else {
                        lemma_count_single(crate::diag::d_unrecognized_shape(span), m);
                    }
                },
                _ => {
                    lemma_count_single(crate::diag::d_unrecognized_shape(span), m);
                },
            }
        },
        TypeExpr::Other { span } => {
            lemma_count_single(crate::diag::d_unrecognized_shape(span), m);
        },
    }
}

proof fn lemma_param_seq_no_recv(
    s: Seq<TypeExpr>,
    pat: Option<Seq<char>>,
    strict: crate::config::Strictness,
)
    ensures
        param_seq_check(s, pat, strict).abort is None ==> count_msg(
            param_seq_check(s, pat, strict).diags,
            "invalid system parameter"@,
        ) == 0,
    decreases s, s.len(),
{
    if s.len() > 0 {
        lemma_param_ty_no_recv(s[0], pat, strict);
        lemma_param_seq_no_recv(s.drop_first(), pat, strict);
        if param_seq_check(s, pat, strict).abort is None {
            lemma_count_concat(
                param_ty_check(s[0], pat, strict).diags,
                param_seq_check(s.drop_first(), pat, strict).diags,
                "invalid system parameter"@,
            );
        }
    }
}

/// How many parameters of `s` are receivers.
pub open spec fn count_receivers(s: Seq<Parameter>) -> nat
    decreases s.len(),
{
    if s.len() == 0 {
        0
    } else {
        (if s[0] is Receiver {
            1nat
        } else {
            0nat
        }) + count_receivers(s.drop_first())
    }
}

proof fn lemma_params_recv_count(s: Seq<Parameter>, strict: crate::config::Strictness)
    requires
        params_check(s, strict).abort is None,
    ensures
        count_msg(params_check(s, strict).diags, "invalid system parameter"@) == count_receivers(
            s,
        ),
    decreases s.len(),
{
    lemma_msgs_ne_receiver();
    let m = "invalid system parameter"@;
    if s.len() == 0 {
        assert(count_msg(Seq::<DiagRecord>::empty(), m) == 0);
    } else {
        let head = param_check(s[0], strict);
        let rest = params_check(s.drop_first(), strict);
        lemma_params_recv_count(s.drop_first(), strict);
        match s[0] {
            Parameter::Receiver { span } => {
                lemma_count_single(crate::diag::d_receiver(span), m);
            },
            Parameter::Typed { pattern, ty } => {
                lemma_param_ty_no_recv(ty, crate::param::pat_of(pattern), strict);
            },
        }
        lemma_count_concat(head.diags, rest.diags, m);
    }
}

proof fn lemma_count_receivers_zero(s: Seq<Parameter>)
    requires
        forall|j: int| 0 <= j < s.len() ==> !(#[trigger] s[j] is Receiver),
    ensures
        count_receivers(s) == 0,
    decreases s.len(),
{
    if s.len() > 0 {
        assert(forall|j: int|
            0 <= j < s.drop_first().len() ==> #[trigger] s.drop_first()[j] == s[j + 1]);
        lemma_count_receivers_zero(s.drop_first());
    }
}

proof fn lemma_count_receivers_one(s: Seq<Parameter>, i: int)
    requires
        0 <= i < s.len(),
        s[i] is Receiver,
        forall|j: int| 0 <= j < s.len() && j != i ==> !(#[trigger] s[j] is Receiver),
    ensures
        count_receivers(s) == 1,
    decreases s.len(),
{
    assert(forall|j: int|
        0 <= j < s.drop_first().len() ==> #[trigger] s.drop_first()[j] == s[j + 1]);
    if i == 0 {
        lemma_count_receivers_zero(s.drop_first());
    } else {
        lemma_count_receivers_one(s.drop_first(), i - 1);
    }
}

proof fn lemma_params_err_at(s: Seq<Parameter>, strict: crate::config::Strictness, i: int)
    requires
        params_check(s, strict).abort is None,
        0 <= i < s.len(),
        param_check(s[i], strict).err,
    ensures
        params_check(s, strict).err,
    decreases s.len(),
{
    if i > 0 {
        assert(s.drop_first()[i - 1] == s[i]);
        lemma_params_err_at(s.drop_first(), strict, i - 1);
    }
}

/// A parameter whose type is a name drawn bare from the accessor table.
/// The two table entries that require a generic argument, `Query` and
/// `QuerySet`, are excluded: written bare they are missing that argument.
pub open spec fn is_plain_accessor_param(p: Parameter) -> bool {
    match p {
        Parameter::Typed { ty, .. } => match ty {
            TypeExpr::Named { name, .. } => names::is_bare_accessor_name(name@) && name@
                != "Query"@ && name@ != "QuerySet"@,
            _ => false,
        },
        Parameter::Receiver { .. } => false,
    }
}

proof fn lemma_params_plain_clean(s: Seq<Parameter>, strict: crate::config::Strictness)
    requires
        forall|i: int| 0 <= i < s.len() ==> is_plain_accessor_param(#[trigger] s[i]),
    ensures
        params_check(s, strict) == Outcome::clean(),
    decreases s.len(),
{
    if s.len() > 0 {
        assert(forall|j: int|
            0 <= j < s.drop_first().len() ==> #[trigger] s.drop_first()[j] == s[j + 1]);
        lemma_params_plain_clean(s.drop_first(), strict);
        assert(param_check(s[0], strict) == Outcome::clean());
        assert(params_check(s, strict) =~= Outcome::clean());
    }
}

/// Law: a signature within the parameter ceiling with no parameters, or
/// whose parameters are all bare accessor kinds, draws no diagnostics and
/// no error, so the emitted function keeps its behavior: unchanged in
/// stub-on-error mode, and in rewrite mode every probe is a recognized
/// accessor type.
pub proof fn law_bare_accessors_accepted(f: FunctionSig, cfg: Config)
    requires
        f.params@.len() <= cfg.max_params,
        forall|i: int| 0 <= i < f.params@.len() ==> is_plain_accessor_param(#[trigger] f.params@[i]),
    ensures
        pass_diags(f, cfg) == Seq::<DiagRecord>::empty(),
        !pass_err(f, cfg),
{
    lemma_params_plain_clean(f.params@, cfg.strictness);
}

/// Law: in a signature within the parameter ceiling that holds exactly one
/// receiver parameter, and whose walk completes, the pass fails and reports
/// the message reserved for receivers exactly once, wherever the receiver
/// stands and whatever the other parameters are.
pub proof fn law_single_receiver_reported(f: FunctionSig, cfg: Config, i: int)
    requires
        f.params@.len() <= cfg.max_params,
        0 <= i < f.params@.len(),
        f.params@[i] is Receiver,
        forall|j: int|
            0 <= j < f.params@.len() && j != i ==> !(#[trigger] f.params@[j] is Receiver),
        signature_check(f, cfg).abort is None,
    ensures
        pass_err(f, cfg),
        count_msg(pass_diags(f, cfg), "invalid system parameter"@) == 1,
{
    lemma_params_recv_count(f.params@, cfg.strictness);
    lemma_count_receivers_one(f.params@, i);
    assert(param_check(f.params@[i], cfg.strictness).err);
    lemma_params_err_at(f.params@, cfg.strictness, i);
}

/// Law: a query result that is a bare named type — not the entity identity,
/// not the flag bits, not an optional wrapper — is an error, and its one
/// report suggests the shared and the exclusive reference form of that name.
pub proof fn law_query_result_bare_name(name: String, args: Vec<TypeExpr>, span: usize)
    requires
        name@ != "Option"@,
        name@ != "Entity"@,
        name@ != "Flags"@,
    ensures
        query_result_check(TypeExpr::Named { name, args, span }).err,
        query_result_check(TypeExpr::Named { name, args, span }).abort is None,
        query_result_check(TypeExpr::Named { name, args, span }).diags == seq![
            d_query_bare(span, name@),
        ],
        d_query_bare(span, name@).help == Some(
            "use `&"@ + name@ + "` or `&mut "@ + name@ + "`"@,
        ),
{
}

/// Law: the pass is deterministic — the diagnostic sequence is a function
/// of the signature and the configuration alone, so two runs on the same
/// input yield identical sequences in identical order.
pub proof fn law_pass_deterministic(
    f: FunctionSig,
    cfg: Config,
    first: Seq<DiagRecord>,
    second: Seq<DiagRecord>,
)
    requires
        first == pass_diags(f, cfg),
        second == pass_diags(f, cfg),
    ensures
        first == second,
{
}

/// A component-parameterized filter wrapping a plain (non-filter) name.
pub open spec fn is_plain_component_filter(e: TypeExpr) -> bool {
    match e {
        TypeExpr::Named { name, args, .. } => names::is_component_filter_name(name@)
            && args@.len() >= 1 && args@[0] is Named && !names::is_filter_name(
            named_name(args@[0]),
        ),
        _ => false,
    }
}

/// Law: a component filter whose argument is a plain component name is
/// accepted without any report.
pub proof fn law_filter_plain_component(e: TypeExpr)
    requires
        is_plain_component_filter(e),
    ensures
        filter_check(e) == Outcome::clean(),
{
    match e {
        TypeExpr::Named { name, args, span } => {
            match args@[0] {
                TypeExpr::Named { name: arg_name, .. } => {
                    assert(!names::is_filter_name(arg_name@));
                    assert(filter_check(e) =~= Outcome::clean());
                },
                _ => {},
            }
        },
        _ => {},
    }
}

/// Law: a component filter whose argument is itself a filter name is
/// rejected with exactly the nesting report.
pub proof fn law_filter_nested_rejected(name: String, args: Vec<TypeExpr>, span: usize)
    requires
        names::is_component_filter_name(name@),
        args@.len() >= 1,
        args@[0] is Named,
        names::is_filter_name(named_name(args@[0])),
    ensures
        filter_check(TypeExpr::Named { name, args, span }) == Outcome::report(
            d_filter_nesting(span),
        ),
        filter_check(TypeExpr::Named { name, args, span }).err,
{
}

proof fn lemma_filter_seq_plain_clean(s: Seq<TypeExpr>)
    requires
        forall|i: int| 0 <= i < s.len() ==> is_plain_component_filter(#[trigger] s[i]),
    ensures
        filter_seq_check(s) == Outcome::clean(),
    decreases s.len(),
{
    if s.len() > 0 {
        assert(forall|j: int|
            0 <= j < s.drop_first().len() ==> #[trigger] s.drop_first()[j] == s[j + 1]);
        law_filter_plain_component(s[0]);
        lemma_filter_seq_plain_clean(s.drop_first());
        assert(filter_seq_check(s) =~= Outcome::clean());
    }
}

/// The disjunction filter's name is not a component filter name.
proof fn lemma_or_not_component()
    ensures
        !names::is_component_filter_name("Or"@),
{
    reveal_strlit("Or");
    reveal_strlit("With");
    reveal_strlit("Without");
    reveal_strlit("Added");
    reveal_strlit("Changed");
    reveal_strlit("Mutated");
    assert("Or"@.len() == 2);
    assert("With"@.len() == 4);
    assert("Without"@.len() == 7);
    assert("Added"@.len() == 5);
    assert("Changed"@.len() == 7);
    assert("Mutated"@.len() == 7);
}

/// Law: a disjunction filter over a tuple of plain component filters is
/// accepted without any report.
pub proof fn law_or_of_plain_filters_accepted(name: String, args: Vec<TypeExpr>, span: usize)
    requires
        name@ == "Or"@,
        args@.len() >= 1,
        args@[0] matches TypeExpr::Tuple { elems, .. } && forall|i: int|
            0 <= i < elems@.len() ==> is_plain_component_filter(#[trigger] elems@[i]),
    ensures
        filter_check(TypeExpr::Named { name, args, span }) == Outcome::clean(),
{
    lemma_or_not_component();
    match args@[0] {
        TypeExpr::Tuple { elems, .. } => {
            lemma_filter_seq_plain_clean(elems@);
        },
        _ => {},
    }
}

/// Law: a disjunction filter whose argument is not a tuple is rejected with
/// exactly the tuple-required report.
pub proof fn law_or_non_tuple_rejected(name: String, args: Vec<TypeExpr>, span: usize)
    requires
        name@ == "Or"@,
        args@.len() >= 1,
        !(args@[0] is Tuple),
    ensures
        filter_check(TypeExpr::Named { name, args, span }) == Outcome::report(
            d_or_needs_tuple(span),
        ),
        filter_check(TypeExpr::Named { name, args, span }).err,
{
    lemma_or_not_component();
    match args@[0] {
        TypeExpr::Tuple { .. } => {},
        _ => {
            assert(filter_check(TypeExpr::Named { name, args, span }) =~= Outcome::report(
                d_or_needs_tuple(span),
            ));
        },
    }
}

/// `s` holds at least one error-severity report.
pub open spec fn has_error_report(s: Seq<DiagRecord>) -> bool {
    exists|i: int| 0 <= i < s.len() && (#[trigger] s[i]).severity is Error
}

/// A completed outcome's flag agrees with its reports: it is set exactly
/// when an error-severity report is present.
pub open spec fn err_matches(o: Outcome) -> bool {
    o.abort is None ==> (o.err <==> has_error_report(o.diags))
}

proof fn lemma_clean_err_matches()
    ensures
        err_matches(Outcome::clean()),
{
    if has_error_report(Seq::<DiagRecord>::empty()) {
        let i = choose|i: int|
            0 <= i < Seq::<DiagRecord>::empty().len() && Seq::<DiagRecord>::empty()[i].severity
                is Error;
        assert(false);
    }
}

proof fn lemma_report_err_matches(d: DiagRecord)
    ensures
        err_matches(Outcome::report(d)),
{
    if d.severity is Error {
        assert(seq![d][0].severity is Error);
        assert(has_error_report(seq![d]));
    }
    if has_error_report(seq![d]) {
        let i = choose|i: int| 0 <= i < seq![d].len() && seq![d][i].severity is Error;
        assert(i == 0);
    }
}

proof fn lemma_combine_err_matches(a: Outcome, b: Outcome)
    requires
        err_matches(a),
        err_matches(b),
    ensures
        err_matches(a.followed_by(b)),
{
    let c = a.followed_by(b);
    if c.abort is None {
        assert(a.abort is None && b.abort is None);
        assert(c.diags == a.diags + b.diags);
        if c.err {
            if a.err {
                let i = choose|i: int|
                    0 <= i < a.diags.len() && a.diags[i].severity is Error;
                assert(c.diags[i] == a.diags[i]);
                assert(has_error_report(c.diags));
            } else {
                let j = choose|j: int|
                    0 <= j < b.diags.len() && b.diags[j].severity is Error;
                assert(c.diags[a.diags.len() + j] == b.diags[j]);
                assert(has_error_report(c.diags));
            }
        }
        if has_error_report(c.diags) {
            let i = choose|i: int| 0 <= i < c.diags.len() && c.diags[i].severity is Error;
            if i < a.diags.len() {
                assert(a.diags[i] == c.diags[i]);
                assert(has_error_report(a.diags));
            } else {
                assert(b.diags[i - a.diags.len()] == c.diags[i]);
                assert(has_error_report(b.diags));
            }
        }
    }
}

proof fn lemma_filter_err_matches(e: TypeExpr)
    ensures
        err_matches(filter_check(e)),
    decreases e, 0nat,
{
    lemma_clean_err_matches();
    match e {
        TypeExpr::Named { name, args, span } => {
            if names::is_component_filter_name(name@) {
                if args@.len() > 0 {
                    lemma_report_err_matches(d_filter_nesting(span));
                }
            } else if name@ == "Or"@ {
                if args@.len() > 0 {
                    match args@[0] {
                        TypeExpr::Tuple { elems, .. } => {
                            lemma_filter_seq_err_matches(elems@);
                        },
                        _ => {
                            lemma_report_err_matches(d_or_needs_tuple(span));
                        },
                    }
                }
            } else {
                lemma_report_err_matches(crate::diag::d_unknown_filter(span, name@));
            }
        },
        TypeExpr::Reference { inner, span, .. } => {
            match *inner {
                TypeExpr::Named { name, .. } => {
                    lemma_report_err_matches(crate::diag::d_filter_ref(span, name@));
                },
                _ => {
                    lemma_report_err_matches(crate::diag::d_filter_ref(span, "T"@));
                },
            }
        },
        _ => {},
    }
}

proof fn lemma_filter_seq_err_matches(s: Seq<TypeExpr>)
    ensures
        err_matches(filter_seq_check(s)),
    decreases s, s.len(),
{
    lemma_clean_err_matches();
    if s.len() > 0 {
        lemma_filter_err_matches(s[0]);
        lemma_filter_seq_err_matches(s.drop_first());
        lemma_combine_err_matches(filter_check(s[0]), filter_seq_check(s.drop_first()));
    }
}

proof fn lemma_filter_arg_err_matches(e: TypeExpr)
    ensures
        err_matches(filter_arg_check(e)),
{
    match e {
        TypeExpr::Tuple { elems, .. } => lemma_filter_seq_err_matches(elems@),
        _ => lemma_filter_err_matches(e),
    }
}

proof fn lemma_query_result_err_matches(e: TypeExpr)
    ensures
        err_matches(query_result_check(e)),
    decreases e,
{
    lemma_clean_err_matches();
    match e {
        TypeExpr::Named { name, args, span } => {
            if name@ == "Option"@ {
                if args@.len() > 0 {
                    lemma_query_result_err_matches(args@[0]);
                }
            } else if !names::is_special_query_result_name(name@) {
                lemma_report_err_matches(d_query_bare(span, name@));
            }
        },
        TypeExpr::Tuple { span, .. } => {
            lemma_report_err_matches(crate::diag::d_query_shape(span));
        },
        TypeExpr::Other { span } => {
            lemma_report_err_matches(crate::diag::d_query_shape(span));
        },
        _ => {},
    }
}

proof fn lemma_query_result_seq_err_matches(s: Seq<TypeExpr>)
    ensures
        err_matches(query_result_seq_check(s)),
    decreases s.len(),
{
    lemma_clean_err_matches();
    if s.len() > 0 {
        lemma_query_result_err_matches(s[0]);
        lemma_query_result_seq_err_matches(s.drop_first());
        lemma_combine_err_matches(
            query_result_check(s[0]),
            query_result_seq_check(s.drop_first()),
        );
    }
}

proof fn lemma_query_generics_err_matches(args: Seq<TypeExpr>, span: usize)
    ensures
        err_matches(query_generics_check(args, span)),
{
    lemma_clean_err_matches();
    if args.len() > 0 {
        match args[0] {
            TypeExpr::Tuple { elems, .. } => lemma_query_result_seq_err_matches(elems@),
            _ => lemma_query_result_err_matches(args[0]),
        }
        let res = query_result_arg_check(args[0]);
        let flt = if args.len() >= 2 {
            lemma_filter_arg_err_matches(args[1]);
            filter_arg_check(args[1])
        } else {
            Outcome::clean()
        };
        let extra = if args.len() > 2 {
            lemma_report_err_matches(crate::diag::d_extra_generics(span));
            Outcome::report(crate::diag::d_extra_generics(span))
        } else {
            Outcome::clean()
        };
        lemma_combine_err_matches(res, flt);
        lemma_combine_err_matches(res.followed_by(flt), extra);
    }
}

proof fn lemma_query_set_elem_err_matches(e: TypeExpr)
    ensures
        err_matches(query_set_elem_check(e)),
{
    lemma_clean_err_matches();
    match e {
        TypeExpr::Named { name, args, span } => {
            if name@ == "Query"@ {
                let flt = if args@.len() >= 2 {
                    lemma_filter_arg_err_matches(args@[1]);
                    filter_arg_check(args@[1])
                } else {
                    Outcome::clean()
                };
                let extra = if args@.len() > 2 {
                    lemma_report_err_matches(crate::diag::d_extra_generics(span));
                    Outcome::report(crate::diag::d_extra_generics(span))
                } else {
                    Outcome::clean()
                };
                lemma_combine_err_matches(flt, extra);
            } else {
                lemma_report_err_matches(crate::diag::d_query_set_shape(span));
            }
        },
        _ => {
            lemma_report_err_matches(crate::diag::d_query_set_shape(e.spec_span()));
        },
    }
}

proof fn lemma_query_set_seq_err_matches(s: Seq<TypeExpr>)
    ensures
        err_matches(query_set_seq_check(s)),
    decreases s.len(),
{
    lemma_clean_err_matches();
    if s.len() > 0 {
        lemma_query_set_elem_err_matches(s[0]);
        lemma_query_set_seq_err_matches(s.drop_first());
        lemma_combine_err_matches(
            query_set_elem_check(s[0]),
            query_set_seq_check(s.drop_first()),
        );
    }
}

proof fn lemma_query_set_err_matches(args: Seq<TypeExpr>, span: usize)
    ensures
        err_matches(query_set_check(args, span)),
{
    if args.len() > 0 {
        match args[0] {
            TypeExpr::Tuple { elems, .. } => lemma_query_set_seq_err_matches(elems@),
            _ => lemma_report_err_matches(crate::diag::d_query_set_shape(span)),
        }
    }
}

proof fn lemma_param_ty_err_matches(
    e: TypeExpr,
    pat: Option<Seq<char>>,
    strict: crate::config::Strictness,
)
    ensures
        err_matches(param_ty_check(e, pat, strict)),
    decreases e, 0nat,
{
    lemma_clean_err_matches();
    match e {
        TypeExpr::Tuple { elems, .. } => {
            lemma_param_seq_err_matches(elems@, pat, strict);
        },
        TypeExpr::Named { name, args, span } => {
            if name@ == "Query"@ {
                lemma_query_generics_err_matches(args@, span);
            } else if name@ == "QuerySet"@ {
                lemma_query_set_err_matches(args@, span);
            } else if !names::is_bare_accessor_name(name@) {
                lemma_report_err_matches(
                    crate::diag::d_unrecognized(span, name@, strict.spec_severity()),
                );
            }
        },
        TypeExpr::Reference { inner, span, .. } => {
            match *inner {
                TypeExpr::Named { name: iname, args: iargs, .. } => {
                    if iname@ == "Commands"@ {
                        lemma_report_err_matches(
                            crate::diag::d_commands_by_ref(
                                span,
                                crate::param::pat_or(pat, "commands"@),
                            ),
                        );
                    } else if iname@ == "Assets"@ && iargs@.len() >= 1 && iargs@[0] is Named {
                        lemma_report_err_matches(
                            crate::diag::d_assets_by_ref(
                                span,
                                crate::param::pat_or(pat, "assets"@),
                                named_name(iargs@[0]),
                            ),
                        );
                    } else {
                        lemma_report_err_matches(crate::diag::d_unrecognized_shape(span));
                    }
                },
                _ => {
                    lemma_report_err_matches(crate::diag::d_unrecognized_shape(span));
                },
            }
        },
        TypeExpr::Other { span } => {
            lemma_report_err_matches(crate::diag::d_unrecognized_shape(span));
        },
    }
}

proof fn lemma_param_seq_err_matches(
    s: Seq<TypeExpr>,
    pat: Option<Seq<char>>,
    strict: crate::config::Strictness,
)
    ensures
        err_matches(param_seq_check(s, pat, strict)),
    decreases s, s.len(),
{
    lemma_clean_err_matches();
    if s.len() > 0 {
        lemma_param_ty_err_matches(s[0], pat, strict);
        lemma_param_seq_err_matches(s.drop_first(), pat, strict);
        lemma_combine_err_matches(
            param_ty_check(s[0], pat, strict),
            param_seq_check(s.drop_first(), pat, strict),
        );
    }
}

proof fn lemma_param_err_matches(p: Parameter, strict: crate::config::Strictness)
    ensures
        err_matches(param_check(p, strict)),
{
    match p {
        Parameter::Receiver { span } => {
            lemma_report_err_matches(crate::diag::d_receiver(span));
        },
        Parameter::Typed { pattern, ty } => {
            lemma_param_ty_err_matches(ty, crate::param::pat_of(pattern), strict);
        },
    }
}

proof fn lemma_params_err_matches(s: Seq<Parameter>, strict: crate::config::Strictness)
    ensures
        err_matches(params_check(s, strict)),
    decreases s.len(),
{
    lemma_clean_err_matches();
    if s.len() > 0 {
        lemma_param_err_matches(s[0], strict);
        lemma_params_err_matches(s.drop_first(), strict);
        lemma_combine_err_matches(param_check(s[0], strict), params_check(s.drop_first(), strict));
    }
}

/// Law: the pass's error flag agrees with its reports — it is set exactly
/// when the diagnostic sequence holds an error-severity report, so warnings
/// alone never fail a signature.
pub proof fn law_error_flag_matches_reports(f: FunctionSig, cfg: Config)
    ensures
        pass_err(f, cfg) <==> has_error_report(pass_diags(f, cfg)),
{
    let o = signature_check(f, cfg);
    if f.params@.len() > cfg.max_params {
        lemma_report_err_matches(crate::diag::d_too_many(f.span));
    } else {
        lemma_params_err_matches(f.params@, cfg.strictness);
    }
    if o.abort is Some {
        let only = pass_diags(f, cfg);
        assert(only[0].severity is Error);
        assert(has_error_report(only));
    }
}

} // verus!
