//! The recognized-kind tables: fixed, versioned sets of type names the linter
//! knows. Membership is case-sensitive and exact; the linter never resolves a
//! name to its definition, it matches the spelling alone.

use vstd::prelude::*;

verus! {

/// Exact-match comparison of a model name against a table entry.
fn name_is(name: &String, entry: &str) -> (r: bool)
    ensures
        r == (name@ == entry@),
{
    let e = String::from_str(entry);
    *name == e
}

/// Bare accessor kinds: parameter types usable directly, without wrapping.
/// `Query` and `QuerySet` are members, but the parameter walk dispatches them
/// to their dedicated validators before this table is consulted.
pub open spec fn is_bare_accessor_name(n: Seq<char>) -> bool {
    ||| n == "Commands"@
    ||| n == "Res"@
    ||| n == "ResMut"@
    ||| n == "Local"@
    ||| n == "Query"@
    ||| n == "QuerySet"@
    ||| n == "DrawContext"@
    ||| n == "EventReader"@
    ||| n == "EventWriter"@
}

pub fn bare_accessor_name(name: &String) -> (r: bool)
    ensures
        r == is_bare_accessor_name(name@),
{
    name_is(name, "Commands") || name_is(name, "Res") || name_is(name, "ResMut")
        || name_is(name, "Local") || name_is(name, "Query") || name_is(name, "QuerySet")
        || name_is(name, "DrawContext") || name_is(name, "EventReader")
        || name_is(name, "EventWriter")
}

/// Query result kinds that are valid bare: the entity identity and the
/// change-flag bits. Every other query result must be a reference, at any
/// optional-wrapping depth.
pub open spec fn is_special_query_result_name(n: Seq<char>) -> bool {
    ||| n == "Entity"@
    ||| n == "Flags"@
}

pub fn special_query_result_name(name: &String) -> (r: bool)
    ensures
        r == is_special_query_result_name(name@),
{
    name_is(name, "Entity") || name_is(name, "Flags")
}

/// Component-parameterized filters: each takes exactly one generic argument,
/// a plain component name.
pub open spec fn is_component_filter_name(n: Seq<char>) -> bool {
    ||| n == "With"@
    ||| n == "Without"@
    ||| n == "Added"@
    ||| n == "Changed"@
    ||| n == "Mutated"@
}

pub fn component_filter_name(name: &String) -> (r: bool)
    ensures
        r == is_component_filter_name(name@),
{
    name_is(name, "With") || name_is(name, "Without") || name_is(name, "Added")
        || name_is(name, "Changed") || name_is(name, "Mutated")
}

/// Any recognized filter name, component-parameterized or composite. A name
/// in this set may not itself stand as a filter's component argument.
pub open spec fn is_filter_name(n: Seq<char>) -> bool {
    ||| is_component_filter_name(n)
    ||| n == "Or"@
}

pub fn filter_name(name: &String) -> (r: bool)
    ensures
        r == is_filter_name(name@),
{
    component_filter_name(name) || name_is(name, "Or")
}

/// The name of the disjunction filter, whose single generic argument must be
/// a tuple of filters.
pub fn or_filter_name(name: &String) -> (r: bool)
    ensures
        r == (name@ == "Or"@),
{
    name_is(name, "Or")
}

pub fn query_name(name: &String) -> (r: bool)
    ensures
        r == (name@ == "Query"@),
{
    name_is(name, "Query")
}

pub fn query_set_name(name: &String) -> (r: bool)
    ensures
        r == (name@ == "QuerySet"@),
{
    name_is(name, "QuerySet")
}

pub fn option_name(name: &String) -> (r: bool)
    ensures
        r == (name@ == "Option"@),
{
    name_is(name, "Option")
}

pub fn commands_name(name: &String) -> (r: bool)
    ensures
        r == (name@ == "Commands"@),
{
    name_is(name, "Commands")
}

pub fn assets_name(name: &String) -> (r: bool)
    ensures
        r == (name@ == "Assets"@),
{
    name_is(name, "Assets")
}

} // verus!
