use bevycheck::ast::{FunctionSig, Parameter, TypeExpr};
use bevycheck::config::{Config, EmitMode, Strictness};
use bevycheck::diag::{Diagnostic, Severity};
use bevycheck::entry::{run_pass, EmittedShape, PassResult};
use bevycheck::filter::validate_filter;

fn named(name: &str, args: Vec<TypeExpr>, span: usize) -> TypeExpr {
    TypeExpr::Named { name: String::from(name), args, span }
}

fn reference(mutable: bool, inner: TypeExpr, span: usize) -> TypeExpr {
    TypeExpr::Reference { mutable, inner: Box::new(inner), span }
}

fn tuple(elems: Vec<TypeExpr>, span: usize) -> TypeExpr {
    TypeExpr::Tuple { elems, span }
}

fn typed(pattern: Option<&str>, ty: TypeExpr) -> Parameter {
    Parameter::Typed { pattern: pattern.map(String::from), ty }
}

fn sig(params: Vec<Parameter>, span: usize) -> FunctionSig {
    FunctionSig { name: String::from("system"), params, span }
}

fn strict_config() -> Config {
    Config { max_params: 12, strictness: Strictness::Error, mode: EmitMode::SelfCheckRewrite }
}

fn okay_signature() -> FunctionSig {
    sig(
        vec![
            typed(None, named("Commands", vec![], 1)),
            typed(None, named("Res", vec![named("Foo", vec![], 3)], 2)),
            typed(
                None,
                tuple(
                    vec![
                        named("EventWriter", vec![named("Foo", vec![], 5)], 4),
                        named("EventReader", vec![named("Foo", vec![], 7)], 6),
                    ],
                    8,
                ),
            ),
        ],
        0,
    )
}

fn commands_by_ref_signature() -> FunctionSig {
    sig(vec![typed(None, reference(false, named("Commands", vec![], 2), 1))], 0)
}

fn arbitrary_type_signature() -> FunctionSig {
    sig(vec![typed(None, named("MyThing", vec![], 1))], 0)
}

/// The three acceptance inputs: a clean signature compiles, a command buffer
/// taken by reference fails, and (under the strict policy) an arbitrary bare
/// type fails.
#[test]
fn ui() {
    let ok = run_pass(okay_signature(), &Config::default());
    assert!(!ok.has_error);
    assert!(ok.diags.is_empty());

    let commands = run_pass(commands_by_ref_signature(), &Config::default());
    assert!(commands.has_error);
    assert_eq!(commands.diags.len(), 1);

    let arbitrary = run_pass(arbitrary_type_signature(), &strict_config());
    assert!(arbitrary.has_error);
    assert_eq!(arbitrary.diags.len(), 1);
}

#[test]
fn scenario_bare_accessors_grouped() {
    let r = run_pass(okay_signature(), &Config::default());
    assert!(!r.has_error);
    assert!(r.diags.is_empty());
    match r.emission {
        EmittedShape::SelfCheck { probes } => assert_eq!(probes.len(), 3),
        _ => panic!("expected a self-check rewrite"),
    }
}

#[test]
fn scenario_commands_by_reference() {
    let r = run_pass(commands_by_ref_signature(), &Config::default());
    assert!(r.has_error);
    assert_eq!(r.diags.len(), 1);
    let d = &r.diags[0];
    assert_eq!(d.severity, Severity::Error);
    assert_eq!(d.span, 1);
    assert_eq!(d.message, "commands must be taken by value");
    assert_eq!(d.help.as_deref(), Some("use `mut commands: Commands`"));

    let with_pattern = sig(
        vec![typed(Some("cmds"), reference(false, named("Commands", vec![], 2), 1))],
        0,
    );
    let r = run_pass(with_pattern, &Config::default());
    assert_eq!(r.diags[0].help.as_deref(), Some("use `mut cmds: Commands`"));
}

#[test]
fn scenario_query_invalid_result_and_filter() {
    // Query<(Entity, Foo, Option<&Foo>, Flags<Foo>), Bar>
    let query = named(
        "Query",
        vec![
            tuple(
                vec![
                    named("Entity", vec![], 2),
                    named("Foo", vec![], 3),
                    named("Option", vec![reference(false, named("Foo", vec![], 5), 4)], 6),
                    named("Flags", vec![named("Foo", vec![], 7)], 8),
                ],
                9,
            ),
            named("Bar", vec![], 10),
        ],
        1,
    );
    let r = run_pass(sig(vec![typed(Some("q"), query)], 0), &Config::default());
    assert!(r.has_error);
    assert_eq!(r.diags.len(), 2);
    assert_eq!(r.diags[0].message, "not a valid query parameter");
    assert_eq!(r.diags[0].span, 3);
    assert_eq!(r.diags[0].help.as_deref(), Some("use `&Foo` or `&mut Foo`"));
    assert_eq!(r.diags[1].message, "unknown query filter");
    assert_eq!(r.diags[1].span, 10);
    assert_eq!(r.diags[1].help.as_deref(), Some("use `With<Bar>`"));
}

#[test]
fn scenario_too_many_parameters() {
    let params: Vec<Parameter> = (0..13)
        .map(|i| typed(None, named("Commands", vec![], i + 1)))
        .collect();
    let r = run_pass(sig(params, 99), &Config::default());
    assert!(r.has_error);
    assert_eq!(r.diags.len(), 1);
    assert_eq!(r.diags[0].message, "too many system parameters");
    assert_eq!(r.diags[0].span, 99);
}

#[test]
fn scenario_query_set_valid() {
    // QuerySet<(Query<Transform, With<Foo>>, Query<&mut Transform, Without<Foo>>)>
    let set = named(
        "QuerySet",
        vec![tuple(
            vec![
                named(
                    "Query",
                    vec![
                        named("Transform", vec![], 3),
                        named("With", vec![named("Foo", vec![], 5)], 4),
                    ],
                    2,
                ),
                named(
                    "Query",
                    vec![
                        reference(true, named("Transform", vec![], 8), 7),
                        named("Without", vec![named("Foo", vec![], 10)], 9),
                    ],
                    6,
                ),
            ],
            11,
        )],
        1,
    );
    let r = run_pass(sig(vec![typed(None, set)], 0), &Config::default());
    assert!(!r.has_error);
    assert!(r.diags.is_empty());
}

#[test]
fn scenario_or_of_plain_types_rejected() {
    // Query<Entity, Or<(Player, SpawnPlayer)>>
    let query = named(
        "Query",
        vec![
            named("Entity", vec![], 2),
            named(
                "Or",
                vec![tuple(
                    vec![named("Player", vec![], 4), named("SpawnPlayer", vec![], 5)],
                    6,
                )],
                3,
            ),
        ],
        1,
    );
    let r = run_pass(sig(vec![typed(Some("query"), query)], 0), &Config::default());
    assert!(r.has_error);
    assert_eq!(r.diags.len(), 2);
    assert_eq!(r.diags[0].message, "unknown query filter");
    assert_eq!(r.diags[0].span, 4);
    assert_eq!(r.diags[0].help.as_deref(), Some("use `With<Player>`"));
    assert_eq!(r.diags[1].message, "unknown query filter");
    assert_eq!(r.diags[1].span, 5);
    assert_eq!(r.diags[1].help.as_deref(), Some("use `With<SpawnPlayer>`"));
}

#[test]
fn nesting_with_accepted() {
    let mut diags: Vec<Diagnostic> = Vec::new();
    let f = named("With", vec![named("Foo", vec![], 2)], 1);
    let r = validate_filter(&f, &mut diags);
    assert_eq!(r, Ok(false));
    assert!(diags.is_empty());
}

#[test]
fn nesting_with_of_with_rejected() {
    let mut diags: Vec<Diagnostic> = Vec::new();
    let f = named("With", vec![named("With", vec![named("Foo", vec![], 3)], 2)], 1);
    let r = validate_filter(&f, &mut diags);
    assert_eq!(r, Ok(true));
    assert_eq!(diags.len(), 1);
    assert_eq!(diags[0].message, "invalid query filter nesting");
    assert_eq!(diags[0].span, 1);
}

#[test]
fn nesting_or_tuple_accepted() {
    let mut diags: Vec<Diagnostic> = Vec::new();
    let f = named(
        "Or",
        vec![tuple(
            vec![
                named("With", vec![named("Foo", vec![], 3)], 2),
                named("Without", vec![named("Bar", vec![], 5)], 4),
            ],
            6,
        )],
        1,
    );
    let r = validate_filter(&f, &mut diags);
    assert_eq!(r, Ok(false));
    assert!(diags.is_empty());
}

#[test]
fn nesting_or_non_tuple_rejected() {
    let mut diags: Vec<Diagnostic> = Vec::new();
    let f = named("Or", vec![named("Foo", vec![], 2)], 1);
    let r = validate_filter(&f, &mut diags);
    assert_eq!(r, Ok(true));
    assert_eq!(diags.len(), 1);
    assert_eq!(diags[0].message, "this filter expects a tuple of filters");
    assert_eq!(diags[0].span, 1);
}

#[test]
fn query_with_added_filter_rejected() {
    // Query<&Foo, With<Added<Foo>>>
    let query = named(
        "Query",
        vec![
            reference(false, named("Foo", vec![], 3), 2),
            named("With", vec![named("Added", vec![named("Foo", vec![], 6)], 5)], 4),
        ],
        1,
    );
    let r = run_pass(sig(vec![typed(None, query)], 0), &Config::default());
    assert!(r.has_error);
    assert_eq!(r.diags.len(), 1);
    assert_eq!(r.diags[0].message, "invalid query filter nesting");
    assert_eq!(r.diags[0].span, 4);
}

#[test]
fn option_wrapped_reference_accepted() {
    // Query<Option<Option<&Foo>>>
    let query = named(
        "Query",
        vec![named(
            "Option",
            vec![named("Option", vec![reference(false, named("Foo", vec![], 5), 4)], 3)],
            2,
        )],
        1,
    );
    let r = run_pass(sig(vec![typed(None, query)], 0), &Config::default());
    assert!(!r.has_error);
    assert!(r.diags.is_empty());
}

#[test]
fn missing_generic_aborts() {
    let r = run_pass(sig(vec![typed(None, named("Query", vec![], 7))], 0), &Config::default());
    assert!(r.has_error);
    assert_eq!(r.diags.len(), 1);
    assert_eq!(r.diags[0].message, "expected a generic type argument");
    assert_eq!(r.diags[0].span, 7);
    match r.emission {
        EmittedShape::SelfCheck { probes } => assert!(probes.is_empty()),
        _ => panic!("expected a self-check rewrite"),
    }
}

#[test]
fn receiver_rejected() {
    let r = run_pass(
        sig(
            vec![Parameter::Receiver { span: 1 }, typed(None, named("Commands", vec![], 2))],
            0,
        ),
        &Config::default(),
    );
    assert!(r.has_error);
    let receiver_msgs = r
        .diags
        .iter()
        .filter(|d| d.message == "invalid system parameter")
        .count();
    assert_eq!(receiver_msgs, 1);
    assert_eq!(r.diags.len(), 1);
    assert_eq!(r.diags[0].span, 1);
}

#[test]
fn assets_by_reference_help() {
    let p = typed(
        Some("textures"),
        reference(
            true,
            named("Assets", vec![named("Texture", vec![], 3)], 2),
            1,
        ),
    );
    let r = run_pass(sig(vec![p], 0), &Config::default());
    assert!(r.has_error);
    assert_eq!(r.diags.len(), 1);
    assert_eq!(r.diags[0].message, "assets must be accessed through a resource");
    assert_eq!(
        r.diags[0].help.as_deref(),
        Some("use `textures: ResMut<Assets<Texture>>`")
    );
}

#[test]
fn unrecognized_bare_name_warns_by_default() {
    let r = run_pass(arbitrary_type_signature(), &Config::default());
    assert!(!r.has_error);
    assert_eq!(r.diags.len(), 1);
    assert_eq!(r.diags[0].severity, Severity::Warning);
    assert_eq!(r.diags[0].message, "possibly invalid system parameter");
    assert_eq!(
        r.diags[0].help.as_deref(),
        Some("use `Res<MyThing>` or `ResMut<MyThing>`")
    );
    match r.emission {
        EmittedShape::SelfCheck { probes } => assert_eq!(probes.len(), 1),
        _ => panic!("expected a self-check rewrite"),
    }
}

#[test]
fn unrecognized_bare_name_strict_errors() {
    let r = run_pass(arbitrary_type_signature(), &strict_config());
    assert!(r.has_error);
    assert_eq!(r.diags.len(), 1);
    assert_eq!(r.diags[0].severity, Severity::Error);
    assert_eq!(r.diags[0].message, "possibly invalid system parameter");
}

#[test]
fn reference_parameter_warns() {
    let p = typed(None, reference(false, named("Foo", vec![], 2), 1));
    let r = run_pass(sig(vec![p], 0), &Config::default());
    assert!(!r.has_error);
    assert_eq!(r.diags.len(), 1);
    assert_eq!(r.diags[0].severity, Severity::Warning);
    assert_eq!(r.diags[0].message, "possibly invalid system parameter");
}

#[test]
fn entity_and_flags_accepted() {
    let query = named(
        "Query",
        vec![tuple(
            vec![named("Entity", vec![], 2), named("Flags", vec![named("Foo", vec![], 4)], 3)],
            5,
        )],
        1,
    );
    let r = run_pass(sig(vec![typed(None, query)], 0), &Config::default());
    assert!(!r.has_error);
    assert!(r.diags.is_empty());
}

#[test]
fn stub_mode_emission() {
    let stub_cfg = Config {
        max_params: 12,
        strictness: Strictness::Warn,
        mode: EmitMode::StubOnError,
    };
    let clean = run_pass(okay_signature(), &stub_cfg);
    assert!(matches!(clean.emission, EmittedShape::Unchanged));
    let broken = run_pass(commands_by_ref_signature(), &stub_cfg);
    assert!(matches!(broken.emission, EmittedShape::Stub));
}

#[test]
fn empty_signature_accepted() {
    let stub_cfg = Config {
        max_params: 12,
        strictness: Strictness::Warn,
        mode: EmitMode::StubOnError,
    };
    let r = run_pass(sig(vec![], 0), &stub_cfg);
    assert!(!r.has_error);
    assert!(r.diags.is_empty());
    assert!(matches!(r.emission, EmittedShape::Unchanged));
}

#[test]
fn default_config_values() {
    let c = Config::default();
    assert_eq!(c.max_params, 12);
    assert_eq!(c.strictness, Strictness::Warn);
    assert_eq!(c.mode, EmitMode::SelfCheckRewrite);
}

#[test]
fn too_many_parameters_note_explains_grouping() {
    let params: Vec<Parameter> = (0..13)
        .map(|i| typed(None, named("Commands", vec![], i + 1)))
        .collect();
    let r = run_pass(sig(params, 7), &Config::default());
    assert_eq!(r.diags.len(), 1);
    assert_eq!(
        r.diags[0].note.as_deref(),
        Some("group related parameters into a tuple to stay under the limit")
    );
}

fn same_diags(a: &PassResult, b: &PassResult) -> bool {
    a.diags.len() == b.diags.len()
        && a.diags.iter().zip(b.diags.iter()).all(|(x, y)| {
            x.severity == y.severity
                && x.span == y.span
                && x.message == y.message
                && x.note == y.note
                && x.help == y.help
        })
}

#[test]
fn deterministic_diagnostics() {
    let build = || {
        sig(
            vec![
                typed(Some("q"), named(
                    "Query",
                    vec![named("Foo", vec![], 3), named("Bar", vec![], 4)],
                    2,
                )),
                typed(None, reference(false, named("Commands", vec![], 6), 5)),
            ],
            0,
        )
    };
    let first = run_pass(build(), &Config::default());
    let second = run_pass(build(), &Config::default());
    assert!(same_diags(&first, &second));
    assert_eq!(first.has_error, second.has_error);
}
