use jsonschema::{
    json_eq, CompileError, ErrorKind, FormatName, Json, JsonSchema, JsonType,
};

fn s(x: &str) -> Json {
    Json::Str(x.to_string())
}

fn n(x: i64) -> Json {
    Json::Num(x)
}

fn obj(pairs: Vec<(&str, Json)>) -> Json {
    Json::Obj(pairs.into_iter().map(|(k, v)| (k.to_string(), v)).collect())
}

fn arr(items: Vec<Json>) -> Json {
    Json::Arr(items)
}

fn type_schema(t: &str) -> Json {
    obj(vec![("type", s(t))])
}

fn compile(schema: &Json) -> JsonSchema {
    JsonSchema::compile(schema).expect("schema should compile")
}

#[test]
fn any_of_success_short_circuit() {
    // The first branch accepts booleans; the second never sees the instance.
    let schema = compile(&obj(vec![(
        "anyOf",
        arr(vec![type_schema("boolean"), type_schema("string")]),
    )]));
    let errors = schema.validate(&Json::Bool(true));
    assert!(errors.is_empty());
    assert!(schema.is_valid(&Json::Bool(true)));
}

#[test]
fn any_of_second_branch_accepts() {
    let schema = compile(&obj(vec![(
        "anyOf",
        arr(vec![type_schema("string"), type_schema("number")]),
    )]));
    assert!(schema.is_valid(&n(3)));
}

#[test]
fn any_of_total_failure_yields_one_error() {
    let schema = compile(&obj(vec![(
        "anyOf",
        arr(vec![type_schema("string"), type_schema("number")]),
    )]));
    let errors = schema.validate(&Json::Bool(true));
    assert_eq!(errors.len(), 1);
    assert_eq!(errors[0].kind, ErrorKind::AnyOf);
    assert!(json_eq(&errors[0].instance, &Json::Bool(true)));
}

#[test]
fn any_of_vacuous_branch_accepts_everything() {
    let schema = compile(&obj(vec![("anyOf", arr(vec![obj(vec![])]))]));
    assert!(schema.is_valid(&Json::Null));
    assert!(schema.is_valid(&n(17)));
    assert!(schema.is_valid(&s("anything")));
    assert!(schema.is_valid(&obj(vec![("a", n(1))])));
}

#[test]
fn any_of_empty_branch_list_always_fails() {
    let schema = compile(&obj(vec![("anyOf", arr(vec![]))]));
    let errors = schema.validate(&Json::Null);
    assert_eq!(errors.len(), 1);
    assert_eq!(errors[0].kind, ErrorKind::AnyOf);
}

#[test]
fn pattern_properties_multi_match_accumulates() {
    // "abc" matches both patterns; the value 5 violates both sub-schemas,
    // so both violations are reported, one per matching pattern.
    let schema = compile(&obj(vec![(
        "patternProperties",
        obj(vec![
            ("^a", type_schema("string")),
            ("^ab", obj(vec![("maximum", n(1))])),
        ]),
    )]));
    let errors = schema.validate(&obj(vec![("abc", n(5))]));
    assert_eq!(errors.len(), 2);
    assert_eq!(errors[0].kind, ErrorKind::WrongType(JsonType::Str));
    assert_eq!(errors[1].kind, ErrorKind::OverMaximum(1));
}

#[test]
fn pattern_properties_satisfied_pattern_reports_nothing() {
    // "abc" matches both patterns, but 5 is a number, so only the bound is
    // violated.
    let schema = compile(&obj(vec![(
        "patternProperties",
        obj(vec![
            ("^a", type_schema("number")),
            ("^ab", obj(vec![("maximum", n(1))])),
        ]),
    )]));
    let errors = schema.validate(&obj(vec![("abc", n(5))]));
    assert_eq!(errors.len(), 1);
    assert_eq!(errors[0].kind, ErrorKind::OverMaximum(1));
}

#[test]
fn pattern_properties_non_object_passes() {
    let schema = compile(&obj(vec![(
        "patternProperties",
        obj(vec![("^a", type_schema("string"))]),
    )]));
    assert!(schema.is_valid(&n(5)));
    assert!(schema.is_valid(&Json::Bool(false)));
    assert!(schema.is_valid(&s("a string")));
    assert!(schema.is_valid(&arr(vec![n(1)])));
}

#[test]
fn pattern_properties_checks_every_matching_key() {
    let schema = compile(&obj(vec![(
        "patternProperties",
        obj(vec![("^a", obj(vec![("maximum", n(1))]))]),
    )]));
    let errors = schema.validate(&obj(vec![("a1", n(5)), ("a2", n(7)), ("b", n(9))]));
    assert_eq!(errors.len(), 2);
    assert!(json_eq(&errors[0].instance, &n(5)));
    assert!(json_eq(&errors[1].instance, &n(7)));
}

#[test]
fn pattern_properties_only_matching_keys_are_validated() {
    let schema = compile(&obj(vec![(
        "patternProperties",
        obj(vec![("^ab$", type_schema("string"))]),
    )]));
    let errors = schema.validate(&obj(vec![("ab", n(5)), ("b", n(6)), ("abc", n(7))]));
    assert_eq!(errors.len(), 1);
    assert!(json_eq(&errors[0].instance, &n(5)));
}

#[test]
fn format_type_gate() {
    let schema = compile(&obj(vec![("format", s("email"))]));
    // A non-string passes whatever the predicate would say.
    assert!(schema.is_valid(&n(5)));
    // A string is checked by the predicate.
    let errors = schema.validate(&s("not-an-email"));
    assert_eq!(errors.len(), 1);
    assert_eq!(errors[0].kind, ErrorKind::BadFormat(FormatName::Email));
    assert!(schema.is_valid(&s("someone@example.org")));
}

#[test]
fn format_unknown_name_is_skipped() {
    let compiled = JsonSchema::compile(&obj(vec![("format", s("no-such-format"))]))
        .expect("unknown format names are not errors");
    assert_eq!(compiled.validators.len(), 0);
    assert!(compiled.is_valid(&s("anything at all")));
    assert!(compiled.is_valid(&n(3)));
}

#[test]
fn format_value_must_be_a_string() {
    let r = JsonSchema::compile(&obj(vec![("format", n(3))]));
    assert_eq!(r.err(), Some(CompileError::SchemaError));
}

#[test]
fn round_trip_idempotence() {
    let fragment = obj(vec![
        (
            "anyOf",
            arr(vec![type_schema("string"), obj(vec![("maximum", n(10))])]),
        ),
        ("format", s("ipv4")),
    ]);
    let first = compile(&fragment);
    let second = compile(&fragment);
    let instances = vec![
        s("10.0.0.1"),
        s("not an address"),
        n(11),
        n(3),
        Json::Bool(true),
        obj(vec![("x", n(1))]),
    ];
    for inst in &instances {
        let e1 = first.validate(inst);
        let e2 = second.validate(inst);
        assert_eq!(e1.len(), e2.len());
        for (a, b) in e1.iter().zip(e2.iter()) {
            assert_eq!(a.kind, b.kind);
            assert!(json_eq(&a.instance, &b.instance));
        }
    }
}

#[test]
fn compile_error_any_of_not_an_array() {
    let r = JsonSchema::compile(&obj(vec![("anyOf", obj(vec![("not", s("an array"))]))]));
    assert_eq!(r.err(), Some(CompileError::SchemaError));
}

#[test]
fn compile_error_pattern_properties_not_an_object() {
    let r = JsonSchema::compile(&obj(vec![(
        "patternProperties",
        arr(vec![s("not"), s("an"), s("object")]),
    )]));
    assert_eq!(r.err(), Some(CompileError::SchemaError));
}

#[test]
fn compile_error_bad_pattern() {
    let r = JsonSchema::compile(&obj(vec![(
        "patternProperties",
        obj(vec![("(", obj(vec![]))]),
    )]));
    assert_eq!(r.err(), Some(CompileError::InvalidRegex));
}

#[test]
fn compile_error_inside_any_of_branch_propagates() {
    let r = JsonSchema::compile(&obj(vec![(
        "anyOf",
        arr(vec![obj(vec![("type", n(5))])]),
    )]));
    assert_eq!(r.err(), Some(CompileError::SchemaError));
}

#[test]
fn unrecognized_keywords_are_ignored() {
    let compiled = compile(&obj(vec![
        ("title", s("irrelevant")),
        ("maximum", n(2)),
        ("minLength", n(4)),
    ]));
    assert_eq!(compiled.validators.len(), 1);
    assert!(compiled.is_valid(&n(2)));
    assert!(!compiled.is_valid(&n(3)));
}

#[test]
fn maximum_keyword() {
    let schema = compile(&obj(vec![("maximum", n(3))]));
    assert!(schema.is_valid(&n(3)));
    assert!(schema.is_valid(&n(-10)));
    let errors = schema.validate(&n(4));
    assert_eq!(errors.len(), 1);
    assert_eq!(errors[0].kind, ErrorKind::OverMaximum(3));
    assert!(json_eq(&errors[0].instance, &n(4)));
    // Non-numbers pass trivially.
    assert!(schema.is_valid(&s("four")));
}

#[test]
fn maximum_value_must_be_a_number() {
    let r = JsonSchema::compile(&obj(vec![("maximum", s("3"))]));
    assert_eq!(r.err(), Some(CompileError::SchemaError));
}

#[test]
fn type_keyword() {
    let schema = compile(&type_schema("string"));
    assert!(schema.is_valid(&s("yes")));
    let errors = schema.validate(&n(1));
    assert_eq!(errors.len(), 1);
    assert_eq!(errors[0].kind, ErrorKind::WrongType(JsonType::Str));
    let all = compile(&type_schema("object"));
    assert!(all.is_valid(&obj(vec![])));
    assert!(!all.is_valid(&arr(vec![])));
}

#[test]
fn type_value_must_name_a_class() {
    assert_eq!(
        JsonSchema::compile(&type_schema("nonsense")).err(),
        Some(CompileError::SchemaError)
    );
    assert_eq!(
        JsonSchema::compile(&obj(vec![("type", n(5))])).err(),
        Some(CompileError::SchemaError)
    );
}

#[test]
fn non_object_schema_fragment_is_an_error() {
    assert_eq!(
        JsonSchema::compile(&s("true")).err(),
        Some(CompileError::SchemaError)
    );
}

#[test]
fn nested_combinators() {
    let schema = compile(&obj(vec![(
        "anyOf",
        arr(vec![obj(vec![(
            "patternProperties",
            obj(vec![("^x", type_schema("number"))]),
        )])]),
    )]));
    assert!(schema.is_valid(&obj(vec![("x1", n(1)), ("y", s("free"))])));
    let errors = schema.validate(&obj(vec![("x1", s("oops"))]));
    assert_eq!(errors.len(), 1);
    assert_eq!(errors[0].kind, ErrorKind::AnyOf);
}

#[test]
fn regex_format_checks_pattern_compilation() {
    let schema = compile(&obj(vec![("format", s("regex"))]));
    assert!(schema.is_valid(&s("ab+c")));
    assert!(!schema.is_valid(&s("(")));
}

#[test]
fn date_format() {
    let schema = compile(&obj(vec![("format", s("date"))]));
    assert!(schema.is_valid(&s("2020-01-15")));
    assert!(!schema.is_valid(&s("2020-13-15")));
    assert!(!schema.is_valid(&s("2020-00-15")));
    assert!(!schema.is_valid(&s("2020-1-15")));
    assert!(!schema.is_valid(&s("15-01-2020")));
}

#[test]
fn time_format() {
    let schema = compile(&obj(vec![("format", s("time"))]));
    assert!(schema.is_valid(&s("12:30:45")));
    assert!(!schema.is_valid(&s("25:00:00")));
    assert!(!schema.is_valid(&s("12:61:00")));
    assert!(!schema.is_valid(&s("12:30")));
}

#[test]
fn date_time_format() {
    let schema = compile(&obj(vec![("format", s("date-time"))]));
    assert!(schema.is_valid(&s("2020-01-15T12:30:45")));
    assert!(!schema.is_valid(&s("2020-01-15 12:30:45")));
    assert!(!schema.is_valid(&s("2020-01-15T25:30:45")));
}

#[test]
fn ipv4_format() {
    let schema = compile(&obj(vec![("format", s("ipv4"))]));
    assert!(schema.is_valid(&s("127.0.0.1")));
    assert!(schema.is_valid(&s("10.20.30.40")));
    assert!(!schema.is_valid(&s("1.2.3")));
    assert!(!schema.is_valid(&s("1.2.3.4.5")));
    assert!(!schema.is_valid(&s("1..2.3")));
    assert!(!schema.is_valid(&s(".1.2.3")));
    assert!(!schema.is_valid(&s("1.2.3.")));
    assert!(!schema.is_valid(&s("1234.1.1.1")));
    assert!(!schema.is_valid(&s("a.b.c.d")));
}

#[test]
fn ipv6_format() {
    let schema = compile(&obj(vec![("format", s("ipv6"))]));
    assert!(schema.is_valid(&s("::1")));
    assert!(schema.is_valid(&s("2001:db8::ff00:42:8329")));
    assert!(!schema.is_valid(&s("xyz")));
    assert!(!schema.is_valid(&s("1")));
}

#[test]
fn hostname_format() {
    let schema = compile(&obj(vec![("format", s("hostname"))]));
    assert!(schema.is_valid(&s("example.org")));
    assert!(schema.is_valid(&s("my-host-01")));
    assert!(!schema.is_valid(&s("")));
    assert!(!schema.is_valid(&s("under_score")));
}

#[test]
fn email_formats() {
    let schema = compile(&obj(vec![("format", s("idn-email"))]));
    assert!(schema.is_valid(&s("a@b")));
    assert!(!schema.is_valid(&s("nobody")));
}

#[test]
fn pointer_formats() {
    let jp = compile(&obj(vec![("format", s("json-pointer"))]));
    assert!(jp.is_valid(&s("")));
    assert!(jp.is_valid(&s("/a/b/0")));
    assert!(!jp.is_valid(&s("a/b")));
    let rjp = compile(&obj(vec![("format", s("relative-json-pointer"))]));
    assert!(rjp.is_valid(&s("0/a")));
    assert!(!rjp.is_valid(&s("/a")));
}

#[test]
fn uri_formats() {
    let uri = compile(&obj(vec![("format", s("uri"))]));
    assert!(uri.is_valid(&s("http://example.org")));
    assert!(!uri.is_valid(&s("no colon here")));
    let r = compile(&obj(vec![("format", s("uri-reference"))]));
    assert!(r.is_valid(&s("/relative/path")));
    assert!(!r.is_valid(&s("has a space")));
}

#[test]
fn validator_names() {
    let schema = compile(&obj(vec![
        ("anyOf", arr(vec![obj(vec![])])),
        ("patternProperties", obj(vec![("^a", obj(vec![]))])),
        ("format", s("email")),
        ("type", s("string")),
        ("maximum", n(9)),
    ]));
    let names: Vec<String> = schema.validators.iter().map(|v| v.name()).collect();
    assert_eq!(
        names,
        vec![
            "<any of>".to_string(),
            "<pattern properties>".to_string(),
            "<format: email>".to_string(),
            "<type>".to_string(),
            "<maximum>".to_string(),
        ]
    );
}

#[test]
fn json_eq_and_clone() {
    let a = obj(vec![("k", arr(vec![n(1), s("two"), Json::Null]))]);
    let b = jsonschema::clone_json(&a);
    assert!(json_eq(&a, &b));
    let c = obj(vec![("k", arr(vec![n(1), s("two"), Json::Bool(false)]))]);
    assert!(!json_eq(&a, &c));
    assert!(!json_eq(&n(1), &s("1")));
}

#[test]
fn error_instances_are_deep_copies() {
    let schema = compile(&obj(vec![("type", s("array"))]));
    let instance = obj(vec![("inner", arr(vec![n(1)]))]);
    let errors = schema.validate(&instance);
    assert_eq!(errors.len(), 1);
    drop(instance);
    let expected = obj(vec![("inner", arr(vec![n(1)]))]);
    assert!(json_eq(&errors[0].instance, &expected));
}
