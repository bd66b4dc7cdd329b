use error_def::arms::{CauseArm, Conversion, DisplayArm, Instance, Pattern};
use error_def::generate::{compile, generate};
use error_def::model::{Attribute, FieldSpec, LongDescription, VariantKind, VariantSpec};
use error_def::parser::parse_variants;
use error_def::render::render_variants;
use error_def::text::fill_template;
use error_def::token::{FailureKind, ParseFailure, Token};

fn s(text: &str) -> String {
    text.to_string()
}

fn texts(items: &[&str]) -> Vec<String> {
    items.iter().map(|t| t.to_string()).collect()
}

fn plain(name: &str, t: &str) -> FieldSpec {
    FieldSpec { name: s(name), ty: s(t), attributes: vec![] }
}

fn unit(name: &str, short: &str) -> VariantSpec {
    VariantSpec {
        name: s(name),
        kind: VariantKind::Unit,
        fields: vec![],
        from_index: None,
        short_description: s(short),
        long_description: None,
    }
}

fn with_args() -> VariantSpec {
    VariantSpec {
        name: s("AVariantWithArgs"),
        kind: VariantKind::Struct,
        fields: vec![plain("flim", "u32"), plain("flam", "u32")],
        from_index: None,
        short_description: s("Variant with args"),
        long_description: Some(LongDescription {
            format_template: s("This is a format string. flim is {}. flam is {}."),
            args: texts(&["flim", "flam"]),
        }),
    }
}

fn with_cause() -> VariantSpec {
    VariantSpec {
        name: s("AVariantWithACause"),
        kind: VariantKind::Struct,
        fields: vec![plain("blah", "bool"), plain("cause", "io::Error")],
        from_index: Some(1),
        short_description: s("Variant with a cause"),
        long_description: Some(LongDescription {
            format_template: s("self.cause() would return Some({})"),
            args: texts(&["cause"]),
        }),
    }
}

fn just_cause() -> VariantSpec {
    VariantSpec {
        name: s("AVariantWithJustACause"),
        kind: VariantKind::Struct,
        fields: vec![plain("blah", "io::Error")],
        from_index: Some(0),
        short_description: s("This variant can be made `From` an `io::Error`"),
        long_description: None,
    }
}

fn example() -> Vec<VariantSpec> {
    vec![
        unit("AVariant", "Unit-like variant"),
        VariantSpec {
            long_description: Some(LongDescription {
                format_template: s("A more verbose description"),
                args: vec![],
            }),
            ..unit("AVariantWithALongDescription", "Unit-like variant")
        },
        with_args(),
        with_cause(),
        just_cause(),
    ]
}

#[test]
fn template_is_filled_in_order() {
    assert_eq!(
        fill_template("flim is {}. flam is {}.", &texts(&["123", "456"])),
        Some(s("flim is 123. flam is 456."))
    );
    assert_eq!(fill_template("", &vec![]), Some(s("")));
    assert_eq!(fill_template("no placeholder", &vec![]), Some(s("no placeholder")));
    assert_eq!(fill_template("{}{}", &texts(&["a", "b"])), Some(s("ab")));
    assert_eq!(fill_template("é{}ü", &texts(&["ß"])), Some(s("éßü")));
}

#[test]
fn doubled_braces_stand_for_one() {
    assert_eq!(fill_template("{{}}", &vec![]), Some(s("{}")));
    assert_eq!(fill_template("{{{}}}", &texts(&["x"])), Some(s("{x}")));
    assert_eq!(fill_template("a }} b {{ c", &vec![]), Some(s("a } b { c")));
}

#[test]
fn template_and_arguments_must_fit() {
    assert_eq!(fill_template("{}", &vec![]), None);
    assert_eq!(fill_template("{} {}", &texts(&["a"])), None);
    assert_eq!(fill_template("x", &texts(&["a"])), None);
    assert_eq!(fill_template("{} x", &texts(&["a", "b"])), None);
}

#[test]
fn other_uses_of_braces_are_not_filled() {
    assert_eq!(fill_template("{:?}", &texts(&["a"])), None);
    assert_eq!(fill_template("{0}", &texts(&["a"])), None);
    assert_eq!(fill_template("{", &vec![]), None);
    assert_eq!(fill_template("}", &vec![]), None);
    assert_eq!(fill_template("a } b", &vec![]), None);
}

#[test]
fn one_case_per_variant_in_order() {
    let variants = example();
    let a = generate("ExampleError", &variants);
    assert_eq!(a.target_name, "ExampleError");
    assert_eq!(a.cases.len(), variants.len());
    assert_eq!(a.debug.len(), variants.len());
    assert_eq!(a.display.len(), variants.len());
    assert_eq!(a.description.len(), variants.len());
    assert_eq!(a.cause.len(), variants.len());
    for i in 0..variants.len() {
        assert_eq!(a.cases[i].name, variants[i].name);
        assert_eq!(a.cases[i].kind, variants[i].kind);
        assert_eq!(a.cases[i].fields, variants[i].fields);
        assert_eq!(a.description[i].name, variants[i].name);
        assert_eq!(a.description[i].text, variants[i].short_description);
        assert_eq!(a.cause[i].source, variants[i].from_index);
    }
    assert_eq!(a.cases[0].doc, "/// Unit-like variant.");
    assert_eq!(a.debug[2].bindings, texts(&["flim", "flam"]));
    assert_eq!(a.display[2].long_description, variants[2].long_description);
    assert_eq!(generate("Empty", &vec![]).cases.len(), 0);
}

#[test]
fn unit_variant_texts() {
    let a = generate("ExampleError", &example());
    let x = Instance { case: 0, values: vec![] };
    assert!(a.holds(&x));
    assert_eq!(a.display_text(&x, &vec![]), Some(s("Unit-like variant. ")));
    assert_eq!(a.debug_text(&x, &vec![]), Some(s("AVariant /* Unit-like variant.  */")));
    assert_eq!(a.description(&x), "Unit-like variant");
    assert_eq!(a.cause(&x), None);
}

#[test]
fn unit_variant_with_long_description_texts() {
    let a = generate("ExampleError", &example());
    let x = Instance { case: 1, values: vec![] };
    assert_eq!(
        a.display_text(&x, &vec![]),
        Some(s("Unit-like variant. A more verbose description"))
    );
    assert_eq!(
        a.debug_text(&x, &vec![]),
        Some(s("AVariantWithALongDescription /* Unit-like variant. A more verbose description */"))
    );
    assert_eq!(a.description(&x), "Unit-like variant");
}

#[test]
fn struct_variant_texts() {
    let a = generate("ExampleError", &example());
    let x = Instance { case: 2, values: texts(&["123", "456"]) };
    assert!(a.holds(&x));
    let args = texts(&["123", "456"]);
    assert_eq!(
        a.display_text(&x, &args),
        Some(s("Variant with args. This is a format string. flim is 123. flam is 456."))
    );
    assert_eq!(
        a.debug_text(&x, &args),
        Some(s(
            "AVariantWithArgs { flim: 123, flam: 456 } /* Variant with args. This is a format string. flim is 123. flam is 456. */"
        ))
    );
    assert_eq!(a.description(&x), "Variant with args");
    assert_eq!(a.cause(&x), None);
}

#[test]
fn display_needs_one_value_per_argument() {
    let a = generate("ExampleError", &example());
    let x = Instance { case: 2, values: texts(&["123", "456"]) };
    assert_eq!(a.display_text(&x, &texts(&["123"])), None);
    assert_eq!(a.debug_text(&x, &texts(&["123"])), None);
    let unit = Instance { case: 0, values: vec![] };
    assert_eq!(a.display_text(&unit, &texts(&["123"])), None);
}

#[test]
fn debug_text_of_a_single_field() {
    let p = Pattern { name: s("V"), kind: VariantKind::Struct, bindings: texts(&["only"]) };
    assert_eq!(p.debug_text(&texts(&["true"]), "d"), "V { only: true } /* d */");
    let u = Pattern { name: s("U"), kind: VariantKind::Unit, bindings: vec![] };
    assert_eq!(u.debug_text(&vec![], ""), "U /*  */");
}

#[test]
fn display_arm_alone() {
    let arm = DisplayArm {
        pattern: Pattern { name: s("V"), kind: VariantKind::Unit, bindings: vec![] },
        short_description: s("short"),
        long_description: Some(LongDescription {
            format_template: s("{} and {{}}"),
            args: texts(&["e"]),
        }),
    };
    assert_eq!(arm.display_text(&texts(&["v"])), Some(s("short. v and {}")));
    assert_eq!(arm.display_text(&vec![]), None);
}

#[test]
fn conversion_of_a_single_marked_field_gives_its_cause() {
    let a = generate("ExampleError", &example());
    assert_eq!(
        a.conversions,
        vec![Conversion {
            case: 4,
            variant: s("AVariantWithJustACause"),
            field: s("blah"),
            ty: s("io::Error"),
        }]
    );
    let x = a.conversions[0].construct(s("You still can't do that!"));
    assert_eq!(x, Instance { case: 4, values: texts(&["You still can't do that!"]) });
    assert!(a.holds(&x));
    assert_eq!(a.cause(&x), Some(&s("You still can't do that!")));
    assert_eq!(a.description(&x), "This variant can be made `From` an `io::Error`");
    assert_eq!(
        a.display_text(&x, &vec![]),
        Some(s("This variant can be made `From` an `io::Error`. "))
    );
}

#[test]
fn two_fields_give_a_cause_and_no_conversion() {
    let a = generate("E", &vec![with_cause()]);
    assert_eq!(a.conversions, vec![]);
    let x = Instance { case: 0, values: texts(&["true", "denied"]) };
    assert!(a.holds(&x));
    assert_eq!(a.cause(&x), Some(&s("denied")));
    assert_eq!(
        a.display_text(&x, &texts(&["denied"])),
        Some(s("Variant with a cause. self.cause() would return Some(denied)"))
    );
}

#[test]
fn marked_first_of_two_fields_gives_no_conversion() {
    let v = VariantSpec { from_index: Some(0), ..with_cause() };
    let a = generate("E", &vec![v]);
    assert_eq!(a.conversions, vec![]);
    let x = Instance { case: 0, values: texts(&["true", "denied"]) };
    assert_eq!(a.cause(&x), Some(&s("true")));
}

#[test]
fn variants_without_a_marked_field_have_no_cause() {
    let a = generate("ExampleError", &example());
    for (case, values) in [(0, vec![]), (1, vec![]), (2, texts(&["1", "2"]))] {
        let x = Instance { case, values };
        assert_eq!(a.cause(&x), None);
    }
    let arm = CauseArm {
        pattern: Pattern { name: s("V"), kind: VariantKind::Struct, bindings: texts(&["a"]) },
        source: None,
    };
    assert_eq!(arm.cause(&texts(&["1"])), None);
}

#[test]
fn several_conversions_keep_the_order_of_the_variants() {
    let other = VariantSpec { name: s("Other"), ..just_cause() };
    let a = generate("E", &vec![just_cause(), with_args(), other]);
    let cases: Vec<usize> = a.conversions.iter().map(|c| c.case).collect();
    assert_eq!(cases, vec![0, 2]);
    assert_eq!(a.conversions[1].variant, "Other");
}

#[test]
fn values_must_fit_their_case() {
    let a = generate("ExampleError", &example());
    assert!(!a.holds(&Instance { case: 5, values: vec![] }));
    assert!(!a.holds(&Instance { case: 2, values: texts(&["1"]) }));
    assert!(a.holds(&Instance { case: 3, values: texts(&["true", "e"]) }));
}

#[test]
fn rendering_and_parsing_again_gives_the_same_variants() {
    let mut variants = example();
    variants[3].fields[0].attributes =
        vec![Attribute { path: s("doc"), body: s(" = \"a flag\"") }];
    let tokens = render_variants(&variants);
    assert_eq!(parse_variants(&tokens), Ok(variants.clone()));
    let again = render_variants(&parse_variants(&tokens).unwrap());
    assert_eq!(again, tokens);
    assert_eq!(render_variants(&vec![]), vec![]);
}

#[test]
fn rendering_writes_every_separator() {
    let tokens = render_variants(&vec![just_cause()]);
    assert_eq!(
        tokens,
        vec![
            Token::Ident(s("AVariantWithJustACause")),
            Token::OpenBrace,
            Token::Attribute(Attribute { path: s("from"), body: s("") }),
            Token::Ident(s("blah")),
            Token::Colon,
            Token::Type(s("io::Error")),
            Token::Comma,
            Token::CloseBrace,
            Token::FatArrow,
            Token::Str(s("This variant can be made `From` an `io::Error`")),
            Token::Comma,
        ]
    );
    let tokens = render_variants(&vec![with_args()]);
    assert_eq!(tokens.len(), 21);
    assert_eq!(tokens[16], Token::Expr(s("flim")));
}

#[test]
fn well_formedness_is_tested() {
    assert!(example().iter().all(|v| v.is_wf()));
    assert!(!VariantSpec { from_index: Some(0), ..unit("A", "a") }.is_wf());
    assert!(!VariantSpec { kind: VariantKind::Struct, ..unit("A", "a") }.is_wf());
    assert!(!VariantSpec { from_index: Some(2), ..with_args() }.is_wf());
    assert!(!VariantSpec { kind: VariantKind::Unit, ..with_args() }.is_wf());
    let mut marked = with_args();
    marked.fields[1].attributes = vec![Attribute { path: s("from"), body: s("") }];
    assert!(!marked.is_wf());
}

#[test]
fn compiling_gives_all_artifacts_or_one_failure() {
    let tokens = render_variants(&example());
    let a = compile("ExampleError", &tokens).unwrap();
    assert_eq!(a, generate("ExampleError", &example()));
    assert_eq!(a.cases.len(), 5);
    let mut broken = tokens.clone();
    broken.push(Token::FatArrow);
    assert_eq!(
        compile("ExampleError", &broken),
        Err(ParseFailure { position: tokens.len(), kind: FailureKind::ExpectedVariantName })
    );
    let twice = vec![
        Token::Ident(s("A")),
        Token::OpenBrace,
        Token::Attribute(Attribute { path: s("from"), body: s("") }),
        Token::Attribute(Attribute { path: s("from"), body: s("(again)") }),
    ];
    assert_eq!(
        compile("E", &twice),
        Err(ParseFailure { position: 3, kind: FailureKind::FromMarkedTwice })
    );
    let no_arrow = vec![Token::Ident(s("A")), Token::Str(s("a"))];
    assert_eq!(
        compile("E", &no_arrow),
        Err(ParseFailure { position: 1, kind: FailureKind::ExpectedArrowOrFields })
    );
}
