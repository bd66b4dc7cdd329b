use error_def::model::{Attribute, FieldSpec, LongDescription, VariantKind, VariantSpec};
use error_def::parser::{parse_variants, Expectation, Parser};
use error_def::token::{FailureKind, ParseFailure, Token};

fn ident(s: &str) -> Token {
    Token::Ident(s.to_string())
}

fn lit(s: &str) -> Token {
    Token::Str(s.to_string())
}

fn ty(s: &str) -> Token {
    Token::Type(s.to_string())
}

fn expr(s: &str) -> Token {
    Token::Expr(s.to_string())
}

fn attr(path: &str, body: &str) -> Token {
    Token::Attribute(Attribute { path: path.to_string(), body: body.to_string() })
}

fn field(name: &str, t: &str) -> Vec<Token> {
    vec![ident(name), Token::Colon, ty(t), Token::Comma]
}

fn plain(name: &str, t: &str) -> FieldSpec {
    FieldSpec { name: name.to_string(), ty: t.to_string(), attributes: vec![] }
}

fn failure(position: usize, kind: FailureKind) -> Result<Vec<VariantSpec>, ParseFailure> {
    Err(ParseFailure { position, kind })
}

fn example() -> Vec<Token> {
    let mut t = vec![ident("AVariant"), Token::FatArrow, lit("Unit-like variant"), Token::Comma];
    t.extend(vec![
        ident("AVariantWithALongDescription"),
        Token::FatArrow,
        lit("Unit-like variant"),
        Token::OpenParen,
        lit("A more verbose description"),
        Token::CloseParen,
        Token::Comma,
    ]);
    t.extend(vec![ident("AVariantWithArgs"), Token::OpenBrace]);
    t.extend(field("flim", "u32"));
    t.extend(field("flam", "u32"));
    t.extend(vec![
        Token::CloseBrace,
        Token::FatArrow,
        lit("Variant with args"),
        Token::OpenParen,
        lit("This is a format string. flim is {}. flam is {}."),
        Token::Comma,
        expr("flim"),
        Token::Comma,
        expr("flam"),
        Token::CloseParen,
        Token::Comma,
    ]);
    t.extend(vec![ident("AVariantWithACause"), Token::OpenBrace]);
    t.extend(field("blah", "bool"));
    t.push(attr("from", ""));
    t.extend(field("cause", "io::Error"));
    t.extend(vec![
        Token::CloseBrace,
        Token::FatArrow,
        lit("Variant with a cause"),
        Token::OpenParen,
        lit("self.cause() would return Some({})"),
        Token::Comma,
        expr("cause"),
        Token::CloseParen,
        Token::Comma,
    ]);
    t.extend(vec![ident("AVariantWithJustACause"), Token::OpenBrace, attr("from", "")]);
    t.extend(field("blah", "io::Error"));
    t.extend(vec![
        Token::CloseBrace,
        Token::FatArrow,
        lit("This variant can be made `From` an `io::Error`"),
    ]);
    t
}

#[test]
fn empty_stream_gives_no_variant() {
    assert_eq!(parse_variants(&vec![]), Ok(vec![]));
}

#[test]
fn unit_variant_is_parsed() {
    let tokens = vec![ident("AVariant"), Token::FatArrow, lit("Unit-like variant")];
    let expected = VariantSpec {
        name: "AVariant".to_string(),
        kind: VariantKind::Unit,
        fields: vec![],
        from_index: None,
        short_description: "Unit-like variant".to_string(),
        long_description: None,
    };
    assert_eq!(parse_variants(&tokens), Ok(vec![expected]));
}

#[test]
fn trailing_comma_is_accepted() {
    let with = vec![ident("A"), Token::FatArrow, lit("a"), Token::Comma];
    let without = vec![ident("A"), Token::FatArrow, lit("a")];
    assert_eq!(parse_variants(&with), parse_variants(&without));
    assert!(parse_variants(&with).is_ok());
}

#[test]
fn whole_definition_is_parsed_in_order() {
    let variants = parse_variants(&example()).unwrap();
    assert_eq!(variants.len(), 5);
    let names: Vec<&str> = variants.iter().map(|v| v.name.as_str()).collect();
    assert_eq!(
        names,
        vec![
            "AVariant",
            "AVariantWithALongDescription",
            "AVariantWithArgs",
            "AVariantWithACause",
            "AVariantWithJustACause",
        ]
    );
    assert_eq!(variants[0].kind, VariantKind::Unit);
    assert_eq!(variants[1].kind, VariantKind::Unit);
    assert_eq!(
        variants[1].long_description,
        Some(LongDescription {
            format_template: "A more verbose description".to_string(),
            args: vec![],
        })
    );
    assert_eq!(variants[2].kind, VariantKind::Struct);
    assert_eq!(variants[2].fields, vec![plain("flim", "u32"), plain("flam", "u32")]);
    assert_eq!(variants[2].from_index, None);
    assert_eq!(
        variants[2].long_description,
        Some(LongDescription {
            format_template: "This is a format string. flim is {}. flam is {}.".to_string(),
            args: vec!["flim".to_string(), "flam".to_string()],
        })
    );
    assert_eq!(variants[3].fields, vec![plain("blah", "bool"), plain("cause", "io::Error")]);
    assert_eq!(variants[3].from_index, Some(1));
    assert_eq!(variants[4].fields, vec![plain("blah", "io::Error")]);
    assert_eq!(variants[4].from_index, Some(0));
    assert_eq!(variants[4].long_description, None);
    assert!(variants.iter().all(|v| v.is_wf()));
}

#[test]
fn last_field_needs_no_comma() {
    let tokens = vec![
        ident("A"),
        Token::OpenBrace,
        ident("x"),
        Token::Colon,
        ty("u8"),
        Token::CloseBrace,
        Token::FatArrow,
        lit("a"),
    ];
    let variants = parse_variants(&tokens).unwrap();
    assert_eq!(variants[0].fields, vec![plain("x", "u8")]);
}

#[test]
fn other_attributes_are_kept_and_the_marker_is_taken_out() {
    let tokens = vec![
        ident("A"),
        Token::OpenBrace,
        attr("doc", " = \"first\""),
        attr("from", ""),
        attr("allow", "(unused)"),
        ident("x"),
        Token::Colon,
        ty("u8"),
        Token::Comma,
        Token::CloseBrace,
        Token::FatArrow,
        lit("a"),
    ];
    let variants = parse_variants(&tokens).unwrap();
    assert_eq!(variants[0].from_index, Some(0));
    assert_eq!(
        variants[0].fields[0].attributes,
        vec![
            Attribute { path: "doc".to_string(), body: " = \"first\"".to_string() },
            Attribute { path: "allow".to_string(), body: "(unused)".to_string() },
        ]
    );
}

#[test]
fn variant_must_begin_with_a_name() {
    let tokens = vec![Token::FatArrow, lit("a")];
    assert_eq!(parse_variants(&tokens), failure(0, FailureKind::ExpectedVariantName));
    let tokens = vec![ident("A"), Token::FatArrow, lit("a"), Token::Comma, lit("b")];
    assert_eq!(parse_variants(&tokens), failure(4, FailureKind::ExpectedVariantName));
}

#[test]
fn missing_arrow_is_a_failure() {
    let tokens = vec![ident("A"), lit("a")];
    assert_eq!(parse_variants(&tokens), failure(1, FailureKind::ExpectedArrowOrFields));
    let tokens = vec![ident("A")];
    assert_eq!(parse_variants(&tokens), failure(1, FailureKind::ExpectedArrowOrFields));
}

#[test]
fn missing_arrow_after_fields_is_a_failure() {
    let mut tokens = vec![ident("A"), Token::OpenBrace];
    tokens.extend(field("x", "u8"));
    tokens.extend(vec![Token::CloseBrace, lit("a")]);
    assert_eq!(parse_variants(&tokens), failure(7, FailureKind::ExpectedArrow));
}

#[test]
fn field_marked_twice_is_a_failure() {
    let mut tokens = vec![ident("A"), Token::OpenBrace, attr("from", ""), attr("from", "")];
    tokens.extend(field("x", "u8"));
    tokens.extend(vec![Token::CloseBrace, Token::FatArrow, lit("a")]);
    assert_eq!(parse_variants(&tokens), failure(3, FailureKind::FromMarkedTwice));
}

#[test]
fn two_marked_fields_are_a_failure() {
    let mut tokens = vec![ident("A"), Token::OpenBrace, attr("from", "")];
    tokens.extend(field("x", "u8"));
    tokens.push(attr("from", ""));
    tokens.extend(field("y", "u8"));
    tokens.extend(vec![Token::CloseBrace, Token::FatArrow, lit("a")]);
    assert_eq!(parse_variants(&tokens), failure(7, FailureKind::MultipleFromFields));
}

#[test]
fn twice_on_one_field_is_found_before_two_fields() {
    let mut tokens = vec![ident("A"), Token::OpenBrace, attr("from", "")];
    tokens.extend(field("x", "u8"));
    tokens.extend(vec![attr("from", ""), attr("from", "")]);
    tokens.extend(field("y", "u8"));
    assert_eq!(parse_variants(&tokens), failure(8, FailureKind::FromMarkedTwice));
}

#[test]
fn unnamed_field_is_a_failure() {
    let tokens = vec![ident("A"), Token::OpenBrace, ty("u8"), Token::Comma, Token::CloseBrace];
    assert_eq!(parse_variants(&tokens), failure(2, FailureKind::ExpectedNamedField));
}

#[test]
fn empty_field_block_is_a_failure() {
    let tokens = vec![ident("A"), Token::OpenBrace, Token::CloseBrace, Token::FatArrow, lit("a")];
    assert_eq!(parse_variants(&tokens), failure(2, FailureKind::ExpectedNamedField));
}

#[test]
fn field_needs_colon_type_and_end() {
    let tokens = vec![ident("A"), Token::OpenBrace, ident("x"), ty("u8")];
    assert_eq!(parse_variants(&tokens), failure(3, FailureKind::ExpectedColon));
    let tokens = vec![ident("A"), Token::OpenBrace, ident("x"), Token::Colon, ident("u8")];
    assert_eq!(parse_variants(&tokens), failure(4, FailureKind::ExpectedFieldType));
    let tokens =
        vec![ident("A"), Token::OpenBrace, ident("x"), Token::Colon, ty("u8"), ident("y")];
    assert_eq!(parse_variants(&tokens), failure(5, FailureKind::ExpectedFieldEnd));
}

#[test]
fn short_description_must_be_a_literal() {
    let tokens = vec![ident("A"), Token::FatArrow, expr("\"a\".to_string()")];
    assert_eq!(parse_variants(&tokens), failure(2, FailureKind::ExpectedShortDescription));
    let tokens = vec![ident("A"), Token::FatArrow];
    assert_eq!(parse_variants(&tokens), failure(2, FailureKind::ExpectedShortDescription));
}

#[test]
fn long_description_failures() {
    let head = vec![ident("A"), Token::FatArrow, lit("a"), Token::OpenParen];
    let mut tokens = head.clone();
    tokens.push(ident("x"));
    assert_eq!(parse_variants(&tokens), failure(4, FailureKind::ExpectedFormatTemplate));
    let mut tokens = head.clone();
    tokens.extend(vec![lit("{}"), expr("x")]);
    assert_eq!(parse_variants(&tokens), failure(5, FailureKind::ExpectedArgumentEnd));
    let mut tokens = head.clone();
    tokens.extend(vec![lit("{}"), Token::Comma, Token::CloseParen]);
    assert_eq!(parse_variants(&tokens), failure(6, FailureKind::ExpectedArgument));
    let mut tokens = head.clone();
    tokens.extend(vec![lit("{}"), Token::Comma, expr("x")]);
    assert_eq!(parse_variants(&tokens), failure(7, FailureKind::ExpectedArgumentEnd));
}

#[test]
fn missing_comma_between_variants_is_a_failure() {
    let tokens = vec![ident("A"), Token::FatArrow, lit("a"), ident("B"), Token::FatArrow, lit("b")];
    assert_eq!(parse_variants(&tokens), failure(3, FailureKind::ExpectedComma));
    let tokens = vec![
        ident("A"),
        Token::FatArrow,
        lit("a"),
        Token::OpenParen,
        lit("x"),
        Token::CloseParen,
        Token::Other(";".to_string()),
    ];
    assert_eq!(parse_variants(&tokens), failure(6, FailureKind::ExpectedComma));
}

#[test]
fn failure_gives_no_variant_and_is_the_first() {
    let mut tokens = example();
    tokens.extend(vec![Token::Comma, ident("Broken"), lit("no arrow"), Token::Comma]);
    let position = example().len() + 2;
    assert_eq!(parse_variants(&tokens), failure(position, FailureKind::ExpectedArrowOrFields));
    tokens.extend(vec![Token::FatArrow, Token::FatArrow]);
    assert_eq!(parse_variants(&tokens), failure(position, FailureKind::ExpectedArrowOrFields));
}

#[test]
fn failures_have_their_messages() {
    let text = |kind| ParseFailure { position: 0, kind }.message();
    assert_eq!(text(FailureKind::ExpectedVariantName), "expected variant name");
    assert_eq!(text(FailureKind::ExpectedArrowOrFields), "expected `=>` or a field block");
    assert_eq!(text(FailureKind::FromMarkedTwice), "Field marked #[from] twice");
    assert_eq!(text(FailureKind::MultipleFromFields), "Multiple fields marked #[from]");
    assert_eq!(text(FailureKind::ExpectedNamedField), "Expected a named field");
    assert_eq!(text(FailureKind::ExpectedComma), "expected comma");
}

#[test]
fn parser_says_what_it_is_ready_for() {
    let mut p = Parser::new();
    assert_eq!(p.expects(), Expectation::Token);
    p.feed(ident("A"));
    assert_eq!(p.expects(), Expectation::Token);
    p.feed(Token::OpenBrace);
    assert_eq!(p.expects(), Expectation::Field);
    p.feed(attr("from", ""));
    assert_eq!(p.expects(), Expectation::Field);
    p.feed(ident("x"));
    assert_eq!(p.expects(), Expectation::Token);
    p.feed(Token::Colon);
    assert_eq!(p.expects(), Expectation::Type);
    p.feed(ty("u8"));
    assert_eq!(p.expects(), Expectation::Token);
    p.feed(Token::Comma);
    assert_eq!(p.expects(), Expectation::Field);
    p.feed(Token::CloseBrace);
    p.feed(Token::FatArrow);
    p.feed(lit("a"));
    p.feed(Token::OpenParen);
    p.feed(lit("{}"));
    assert_eq!(p.expects(), Expectation::Token);
    p.feed(Token::Comma);
    assert_eq!(p.expects(), Expectation::Expr);
    p.feed(expr("x"));
    p.feed(Token::CloseParen);
    assert_eq!(p.position(), 15);
    let variants = p.finish().unwrap();
    assert_eq!(variants.len(), 1);
    assert_eq!(variants[0].from_index, Some(0));
}

#[test]
fn parser_reads_nothing_after_its_failure() {
    let mut p = Parser::new();
    p.feed(ident("A"));
    p.feed(Token::Comma);
    assert_eq!(p.expects(), Expectation::Nothing);
    p.feed(Token::FatArrow);
    p.feed(lit("a"));
    assert_eq!(p.position(), 1);
    assert_eq!(p.finish(), failure(1, FailureKind::ExpectedArrowOrFields));
}
