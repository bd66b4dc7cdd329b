//! The parser: it reads a definition token by token, or a whole stream at
//! once, and gives the variants or the first failure.

use vstd::prelude::*;
use crate::machine::{blank_variant, parsed, FailureModel, ParserModel, Stage};
use crate::model::{
    all_wf, index_model, is_marker, lemma_models_empty, lemma_models_push, models, Attribute, FieldSpec,
    LongDescription, VariantKind, VariantModel, VariantSpec,
};
use crate::token::{FailureKind, ParseFailure, Token};
use crate::validity::{lemma_failure_within, lemma_fed_inv, lemma_fed_position, lemma_finished_wf};

verus! {

/// What the parser is ready to read next, for a host that delimits the
/// opaque terminals on demand.
#[derive(Clone, Copy, Debug, PartialEq, Eq, Structural)]
pub enum Expectation {
    /// A plain token, or the end of the stream.
    Token,
    /// An attribute if one stands next, else a plain token.
    Field,
    /// A type reference.
    Type,
    /// An expression.
    Expr,
    /// Nothing: the parse has failed.
    Nothing,
}

/// What a parser in the given state is ready to read.
pub open spec fn expected(m: ParserModel) -> Expectation {
    if m.failure is Some {
        Expectation::Nothing
    } else {
        match m.stage {
            Stage::FieldOpen | Stage::FieldNext => Expectation::Field,
            Stage::FieldColon => Expectation::Type,
            Stage::LongComma => Expectation::Expr,
            _ => Expectation::Token,
        }
    }
}

/// The value of a parse's outcome.
pub open spec fn outcome_model(r: Result<Vec<VariantSpec>, ParseFailure>) -> Result<
    Seq<VariantModel>,
    FailureModel,
> {
    match r {
        Ok(v) => Ok(models(v@)),
        Err(e) => Err(e@),
    }
}

/// A parser of one definition.
pub struct Parser {
    stage: Stage,
    position: usize,
    done: Vec<VariantSpec>,
    current: VariantSpec,
    attributes: Vec<Attribute>,
    marker: Option<usize>,
    field_name: String,
    failure: Option<ParseFailure>,
}

impl View for Parser {
    type V = ParserModel;

    closed spec fn view(&self) -> ParserModel {
        ParserModel {
            stage: self.stage,
            position: self.position as nat,
            done: models(self.done@),
            current: self.current@,
            attributes: models(self.attributes@),
            marker: index_model(self.marker),
            field_name: self.field_name@,
            failure: match self.failure {
                Some(f) => Some(f@),
                None => None,
            },
        }
    }
}

fn blank() -> (r: VariantSpec)
    ensures
        r@ == blank_variant(),
{
    let r = VariantSpec {
        name: String::new(),
        kind: VariantKind::Unit,
        fields: Vec::new(),
        from_index: None,
        short_description: String::new(),
        long_description: None,
    };
    proof {
        lemma_models_empty::<FieldSpec>();
        assert(r.fields@ =~= Seq::empty());
    }
    r
}

impl Parser {
    /// A parser that has read nothing.
    pub fn new() -> (r: Parser)
        ensures
            r@ == ParserModel::initial(),
            r@.inv(),
    {
        let r = Parser {
            stage: Stage::Start,
            position: 0,
            done: Vec::new(),
            current: blank(),
            attributes: Vec::new(),
            marker: None,
            field_name: String::new(),
            failure: None,
        };
        proof {
            lemma_models_empty::<VariantSpec>();
            lemma_models_empty::<Attribute>();
            assert(r.done@ =~= Seq::empty());
            assert(r.attributes@ =~= Seq::empty());
        }
        r
    }

    /// What the parser is ready to read next.
    pub fn expects(&self) -> (r: Expectation)
        ensures
            r == expected(self@),
    {
        if self.failure.is_some() {
            Expectation::Nothing
        } else {
            match self.stage {
                Stage::FieldOpen | Stage::FieldNext => Expectation::Field,
                Stage::FieldColon => Expectation::Type,
                Stage::LongComma => Expectation::Expr,
                _ => Expectation::Token,
            }
        }
    }

    /// How many tokens have been read.
    pub fn position(&self) -> (r: usize)
        ensures
            r == self@.position,
    {
        self.position
    }

    fn fail_at(&mut self, position: usize, kind: FailureKind)
        ensures
            final(self)@ == old(self)@.failed_at(position as nat, kind),
    {
        self.failure = Some(ParseFailure { position, kind });
    }

    fn fail(&mut self, kind: FailureKind)
        ensures
            final(self)@ == old(self)@.failed(kind),
    {
        let position = self.position;
        self.fail_at(position, kind);
    }

    fn advance(&mut self, stage: Stage)
        requires
            old(self)@.position < usize::MAX,
        ensures
            final(self)@ == old(self)@.moved(stage),
    {
        self.stage = stage;
        self.position = self.position + 1;
    }

    fn read_attribute(&mut self, a: Attribute)
        requires
            old(self)@.position < usize::MAX,
            old(self)@.failure is None,
        ensures
            final(self)@ == old(self)@.attribute_read(a@),
    {
        if is_marker(&a) {
            if self.marker.is_some() {
                self.fail(FailureKind::FromMarkedTwice);
            } else {
                self.marker = Some(self.position);
                self.advance(Stage::FieldOpen);
            }
        } else {
            proof {
                lemma_models_push(self.attributes@, a);
            }
            self.attributes.push(a);
            self.advance(Stage::FieldOpen);
        }
    }

    fn begin_field(&mut self, token: Token)
        requires
            old(self)@.position < usize::MAX,
            old(self)@.failure is None,
        ensures
            final(self)@ == old(self)@.field_begun(token@),
    {
        if self.marker.is_some() && self.current.from_index.is_some() {
            let at = self.marker.unwrap();
            self.fail_at(at, FailureKind::MultipleFromFields);
        } else {
            match token {
                Token::Ident(name) => {
                    if self.marker.is_some() {
                        self.current.from_index = Some(self.current.fields.len());
                    }
                    self.field_name = name;
                    self.advance(Stage::FieldNamed);
                },
                _ => {
                    self.fail(FailureKind::ExpectedNamedField);
                },
            }
        }
    }

    fn read_type(&mut self, ty: String)
        requires
            old(self)@.position < usize::MAX,
            old(self)@.failure is None,
        ensures
            final(self)@ == old(self)@.field_read(ty@),
    {
        let mut name = String::new();
        let mut attributes: Vec<Attribute> = Vec::new();
        core::mem::swap(&mut name, &mut self.field_name);
        core::mem::swap(&mut attributes, &mut self.attributes);
        let field = FieldSpec { name, ty, attributes };
        proof {
            lemma_models_push(self.current.fields@, field);
            lemma_models_empty::<Attribute>();
            assert(self.attributes@ =~= Seq::empty());
        }
        self.current.fields.push(field);
        self.marker = None;
        self.advance(Stage::FieldTyped);
    }

    fn read_argument(&mut self, e: String)
        requires
            old(self)@.position < usize::MAX,
            old(self)@.failure is None,
        ensures
            final(self)@ == old(self)@.argument_read(e@),
    {
        let mut long: Option<LongDescription> = None;
        core::mem::swap(&mut long, &mut self.current.long_description);
        let mut l = match long {
            Some(l) => l,
            None => {
                proof {
                    lemma_models_empty::<String>();
                }
                let args: Vec<String> = Vec::new();
                assert(args@ =~= Seq::empty());
                LongDescription { format_template: String::new(), args }
            },
        };
        proof {
            lemma_models_push(l.args@, e);
        }
        l.args.push(e);
        self.current.long_description = Some(l);
        self.advance(Stage::LongArgs);
    }

    fn end_variant(&mut self)
        requires
            old(self)@.position < usize::MAX,
            old(self)@.failure is None,
        ensures
            final(self)@ == old(self)@.variant_read(),
    {
        let mut v = blank();
        core::mem::swap(&mut v, &mut self.current);
        proof {
            lemma_models_push(self.done@, v);
        }
        self.done.push(v);
        self.advance(Stage::Start);
    }

    /// Reads one more token. After a failure nothing is read any more.
    pub fn feed(&mut self, token: Token)
        requires
            old(self)@.position < usize::MAX,
        ensures
            final(self)@ == old(self)@.fed(token@),
            old(self)@.inv() ==> final(self)@.inv(),
    {
        proof {
            if self@.inv() {
                lemma_fed_inv(self@, token@);
            }
        }
        if self.failure.is_some() {
            return ;
        }
        match self.stage {
            Stage::Start => match token {
                Token::Ident(name) => {
                    let mut v = blank();
                    v.name = name;
                    self.current = v;
                    self.advance(Stage::Named);
                },
                _ => self.fail(FailureKind::ExpectedVariantName),
            },
            Stage::Named => match token {
                Token::FatArrow => self.advance(Stage::Arrow),
                Token::OpenBrace => {
                    self.current.kind = VariantKind::Struct;
                    self.advance(Stage::FieldOpen);
                },
                _ => self.fail(FailureKind::ExpectedArrowOrFields),
            },
            Stage::FieldOpen => match token {
                Token::Attribute(a) => self.read_attribute(a),
                _ => self.begin_field(token),
            },
            Stage::FieldNext => match token {
                Token::Attribute(a) => self.read_attribute(a),
                Token::CloseBrace => self.advance(Stage::Closed),
                _ => self.begin_field(token),
            },
            Stage::FieldNamed => match token {
                Token::Colon => self.advance(Stage::FieldColon),
                _ => self.fail(FailureKind::ExpectedColon),
            },
            Stage::FieldColon => match token {
                Token::Type(ty) => self.read_type(ty),
                _ => self.fail(FailureKind::ExpectedFieldType),
            },
            Stage::FieldTyped => match token {
                Token::Comma => self.advance(Stage::FieldNext),
                Token::CloseBrace => self.advance(Stage::Closed),
                _ => self.fail(FailureKind::ExpectedFieldEnd),
            },
            Stage::Closed => match token {
                Token::FatArrow => self.advance(Stage::Arrow),
                _ => self.fail(FailureKind::ExpectedArrow),
            },
            Stage::Arrow => match token {
                Token::Str(s) => {
                    self.current.short_description = s;
                    self.advance(Stage::Described);
                },
                _ => self.fail(FailureKind::ExpectedShortDescription),
            },
            Stage::Described => match token {
                Token::OpenParen => self.advance(Stage::LongOpen),
                Token::Comma => self.end_variant(),
                _ => self.fail(FailureKind::ExpectedComma),
            },
            Stage::LongOpen => match token {
                Token::Str(s) => {
                    proof {
                        lemma_models_empty::<String>();
                    }
                    let args: Vec<String> = Vec::new();
                    assert(args@ =~= Seq::empty());
                    self.current.long_description = Some(
                        LongDescription { format_template: s, args },
                    );
                    self.advance(Stage::LongArgs);
                },
                _ => self.fail(FailureKind::ExpectedFormatTemplate),
            },
            Stage::LongArgs => match token {
                Token::Comma => self.advance(Stage::LongComma),
                Token::CloseParen => self.advance(Stage::Finished),
                _ => self.fail(FailureKind::ExpectedArgumentEnd),
            },
            Stage::LongComma => match token {
                Token::Expr(e) => self.read_argument(e),
                _ => self.fail(FailureKind::ExpectedArgument),
            },
            Stage::Finished => match token {
                Token::Comma => self.end_variant(),
                _ => self.fail(FailureKind::ExpectedComma),
            },
        }
    }

    /// Ends the stream: the variants read, where a definition may end
    /// here, and else the failure.
    pub fn finish(self) -> (r: Result<Vec<VariantSpec>, ParseFailure>)
        ensures
            outcome_model(r) == self@.finished(),
            self@.inv() ==> (r matches Ok(v) ==> all_wf(models(v@))),
            self@.inv() ==> (r matches Err(e) ==> e.position <= self@.position),
    {
        proof {
            if self@.inv() {
                lemma_finished_wf(self@);
            }
        }
        let Parser { stage, position, done, current, marker, failure, .. } = self;
        match failure {
            Some(f) => Err(f),
            None => match stage {
                Stage::Start => Ok(done),
                Stage::Described | Stage::Finished => {
                    let mut done = done;
                    proof {
                        lemma_models_push(done@, current);
                    }
                    done.push(current);
                    Ok(done)
                },
                Stage::FieldOpen | Stage::FieldNext => {
                    if marker.is_some() && current.from_index.is_some() {
                        Err(
                            ParseFailure {
                                position: marker.unwrap(),
                                kind: FailureKind::MultipleFromFields,
                            },
                        )
                    } else {
                        Err(ParseFailure { position, kind: FailureKind::ExpectedNamedField })
                    }
                },
                Stage::Named => Err(
                    ParseFailure { position, kind: FailureKind::ExpectedArrowOrFields },
                ),
                Stage::FieldNamed => Err(
                    ParseFailure { position, kind: FailureKind::ExpectedColon },
                ),
                Stage::FieldColon => Err(
                    ParseFailure { position, kind: FailureKind::ExpectedFieldType },
                ),
                Stage::FieldTyped => Err(
                    ParseFailure { position, kind: FailureKind::ExpectedFieldEnd },
                ),
                Stage::Closed => Err(ParseFailure { position, kind: FailureKind::ExpectedArrow }),
                Stage::Arrow => Err(
                    ParseFailure { position, kind: FailureKind::ExpectedShortDescription },
                ),
                Stage::LongOpen => Err(
                    ParseFailure { position, kind: FailureKind::ExpectedFormatTemplate },
                ),
                Stage::LongArgs => Err(
                    ParseFailure { position, kind: FailureKind::ExpectedArgumentEnd },
                ),
                Stage::LongComma => Err(
                    ParseFailure { position, kind: FailureKind::ExpectedArgument },
                ),
            },
        }
    }
}

/// Parses a whole definition: the variants it lists, in order, or the
/// first failure met, and then no variant at all.
pub fn parse_variants(tokens: &Vec<Token>) -> (r: Result<Vec<VariantSpec>, ParseFailure>)
    ensures
        outcome_model(r) == parsed(models(tokens@)),
        r matches Ok(v) ==> all_wf(models(v@)),
        r matches Err(e) ==> e.position <= tokens.len(),
{
    proof {
        lemma_failure_within(models(tokens@));
    }
    let mut parser = Parser::new();
    let n: usize = tokens.len();
    let mut i: usize = 0;
    let ghost all = models(tokens@);
    assert(all.take(0) =~= Seq::empty());
    while i < n
        invariant
            n == tokens.len(),
            i <= n,
            all == models(tokens@),
            parser@ == ParserModel::initial().run(all.take(i as int)),
            parser@.position <= i,
            parser@.inv(),
        decreases n - i,
    {
        let token = tokens[i].duplicate();
        proof {
            let next = all.take(i + 1);
            assert(next.drop_last() =~= all.take(i as int));
            assert(next.last() == token@);
            lemma_fed_position(parser@, token@);
        }
        parser.feed(token);
        i = i + 1;
    }
    assert(all.take(n as int) =~= all);
    parser.finish()
}

} // verus!
