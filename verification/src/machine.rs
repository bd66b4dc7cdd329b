//! The grammar as a machine: what the parser holds after each token, and
//! what a stream of tokens denotes.

use vstd::prelude::*;
use crate::model::{
    from_marker, AttributeModel, FieldModel, LongModel, VariantKind, VariantModel,
};
use crate::token::{FailureKind, ParseFailure, TokenModel};

verus! {

/// Where the parser stands between two tokens.
#[derive(Clone, Copy, Debug, PartialEq, Eq, Structural)]
pub enum Stage {
    /// Before a variant: a name or the end may come.
    Start,
    /// After a variant's name.
    Named,
    /// At a field that must come: after `{`, or after an attribute.
    FieldOpen,
    /// After the `,` that ends a field: a field or `}` may come.
    FieldNext,
    /// After a field's name.
    FieldNamed,
    /// After a field's `:`.
    FieldColon,
    /// After a field's type.
    FieldTyped,
    /// After the `}` of a field block.
    Closed,
    /// After `=>`.
    Arrow,
    /// After the short description.
    Described,
    /// After the `(` of a long description.
    LongOpen,
    /// After the format template, or after one of its arguments.
    LongArgs,
    /// After a `,` in a long description.
    LongComma,
    /// After the `)` of a long description.
    Finished,
}

/// The value of a [`ParseFailure`].
pub struct FailureModel {
    pub position: nat,
    pub kind: FailureKind,
}

impl View for ParseFailure {
    type V = FailureModel;

    open spec fn view(&self) -> FailureModel {
        FailureModel { position: self.position as nat, kind: self.kind }
    }
}

/// A variant of which nothing has been read yet.
pub open spec fn blank_variant() -> VariantModel {
    VariantModel {
        name: Seq::empty(),
        kind: VariantKind::Unit,
        fields: Seq::empty(),
        from_index: None,
        short_description: Seq::empty(),
        long_description: None,
    }
}

/// Everything the parser holds between two tokens.
pub struct ParserModel {
    /// Where it stands.
    pub stage: Stage,
    /// How many tokens it has read.
    pub position: nat,
    /// The variants read in full, in order.
    pub done: Seq<VariantModel>,
    /// The variant being read.
    pub current: VariantModel,
    /// The attributes kept for the field being read.
    pub attributes: Seq<AttributeModel>,
    /// Where the conversion marker of the field being read stood.
    pub marker: Option<nat>,
    /// The name of the field being read.
    pub field_name: Seq<char>,
    /// The failure, once there is one; nothing is read after it.
    pub failure: Option<FailureModel>,
}

impl ParserModel {
    /// The parser before the first token.
    pub open spec fn initial() -> ParserModel {
        ParserModel {
            stage: Stage::Start,
            position: 0,
            done: Seq::empty(),
            current: blank_variant(),
            attributes: Seq::empty(),
            marker: None,
            field_name: Seq::empty(),
            failure: None,
        }
    }

    /// The parser stopped by a failure found at `position`.
    pub open spec fn failed_at(self, position: nat, kind: FailureKind) -> ParserModel {
        ParserModel { failure: Some(FailureModel { position, kind }), ..self }
    }

    /// The parser stopped by a failure found at the token it was given.
    pub open spec fn failed(self, kind: FailureKind) -> ParserModel {
        self.failed_at(self.position, kind)
    }

    /// The parser one token on, at another stage.
    pub open spec fn moved(self, stage: Stage) -> ParserModel {
        ParserModel { stage, position: self.position + 1, ..self }
    }

    /// Whether the field being read is a second conversion source.
    pub open spec fn second_source(self) -> bool {
        self.marker is Some && self.current.from_index is Some
    }

    /// The parser at the end of a field's attributes, given the token that
    /// ends them. A second conversion source is reported where its marker
    /// stood, before the token itself is looked at.
    pub open spec fn field_begun(self, t: TokenModel) -> ParserModel {
        if self.second_source() {
            self.failed_at(self.marker->Some_0, FailureKind::MultipleFromFields)
        } else {
            match t {
                TokenModel::Ident(name) => ParserModel {
                    field_name: name,
                    current: VariantModel {
                        from_index: if self.marker is Some {
                            Some(self.current.fields.len())
                        } else {
                            self.current.from_index
                        },
                        ..self.current
                    },
                    ..self.moved(Stage::FieldNamed)
                },
                _ => self.failed(FailureKind::ExpectedNamedField),
            }
        }
    }

    /// The parser after an attribute of the field being read: the marker is
    /// taken out and remembered, any other attribute is kept.
    pub open spec fn attribute_read(self, a: AttributeModel) -> ParserModel {
        if a.path == from_marker() {
            if self.marker is Some {
                self.failed(FailureKind::FromMarkedTwice)
            } else {
                ParserModel { marker: Some(self.position), ..self.moved(Stage::FieldOpen) }
            }
        } else {
            ParserModel { attributes: self.attributes.push(a), ..self.moved(Stage::FieldOpen) }
        }
    }

    /// The parser after a field's type: the field is complete.
    pub open spec fn field_read(self, ty: Seq<char>) -> ParserModel {
        ParserModel {
            current: VariantModel {
                fields: self.current.fields.push(
                    FieldModel { name: self.field_name, ty, attributes: self.attributes },
                ),
                ..self.current
            },
            attributes: Seq::empty(),
            marker: None,
            field_name: Seq::empty(),
            ..self.moved(Stage::FieldTyped)
        }
    }

    /// The parser after the `,` that ends a variant.
    pub open spec fn variant_read(self) -> ParserModel {
        ParserModel {
            done: self.done.push(self.current),
            current: blank_variant(),
            ..self.moved(Stage::Start)
        }
    }

    /// The parser after an argument of the long description.
    pub open spec fn argument_read(self, e: Seq<char>) -> ParserModel {
        let long = match self.current.long_description {
            Some(l) => l,
            None => LongModel { format_template: Seq::empty(), args: Seq::empty() },
        };
        ParserModel {
            current: VariantModel {
                long_description: Some(
                    LongModel { format_template: long.format_template, args: long.args.push(e) },
                ),
                ..self.current
            },
            ..self.moved(Stage::LongArgs)
        }
    }

    /// The parser after one more token. After a failure it stays as it is.
    pub open spec fn fed(self, t: TokenModel) -> ParserModel {
        if self.failure is Some {
            self
        } else {
            self.advanced(t)
        }
    }

    /// The parser that has not failed, after one more token.
    pub open spec fn advanced(self, t: TokenModel) -> ParserModel {
        match self.stage {
            Stage::Start => match t {
                TokenModel::Ident(name) => ParserModel {
                    current: VariantModel { name, ..blank_variant() },
                    ..self.moved(Stage::Named)
                },
                _ => self.failed(FailureKind::ExpectedVariantName),
            },
            Stage::Named => match t {
                TokenModel::FatArrow => self.moved(Stage::Arrow),
                TokenModel::OpenBrace => ParserModel {
                    current: VariantModel { kind: VariantKind::Struct, ..self.current },
                    ..self.moved(Stage::FieldOpen)
                },
                _ => self.failed(FailureKind::ExpectedArrowOrFields),
            },
            Stage::FieldOpen => match t {
                TokenModel::Attribute(a) => self.attribute_read(a),
                _ => self.field_begun(t),
            },
            Stage::FieldNext => match t {
                TokenModel::Attribute(a) => self.attribute_read(a),
                TokenModel::CloseBrace => self.moved(Stage::Closed),
                _ => self.field_begun(t),
            },
            Stage::FieldNamed => match t {
                TokenModel::Colon => self.moved(Stage::FieldColon),
                _ => self.failed(FailureKind::ExpectedColon),
            },
            Stage::FieldColon => match t {
                TokenModel::Type(ty) => self.field_read(ty),
                _ => self.failed(FailureKind::ExpectedFieldType),
            },
            Stage::FieldTyped => match t {
                TokenModel::Comma => self.moved(Stage::FieldNext),
                TokenModel::CloseBrace => self.moved(Stage::Closed),
                _ => self.failed(FailureKind::ExpectedFieldEnd),
            },
            Stage::Closed => match t {
                TokenModel::FatArrow => self.moved(Stage::Arrow),
                _ => self.failed(FailureKind::ExpectedArrow),
            },
            Stage::Arrow => match t {
                TokenModel::Str(s) => ParserModel {
                    current: VariantModel { short_description: s, ..self.current },
                    ..self.moved(Stage::Described)
                },
                _ => self.failed(FailureKind::ExpectedShortDescription),
            },
            Stage::Described => match t {
                TokenModel::OpenParen => self.moved(Stage::LongOpen),
                TokenModel::Comma => self.variant_read(),
                _ => self.failed(FailureKind::ExpectedComma),
            },
            Stage::LongOpen => match t {
                TokenModel::Str(s) => ParserModel {
                    current: VariantModel {
                        long_description: Some(
                            LongModel { format_template: s, args: Seq::empty() },
                        ),
                        ..self.current
                    },
                    ..self.moved(Stage::LongArgs)
                },
                _ => self.failed(FailureKind::ExpectedFormatTemplate),
            },
            Stage::LongArgs => match t {
                TokenModel::Comma => self.moved(Stage::LongComma),
                TokenModel::CloseParen => self.moved(Stage::Finished),
                _ => self.failed(FailureKind::ExpectedArgumentEnd),
            },
            Stage::LongComma => match t {
                TokenModel::Expr(e) => self.argument_read(e),
                _ => self.failed(FailureKind::ExpectedArgument),
            },
            Stage::Finished => match t {
                TokenModel::Comma => self.variant_read(),
                _ => self.failed(FailureKind::ExpectedComma),
            },
        }
    }

    /// What the parser gives where the stream ends here: the variants, where
    /// a definition may end at this stage, and else the failure that any
    /// wrong token would have met.
    pub open spec fn finished(self) -> Result<Seq<VariantModel>, FailureModel> {
        match self.failure {
            Some(f) => Err(f),
            None => self.ended(),
        }
    }

    /// What the parser that has not failed gives where the stream ends.
    pub open spec fn ended(self) -> Result<Seq<VariantModel>, FailureModel> {
        match self.stage {
            Stage::Start => Ok(self.done),
            Stage::Described | Stage::Finished => Ok(self.done.push(self.current)),
            Stage::FieldOpen | Stage::FieldNext => if self.second_source() {
                Err(
                    FailureModel {
                        position: self.marker->Some_0,
                        kind: FailureKind::MultipleFromFields,
                    },
                )
            } else {
                Err(
                    FailureModel {
                        position: self.position,
                        kind: FailureKind::ExpectedNamedField,
                    },
                )
            },
            _ => Err(FailureModel { position: self.position, kind: self.wanted() }),
        }
    }

    /// The failure that a wrong token meets at a stage where only one kind
    /// of failure can arise.
    pub open spec fn wanted(self) -> FailureKind {
        match self.stage {
            Stage::Start => FailureKind::ExpectedVariantName,
            Stage::Named => FailureKind::ExpectedArrowOrFields,
            Stage::FieldOpen | Stage::FieldNext => FailureKind::ExpectedNamedField,
            Stage::FieldNamed => FailureKind::ExpectedColon,
            Stage::FieldColon => FailureKind::ExpectedFieldType,
            Stage::FieldTyped => FailureKind::ExpectedFieldEnd,
            Stage::Closed => FailureKind::ExpectedArrow,
            Stage::Arrow => FailureKind::ExpectedShortDescription,
            Stage::LongOpen => FailureKind::ExpectedFormatTemplate,
            Stage::LongArgs => FailureKind::ExpectedArgumentEnd,
            Stage::LongComma => FailureKind::ExpectedArgument,
            Stage::Described | Stage::Finished => FailureKind::ExpectedComma,
        }
    }

    /// The parser after a run of tokens.
    pub open spec fn run(self, tokens: Seq<TokenModel>) -> ParserModel
        decreases tokens.len(),
    {
        if tokens.len() == 0 {
            self
        } else {
            self.run(tokens.drop_last()).fed(tokens.last())
        }
    }
}

/// What a whole stream of tokens denotes: the variants it lists, or the
/// first failure met in it.
pub open spec fn parsed(tokens: Seq<TokenModel>) -> Result<Seq<VariantModel>, FailureModel> {
    ParserModel::initial().run(tokens).finished()
}

} // verus!
