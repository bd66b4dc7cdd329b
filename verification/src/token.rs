//! The terminals of the definition grammar and the failures of a parse.

use vstd::prelude::*;
use vstd::string::*;
use crate::model::{Attribute, AttributeModel};

verus! {

/// One terminal of the grammar. Field types, format arguments and
/// attributes arrive as single terminals whose text the host has already
/// delimited; the parser carries that text and never reads it.
#[derive(Clone, Debug, PartialEq, Eq)]
pub enum Token {
    /// An identifier.
    Ident(String),
    /// `=>`
    FatArrow,
    /// `{`
    OpenBrace,
    /// `}`
    CloseBrace,
    /// `(`
    OpenParen,
    /// `)`
    CloseParen,
    /// `,`
    Comma,
    /// `:`
    Colon,
    /// A string literal, by its contents.
    Str(String),
    /// One attribute on a field.
    Attribute(Attribute),
    /// A type reference.
    Type(String),
    /// One expression.
    Expr(String),
    /// Any other token, by its text.
    Other(String),
}

/// The value of a [`Token`].
pub enum TokenModel {
    Ident(Seq<char>),
    FatArrow,
    OpenBrace,
    CloseBrace,
    OpenParen,
    CloseParen,
    Comma,
    Colon,
    Str(Seq<char>),
    Attribute(AttributeModel),
    Type(Seq<char>),
    Expr(Seq<char>),
    Other(Seq<char>),
}

impl View for Token {
    type V = TokenModel;

    open spec fn view(&self) -> TokenModel {
        match *self {
            Token::Ident(s) => TokenModel::Ident(s@),
            Token::FatArrow => TokenModel::FatArrow,
            Token::OpenBrace => TokenModel::OpenBrace,
            Token::CloseBrace => TokenModel::CloseBrace,
            Token::OpenParen => TokenModel::OpenParen,
            Token::CloseParen => TokenModel::CloseParen,
            Token::Comma => TokenModel::Comma,
            Token::Colon => TokenModel::Colon,
            Token::Str(s) => TokenModel::Str(s@),
            Token::Attribute(a) => TokenModel::Attribute(a@),
            Token::Type(s) => TokenModel::Type(s@),
            Token::Expr(s) => TokenModel::Expr(s@),
            Token::Other(s) => TokenModel::Other(s@),
        }
    }
}

impl Token {
    /// A copy of the token.
    pub fn duplicate(&self) -> (r: Token)
        ensures
            r@ == self@,
    {
        match self {
            Token::Ident(s) => Token::Ident(s.clone()),
            Token::FatArrow => Token::FatArrow,
            Token::OpenBrace => Token::OpenBrace,
            Token::CloseBrace => Token::CloseBrace,
            Token::OpenParen => Token::OpenParen,
            Token::CloseParen => Token::CloseParen,
            Token::Comma => Token::Comma,
            Token::Colon => Token::Colon,
            Token::Str(s) => Token::Str(s.clone()),
            Token::Attribute(a) => Token::Attribute(
                Attribute { path: a.path.clone(), body: a.body.clone() },
            ),
            Token::Type(s) => Token::Type(s.clone()),
            Token::Expr(s) => Token::Expr(s.clone()),
            Token::Other(s) => Token::Other(s.clone()),
        }
    }
}

/// Why a parse stopped.
#[derive(Clone, Copy, Debug, PartialEq, Eq, Structural)]
pub enum FailureKind {
    /// A variant must begin with its name.
    ExpectedVariantName,
    /// After the name comes `=>` or a field block.
    ExpectedArrowOrFields,
    /// One field carries the conversion marker twice.
    FromMarkedTwice,
    /// Two fields of one variant carry the conversion marker.
    MultipleFromFields,
    /// A field must begin with its name.
    ExpectedNamedField,
    /// After a field's name comes `:`.
    ExpectedColon,
    /// After `:` comes the field's type.
    ExpectedFieldType,
    /// After a field comes `,` or `}`.
    ExpectedFieldEnd,
    /// After a field block comes `=>`.
    ExpectedArrow,
    /// The short description must be a string literal.
    ExpectedShortDescription,
    /// The format template must be a string literal.
    ExpectedFormatTemplate,
    /// After a format template or an argument comes `,` or `)`.
    ExpectedArgumentEnd,
    /// After `,` in a long description comes an expression.
    ExpectedArgument,
    /// After a variant comes `,` or the end of the definition.
    ExpectedComma,
}

/// The one failure of a parse: what was wrong, and the index of the token
/// at which it was found (the number of tokens, where the stream ended too
/// early).
#[derive(Clone, Copy, Debug, PartialEq, Eq, Structural)]
pub struct ParseFailure {
    pub position: usize,
    pub kind: FailureKind,
}

/// The text of each failure.
pub open spec fn message_of(kind: FailureKind) -> Seq<char> {
    match kind {
        FailureKind::ExpectedVariantName => "expected variant name"@,
        FailureKind::ExpectedArrowOrFields => "expected `=>` or a field block"@,
        FailureKind::FromMarkedTwice => "Field marked #[from] twice"@,
        FailureKind::MultipleFromFields => "Multiple fields marked #[from]"@,
        FailureKind::ExpectedNamedField => "Expected a named field"@,
        FailureKind::ExpectedColon => "expected `:`"@,
        FailureKind::ExpectedFieldType => "expected a field type"@,
        FailureKind::ExpectedFieldEnd => "expected `,` or `}`"@,
        FailureKind::ExpectedArrow => "expected `=>`"@,
        FailureKind::ExpectedShortDescription => "expected a string literal"@,
        FailureKind::ExpectedFormatTemplate => "expected a format string literal"@,
        FailureKind::ExpectedArgumentEnd => "expected `,` or `)`"@,
        FailureKind::ExpectedArgument => "expected an expression"@,
        FailureKind::ExpectedComma => "expected comma"@,
    }
}

impl ParseFailure {
    /// The failure's text for a reader.
    pub fn message(&self) -> (r: String)
        ensures
            r@ == message_of(self.kind),
    {
        match self.kind {
            FailureKind::ExpectedVariantName => String::from_str("expected variant name"),
            FailureKind::ExpectedArrowOrFields => String::from_str(
                "expected `=>` or a field block",
            ),
            FailureKind::FromMarkedTwice => String::from_str("Field marked #[from] twice"),
            FailureKind::MultipleFromFields => String::from_str("Multiple fields marked #[from]"),
            FailureKind::ExpectedNamedField => String::from_str("Expected a named field"),
            FailureKind::ExpectedColon => String::from_str("expected `:`"),
            FailureKind::ExpectedFieldType => String::from_str("expected a field type"),
            FailureKind::ExpectedFieldEnd => String::from_str("expected `,` or `}`"),
            FailureKind::ExpectedArrow => String::from_str("expected `=>`"),
            FailureKind::ExpectedShortDescription => String::from_str("expected a string literal"),
            FailureKind::ExpectedFormatTemplate => String::from_str(
                "expected a format string literal",
            ),
            FailureKind::ExpectedArgumentEnd => String::from_str("expected `,` or `)`"),
            FailureKind::ExpectedArgument => String::from_str("expected an expression"),
            FailureKind::ExpectedComma => String::from_str("expected comma"),
        }
    }
}

} // verus!
