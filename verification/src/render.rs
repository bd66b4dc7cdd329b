//! The way back: a list of variants written out as the tokens of a
//! definition.

use vstd::prelude::*;
use vstd::string::*;
use crate::model::{
    from_marker, lemma_models_empty, lemma_models_push, models, Attribute, AttributeModel,
    FieldModel, FieldSpec, LongDescription, LongModel, VariantKind, VariantModel, VariantSpec,
};
use crate::token::{Token, TokenModel};

verus! {

/// The token that marks the next field as the conversion source.
pub open spec fn marker_token() -> TokenModel {
    TokenModel::Attribute(AttributeModel { path: from_marker(), body: Seq::empty() })
}

/// The first `n` attributes of a field, one token each.
pub open spec fn rendered_attributes(attributes: Seq<AttributeModel>, n: nat) -> Seq<TokenModel>
    decreases n,
{
    if n == 0 {
        Seq::empty()
    } else {
        rendered_attributes(attributes, (n - 1) as nat).push(
            TokenModel::Attribute(attributes[n - 1]),
        )
    }
}

/// A field: its attributes, the marker where it is the conversion source,
/// then `name: type,`.
pub open spec fn rendered_field(f: FieldModel, marked: bool) -> Seq<TokenModel> {
    rendered_attributes(f.attributes, f.attributes.len()) + (if marked {
        seq![marker_token()]
    } else {
        Seq::empty()
    }) + seq![
        TokenModel::Ident(f.name),
        TokenModel::Colon,
        TokenModel::Type(f.ty),
        TokenModel::Comma,
    ]
}

/// The first `n` fields of a variant.
pub open spec fn rendered_fields(v: VariantModel, n: nat) -> Seq<TokenModel>
    decreases n,
{
    if n == 0 {
        Seq::empty()
    } else {
        rendered_fields(v, (n - 1) as nat) + rendered_field(
            v.fields[n - 1],
            v.from_index == Some((n - 1) as nat),
        )
    }
}

/// The first `n` arguments of a long description, each behind its `,`.
pub open spec fn rendered_args(args: Seq<Seq<char>>, n: nat) -> Seq<TokenModel>
    decreases n,
{
    if n == 0 {
        Seq::empty()
    } else {
        rendered_args(args, (n - 1) as nat) + seq![
            TokenModel::Comma,
            TokenModel::Expr(args[n - 1]),
        ]
    }
}

/// A long description between its parentheses, where there is one.
pub open spec fn rendered_long(long: Option<LongModel>) -> Seq<TokenModel> {
    match long {
        None => Seq::empty(),
        Some(l) => seq![TokenModel::OpenParen, TokenModel::Str(l.format_template)]
            + rendered_args(l.args, l.args.len()) + seq![TokenModel::CloseParen],
    }
}

/// The field block of a struct variant; nothing for a unit variant.
pub open spec fn rendered_block(v: VariantModel) -> Seq<TokenModel> {
    match v.kind {
        VariantKind::Unit => Seq::empty(),
        VariantKind::Struct => seq![TokenModel::OpenBrace] + rendered_fields(v, v.fields.len())
            + seq![TokenModel::CloseBrace],
    }
}

/// A variant: its name, its field block, `=>`, its descriptions and the
/// `,` that ends it.
pub open spec fn rendered_variant(v: VariantModel) -> Seq<TokenModel> {
    seq![TokenModel::Ident(v.name)] + rendered_block(v) + seq![
        TokenModel::FatArrow,
        TokenModel::Str(v.short_description),
    ] + rendered_long(v.long_description) + seq![TokenModel::Comma]
}

/// The first `n` variants of a list.
pub open spec fn rendered_first(vs: Seq<VariantModel>, n: nat) -> Seq<TokenModel>
    decreases n,
{
    if n == 0 {
        Seq::empty()
    } else {
        rendered_first(vs, (n - 1) as nat) + rendered_variant(vs[n - 1])
    }
}

/// A list of variants as the tokens of a definition.
pub open spec fn rendered(vs: Seq<VariantModel>) -> Seq<TokenModel> {
    rendered_first(vs, vs.len())
}

fn emit(out: &mut Vec<Token>, token: Token)
    ensures
        models(final(out)@) == models(old(out)@).push(token@),
{
    proof {
        lemma_models_push(out@, token);
    }
    out.push(token);
}

fn emit_field(out: &mut Vec<Token>, f: &FieldSpec, marked: bool)
    ensures
        models(final(out)@) == models(old(out)@) + rendered_field(f@, marked),
{
    let ghost start = models(out@);
    let n: usize = f.attributes.len();
    let mut j: usize = 0;
    assert(start + Seq::<TokenModel>::empty() =~= start);
    while j < n
        invariant
            n == f.attributes.len(),
            j <= n,
            models(out@) == start + rendered_attributes(f@.attributes, j as nat),
        decreases n - j,
    {
        let a = f.attributes[j].duplicate();
        assert(a@ == f@.attributes[j as int]);
        emit(out, Token::Attribute(a));
        assert(models(out@) =~= start + rendered_attributes(f@.attributes, (j + 1) as nat));
        j = j + 1;
    }
    if marked {
        emit(
            out,
            Token::Attribute(Attribute { path: String::from_str("from"), body: String::new() }),
        );
    }
    emit(out, Token::Ident(f.name.clone()));
    emit(out, Token::Colon);
    emit(out, Token::Type(f.ty.clone()));
    emit(out, Token::Comma);
    assert(models(out@) =~= start + rendered_field(f@, marked));
}

fn emit_long(out: &mut Vec<Token>, l: &LongDescription)
    ensures
        models(final(out)@) == models(old(out)@) + rendered_long(Some(l@)),
{
    let ghost start = models(out@);
    emit(out, Token::OpenParen);
    emit(out, Token::Str(l.format_template.clone()));
    let ghost head = models(out@);
    let n: usize = l.args.len();
    let mut j: usize = 0;
    assert(head + Seq::<TokenModel>::empty() =~= head);
    while j < n
        invariant
            n == l.args.len(),
            j <= n,
            models(out@) == head + rendered_args(l@.args, j as nat),
        decreases n - j,
    {
        emit(out, Token::Comma);
        emit(out, Token::Expr(l.args[j].clone()));
        assert(l@.args[j as int] == l.args@[j as int]@);
        assert(models(out@) =~= head + rendered_args(l@.args, (j + 1) as nat));
        j = j + 1;
    }
    emit(out, Token::CloseParen);
    assert(models(out@) =~= start + rendered_long(Some(l@)));
}

fn emit_variant(out: &mut Vec<Token>, v: &VariantSpec)
    ensures
        models(final(out)@) == models(old(out)@) + rendered_variant(v@),
{
    let ghost start = models(out@);
    emit(out, Token::Ident(v.name.clone()));
    let ghost named = models(out@);
    match v.kind {
        VariantKind::Unit => {
            assert(named + rendered_block(v@) =~= named);
        },
        VariantKind::Struct => {
            emit(out, Token::OpenBrace);
            let ghost head = models(out@);
            let n: usize = v.fields.len();
            let mut i: usize = 0;
            assert(head + Seq::<TokenModel>::empty() =~= head);
            while i < n
                invariant
                    n == v.fields.len(),
                    i <= n,
                    models(out@) == head + rendered_fields(v@, i as nat),
                decreases n - i,
            {
                let marked = match v.from_index {
                    Some(k) => k == i,
                    None => false,
                };
                assert(marked == (v@.from_index == Some(i as nat)));
                assert(v@.fields[i as int] == v.fields@[i as int]@);
                emit_field(out, &v.fields[i], marked);
                assert(models(out@) =~= head + rendered_fields(v@, (i + 1) as nat));
                i = i + 1;
            }
            emit(out, Token::CloseBrace);
            assert(models(out@) =~= named + rendered_block(v@));
        },
    }
    let ghost blocked = models(out@);
    emit(out, Token::FatArrow);
    emit(out, Token::Str(v.short_description.clone()));
    let ghost described = models(out@);
    match &v.long_description {
        Some(l) => {
            emit_long(out, l);
        },
        None => {
            assert(described + rendered_long(None) =~= described);
        },
    }
    emit(out, Token::Comma);
    assert(models(out@) =~= start + rendered_variant(v@));
}

/// Writes a list of variants out as the tokens of a definition: every
/// field and every variant is ended by its `,`.
pub fn render_variants(variants: &Vec<VariantSpec>) -> (r: Vec<Token>)
    ensures
        models(r@) == rendered(models(variants@)),
{
    let mut out: Vec<Token> = Vec::new();
    let ghost vs = models(variants@);
    let n: usize = variants.len();
    let mut i: usize = 0;
    proof {
        lemma_models_empty::<Token>();
    }
    while i < n
        invariant
            n == variants.len(),
            i <= n,
            vs == models(variants@),
            models(out@) == rendered_first(vs, i as nat),
        decreases n - i,
    {
        assert(vs[i as int] == variants@[i as int]@);
        emit_variant(&mut out, &variants[i]);
        i = i + 1;
    }
    out
}

} // verus!
