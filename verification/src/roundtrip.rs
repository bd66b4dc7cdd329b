//! Writing a list of variants out and parsing it again gives the list
//! back.

use vstd::prelude::*;
use crate::machine::{parsed, ParserModel, Stage};
use crate::model::{
    all_wf, unmarked, AttributeModel, FieldModel, LongModel, VariantKind, VariantModel,
};
use crate::render::{
    marker_token, rendered, rendered_args, rendered_attributes, rendered_block, rendered_field,
    rendered_fields, rendered_first, rendered_long, rendered_variant,
};
use crate::token::TokenModel;

verus! {

/// Running over one more token is feeding it last.
pub proof fn lemma_run_push(m: ParserModel, a: Seq<TokenModel>, t: TokenModel)
    ensures
        m.run(a.push(t)) == m.run(a).fed(t),
{
    assert(a.push(t).drop_last() =~= a);
}

/// Running over two runs in a row is running over the first, then over
/// the second.
pub proof fn lemma_run_append(m: ParserModel, a: Seq<TokenModel>, b: Seq<TokenModel>)
    ensures
        m.run(a + b) == m.run(a).run(b),
    decreases b.len(),
{
    if b.len() == 0 {
        assert(a + b =~= a);
    } else {
        lemma_run_append(m, a, b.drop_last());
        assert((a + b).drop_last() =~= a + b.drop_last());
        assert((a + b).last() == b.last());
    }
}

/// Running over one token is feeding it.
pub proof fn lemma_run_one(m: ParserModel, t: TokenModel)
    ensures
        m.run(seq![t]) == m.fed(t),
{
    assert(seq![t] =~= Seq::<TokenModel>::empty().push(t));
    lemma_run_push(m, Seq::empty(), t);
}

/// Running over two tokens is feeding one after the other.
pub proof fn lemma_run_two(m: ParserModel, t: TokenModel, u: TokenModel)
    ensures
        m.run(seq![t, u]) == m.fed(t).fed(u),
{
    assert(seq![t, u] =~= seq![t].push(u));
    lemma_run_push(m, seq![t], u);
    lemma_run_one(m, t);
}

/// The parser before a variant, with `done` read in `position` tokens.
pub open spec fn at_start(position: nat, done: Seq<VariantModel>) -> ParserModel {
    ParserModel { position, done, ..ParserModel::initial() }
}

/// The attributes of a field are kept as they come.
pub proof fn lemma_attributes(m: ParserModel, attributes: Seq<AttributeModel>, n: nat)
    requires
        m.failure is None,
        m.stage == Stage::FieldOpen || m.stage == Stage::FieldNext,
        unmarked(attributes),
        n <= attributes.len(),
    ensures
        rendered_attributes(attributes, n).len() == n,
        m.run(rendered_attributes(attributes, n)) == (ParserModel {
            stage: if n > 0 {
                Stage::FieldOpen
            } else {
                m.stage
            },
            position: m.position + n,
            attributes: m.attributes + attributes.take(n as int),
            ..m
        }),
    decreases n,
{
    if n == 0 {
        assert(m.attributes + attributes.take(0) =~= m.attributes);
    } else {
        let k = (n - 1) as nat;
        lemma_attributes(m, attributes, k);
        lemma_run_push(
            m,
            rendered_attributes(attributes, k),
            TokenModel::Attribute(attributes[k as int]),
        );
        assert((m.attributes + attributes.take(k as int)).push(attributes[k as int]) =~= m.attributes
            + attributes.take(n as int));
    }
}

/// The parser after one more field of the variant being read.
pub open spec fn with_field(m: ParserModel, f: FieldModel, marked: bool) -> ParserModel {
    ParserModel {
        stage: Stage::FieldNext,
        position: m.position + rendered_field(f, marked).len(),
        current: VariantModel {
            fields: m.current.fields.push(f),
            from_index: if marked {
                Some(m.current.fields.len())
            } else {
                m.current.from_index
            },
            ..m.current
        },
        field_name: Seq::empty(),
        ..m
    }
}

/// A field written out is read back as it was.
pub proof fn lemma_field(m: ParserModel, f: FieldModel, marked: bool)
    requires
        m.failure is None,
        m.stage == Stage::FieldOpen || m.stage == Stage::FieldNext,
        m.attributes == Seq::<AttributeModel>::empty(),
        m.marker is None,
        unmarked(f.attributes),
        marked ==> m.current.from_index is None,
    ensures
        m.run(rendered_field(f, marked)) == with_field(m, f, marked),
{
    let kept = rendered_attributes(f.attributes, f.attributes.len());
    let mark = if marked {
        seq![marker_token()]
    } else {
        Seq::<TokenModel>::empty()
    };
    let body = seq![
        TokenModel::Ident(f.name),
        TokenModel::Colon,
        TokenModel::Type(f.ty),
        TokenModel::Comma,
    ];
    lemma_attributes(m, f.attributes, f.attributes.len());
    let s1 = m.run(kept);
    assert(f.attributes.take(f.attributes.len() as int) =~= f.attributes);
    assert(m.attributes + f.attributes =~= f.attributes);
    assert(s1.attributes == f.attributes);
    lemma_run_append(m, kept, mark);
    let s2 = m.run(kept + mark);
    if marked {
        lemma_run_one(s1, marker_token());
        assert(s2 == s1.fed(marker_token()));
        assert(s2.marker == Some(s1.position));
    } else {
        assert(s2 == s1);
    }
    assert(s2.stage == Stage::FieldOpen || s2.stage == Stage::FieldNext);
    lemma_run_append(m, kept + mark, body);
    let t1 = TokenModel::Ident(f.name);
    let t2 = TokenModel::Colon;
    let t3 = TokenModel::Type(f.ty);
    let t4 = TokenModel::Comma;
    assert(body =~= seq![t1, t2].push(t3).push(t4));
    lemma_run_two(s2, t1, t2);
    lemma_run_push(s2, seq![t1, t2], t3);
    lemma_run_push(s2, seq![t1, t2].push(t3), t4);
    let s3 = s2.fed(t1);
    assert(s3.stage == Stage::FieldNamed);
    let s4 = s3.fed(t2);
    assert(s4.stage == Stage::FieldColon);
    let s5 = s4.fed(t3);
    assert(s5.stage == Stage::FieldTyped);
    let s6 = s5.fed(t4);
    assert(s2.run(body) == s6);
    assert(rendered_field(f, marked).len() == kept.len() + mark.len() + 4);
    assert(s6 == with_field(m, f, marked));
}

/// The conversion source among the first `n` fields of a variant.
pub open spec fn source_before(v: VariantModel, n: nat) -> Option<nat> {
    match v.from_index {
        Some(i) => if i < n {
            Some(i)
        } else {
            None
        },
        None => None,
    }
}

/// The parser after the first `n` fields of the variant `v`.
pub open spec fn with_fields(m: ParserModel, v: VariantModel, n: nat) -> ParserModel {
    ParserModel {
        stage: if n == 0 {
            Stage::FieldOpen
        } else {
            Stage::FieldNext
        },
        position: m.position + rendered_fields(v, n).len(),
        current: VariantModel {
            fields: v.fields.take(n as int),
            from_index: source_before(v, n),
            ..m.current
        },
        ..m
    }
}

/// The fields of a variant written out are read back in order.
pub proof fn lemma_fields(m: ParserModel, v: VariantModel, n: nat)
    requires
        m.failure is None,
        m.stage == Stage::FieldOpen,
        m.attributes == Seq::<AttributeModel>::empty(),
        m.marker is None,
        m.field_name == Seq::<char>::empty(),
        m.current.fields == Seq::<FieldModel>::empty(),
        m.current.from_index is None,
        v.wf(),
        n <= v.fields.len(),
    ensures
        m.run(rendered_fields(v, n)) == with_fields(m, v, n),
    decreases n,
{
    if n == 0 {
        assert(v.fields.take(0) =~= Seq::<FieldModel>::empty());
    } else {
        let k = (n - 1) as nat;
        lemma_fields(m, v, k);
        let before = with_fields(m, v, k);
        let f = v.fields[k as int];
        let marked = v.from_index == Some(k);
        lemma_run_append(m, rendered_fields(v, k), rendered_field(f, marked));
        lemma_field(before, f, marked);
        assert(v.fields.take(k as int).push(f) =~= v.fields.take(n as int));
        assert(v.fields.take(k as int).len() == k);
        assert(with_field(before, f, marked) == with_fields(m, v, n));
    }
}

/// The parser after the first `n` arguments of a long description.
pub open spec fn with_args(m: ParserModel, template: Seq<char>, args: Seq<Seq<char>>, n: nat)
    -> ParserModel {
    ParserModel {
        position: m.position + 2 * n,
        current: VariantModel {
            long_description: Some(
                LongModel { format_template: template, args: args.take(n as int) },
            ),
            ..m.current
        },
        ..m
    }
}

/// The arguments of a long description written out are read back in
/// order.
pub proof fn lemma_args(m: ParserModel, template: Seq<char>, args: Seq<Seq<char>>, n: nat)
    requires
        m.failure is None,
        m.stage == Stage::LongArgs,
        m.current.long_description == Some(
            LongModel { format_template: template, args: Seq::empty() },
        ),
        n <= args.len(),
    ensures
        rendered_args(args, n).len() == 2 * n,
        m.run(rendered_args(args, n)) == with_args(m, template, args, n),
    decreases n,
{
    if n == 0 {
        assert(args.take(0) =~= Seq::<Seq<char>>::empty());
    } else {
        let k = (n - 1) as nat;
        lemma_args(m, template, args, k);
        let before = with_args(m, template, args, k);
        let pair = seq![TokenModel::Comma, TokenModel::Expr(args[k as int])];
        lemma_run_append(m, rendered_args(args, k), pair);
        lemma_run_two(before, TokenModel::Comma, TokenModel::Expr(args[k as int]));
        assert(args.take(k as int).push(args[k as int]) =~= args.take(n as int));
    }
}

/// The parser behind the name of the variant `v`.
pub open spec fn named(position: nat, done: Seq<VariantModel>, v: VariantModel) -> ParserModel {
    ParserModel {
        stage: Stage::Named,
        current: VariantModel { name: v.name, ..ParserModel::initial().current },
        ..at_start(position, done)
    }
}

/// The parser behind the field block of the variant `v`.
pub open spec fn blocked(position: nat, done: Seq<VariantModel>, v: VariantModel) -> ParserModel {
    ParserModel {
        stage: match v.kind {
            VariantKind::Unit => Stage::Named,
            VariantKind::Struct => Stage::Closed,
        },
        current: VariantModel {
            name: v.name,
            kind: v.kind,
            fields: v.fields,
            from_index: v.from_index,
            ..ParserModel::initial().current
        },
        ..at_start(position, done)
    }
}

/// The field block of a variant written out is read back as it was.
pub proof fn lemma_block(position: nat, done: Seq<VariantModel>, v: VariantModel)
    requires
        v.wf(),
    ensures
        named(position, done, v).run(rendered_block(v)) == blocked(
            position + rendered_block(v).len(),
            done,
            v,
        ),
{
    let m = named(position, done, v);
    match v.kind {
        VariantKind::Unit => {
            assert(v.fields =~= Seq::<FieldModel>::empty());
        },
        VariantKind::Struct => {
            let n = v.fields.len();
            let open = seq![TokenModel::OpenBrace];
            let inner = rendered_fields(v, n);
            let close = seq![TokenModel::CloseBrace];
            lemma_run_one(m, TokenModel::OpenBrace);
            let b0 = m.fed(TokenModel::OpenBrace);
            lemma_run_append(m, open, inner);
            lemma_fields(b0, v, n);
            let b1 = with_fields(b0, v, n);
            lemma_run_append(m, open + inner, close);
            lemma_run_one(b1, TokenModel::CloseBrace);
            assert(v.fields.take(n as int) =~= v.fields);
            assert(source_before(v, n) == v.from_index);
            assert(rendered_block(v).len() == inner.len() + 2);
        },
    }
}

/// The parser behind the descriptions of the variant `v`.
pub open spec fn described(position: nat, done: Seq<VariantModel>, v: VariantModel)
    -> ParserModel {
    ParserModel {
        stage: if v.long_description is Some {
            Stage::Finished
        } else {
            Stage::Described
        },
        current: v,
        ..at_start(position, done)
    }
}

/// The long description of a variant written out is read back as it was.
pub proof fn lemma_long(position: nat, done: Seq<VariantModel>, v: VariantModel)
    ensures
        described(position, done, VariantModel { long_description: None, ..v }).run(
            rendered_long(v.long_description),
        ) == described(position + rendered_long(v.long_description).len(), done, v),
{
    let m = described(position, done, VariantModel { long_description: None, ..v });
    match v.long_description {
        None => {},
        Some(l) => {
            let n = l.args.len();
            let t1 = TokenModel::OpenParen;
            let t2 = TokenModel::Str(l.format_template);
            let head = seq![t1, t2];
            let inner = rendered_args(l.args, n);
            let close = seq![TokenModel::CloseParen];
            lemma_run_two(m, t1, t2);
            let a0 = m.fed(t1).fed(t2);
            lemma_run_append(m, head, inner);
            lemma_args(a0, l.format_template, l.args, n);
            let a1 = with_args(a0, l.format_template, l.args, n);
            lemma_run_append(m, head + inner, close);
            lemma_run_one(a1, TokenModel::CloseParen);
            assert(l.args.take(n as int) =~= l.args);
            assert(rendered_long(v.long_description).len() == inner.len() + 3);
        },
    }
}

/// A variant written out is read back as it was.
pub proof fn lemma_variant(position: nat, done: Seq<VariantModel>, v: VariantModel)
    requires
        v.wf(),
    ensures
        at_start(position, done).run(rendered_variant(v)) == at_start(
            position + rendered_variant(v).len(),
            done.push(v),
        ),
{
    let m = at_start(position, done);
    let name = seq![TokenModel::Ident(v.name)];
    let block = rendered_block(v);
    let t1 = TokenModel::FatArrow;
    let t2 = TokenModel::Str(v.short_description);
    let short = seq![t1, t2];
    let long = rendered_long(v.long_description);
    let end = seq![TokenModel::Comma];
    lemma_run_one(m, TokenModel::Ident(v.name));
    assert(m.run(name) == named(position + 1, done, v));
    lemma_run_append(m, name, block);
    lemma_block(position + 1, done, v);
    let p2 = position + 1 + block.len();
    let s2 = blocked(p2, done, v);
    assert(m.run(name + block) == s2);
    lemma_run_append(m, name + block, short);
    lemma_run_two(s2, t1, t2);
    let bare = VariantModel { long_description: None, ..v };
    let s3 = described(p2 + 2, done, bare);
    assert(s2.fed(t1).fed(t2) == s3);
    lemma_run_append(m, name + block + short, long);
    lemma_long(p2 + 2, done, v);
    let p4 = p2 + 2 + long.len();
    let s4 = described(p4, done, v);
    assert(m.run(name + block + short + long) == s4);
    lemma_run_append(m, name + block + short + long, end);
    lemma_run_one(s4, TokenModel::Comma);
    assert(rendered_variant(v).len() == p4 + 1 - position);
}

/// The first `n` variants of a list written out are read back in order.
pub proof fn lemma_first(vs: Seq<VariantModel>, n: nat)
    requires
        all_wf(vs),
        n <= vs.len(),
    ensures
        ParserModel::initial().run(rendered_first(vs, n)) == at_start(
            rendered_first(vs, n).len(),
            vs.take(n as int),
        ),
    decreases n,
{
    if n == 0 {
        assert(vs.take(0) =~= Seq::<VariantModel>::empty());
    } else {
        let k = (n - 1) as nat;
        lemma_first(vs, k);
        let before = rendered_first(vs, k);
        lemma_run_append(ParserModel::initial(), before, rendered_variant(vs[k as int]));
        lemma_variant(before.len(), vs.take(k as int), vs[k as int]);
        assert(vs.take(k as int).push(vs[k as int]) =~= vs.take(n as int));
    }
}

/// Parsing what a well-formed list of variants is written out as gives
/// the list back: the same variants in the same order, each with its
/// fields, its descriptions and its conversion source.
pub proof fn lemma_round_trip(vs: Seq<VariantModel>)
    requires
        all_wf(vs),
    ensures
        parsed(rendered(vs)) == Ok::<Seq<VariantModel>, crate::machine::FailureModel>(vs),
{
    lemma_first(vs, vs.len());
    assert(vs.take(vs.len() as int) =~= vs);
}

} // verus!
