//! What holds of every definition: of its parse, of its artifacts, and of
//! the two together.

use vstd::prelude::*;
use crate::arms::{converted, debug_text, InstanceModel};
use crate::artifacts::ArtifactsModel;
use crate::generate::{
    case_of, compiled, conversion_of, conversions_of, converts, generated,
};
use crate::machine::{parsed, FailureModel, ParserModel, Stage};
use crate::parser::{expected, Expectation};
use crate::model::{all_wf, VariantKind, VariantModel};
use crate::render::rendered;
use crate::roundtrip::{lemma_round_trip, lemma_run_append, lemma_run_push};
use crate::token::TokenModel;
use crate::validity::lemma_parsed_wf;

verus! {

/// The type has one case per variant, in the order of the definition, and
/// each case has the name, the kind and the fields of its variant.
pub proof fn law_one_case_per_variant(target_name: Seq<char>, vs: Seq<VariantModel>)
    ensures
        generated(target_name, vs).cases.len() == vs.len(),
        forall|i: int|
            0 <= i < vs.len() ==> #[trigger] generated(target_name, vs).cases[i] == case_of(vs[i]),
{
}

/// Every conversion among those of the first `n` variants builds one of
/// these variants, one that converts, and every such variant has its
/// conversion.
pub proof fn lemma_conversions(vs: Seq<VariantModel>, n: nat)
    requires
        n <= vs.len(),
    ensures
        forall|k: int|
            0 <= k < conversions_of(vs, n).len() ==> {
                let c = #[trigger] conversions_of(vs, n)[k];
                &&& c.case < n
                &&& converts(vs[c.case as int])
                &&& c == conversion_of(vs[c.case as int], c.case)
            },
        forall|i: int|
            0 <= i < n && converts(#[trigger] vs[i]) ==> exists|k: int|
                0 <= k < conversions_of(vs, n).len() && (#[trigger] conversions_of(vs, n)[k]).case
                    == i,
    decreases n,
{
    if n > 0 {
        let k = (n - 1) as nat;
        lemma_conversions(vs, k);
        let before = conversions_of(vs, k);
        let now = conversions_of(vs, n);
        assert forall|i: int| 0 <= i < n && converts(#[trigger] vs[i]) implies exists|j: int|
            0 <= j < now.len() && (#[trigger] now[j]).case == i by {
            if i < k {
                let j = choose|j: int| 0 <= j < before.len() && (#[trigger] before[j]).case == i;
                assert(now[j] == before[j]);
            } else {
                assert(now[now.len() - 1].case == i);
            }
        }
    }
}

/// The artifacts of well-formed variants agree with each other.
pub proof fn lemma_generated_wf(target_name: Seq<char>, vs: Seq<VariantModel>)
    requires
        all_wf(vs),
    ensures
        generated(target_name, vs).wf(),
{
    let a = generated(target_name, vs);
    lemma_conversions(vs, vs.len());
    assert forall|i: int| 0 <= i < a.cases.len() implies {
        &&& (#[trigger] a.cause[i]).pattern.bindings.len() == a.cases[i].fields.len()
        &&& a.cause[i].source matches Some(k) ==> k < a.cases[i].fields.len()
    } by {
        assert(vs[i].wf());
    }
}

/// The description of a value is the short description of its variant,
/// whatever its fields hold.
pub proof fn law_description(target_name: Seq<char>, vs: Seq<VariantModel>, x: InstanceModel)
    requires
        x.case < vs.len(),
    ensures
        generated(target_name, vs).description(x) == vs[x.case as int].short_description,
{
}

/// The debug text of a value is its case's rendering followed by its
/// display text as a comment, where it has a display text.
pub proof fn law_debug_embeds_display(
    target_name: Seq<char>,
    vs: Seq<VariantModel>,
    x: InstanceModel,
    args: Seq<Seq<char>>,
)
    requires
        x.case < vs.len(),
    ensures
        ({
            let a = generated(target_name, vs);
            match a.display_text(x, args) {
                Some(d) => a.debug_text(x, args) == Some(debug_text(a.debug[x.case as int], x.values, d)),
                None => a.debug_text(x, args) is None,
            }
        }),
{
}

/// A value of a unit variant without a long description has the display
/// text `<short description>. `, and as debug text its name followed by
/// that display text as a comment.
pub proof fn law_unit_texts(target_name: Seq<char>, vs: Seq<VariantModel>, x: InstanceModel)
    requires
        x.case < vs.len(),
        vs[x.case as int].kind == VariantKind::Unit,
        vs[x.case as int].long_description is None,
    ensures
        ({
            let a = generated(target_name, vs);
            let v = vs[x.case as int];
            &&& a.display_text(x, Seq::empty()) == Some(v.short_description + ". "@)
            &&& a.debug_text(x, Seq::empty()) == Some(
                v.name + " /* "@ + (v.short_description + ". "@) + " */"@,
            )
            &&& a.description(x) == v.short_description
        }),
{
    let a = generated(target_name, vs);
    let v = vs[x.case as int];
    let d = v.short_description + ". "@;
    assert(v.name + Seq::<char>::empty() =~= v.name);
}

/// A struct variant whose only field is the conversion source has a
/// conversion constructor, and the value that it builds from `value` has
/// `value` as its cause.
pub proof fn law_conversion_gives_cause(
    target_name: Seq<char>,
    vs: Seq<VariantModel>,
    i: int,
    value: Seq<char>,
)
    requires
        0 <= i < vs.len(),
        vs[i].kind == VariantKind::Struct,
        vs[i].fields.len() == 1,
        vs[i].from_index == Some(0nat),
    ensures
        ({
            let a = generated(target_name, vs);
            exists|k: int|
                {
                    &&& 0 <= k < a.conversions.len()
                    &&& (#[trigger] a.conversions[k]).case == i
                    &&& a.holds(converted(a.conversions[k], value))
                    &&& a.cause(converted(a.conversions[k], value)) == Some(value)
                }
        }),
{
    let a = generated(target_name, vs);
    lemma_conversions(vs, vs.len());
    assert(converts(vs[i]));
    let k = choose|k: int| 0 <= k < a.conversions.len() && (#[trigger] a.conversions[k]).case == i;
    let x = converted(a.conversions[k], value);
    assert(a.holds(x));
    assert(a.cause(x) == Some(value));
}

/// A variant with more or fewer fields than one has no conversion
/// constructor, and a value of a variant with a conversion source has
/// the value of that field as its cause.
pub proof fn law_cause_without_conversion(
    target_name: Seq<char>,
    vs: Seq<VariantModel>,
    x: InstanceModel,
)
    requires
        x.case < vs.len(),
        vs[x.case as int].from_index is Some,
    ensures
        ({
            let a = generated(target_name, vs);
            let v = vs[x.case as int];
            &&& a.cause(x) == Some(x.values[v.from_index->Some_0 as int])
            &&& v.fields.len() != 1 ==> forall|k: int|
                0 <= k < a.conversions.len() ==> (#[trigger] a.conversions[k]).case != x.case
        }),
{
    lemma_conversions(vs, vs.len());
}

/// A value of a variant without a conversion source, and so of every unit
/// variant that a parse gives, has no cause.
pub proof fn law_no_source_no_cause(
    target_name: Seq<char>,
    vs: Seq<VariantModel>,
    x: InstanceModel,
)
    requires
        x.case < vs.len(),
        vs[x.case as int].from_index is None,
    ensures
        generated(target_name, vs).cause(x) is None,
{
}

/// Writing out the variants that a parse gave and parsing them again
/// gives the same variants: order, fields, descriptions and conversion
/// sources are unchanged.
pub proof fn law_reparse(tokens: Seq<TokenModel>)
    ensures
        parsed(tokens) matches Ok(vs) ==> parsed(rendered(vs)) == parsed(tokens),
{
    lemma_parsed_wf(tokens);
    if let Ok(vs) = parsed(tokens) {
        lemma_round_trip(vs);
    }
}

/// After its failure the parser reads nothing.
pub proof fn lemma_failure_stays(m: ParserModel, tokens: Seq<TokenModel>)
    requires
        m.failure is Some,
    ensures
        m.run(tokens) == m,
    decreases tokens.len(),
{
    if tokens.len() > 0 {
        lemma_failure_stays(m, tokens.drop_last());
    }
}

/// A parse has one failure, the first: whatever follows the token at
/// which it was met changes nothing.
pub proof fn law_first_failure(tokens: Seq<TokenModel>, more: Seq<TokenModel>)
    requires
        ParserModel::initial().run(tokens).failure is Some,
    ensures
        parsed(tokens) is Err,
        parsed(tokens + more) == parsed(tokens),
{
    lemma_run_append(ParserModel::initial(), tokens, more);
    lemma_failure_stays(ParserModel::initial().run(tokens), more);
}

/// Where the parse fails there are no artifacts, only its failure; where
/// it succeeds there are the artifacts of all its variants.
pub proof fn law_all_or_nothing(target_name: Seq<char>, tokens: Seq<TokenModel>)
    ensures
        match parsed(tokens) {
            Ok(vs) => compiled(target_name, tokens) == Ok::<ArtifactsModel, FailureModel>(
                generated(target_name, vs),
            ) && generated(target_name, vs).cases.len() == vs.len(),
            Err(e) => compiled(target_name, tokens) == Err::<ArtifactsModel, FailureModel>(e),
        },
{
}

/// The `,` behind the last variant may be written or left out.
pub proof fn law_last_comma_is_optional(tokens: Seq<TokenModel>)
    requires
        ParserModel::initial().run(tokens).failure is None,
        ParserModel::initial().run(tokens).stage == Stage::Described
            || ParserModel::initial().run(tokens).stage == Stage::Finished,
    ensures
        parsed(tokens) is Ok,
        parsed(tokens.push(TokenModel::Comma)) == parsed(tokens),
{
    lemma_run_push(ParserModel::initial(), tokens, TokenModel::Comma);
}

/// The opaque terminals are read exactly where the parser says that it
/// is ready for them: a type reference only where a type is expected, an
/// expression only where an expression is expected, and an attribute
/// only at the start of a field.
pub proof fn law_expectation(m: ParserModel, t: TokenModel)
    requires
        m.failure is None,
    ensures
        t is Type ==> (m.fed(t).failure is None <==> expected(m) == Expectation::Type),
        t is Expr ==> (m.fed(t).failure is None <==> expected(m) == Expectation::Expr),
        t is Attribute && m.fed(t).failure is None ==> expected(m) == Expectation::Field,
        expected(m) == Expectation::Type ==> (m.fed(t).failure is None <==> t is Type),
        expected(m) == Expectation::Expr ==> (m.fed(t).failure is None <==> t is Expr),
{
}

} // verus!
