//! The generator: from the variants of a definition to the artifacts of
//! its type.

use vstd::prelude::*;
use vstd::string::*;
use crate::arms::{
    Case, CaseModel, CauseArm, CauseArmModel, Conversion, ConversionModel, DescriptionArm,
    DescriptionArmModel, DisplayArm, DisplayArmModel, Pattern, PatternModel,
};
use crate::artifacts::{Artifacts, ArtifactsModel};
use crate::machine::{parsed, FailureModel};
use crate::laws::lemma_generated_wf;
use crate::model::{
    all_wf, copy_fields, field_names, lemma_models_empty, lemma_models_push, models, FieldSpec,
    LongDescription, VariantKind, VariantModel, VariantSpec,
};
use crate::parser::parse_variants;
use crate::text::copy_texts;
use crate::token::{ParseFailure, Token, TokenModel};

verus! {

/// The documentation line of a variant.
pub open spec fn doc_of(v: VariantModel) -> Seq<char> {
    "/// "@ + v.short_description + "."@
}

/// The case of the type that a variant declares.
pub open spec fn case_of(v: VariantModel) -> CaseModel {
    CaseModel { name: v.name, doc: doc_of(v), kind: v.kind, fields: v.fields }
}

/// The pattern that takes a value of a variant apart.
pub open spec fn pattern_of(v: VariantModel) -> PatternModel {
    PatternModel { name: v.name, kind: v.kind, bindings: field_names(v.fields) }
}

/// The display arm of a variant.
pub open spec fn display_arm_of(v: VariantModel) -> DisplayArmModel {
    DisplayArmModel {
        pattern: pattern_of(v),
        short_description: v.short_description,
        long_description: v.long_description,
    }
}

/// The description arm of a variant.
pub open spec fn description_arm_of(v: VariantModel) -> DescriptionArmModel {
    DescriptionArmModel { name: v.name, kind: v.kind, text: v.short_description }
}

/// The cause arm of a variant.
pub open spec fn cause_arm_of(v: VariantModel) -> CauseArmModel {
    CauseArmModel { pattern: pattern_of(v), source: v.from_index }
}

/// Whether a variant gets a conversion constructor: it is a struct
/// variant whose only field is the conversion source.
pub open spec fn converts(v: VariantModel) -> bool {
    v.kind == VariantKind::Struct && v.fields.len() == 1 && v.from_index == Some(0nat)
}

/// The conversion constructor of the variant numbered `case`.
pub open spec fn conversion_of(v: VariantModel, case: nat) -> ConversionModel {
    ConversionModel { case, variant: v.name, field: v.fields[0].name, ty: v.fields[0].ty }
}

/// The conversion constructors of the first `n` variants, in order.
pub open spec fn conversions_of(vs: Seq<VariantModel>, n: nat) -> Seq<ConversionModel>
    decreases n,
{
    if n == 0 {
        Seq::empty()
    } else if converts(vs[n - 1]) {
        conversions_of(vs, (n - 1) as nat).push(conversion_of(vs[n - 1], (n - 1) as nat))
    } else {
        conversions_of(vs, (n - 1) as nat)
    }
}

/// The artifacts of a definition.
pub open spec fn generated(target_name: Seq<char>, vs: Seq<VariantModel>) -> ArtifactsModel {
    ArtifactsModel {
        target_name,
        cases: Seq::new(vs.len(), |i: int| case_of(vs[i])),
        debug: Seq::new(vs.len(), |i: int| pattern_of(vs[i])),
        display: Seq::new(vs.len(), |i: int| display_arm_of(vs[i])),
        description: Seq::new(vs.len(), |i: int| description_arm_of(vs[i])),
        cause: Seq::new(vs.len(), |i: int| cause_arm_of(vs[i])),
        conversions: conversions_of(vs, vs.len()),
    }
}

fn names_of(fields: &Vec<FieldSpec>) -> (r: Vec<String>)
    ensures
        models(r@) == field_names(models(fields@)),
{
    let mut out: Vec<String> = Vec::new();
    let n: usize = fields.len();
    let mut i: usize = 0;
    while i < n
        invariant
            n == fields.len(),
            i <= n,
            out.len() == i,
            forall|j: int| 0 <= j < i ==> out@[j]@ == fields@[j].name@,
        decreases n - i,
    {
        out.push(fields[i].name.clone());
        i = i + 1;
    }
    assert(models(out@) =~= field_names(models(fields@)));
    out
}

fn pattern_for(v: &VariantSpec) -> (r: Pattern)
    ensures
        r@ == pattern_of(v@),
{
    Pattern { name: v.name.clone(), kind: v.kind, bindings: names_of(&v.fields) }
}

fn case_for(v: &VariantSpec) -> (r: Case)
    ensures
        r@ == case_of(v@),
{
    let mut doc = String::from_str("/// ");
    doc.append(v.short_description.as_str());
    doc.append(".");
    Case { name: v.name.clone(), doc, kind: v.kind, fields: copy_fields(&v.fields) }
}

fn display_arm_for(v: &VariantSpec) -> (r: DisplayArm)
    ensures
        r@ == display_arm_of(v@),
{
    let long_description = match &v.long_description {
        Some(l) => Some(
            LongDescription {
                format_template: l.format_template.clone(),
                args: copy_texts(&l.args),
            },
        ),
        None => None,
    };
    DisplayArm {
        pattern: pattern_for(v),
        short_description: v.short_description.clone(),
        long_description,
    }
}

fn description_arm_for(v: &VariantSpec) -> (r: DescriptionArm)
    ensures
        r@ == description_arm_of(v@),
{
    DescriptionArm { name: v.name.clone(), kind: v.kind, text: v.short_description.clone() }
}

fn cause_arm_for(v: &VariantSpec) -> (r: CauseArm)
    ensures
        r@ == cause_arm_of(v@),
{
    CauseArm { pattern: pattern_for(v), source: v.from_index }
}

fn conversion_for(v: &VariantSpec, case: usize) -> (r: Option<Conversion>)
    ensures
        match r {
            Some(c) => converts(v@) && c@ == conversion_of(v@, case as nat),
            None => !converts(v@),
        },
{
    let eligible = match (v.kind, v.from_index) {
        (VariantKind::Struct, Some(i)) => i == 0 && v.fields.len() == 1,
        _ => false,
    };
    if eligible {
        let field = &v.fields[0];
        Some(
            Conversion {
                case,
                variant: v.name.clone(),
                field: field.name.clone(),
                ty: field.ty.clone(),
            },
        )
    } else {
        None
    }
}

/// Derives the artifacts of the type named `target_name` from its variants.
pub fn generate(target_name: &str, variants: &Vec<VariantSpec>) -> (r: Artifacts)
    ensures
        r@ == generated(target_name@, models(variants@)),
        all_wf(models(variants@)) ==> r@.wf(),
{
    let mut cases: Vec<Case> = Vec::new();
    let mut debug: Vec<Pattern> = Vec::new();
    let mut display: Vec<DisplayArm> = Vec::new();
    let mut description: Vec<DescriptionArm> = Vec::new();
    let mut cause: Vec<CauseArm> = Vec::new();
    let mut conversions: Vec<Conversion> = Vec::new();
    let ghost vs = models(variants@);
    let n: usize = variants.len();
    let mut i: usize = 0;
    proof {
        lemma_models_empty::<Conversion>();
    }
    while i < n
        invariant
            n == variants.len(),
            i <= n,
            vs == models(variants@),
            cases.len() == i,
            debug.len() == i,
            display.len() == i,
            description.len() == i,
            cause.len() == i,
            forall|j: int| 0 <= j < i ==> cases@[j]@ == case_of(vs[j]),
            forall|j: int| 0 <= j < i ==> debug@[j]@ == pattern_of(vs[j]),
            forall|j: int| 0 <= j < i ==> display@[j]@ == display_arm_of(vs[j]),
            forall|j: int| 0 <= j < i ==> description@[j]@ == description_arm_of(vs[j]),
            forall|j: int| 0 <= j < i ==> cause@[j]@ == cause_arm_of(vs[j]),
            models(conversions@) == conversions_of(vs, i as nat),
        decreases n - i,
    {
        let v = &variants[i];
        assert(v@ == vs[i as int]);
        cases.push(case_for(v));
        debug.push(pattern_for(v));
        display.push(display_arm_for(v));
        description.push(description_arm_for(v));
        cause.push(cause_arm_for(v));
        match conversion_for(v, i) {
            Some(c) => {
                proof {
                    lemma_models_push(conversions@, c);
                }
                conversions.push(c);
            },
            None => {},
        }
        i = i + 1;
    }
    let r = Artifacts {
        target_name: String::from_str(target_name),
        cases,
        debug,
        display,
        description,
        cause,
        conversions,
    };
    proof {
        let g = generated(target_name@, vs);
        assert(r@.cases =~= g.cases);
        assert(r@.debug =~= g.debug);
        assert(r@.display =~= g.display);
        assert(r@.description =~= g.description);
        assert(r@.cause =~= g.cause);
        if all_wf(vs) {
            lemma_generated_wf(target_name@, vs);
        }
    }
    r
}

/// The value of a compilation's outcome.
pub open spec fn compiled_model(r: Result<Artifacts, ParseFailure>) -> Result<
    ArtifactsModel,
    FailureModel,
> {
    match r {
        Ok(a) => Ok(a@),
        Err(e) => Err(e@),
    }
}

/// What a definition compiles to: the artifacts of the variants it lists,
/// or the failure of its parse and then no artifact at all.
pub open spec fn compiled(target_name: Seq<char>, tokens: Seq<TokenModel>) -> Result<
    ArtifactsModel,
    FailureModel,
> {
    match parsed(tokens) {
        Ok(vs) => Ok(generated(target_name, vs)),
        Err(e) => Err(e),
    }
}

/// Compiles the definition of the type named `target_name`.
pub fn compile(target_name: &str, tokens: &Vec<Token>) -> (r: Result<Artifacts, ParseFailure>)
    ensures
        compiled_model(r) == compiled(target_name@, models(tokens@)),
        r matches Ok(a) ==> a@.wf(),
        r matches Err(e) ==> e.position <= tokens.len(),
{
    match parse_variants(tokens) {
        Ok(variants) => Ok(generate(target_name, &variants)),
        Err(e) => Err(e),
    }
}

} // verus!
