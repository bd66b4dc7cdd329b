//! The in-memory model of a definition: variants, their fields and their
//! descriptions, each with the mathematical value that contracts speak of.

use vstd::prelude::*;
use vstd::string::*;

verus! {

/// The values of a run of items, in order.
pub open spec fn models<T: View>(s: Seq<T>) -> Seq<T::V> {
    Seq::new(s.len(), |i: int| s[i]@)
}

/// The values of a run grow with the run.
pub proof fn lemma_models_push<T: View>(s: Seq<T>, x: T)
    ensures
        models(s.push(x)) == models(s).push(x@),
{
    assert(models(s.push(x)) =~= models(s).push(x@));
}

/// An empty run has no values.
pub proof fn lemma_models_empty<T: View>()
    ensures
        models(Seq::<T>::empty()) == Seq::<T::V>::empty(),
{
    assert(models(Seq::<T>::empty()) =~= Seq::<T::V>::empty());
}

/// An attribute on a field, as the path that names it and the rest of its
/// text, which is carried along unread.
#[derive(Clone, Debug, PartialEq, Eq)]
pub struct Attribute {
    pub path: String,
    pub body: String,
}

/// The value of an [`Attribute`].
pub struct AttributeModel {
    pub path: Seq<char>,
    pub body: Seq<char>,
}

impl View for Attribute {
    type V = AttributeModel;

    open spec fn view(&self) -> AttributeModel {
        AttributeModel { path: self.path@, body: self.body@ }
    }
}

/// The path that marks a field as the conversion source.
pub open spec fn from_marker() -> Seq<char> {
    "from"@
}

impl Attribute {
    /// A copy of the attribute.
    pub fn duplicate(&self) -> (r: Attribute)
        ensures
            r@ == self@,
    {
        Attribute { path: self.path.clone(), body: self.body.clone() }
    }
}

/// A copy of a run of attributes.
pub fn copy_attributes(v: &Vec<Attribute>) -> (r: Vec<Attribute>)
    ensures
        models(r@) == models(v@),
{
    let mut out: Vec<Attribute> = Vec::new();
    let n: usize = v.len();
    let mut i: usize = 0;
    while i < n
        invariant
            n == v.len(),
            i <= n,
            out.len() == i,
            forall|j: int| 0 <= j < i ==> out@[j]@ == v@[j]@,
        decreases n - i,
    {
        out.push(v[i].duplicate());
        i = i + 1;
    }
    assert(models(out@) =~= models(v@));
    out
}

/// One named field of a struct variant. The type is a reference that is
/// only ever copied, never looked into.
#[derive(Clone, Debug, PartialEq, Eq)]
pub struct FieldSpec {
    pub name: String,
    pub ty: String,
    pub attributes: Vec<Attribute>,
}

/// The value of a [`FieldSpec`].
pub struct FieldModel {
    pub name: Seq<char>,
    pub ty: Seq<char>,
    pub attributes: Seq<AttributeModel>,
}

impl View for FieldSpec {
    type V = FieldModel;

    open spec fn view(&self) -> FieldModel {
        FieldModel {
            name: self.name@,
            ty: self.ty@,
            attributes: models(self.attributes@),
        }
    }
}

impl FieldSpec {
    /// A copy of the field.
    pub fn duplicate(&self) -> (r: FieldSpec)
        ensures
            r@ == self@,
    {
        FieldSpec {
            name: self.name.clone(),
            ty: self.ty.clone(),
            attributes: copy_attributes(&self.attributes),
        }
    }
}

/// A copy of a run of fields.
pub fn copy_fields(v: &Vec<FieldSpec>) -> (r: Vec<FieldSpec>)
    ensures
        models(r@) == models(v@),
{
    let mut out: Vec<FieldSpec> = Vec::new();
    let n: usize = v.len();
    let mut i: usize = 0;
    while i < n
        invariant
            n == v.len(),
            i <= n,
            out.len() == i,
            forall|j: int| 0 <= j < i ==> out@[j]@ == v@[j]@,
        decreases n - i,
    {
        out.push(v[i].duplicate());
        i = i + 1;
    }
    assert(models(out@) =~= models(v@));
    out
}

/// The names of a run of fields, in order.
pub open spec fn field_names(s: Seq<FieldModel>) -> Seq<Seq<char>> {
    Seq::new(s.len(), |i: int| s[i].name)
}

/// The elaborate half of a display text: a format template and the
/// expressions that fill its placeholders, in order.
#[derive(Clone, Debug, PartialEq, Eq)]
pub struct LongDescription {
    pub format_template: String,
    pub args: Vec<String>,
}

/// The value of a [`LongDescription`].
pub struct LongModel {
    pub format_template: Seq<char>,
    pub args: Seq<Seq<char>>,
}

impl View for LongDescription {
    type V = LongModel;

    open spec fn view(&self) -> LongModel {
        LongModel { format_template: self.format_template@, args: models(self.args@) }
    }
}

/// Whether a variant carries no data or named fields.
#[derive(Clone, Copy, Debug, PartialEq, Eq, Structural)]
pub enum VariantKind {
    Unit,
    Struct,
}

/// One named case of the error type.
#[derive(Clone, Debug, PartialEq, Eq)]
pub struct VariantSpec {
    pub name: String,
    pub kind: VariantKind,
    pub fields: Vec<FieldSpec>,
    pub from_index: Option<usize>,
    pub short_description: String,
    pub long_description: Option<LongDescription>,
}

/// The value of a [`VariantSpec`].
pub struct VariantModel {
    pub name: Seq<char>,
    pub kind: VariantKind,
    pub fields: Seq<FieldModel>,
    pub from_index: Option<nat>,
    pub short_description: Seq<char>,
    pub long_description: Option<LongModel>,
}

/// Whether none of the attributes kept on a field is the conversion
/// marker.
pub open spec fn unmarked(attributes: Seq<AttributeModel>) -> bool {
    forall|j: int| 0 <= j < attributes.len() ==> (#[trigger] attributes[j]).path != from_marker()
}

impl VariantModel {
    /// What every parsed variant satisfies: a unit variant has no field and
    /// no conversion source, a struct variant has at least one field, a
    /// conversion source is one of the fields, and the conversion marker is
    /// not among the attributes kept.
    pub open spec fn wf(self) -> bool {
        &&& self.kind == VariantKind::Unit ==> self.fields.len() == 0 && self.from_index is None
        &&& self.kind == VariantKind::Struct ==> self.fields.len() >= 1
        &&& self.from_index matches Some(i) ==> i < self.fields.len()
        &&& forall|i: int|
            0 <= i < self.fields.len() ==> unmarked((#[trigger] self.fields[i]).attributes)
    }
}

impl View for VariantSpec {
    type V = VariantModel;

    open spec fn view(&self) -> VariantModel {
        VariantModel {
            name: self.name@,
            kind: self.kind,
            fields: models(self.fields@),
            from_index: index_model(self.from_index),
            short_description: self.short_description@,
            long_description: match self.long_description {
                Some(l) => Some(l@),
                None => None,
            },
        }
    }
}

/// Whether every variant of a run is well formed.
pub open spec fn all_wf(s: Seq<VariantModel>) -> bool {
    forall|i: int| 0 <= i < s.len() ==> (#[trigger] s[i]).wf()
}

impl VariantSpec {
    /// Whether the variant is well formed.
    pub open spec fn wf(&self) -> bool {
        self@.wf()
    }

    /// Tests well-formedness.
    pub fn is_wf(&self) -> (r: bool)
        ensures
            r == self.wf(),
    {
        let n: usize = self.fields.len();
        let unit_ok = match self.kind {
            VariantKind::Unit => n == 0 && self.from_index.is_none(),
            VariantKind::Struct => n >= 1,
        };
        let from_ok = match self.from_index {
            Some(i) => i < n,
            None => true,
        };
        if !(unit_ok && from_ok) {
            return false;
        }
        let mut i: usize = 0;
        while i < n
            invariant
                n == self.fields.len(),
                i <= n,
                forall|k: int| 0 <= k < i ==> unmarked((#[trigger] self@.fields[k]).attributes),
            decreases n - i,
        {
            if !are_unmarked(&self.fields[i].attributes) {
                assert(!unmarked(self@.fields[i as int].attributes));
                return false;
            }
            i = i + 1;
        }
        true
    }
}

/// Tests that none of the attributes is the conversion marker.
pub fn are_unmarked(attributes: &Vec<Attribute>) -> (r: bool)
    ensures
        r == unmarked(models(attributes@)),
{
    let n: usize = attributes.len();
    let mut j: usize = 0;
    while j < n
        invariant
            n == attributes.len(),
            j <= n,
            forall|k: int| 0 <= k < j ==> (#[trigger] attributes@[k])@.path != from_marker(),
        decreases n - j,
    {
        if is_marker(&attributes[j]) {
            assert(models(attributes@)[j as int].path == from_marker());
            return false;
        }
        j = j + 1;
    }
    assert forall|k: int| 0 <= k < models(attributes@).len() implies (#[trigger] models(
        attributes@,
    )[k]).path != from_marker() by {
        assert(attributes@[k]@.path != from_marker());
    }
    true
}

/// Tests whether an attribute is the conversion marker.
pub fn is_marker(a: &Attribute) -> (r: bool)
    ensures
        r == (a@.path == from_marker()),
{
    let marker = String::from_str("from");
    a.path == marker
}


/// The value of an optional index.
pub open spec fn index_model(i: Option<usize>) -> Option<nat> {
    match i {
        Some(i) => Some(i as nat),
        None => None,
    }
}

} // verus!
