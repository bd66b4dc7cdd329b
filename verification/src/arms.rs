//! The pieces of the artifacts: a case of the type, the arms of its
//! renderers and accessors, and what each arm gives for a value of the
//! type.

use vstd::prelude::*;
use vstd::string::*;
use crate::model::{
    index_model, models, FieldModel, FieldSpec, LongDescription, LongModel, VariantKind,
};
use crate::text::{after, fill_template, filled};

verus! {

/// One case of the type: its name, its documentation line and its fields
/// in declared order.
#[derive(Clone, Debug, PartialEq, Eq)]
pub struct Case {
    pub name: String,
    pub doc: String,
    pub kind: VariantKind,
    pub fields: Vec<FieldSpec>,
}

/// The value of a [`Case`].
pub struct CaseModel {
    pub name: Seq<char>,
    pub doc: Seq<char>,
    pub kind: VariantKind,
    pub fields: Seq<FieldModel>,
}

impl View for Case {
    type V = CaseModel;

    open spec fn view(&self) -> CaseModel {
        CaseModel {
            name: self.name@,
            doc: self.doc@,
            kind: self.kind,
            fields: models(self.fields@),
        }
    }
}

/// How an arm takes a value apart: the case it matches and the names
/// under which it binds the fields, in declared order.
#[derive(Clone, Debug, PartialEq, Eq)]
pub struct Pattern {
    pub name: String,
    pub kind: VariantKind,
    pub bindings: Vec<String>,
}

/// The value of a [`Pattern`].
pub struct PatternModel {
    pub name: Seq<char>,
    pub kind: VariantKind,
    pub bindings: Seq<Seq<char>>,
}

impl View for Pattern {
    type V = PatternModel;

    open spec fn view(&self) -> PatternModel {
        PatternModel { name: self.name@, kind: self.kind, bindings: models(self.bindings@) }
    }
}

/// The arm of the display renderer for one case.
#[derive(Clone, Debug, PartialEq, Eq)]
pub struct DisplayArm {
    pub pattern: Pattern,
    pub short_description: String,
    pub long_description: Option<LongDescription>,
}

/// The value of a [`DisplayArm`].
pub struct DisplayArmModel {
    pub pattern: PatternModel,
    pub short_description: Seq<char>,
    pub long_description: Option<LongModel>,
}

impl View for DisplayArm {
    type V = DisplayArmModel;

    open spec fn view(&self) -> DisplayArmModel {
        DisplayArmModel {
            pattern: self.pattern@,
            short_description: self.short_description@,
            long_description: match self.long_description {
                Some(l) => Some(l@),
                None => None,
            },
        }
    }
}

/// The arm of the description accessor for one case.
#[derive(Clone, Debug, PartialEq, Eq)]
pub struct DescriptionArm {
    pub name: String,
    pub kind: VariantKind,
    pub text: String,
}

/// The value of a [`DescriptionArm`].
pub struct DescriptionArmModel {
    pub name: Seq<char>,
    pub kind: VariantKind,
    pub text: Seq<char>,
}

impl View for DescriptionArm {
    type V = DescriptionArmModel;

    open spec fn view(&self) -> DescriptionArmModel {
        DescriptionArmModel { name: self.name@, kind: self.kind, text: self.text@ }
    }
}

/// The arm of the cause accessor for one case: the binding it returns, if
/// any, by its index.
#[derive(Clone, Debug, PartialEq, Eq)]
pub struct CauseArm {
    pub pattern: Pattern,
    pub source: Option<usize>,
}

/// The value of a [`CauseArm`].
pub struct CauseArmModel {
    pub pattern: PatternModel,
    pub source: Option<nat>,
}

impl View for CauseArm {
    type V = CauseArmModel;

    open spec fn view(&self) -> CauseArmModel {
        CauseArmModel { pattern: self.pattern@, source: index_model(self.source) }
    }
}

/// A one-argument constructor: it builds the case numbered `case`, named
/// `variant`, by placing a value of type `ty` into its only field.
#[derive(Clone, Debug, PartialEq, Eq)]
pub struct Conversion {
    pub case: usize,
    pub variant: String,
    pub field: String,
    pub ty: String,
}

/// The value of a [`Conversion`].
pub struct ConversionModel {
    pub case: nat,
    pub variant: Seq<char>,
    pub field: Seq<char>,
    pub ty: Seq<char>,
}

impl View for Conversion {
    type V = ConversionModel;

    open spec fn view(&self) -> ConversionModel {
        ConversionModel {
            case: self.case as nat,
            variant: self.variant@,
            field: self.field@,
            ty: self.ty@,
        }
    }
}

/// A value of the type: the case it is, and its fields' values in
/// declared order, each as the text that the debug formatter gives it.
#[derive(Clone, Debug, PartialEq, Eq)]
pub struct Instance {
    pub case: usize,
    pub values: Vec<String>,
}

/// The value of an [`Instance`].
pub struct InstanceModel {
    pub case: nat,
    pub values: Seq<Seq<char>>,
}

impl View for Instance {
    type V = InstanceModel;

    open spec fn view(&self) -> InstanceModel {
        InstanceModel { case: self.case as nat, values: models(self.values@) }
    }
}

/// The first `n` fields of a debug text: each name with its value, with
/// `, ` between two fields.
pub open spec fn listed(names: Seq<Seq<char>>, values: Seq<Seq<char>>, n: nat) -> Seq<char>
    decreases n,
{
    if n == 0 {
        Seq::empty()
    } else {
        listed(names, values, (n - 1) as nat) + (if n > 1 {
            ", "@
        } else {
            Seq::empty()
        }) + names[n - 1] + ": "@ + values[n - 1]
    }
}

/// The debug text of a value: the case's name, the fields of a struct
/// case between braces, and the value's display text as a comment.
pub open spec fn debug_text(p: PatternModel, values: Seq<Seq<char>>, display: Seq<char>) -> Seq<
    char,
> {
    p.name + (match p.kind {
        VariantKind::Unit => Seq::empty(),
        VariantKind::Struct => " { "@ + listed(p.bindings, values, p.bindings.len()) + " }"@,
    }) + " /* "@ + display + " */"@
}

/// The display text of a value, given what the arguments of its long
/// description evaluate to: the short description and `. `, then the
/// filled template where there is one. There is none where the number of
/// arguments is not that of the expressions, or the template cannot be
/// filled with them.
pub open spec fn display_text(arm: DisplayArmModel, args: Seq<Seq<char>>) -> Option<Seq<char>> {
    match arm.long_description {
        None => if args.len() == 0 {
            Some(arm.short_description + ". "@)
        } else {
            None
        },
        Some(l) => if args.len() == l.args.len() {
            after(arm.short_description + ". "@, filled(l.format_template, args))
        } else {
            None
        },
    }
}

/// The cause of a value: the field that the arm returns, if any.
pub open spec fn cause(arm: CauseArmModel, values: Seq<Seq<char>>) -> Option<Seq<char>> {
    match arm.source {
        Some(i) => Some(values[i as int]),
        None => None,
    }
}

/// The value that a conversion builds from its argument.
pub open spec fn converted(c: ConversionModel, value: Seq<char>) -> InstanceModel {
    InstanceModel { case: c.case, values: seq![value] }
}

impl Pattern {
    /// The debug text of a value of this case, given its display text.
    pub fn debug_text(&self, values: &Vec<String>, display: &str) -> (r: String)
        requires
            values.len() == self.bindings.len(),
        ensures
            r@ == debug_text(self@, models(values@), display@),
    {
        let mut out = self.name.clone();
        match self.kind {
            VariantKind::Unit => {
                assert(out@ + Seq::<char>::empty() =~= out@);
            },
            VariantKind::Struct => {
                out.append(" { ");
                let ghost head = out@;
                let ghost names = models(self.bindings@);
                let ghost vals = models(values@);
                let n: usize = self.bindings.len();
                let mut i: usize = 0;
                assert(head + Seq::<char>::empty() =~= head);
                while i < n
                    invariant
                        n == self.bindings.len(),
                        n == values.len(),
                        i <= n,
                        names == models(self.bindings@),
                        vals == models(values@),
                        out@ == head + listed(names, vals, i as nat),
                    decreases n - i,
                {
                    let ghost before = listed(names, vals, i as nat);
                    let ghost sep = if i > 0 {
                        ", "@
                    } else {
                        Seq::<char>::empty()
                    };
                    if i > 0 {
                        out.append(", ");
                    }
                    out.append(self.bindings[i].as_str());
                    out.append(": ");
                    out.append(values[i].as_str());
                    proof {
                        assert(names[i as int] == self.bindings@[i as int]@);
                        assert(vals[i as int] == values@[i as int]@);
                        assert(out@ =~= head + (before + sep + names[i as int] + ": "@
                            + vals[i as int]));
                    }
                    i = i + 1;
                }
                out.append(" }");
                assert(out@ =~= self.name@ + (" { "@ + listed(names, vals, n as nat) + " }"@));
            },
        }
        out.append(" /* ");
        out.append(display);
        out.append(" */");
        out
    }
}

impl DisplayArm {
    /// The display text of a value of this case, given what the arguments
    /// of the long description evaluate to.
    pub fn display_text(&self, args: &Vec<String>) -> (r: Option<String>)
        ensures
            match r {
                Some(s) => display_text(self@, models(args@)) == Some(s@),
                None => display_text(self@, models(args@)) is None,
            },
    {
        let mut out = self.short_description.clone();
        out.append(". ");
        match &self.long_description {
            None => {
                if args.len() == 0 {
                    Some(out)
                } else {
                    None
                }
            },
            Some(l) => {
                if args.len() != l.args.len() {
                    return None;
                }
                match fill_template(l.format_template.as_str(), args) {
                    Some(rest) => {
                        out.append(rest.as_str());
                        Some(out)
                    },
                    None => None,
                }
            },
        }
    }
}

impl CauseArm {
    /// Whether the arm can be applied to every value of its case.
    pub open spec fn wf(&self) -> bool {
        self.source matches Some(i) ==> i < self.pattern.bindings.len()
    }

    /// The cause of a value of this case.
    pub fn cause<'a>(&self, values: &'a Vec<String>) -> (r: Option<&'a String>)
        requires
            self.wf(),
            values.len() == self.pattern.bindings.len(),
        ensures
            match r {
                Some(s) => cause(self@, models(values@)) == Some(s@),
                None => cause(self@, models(values@)) is None,
            },
    {
        match self.source {
            Some(i) => Some(&values[i]),
            None => None,
        }
    }
}

impl Conversion {
    /// Builds the case from the value of its only field.
    pub fn construct(&self, value: String) -> (r: Instance)
        ensures
            r@ == converted(self@, value@),
    {
        let mut values: Vec<String> = Vec::new();
        values.push(value);
        assert(models(values@) =~= seq![value@]);
        Instance { case: self.case, values }
    }
}

} // verus!
