//! The artifacts of a definition, and what they give for a value of the
//! type.

use vstd::prelude::*;
use crate::arms::{
    cause, debug_text, display_text, Case, CaseModel, CauseArm, CauseArmModel, Conversion,
    ConversionModel, DescriptionArm, DescriptionArmModel, DisplayArm, DisplayArmModel, Instance,
    InstanceModel, Pattern, PatternModel,
};
use crate::model::models;

verus! {

/// Everything that is derived from one definition. Each table holds one
/// entry per variant, in the order of the definition; the conversions
/// hold one entry per variant that can be built from its only field.
#[derive(Clone, Debug, PartialEq, Eq)]
pub struct Artifacts {
    pub target_name: String,
    pub cases: Vec<Case>,
    pub debug: Vec<Pattern>,
    pub display: Vec<DisplayArm>,
    pub description: Vec<DescriptionArm>,
    pub cause: Vec<CauseArm>,
    pub conversions: Vec<Conversion>,
}

/// The value of an [`Artifacts`].
pub struct ArtifactsModel {
    pub target_name: Seq<char>,
    pub cases: Seq<CaseModel>,
    pub debug: Seq<PatternModel>,
    pub display: Seq<DisplayArmModel>,
    pub description: Seq<DescriptionArmModel>,
    pub cause: Seq<CauseArmModel>,
    pub conversions: Seq<ConversionModel>,
}

impl View for Artifacts {
    type V = ArtifactsModel;

    open spec fn view(&self) -> ArtifactsModel {
        ArtifactsModel {
            target_name: self.target_name@,
            cases: models(self.cases@),
            debug: models(self.debug@),
            display: models(self.display@),
            description: models(self.description@),
            cause: models(self.cause@),
            conversions: models(self.conversions@),
        }
    }
}

impl ArtifactsModel {
    /// Whether the tables agree with each other: each holds one entry per
    /// case, every arm binds the fields of its case, a cause is one of the
    /// bindings, and every conversion builds a case of one field.
    pub open spec fn wf(self) -> bool {
        &&& self.debug.len() == self.cases.len()
        &&& self.display.len() == self.cases.len()
        &&& self.description.len() == self.cases.len()
        &&& self.cause.len() == self.cases.len()
        &&& forall|i: int|
            0 <= i < self.cases.len() ==> {
                &&& (#[trigger] self.debug[i]).bindings.len() == self.cases[i].fields.len()
            }
        &&& forall|i: int|
            0 <= i < self.cases.len() ==> {
                &&& (#[trigger] self.cause[i]).pattern.bindings.len()
                    == self.cases[i].fields.len()
                &&& self.cause[i].source matches Some(k) ==> k < self.cases[i].fields.len()
            }
        &&& forall|k: int|
            0 <= k < self.conversions.len() ==> {
                &&& (#[trigger] self.conversions[k]).case < self.cases.len()
                &&& self.cases[self.conversions[k].case as int].fields.len() == 1
            }
    }

    /// Whether `x` is a value of the type: one of its cases, with a value
    /// for each field of that case.
    pub open spec fn holds(self, x: InstanceModel) -> bool {
        &&& x.case < self.cases.len()
        &&& x.values.len() == self.cases[x.case as int].fields.len()
    }

    /// The display text of a value, given what the arguments of its long
    /// description evaluate to.
    pub open spec fn display_text(self, x: InstanceModel, args: Seq<Seq<char>>) -> Option<
        Seq<char>,
    > {
        display_text(self.display[x.case as int], args)
    }

    /// The debug text of a value, which embeds its display text.
    pub open spec fn debug_text(self, x: InstanceModel, args: Seq<Seq<char>>) -> Option<
        Seq<char>,
    > {
        match self.display_text(x, args) {
            Some(d) => Some(debug_text(self.debug[x.case as int], x.values, d)),
            None => None,
        }
    }

    /// The description of a value.
    pub open spec fn description(self, x: InstanceModel) -> Seq<char> {
        self.description[x.case as int].text
    }

    /// The cause of a value.
    pub open spec fn cause(self, x: InstanceModel) -> Option<Seq<char>> {
        cause(self.cause[x.case as int], x.values)
    }
}

impl Artifacts {
    /// Tests whether the tables agree with each other.
    pub fn is_wf(&self) -> (r: bool)
        ensures
            r == self@.wf(),
    {
        let n: usize = self.cases.len();
        if self.debug.len() != n || self.display.len() != n || self.description.len() != n
            || self.cause.len() != n {
            return false;
        }
        let mut i: usize = 0;
        while i < n
            invariant
                n == self.cases.len(),
                n == self.debug.len(),
                n == self.cause.len(),
                i <= n,
                forall|j: int|
                    0 <= j < i ==> (#[trigger] self@.debug[j]).bindings.len()
                        == self@.cases[j].fields.len(),
                forall|j: int|
                    0 <= j < i ==> {
                        &&& (#[trigger] self@.cause[j]).pattern.bindings.len()
                            == self@.cases[j].fields.len()
                        &&& self@.cause[j].source matches Some(k) ==> k
                            < self@.cases[j].fields.len()
                    },
            decreases n - i,
        {
            let width: usize = self.cases[i].fields.len();
            let bound = match self.cause[i].source {
                Some(k) => k < width,
                None => true,
            };
            assert(self@.debug[i as int] == self.debug@[i as int]@);
            assert(self@.cause[i as int] == self.cause@[i as int]@);
            assert(self@.cases[i as int] == self.cases@[i as int]@);
            if self.debug[i].bindings.len() != width || self.cause[i].pattern.bindings.len()
                != width || !bound {
                return false;
            }
            i = i + 1;
        }
        let m: usize = self.conversions.len();
        let mut k: usize = 0;
        while k < m
            invariant
                n == self.cases.len(),
                m == self.conversions.len(),
                k <= m,
                forall|j: int|
                    0 <= j < k ==> {
                        &&& (#[trigger] self@.conversions[j]).case < self@.cases.len()
                        &&& self@.cases[self@.conversions[j].case as int].fields.len() == 1
                    },
            decreases m - k,
        {
            let case: usize = self.conversions[k].case;
            assert(self@.conversions[k as int] == self.conversions@[k as int]@);
            if case >= n {
                return false;
            }
            assert(self@.cases[case as int] == self.cases@[case as int]@);
            if self.cases[case].fields.len() != 1 {
                return false;
            }
            k = k + 1;
        }
        true
    }

    /// The display text of a value, given what the arguments of its long
    /// description evaluate to; none where the arguments do not fit the
    /// long description.
    pub fn display_text(&self, x: &Instance, args: &Vec<String>) -> (r: Option<String>)
        requires
            self@.wf(),
            self@.holds(x@),
        ensures
            match r {
                Some(s) => self@.display_text(x@, models(args@)) == Some(s@),
                None => self@.display_text(x@, models(args@)) is None,
            },
    {
        self.display[x.case].display_text(args)
    }

    /// The debug text of a value; none where there is no display text.
    pub fn debug_text(&self, x: &Instance, args: &Vec<String>) -> (r: Option<String>)
        requires
            self@.wf(),
            self@.holds(x@),
        ensures
            match r {
                Some(s) => self@.debug_text(x@, models(args@)) == Some(s@),
                None => self@.debug_text(x@, models(args@)) is None,
            },
    {
        match self.display[x.case].display_text(args) {
            Some(d) => {
                assert(self@.debug[x.case as int] == self.debug@[x.case as int]@);
                Some(self.debug[x.case].debug_text(&x.values, d.as_str()))
            },
            None => None,
        }
    }

    /// The description of a value.
    pub fn description(&self, x: &Instance) -> (r: String)
        requires
            self@.wf(),
            self@.holds(x@),
        ensures
            r@ == self@.description(x@),
    {
        self.description[x.case].text.clone()
    }

    /// The cause of a value.
    pub fn cause<'a>(&self, x: &'a Instance) -> (r: Option<&'a String>)
        requires
            self@.wf(),
            self@.holds(x@),
        ensures
            match r {
                Some(s) => self@.cause(x@) == Some(s@),
                None => self@.cause(x@) is None,
            },
    {
        assert(self@.cause[x.case as int] == self.cause@[x.case as int]@);
        self.cause[x.case].cause(&x.values)
    }

    /// Whether `x` is a value of the type.
    pub fn holds(&self, x: &Instance) -> (r: bool)
        requires
            self@.wf(),
        ensures
            r == self@.holds(x@),
    {
        x.case < self.cases.len() && x.values.len() == self.cases[x.case].fields.len()
    }
}

} // verus!
