//! What holds of the parser after any run of tokens, and so of every
//! variant that it gives.

use vstd::prelude::*;
use crate::machine::{parsed, ParserModel, Stage};
use crate::model::{all_wf, from_marker, unmarked, VariantKind};
use crate::token::TokenModel;

verus! {

/// Whether a field has been begun and not yet completed.
pub open spec fn pending(stage: Stage) -> bool {
    stage == Stage::FieldNamed || stage == Stage::FieldColon
}

/// Whether the stage lies inside a field block, or just behind its `}`.
pub open spec fn among_fields(stage: Stage) -> bool {
    stage == Stage::FieldOpen || stage == Stage::FieldNext || stage == Stage::FieldTyped
        || stage == Stage::Closed || pending(stage)
}

impl ParserModel {
    /// What holds of the parser between any two tokens: the variants read
    /// are well formed, and the variant being read is as far as its stage
    /// says.
    pub open spec fn inv(self) -> bool {
        &&& self.marker matches Some(p) ==> p < self.position
        &&& self.failure matches Some(f) ==> f.position <= self.position
        &&& all_wf(self.done)
        &&& unmarked(self.attributes)
        &&& forall|i: int|
            0 <= i < self.current.fields.len() ==> unmarked(
                (#[trigger] self.current.fields[i]).attributes,
            )
        &&& self.current.from_index matches Some(i) ==> i < self.current.fields.len() || (i
            == self.current.fields.len() && pending(self.stage) && self.marker is Some)
        &&& self.current.kind == VariantKind::Unit ==> {
            &&& self.current.fields.len() == 0
            &&& self.current.from_index is None
            &&& !among_fields(self.stage)
        }
        &&& self.current.kind == VariantKind::Struct ==> {
            &&& self.stage != Stage::Start
            &&& self.stage != Stage::Named
            &&& self.current.fields.len() >= 1 || self.stage == Stage::FieldOpen || pending(
                self.stage,
            )
        }
    }
}

/// The parser starts within its invariant.
pub proof fn lemma_initial_inv()
    ensures
        ParserModel::initial().inv(),
{
}

/// A token keeps the parser within its invariant.
pub proof fn lemma_fed_inv(m: ParserModel, t: TokenModel)
    requires
        m.inv(),
    ensures
        m.fed(t).inv(),
{
    let n = m.fed(t);
    if m.failure is None {
        match m.stage {
            Stage::FieldOpen | Stage::FieldNext => {
                if let TokenModel::Attribute(a) = t {
                    if a.path != from_marker() {
                        assert forall|j: int| 0 <= j < n.attributes.len() implies (
                        #[trigger] n.attributes[j]).path != from_marker() by {
                            if j < m.attributes.len() {
                                assert(n.attributes[j] == m.attributes[j]);
                            }
                        }
                    }
                }
            },
            Stage::FieldColon => {
                if let TokenModel::Type(ty) = t {
                    assert forall|i: int| 0 <= i < n.current.fields.len() implies unmarked(
                        (#[trigger] n.current.fields[i]).attributes,
                    ) by {
                        if i < m.current.fields.len() {
                            assert(n.current.fields[i] == m.current.fields[i]);
                        }
                    }
                }
            },
            Stage::Described | Stage::Finished => {
                if t == TokenModel::Comma {
                    assert(m.current.wf());
                    assert forall|i: int| 0 <= i < n.done.len() implies (#[trigger] n.done[i]).wf() by {
                        if i < m.done.len() {
                            assert(n.done[i] == m.done[i]);
                        }
                    }
                }
            },
            _ => {},
        }
    }
}

/// A run of tokens keeps the parser within its invariant.
pub proof fn lemma_run_inv(m: ParserModel, tokens: Seq<TokenModel>)
    requires
        m.inv(),
    ensures
        m.run(tokens).inv(),
    decreases tokens.len(),
{
    if tokens.len() > 0 {
        lemma_run_inv(m, tokens.drop_last());
        lemma_fed_inv(m.run(tokens.drop_last()), tokens.last());
    }
}

/// The variants that the parser gives at the end of a stream are well
/// formed.
pub proof fn lemma_finished_wf(m: ParserModel)
    requires
        m.inv(),
    ensures
        m.finished() matches Ok(vs) ==> all_wf(vs),
{
    if let Ok(vs) = m.finished() {
        if m.stage != Stage::Start {
            assert(m.current.wf());
            assert forall|i: int| 0 <= i < vs.len() implies (#[trigger] vs[i]).wf() by {
                if i < m.done.len() {
                    assert(vs[i] == m.done[i]);
                }
            }
        }
    }
}

/// Every variant that a parse gives is well formed.
pub proof fn lemma_parsed_wf(tokens: Seq<TokenModel>)
    ensures
        parsed(tokens) matches Ok(vs) ==> all_wf(vs),
{
    lemma_initial_inv();
    lemma_run_inv(ParserModel::initial(), tokens);
    lemma_finished_wf(ParserModel::initial().run(tokens));
}

/// A token moves the parser on by one token at most.
pub proof fn lemma_fed_position(m: ParserModel, t: TokenModel)
    ensures
        m.fed(t).position <= m.position + 1,
{
}

/// A run of tokens moves the parser on by its length at most.
pub proof fn lemma_run_position(m: ParserModel, tokens: Seq<TokenModel>)
    ensures
        m.run(tokens).position <= m.position + tokens.len(),
    decreases tokens.len(),
{
    if tokens.len() > 0 {
        lemma_run_position(m, tokens.drop_last());
        lemma_fed_position(m.run(tokens.drop_last()), tokens.last());
    }
}

/// The failure of a parse was found at one of the tokens, or at the end
/// of the stream.
pub proof fn lemma_failure_within(tokens: Seq<TokenModel>)
    ensures
        parsed(tokens) matches Err(f) ==> f.position <= tokens.len(),
{
    lemma_initial_inv();
    lemma_run_inv(ParserModel::initial(), tokens);
    lemma_run_position(ParserModel::initial(), tokens);
}

} // verus!
