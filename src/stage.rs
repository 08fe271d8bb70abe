use vstd::prelude::*;

use std::collections::HashMap;

use ergo_lib::ergotree_ir::mir::constant::Constant;

use crate::address::mainnet_p2s_address;
use crate::error::{check_view, BoxVerificationError, BoxVerificationErrorView};
use crate::output::{OutputData, OutputDataView};

verus! {

#[verifier::external_type_specification]
#[verifier::external_body]
pub struct ExConstant(Constant);

/// The type-level name of a stage of a protocol. Each stage gets an empty
/// struct that implements this trait.
pub trait StageType: Sized {
    /// Create the (content-free) value of the stage type.
    fn new() -> Self;
}

/// A predicate is pure when it can be called on every output and its result
/// depends only on the content of the output.
pub open spec fn is_pure_predicate<F: Fn(&OutputData) -> Result<(), BoxVerificationError>>(
    f: F,
) -> bool {
    &&& forall|o: &OutputData| #[trigger] call_requires(f, (o,))
    &&& forall|
        o1: &OutputData,
        o2: &OutputData,
        r1: Result<(), BoxVerificationError>,
        r2: Result<(), BoxVerificationError>,
    |
        #![trigger call_ensures(f, (o1,), r1), call_ensures(f, (o2,), r2)]
        o1@ == o2@ && call_ensures(f, (o1,), r1) && call_ensures(f, (o2,), r2) ==> check_view(r1)
            == check_view(r2)
}

/// A stage of a multi-stage protocol: the P2S address of its contract, the
/// values hardcoded in that contract, and the predicate that an output must
/// pass to be at this stage.
#[derive(Clone)]
pub struct Stage<ST: StageType, F: Fn(&OutputData) -> Result<(), BoxVerificationError>> {
    /// Hardcoded values within the stage's contract.
    pub hardcoded_values: HashMap<String, Constant>,
    /// The P2S address of the stage, Base58-encoded.
    pub p2s_address: String,
    /// The checks on an output's value, tokens and registers.
    pub verification_predicate: F,
    /// The stage type this stage is for.
    pub stage_type: ST,
}

/// An output that passed the checks of the stage `ST`. Only
/// `Stage::verify_box` makes one.
pub struct StageBox<ST: StageType> {
    stage: ST,
    ergo_box: OutputData,
}

impl<ST: StageType> View for StageBox<ST> {
    type V = OutputDataView;

    closed spec fn view(&self) -> OutputDataView {
        self.ergo_box@
    }
}

impl<ST: StageType> StageBox<ST> {
    /// The verified output.
    pub fn ergo_box(&self) -> (r: &OutputData)
        ensures
            r@ == self@,
    {
        &self.ergo_box
    }

    /// The stage the output was verified for.
    pub fn stage(&self) -> (r: &ST) {
        &self.stage
    }
}

/// The content of the token in a verification result, or the error.
pub open spec fn outcome_view<ST: StageType>(
    r: Result<StageBox<ST>, BoxVerificationError>,
) -> Result<OutputDataView, BoxVerificationError> {
    match r {
        Ok(t) => Ok(t@),
        Err(e) => Err(e),
    }
}

/// A verification outcome with the error as its view.
pub open spec fn outcome_full_view(
    r: Result<OutputDataView, BoxVerificationError>,
) -> Result<OutputDataView, BoxVerificationErrorView> {
    match r {
        Ok(v) => Ok(v),
        Err(e) => Err(e@),
    }
}

impl<ST: StageType, F: Fn(&OutputData) -> Result<(), BoxVerificationError>> Stage<ST, F> {
    /// The stage's predicate is pure.
    pub open spec fn wf(&self) -> bool {
        is_pure_predicate(self.verification_predicate)
    }

    /// The output's script encodes to the stage's address.
    pub open spec fn address_matches(&self, b: OutputDataView) -> bool {
        mainnet_p2s_address(b.ergo_tree) == self.p2s_address@
    }

    /// The predicate may answer `res` on `b`.
    pub open spec fn predicate_gives(&self, b: &OutputData, res: Result<(), BoxVerificationError>) -> bool {
        call_ensures(self.verification_predicate, (b,), res)
    }

    /// What verifying `b` returns: the address error where the address does
    /// not match, else the predicate's error, else the content of `b`.
    pub open spec fn verify_outcome(
        &self,
        b: &OutputData,
        r: Result<OutputDataView, BoxVerificationError>,
    ) -> bool {
        if !self.address_matches(b@) {
            r == Err::<OutputDataView, BoxVerificationError>(BoxVerificationError::InvalidP2SAddress)
        } else {
            match r {
                Ok(v) => v == b@ && self.predicate_gives(b, Ok(())),
                Err(e) => self.predicate_gives(b, Err(e)),
            }
        }
    }

    /// Create a stage from its hardcoded values, address and predicate.
    pub fn new(
        hardcoded_values: HashMap<String, Constant>,
        p2s_address: &String,
        verification_predicate: F,
    ) -> (r: Stage<ST, F>)
        ensures
            r.hardcoded_values == hardcoded_values,
            r.p2s_address@ == p2s_address@,
            r.verification_predicate == verification_predicate,
    {
        Stage {
            hardcoded_values: hardcoded_values,
            p2s_address: p2s_address.clone(),
            verification_predicate: verification_predicate,
            stage_type: ST::new(),
        }
    }

    /// Check that `b` is at this stage: its script must encode to the
    /// stage's address, and then it must pass the predicate.
    pub fn verify_box(&self, b: &OutputData) -> (r: Result<StageBox<ST>, BoxVerificationError>)
        requires
            self.wf(),
        ensures
            self.verify_outcome(b, outcome_view(r)),
    {
        let address = b.p2s_address();
        if !(self.p2s_address == address) {
            return Err(BoxVerificationError::InvalidP2SAddress);
        }
        let checked = (self.verification_predicate)(b);
        if let Err(e) = checked {
            return Err(e);
        }
        assert(checked->Ok_0 == ());
        Ok(StageBox { stage: ST::new(), ergo_box: b.copy() })
    }
}

} // verus!

verus! {

/// An output whose script encodes to the stage's address and which passes
/// the predicate is accepted, and the token holds that output's content.
pub proof fn lemma_accepts_passing_output<ST: StageType, F: Fn(&OutputData) -> Result<(), BoxVerificationError>>(
    s: Stage<ST, F>,
    b: &OutputData,
    r: Result<OutputDataView, BoxVerificationError>,
)
    requires
        s.wf(),
        s.address_matches(b@),
        s.predicate_gives(b, Ok(())),
        s.verify_outcome(b, r),
    ensures
        r == Ok::<OutputDataView, BoxVerificationError>(b@),
{
    if let Err(e) = r {
        assert(s.predicate_gives(b, Err(e)));
        assert(call_ensures(s.verification_predicate, (b,), Ok::<(), BoxVerificationError>(())));
        assert(call_ensures(s.verification_predicate, (b,), Err::<(), BoxVerificationError>(e)));
    }
}

/// An output whose script does not encode to the stage's address is
/// rejected with the address error, whatever the predicate would say.
pub proof fn lemma_rejects_wrong_address<ST: StageType, F: Fn(&OutputData) -> Result<(), BoxVerificationError>>(
    s: Stage<ST, F>,
    b: &OutputData,
    r: Result<OutputDataView, BoxVerificationError>,
)
    requires
        !s.address_matches(b@),
        s.verify_outcome(b, r),
    ensures
        r == Err::<OutputDataView, BoxVerificationError>(BoxVerificationError::InvalidP2SAddress),
{
}

/// Verification is deterministic: one stage and two outputs with the same
/// content give the same result.
pub proof fn lemma_verify_deterministic<ST: StageType, F: Fn(&OutputData) -> Result<(), BoxVerificationError>>(
    s: Stage<ST, F>,
    b1: &OutputData,
    b2: &OutputData,
    r1: Result<OutputDataView, BoxVerificationError>,
    r2: Result<OutputDataView, BoxVerificationError>,
)
    requires
        s.wf(),
        b1@ == b2@,
        s.verify_outcome(b1, r1),
        s.verify_outcome(b2, r2),
    ensures
        outcome_full_view(r1) == outcome_full_view(r2),
{
    if s.address_matches(b1@) {
        let p1: Result<(), BoxVerificationError> = match r1 {
            Ok(_) => Ok(()),
            Err(e) => Err(e),
        };
        let p2: Result<(), BoxVerificationError> = match r2 {
            Ok(_) => Ok(()),
            Err(e) => Err(e),
        };
        assert(call_ensures(s.verification_predicate, (b1,), p1));
        assert(call_ensures(s.verification_predicate, (b2,), p2));
        assert(check_view(p1) == check_view(p2));
    }
}

/// Two outputs verified one after the other against one stage each give a
/// token that holds their own content.
pub proof fn lemma_tokens_keep_their_output<ST: StageType, F: Fn(&OutputData) -> Result<(), BoxVerificationError>>(
    s: Stage<ST, F>,
    b1: &OutputData,
    b2: &OutputData,
    r1: Result<OutputDataView, BoxVerificationError>,
    r2: Result<OutputDataView, BoxVerificationError>,
)
    requires
        s.verify_outcome(b1, r1),
        s.verify_outcome(b2, r2),
    ensures
        r1 is Ok ==> r1->Ok_0 == b1@,
        r2 is Ok ==> r2->Ok_0 == b2@,
{
}

/// With a predicate that never fails, an output is accepted exactly when its
/// script encodes to the stage's address, whatever else it holds.
pub proof fn lemma_always_passing_predicate<ST: StageType, F: Fn(&OutputData) -> Result<(), BoxVerificationError>>(
    s: Stage<ST, F>,
    b: &OutputData,
    r: Result<OutputDataView, BoxVerificationError>,
)
    requires
        forall|o: &OutputData, res: Result<(), BoxVerificationError>|
            #[trigger] call_ensures(s.verification_predicate, (o,), res) ==> res is Ok,
        s.verify_outcome(b, r),
    ensures
        r is Ok <==> s.address_matches(b@),
        r is Ok ==> r->Ok_0 == b@,
{
    if s.address_matches(b@) {
        if let Err(e) = r {
            assert(call_ensures(s.verification_predicate, (b,), Err::<(), BoxVerificationError>(e)));
        }
    }
}

} // verus!
