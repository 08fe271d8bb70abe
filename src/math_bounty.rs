use vstd::prelude::*;

use crate::address::mainnet_p2s_address;
use crate::output::{OutputData, OutputDataView};

verus! {

/// The P2S address of the math bounty contract.
pub const MATH_BOUNTY_P2S_ADDRESS: &'static str = "94hWSMqgxHtRNEWoKrJFGVNQEYX34zfX68FNxWr";

/// An output locked under the math bounty contract.
#[derive(Debug, Clone)]
pub struct MathBountyBox {
    ergo_box: OutputData,
}

impl View for MathBountyBox {
    type V = OutputDataView;

    closed spec fn view(&self) -> OutputDataView {
        self.ergo_box@
    }
}

impl MathBountyBox {
    /// Wrap `ergo_box` when its script encodes to the math bounty address.
    pub fn new(ergo_box: &OutputData) -> (r: Option<MathBountyBox>)
        ensures
            r is Some <==> mainnet_p2s_address(ergo_box@.ergo_tree) == MATH_BOUNTY_P2S_ADDRESS@,
            r is Some ==> r->Some_0@ == ergo_box@,
    {
        let address = ergo_box.p2s_address();
        let expected = MATH_BOUNTY_P2S_ADDRESS.to_owned();
        if !(address == expected) {
            return None;
        }
        Some(MathBountyBox { ergo_box: ergo_box.copy() })
    }

    /// The wrapped output.
    pub fn ergo_box(&self) -> (r: &OutputData)
        ensures
            r@ == self@,
    {
        &self.ergo_box
    }
}

/// Where an output candidate is sent.
#[derive(Debug, Clone, PartialEq, Eq)]
pub enum Recipient {
    /// The P2S or P2PK address, Base58-encoded.
    Address(String),
    /// The miners' fee contract.
    MinerFee,
}

/// An output to be created by a transaction, holding nanoErgs only.
#[derive(Debug, Clone, PartialEq, Eq)]
pub struct OutputCandidate {
    pub value: u64,
    pub recipient: Recipient,
    pub creation_height: u64,
}

/// An unsigned transaction: the outputs it spends, in order, and the
/// outputs it creates, in order.
#[derive(Debug, Clone)]
pub struct UnsignedTransactionPlan {
    pub inputs: Vec<OutputData>,
    pub output_candidates: Vec<OutputCandidate>,
}

/// The output candidate holding `value` for `recipient` at `height`.
pub open spec fn is_candidate(
    c: OutputCandidate,
    value: u64,
    recipient: Option<Seq<char>>,
    height: u64,
) -> bool {
    &&& c.value == value
    &&& c.creation_height == height
    &&& match recipient {
        Some(a) => c.recipient is Address && c.recipient->Address_0@ == a,
        None => c.recipient is MinerFee,
    }
}

/// The actions of the math bounty protocol.
pub struct MathBountyProtocol {}

impl MathBountyProtocol {
    /// The bootstrap action: lock `bounty_amount_in_nano_ergs` in a new math
    /// bounty output (output 0), pay the fee (output 1) and send the change
    /// back to `user_address` (output 2), spending the two given outputs.
    pub fn action_bootstrap_math_bounty_box(
        bounty_amount_in_nano_ergs: u64,
        ergs_box_for_bounty: &OutputData,
        current_height: u64,
        transaction_fee: u64,
        ergs_box_for_fee: &OutputData,
        user_address: String,
    ) -> (r: UnsignedTransactionPlan)
        requires
            ergs_box_for_bounty.value + ergs_box_for_fee.value <= u64::MAX,
            bounty_amount_in_nano_ergs + transaction_fee <= ergs_box_for_bounty.value
                + ergs_box_for_fee.value,
        ensures
            r.inputs@.len() == 2,
            r.inputs@[0]@ == ergs_box_for_bounty@,
            r.inputs@[1]@ == ergs_box_for_fee@,
            r.output_candidates@.len() == 3,
            is_candidate(
                r.output_candidates@[0],
                bounty_amount_in_nano_ergs,
                Some(MATH_BOUNTY_P2S_ADDRESS@),
                current_height,
            ),
            is_candidate(r.output_candidates@[1], transaction_fee, None, current_height),
            is_candidate(
                r.output_candidates@[2],
                (ergs_box_for_bounty.value + ergs_box_for_fee.value - bounty_amount_in_nano_ergs
                    - transaction_fee) as u64,
                Some(user_address@),
                current_height,
            ),
    {
        let mut inputs: Vec<OutputData> = Vec::new();
        inputs.push(ergs_box_for_bounty.copy());
        inputs.push(ergs_box_for_fee.copy());

        let total_nano_ergs = ergs_box_for_bounty.value + ergs_box_for_fee.value;
        let total_change = total_nano_ergs - bounty_amount_in_nano_ergs - transaction_fee;

        let math_bounty_candidate = OutputCandidate {
            value: bounty_amount_in_nano_ergs,
            recipient: Recipient::Address(MATH_BOUNTY_P2S_ADDRESS.to_owned()),
            creation_height: current_height,
        };
        let transaction_fee_candidate = OutputCandidate {
            value: transaction_fee,
            recipient: Recipient::MinerFee,
            creation_height: current_height,
        };
        let change_box_candidate = OutputCandidate {
            value: total_change,
            recipient: Recipient::Address(user_address),
            creation_height: current_height,
        };

        let mut output_candidates: Vec<OutputCandidate> = Vec::new();
        output_candidates.push(math_bounty_candidate);
        output_candidates.push(transaction_fee_candidate);
        output_candidates.push(change_box_candidate);

        UnsignedTransactionPlan { inputs, output_candidates }
    }
}

} // verus!
