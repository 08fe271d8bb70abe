mod address;
mod error;
mod math_bounty;
mod output;
mod stage;

pub use address::mainnet_p2s_address;
pub use error::{check_view, BoxVerificationError, BoxVerificationErrorView};
pub use math_bounty::{
    is_candidate, MathBountyBox, MathBountyProtocol, OutputCandidate, Recipient,
    UnsignedTransactionPlan, MATH_BOUNTY_P2S_ADDRESS,
};
pub use output::{OutputData, OutputDataView, Token};
pub use stage::{
    is_pure_predicate, lemma_accepts_passing_output, lemma_always_passing_predicate,
    lemma_rejects_wrong_address, lemma_tokens_keep_their_output, lemma_verify_deterministic,
    outcome_full_view, outcome_view, Stage, StageBox, StageType,
};
