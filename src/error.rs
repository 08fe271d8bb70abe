use vstd::prelude::*;

verus! {

/// Why an output was not accepted as being at a stage.
#[derive(Debug, Clone, PartialEq, Eq)]
pub enum BoxVerificationError {
    /// The P2S address of the output does not match the stage's address.
    InvalidP2SAddress,
    /// The number of nanoErgs held in the output is invalid.
    InvalidErgsValue(String),
    /// A problem with the tokens held in the output.
    InvalidTokens(String),
    /// A problem with the values in the output's registers.
    InvalidRegisters(String),
    /// Any other reason, with its diagnostic text.
    OtherError(String),
}

} // verus!

verus! {

/// A verification error with its diagnostic text as a sequence of characters.
pub enum BoxVerificationErrorView {
    InvalidP2SAddress,
    InvalidErgsValue(Seq<char>),
    InvalidTokens(Seq<char>),
    InvalidRegisters(Seq<char>),
    OtherError(Seq<char>),
}

impl View for BoxVerificationError {
    type V = BoxVerificationErrorView;

    open spec fn view(&self) -> BoxVerificationErrorView {
        match self {
            BoxVerificationError::InvalidP2SAddress => BoxVerificationErrorView::InvalidP2SAddress,
            BoxVerificationError::InvalidErgsValue(m) => BoxVerificationErrorView::InvalidErgsValue(m@),
            BoxVerificationError::InvalidTokens(m) => BoxVerificationErrorView::InvalidTokens(m@),
            BoxVerificationError::InvalidRegisters(m) => BoxVerificationErrorView::InvalidRegisters(m@),
            BoxVerificationError::OtherError(m) => BoxVerificationErrorView::OtherError(m@),
        }
    }
}

/// The view of a predicate's answer.
pub open spec fn check_view(r: Result<(), BoxVerificationError>) -> Result<(), BoxVerificationErrorView> {
    match r {
        Ok(_) => Ok(()),
        Err(e) => Err(e@),
    }
}

} // verus!
