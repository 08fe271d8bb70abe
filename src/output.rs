use vstd::prelude::*;

use crate::address::{encode_mainnet_p2s, mainnet_p2s_address};

verus! {

/// A token held by an output: its identifier and amount.
#[derive(Debug, Clone, PartialEq, Eq)]
pub struct Token {
    pub token_id: Vec<u8>,
    pub amount: u64,
}

/// A ledger output (a "box") as the stage checks read it.
#[derive(Debug, Clone, PartialEq, Eq)]
pub struct OutputData {
    /// The serialized ErgoTree (locking script) of the output.
    pub ergo_tree: Vec<u8>,
    /// The nanoErgs held by the output.
    pub value: u64,
    /// The tokens held by the output, in order.
    pub tokens: Vec<Token>,
    /// The non-mandatory registers, from R4 on; `None` where a register is empty.
    pub registers: Vec<Option<Vec<u8>>>,
}

/// The content of an output, as mathematical values.
pub struct OutputDataView {
    pub ergo_tree: Seq<u8>,
    pub value: u64,
    pub tokens: Seq<(Seq<u8>, u64)>,
    pub registers: Seq<Option<Seq<u8>>>,
}

impl View for Token {
    type V = (Seq<u8>, u64);

    open spec fn view(&self) -> (Seq<u8>, u64) {
        (self.token_id@, self.amount)
    }
}

pub open spec fn register_view(r: Option<Vec<u8>>) -> Option<Seq<u8>> {
    match r {
        Some(bytes) => Some(bytes@),
        None => None,
    }
}

impl View for OutputData {
    type V = OutputDataView;

    open spec fn view(&self) -> OutputDataView {
        OutputDataView {
            ergo_tree: self.ergo_tree@,
            value: self.value,
            tokens: self.tokens@.map_values(|t: Token| t@),
            registers: self.registers@.map_values(|r: Option<Vec<u8>>| register_view(r)),
        }
    }
}

fn copy_bytes(bytes: &Vec<u8>) -> (r: Vec<u8>)
    ensures
        r@ == bytes@,
{
    let mut r: Vec<u8> = Vec::new();
    let mut i: usize = 0;
    while i < bytes.len()
        invariant
            i <= bytes.len(),
            r@ == bytes@.subrange(0, i as int),
        decreases bytes.len() - i,
    {
        r.push(bytes[i]);
        i = i + 1;
    }
    assert(r@ =~= bytes@);
    r
}

fn copy_tokens(tokens: &Vec<Token>) -> (r: Vec<Token>)
    ensures
        r@.map_values(|t: Token| t@) == tokens@.map_values(|t: Token| t@),
{
    let mut r: Vec<Token> = Vec::new();
    let mut i: usize = 0;
    while i < tokens.len()
        invariant
            i <= tokens.len(),
            r@.len() == i,
            forall|j: int| 0 <= j < i ==> (#[trigger] r@[j])@ == tokens@[j]@,
        decreases tokens.len() - i,
    {
        let t = Token { token_id: copy_bytes(&tokens[i].token_id), amount: tokens[i].amount };
        r.push(t);
        i = i + 1;
    }
    assert(r@.map_values(|t: Token| t@) =~= tokens@.map_values(|t: Token| t@));
    r
}

fn copy_registers(registers: &Vec<Option<Vec<u8>>>) -> (r: Vec<Option<Vec<u8>>>)
    ensures
        r@.map_values(|o: Option<Vec<u8>>| register_view(o)) == registers@.map_values(
            |o: Option<Vec<u8>>| register_view(o),
        ),
{
    let mut r: Vec<Option<Vec<u8>>> = Vec::new();
    let mut i: usize = 0;
    while i < registers.len()
        invariant
            i <= registers.len(),
            r@.len() == i,
            forall|j: int| 0 <= j < i ==> register_view(#[trigger] r@[j]) == register_view(registers@[j]),
        decreases registers.len() - i,
    {
        let c = match &registers[i] {
            Some(bytes) => Some(copy_bytes(bytes)),
            None => None,
        };
        r.push(c);
        i = i + 1;
    }
    assert(r@.map_values(|o: Option<Vec<u8>>| register_view(o)) =~= registers@.map_values(
        |o: Option<Vec<u8>>| register_view(o),
    ));
    r
}

impl OutputData {
    /// A copy of this output with the same content.
    pub fn copy(&self) -> (r: OutputData)
        ensures
            r@ == self@,
    {
        OutputData {
            ergo_tree: copy_bytes(&self.ergo_tree),
            value: self.value,
            tokens: copy_tokens(&self.tokens),
            registers: copy_registers(&self.registers),
        }
    }

    /// The canonical mainnet P2S address recomputed from the output's script.
    pub fn p2s_address(&self) -> (r: String)
        ensures
            r@ == mainnet_p2s_address(self@.ergo_tree),
    {
        encode_mainnet_p2s(&self.ergo_tree)
    }
}

} // verus!
