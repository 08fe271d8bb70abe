use vstd::prelude::*;

use ergo_lib::ergotree_ir::chain::address::{Address, AddressEncoder, NetworkPrefix};

verus! {

/// The Base58 mainnet pay-to-script address of a serialized ErgoTree:
/// a prefix byte, the script bytes and a Blake2b checksum, Base58-encoded.
/// It depends on the script bytes alone.
pub uninterp spec fn mainnet_p2s_address(ergo_tree: Seq<u8>) -> Seq<char>;

/// Relies on ergo_lib's `AddressEncoder::address_to_str` for `Address::P2S`
/// on the mainnet prefix: the canonical address string of the script bytes.
#[verifier::external_body]
pub(crate) fn encode_mainnet_p2s(ergo_tree: &Vec<u8>) -> (r: String)
    ensures
        r@ == mainnet_p2s_address(ergo_tree@),
{
    let address = Address::P2S(ergo_tree.clone());
    AddressEncoder::new(NetworkPrefix::Mainnet).address_to_str(&address)
}

} // verus!
