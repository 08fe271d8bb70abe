use ergo_lib::ergotree_ir::chain::address::{Address, AddressEncoder};
use ergo_protocol_framework_core::{
    MathBountyBox, MathBountyProtocol, OutputCandidate, OutputData, Recipient,
    MATH_BOUNTY_P2S_ADDRESS,
};

fn bounty_script() -> Vec<u8> {
    match AddressEncoder::unchecked_parse_address_from_str(MATH_BOUNTY_P2S_ADDRESS) {
        Ok(Address::P2S(bytes)) => bytes,
        other => panic!("not a P2S address: {:?}", other.is_ok()),
    }
}

fn ergs_box(ergo_tree: Vec<u8>, value: u64) -> OutputData {
    OutputData { ergo_tree, value, tokens: vec![], registers: vec![] }
}

#[test]
fn math_bounty_box_accepts_bounty_address() {
    let b = ergs_box(bounty_script(), 1_000_000);
    assert_eq!(b.p2s_address(), MATH_BOUNTY_P2S_ADDRESS);
    let wrapped = MathBountyBox::new(&b).expect("bounty output");
    assert_eq!(wrapped.ergo_box(), &b);
}

#[test]
fn math_bounty_box_rejects_other_address() {
    let b = ergs_box(vec![0x10, 0x01, 0x04, 0x00, 0xd1, 0x93, 0x73, 0x00], 1_000_000);
    assert!(MathBountyBox::new(&b).is_none());
}

#[test]
fn bootstrap_builds_bounty_fee_and_change_outputs() {
    let user = "9fRAWhdxEsTcdb8PhGNrZfwqa65zfkuYHAMmkQLcic1gdLSV5vA".to_string();
    let for_bounty = ergs_box(vec![1, 2, 3], 5_000_000);
    let for_fee = ergs_box(vec![4, 5, 6], 2_000_000);
    let tx = MathBountyProtocol::action_bootstrap_math_bounty_box(
        4_000_000,
        &for_bounty,
        600_000,
        1_000_000,
        &for_fee,
        user.clone(),
    );
    assert_eq!(tx.inputs, vec![for_bounty, for_fee]);
    assert_eq!(
        tx.output_candidates,
        vec![
            OutputCandidate {
                value: 4_000_000,
                recipient: Recipient::Address(MATH_BOUNTY_P2S_ADDRESS.to_string()),
                creation_height: 600_000,
            },
            OutputCandidate { value: 1_000_000, recipient: Recipient::MinerFee, creation_height: 600_000 },
            OutputCandidate {
                value: 2_000_000,
                recipient: Recipient::Address(user),
                creation_height: 600_000,
            },
        ]
    );
}

#[test]
fn bootstrap_with_no_change_left() {
    let tx = MathBountyProtocol::action_bootstrap_math_bounty_box(
        7,
        &ergs_box(vec![1], 5),
        1,
        3,
        &ergs_box(vec![2], 5),
        "user".to_string(),
    );
    assert_eq!(tx.output_candidates[2].value, 0);
}
