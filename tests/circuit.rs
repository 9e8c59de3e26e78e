use poseidon_ckb_verifier::circuit::HashCircuit;
use poseidon_ckb_verifier::permutation::MySpec;
use poseidon_ckb_verifier::protocol::prepare_statement;

#[test]
fn deployed_layout() {
    let config = HashCircuit::configure(3, 2, 2).unwrap();
    assert_eq!(config.state, vec![0, 1, 2]);
    assert_eq!(config.partial_sbox, 3);
    assert_eq!(config.rc_a, vec![0, 1, 2]);
    assert_eq!(config.rc_b, vec![3, 4, 5]);
    assert_eq!(config.constant, 3);
    assert_eq!(config.input, vec![0, 1]);
    assert_eq!(config.output, 0);
    assert_eq!(HashCircuit::public_cell(&config), (0, 0));
}

#[test]
fn wide_layout() {
    let config = HashCircuit::configure(12, 11, 4).unwrap();
    assert_eq!(config.state, (0..12).collect::<Vec<usize>>());
    assert_eq!(config.rc_b, (12..24).collect::<Vec<usize>>());
    assert_eq!(config.input, vec![0, 1, 2, 3]);
    assert_eq!(config.partial_sbox, 12);
}

#[test]
fn message_longer_than_rate_is_refused() {
    assert!(HashCircuit::configure(3, 2, 3).is_none());
    assert!(HashCircuit::configure(9, 8, 9).is_none());
}

#[test]
fn unsupported_width_is_refused() {
    assert!(HashCircuit::configure(4, 3, 1).is_none());
    assert!(HashCircuit::configure(3, 1, 1).is_none());
}

#[test]
fn filled_circuit_assigns_message_in_order() {
    let statement = prepare_statement(b"hello").unwrap();
    let circuit = HashCircuit::from_statement(&statement);
    assert_eq!(circuit.output, Some(statement.output));
    let config = HashCircuit::configure(3, 2, 2).unwrap();
    let cells = circuit.synthesize(&config);
    assert_eq!(cells.len(), 2);
    assert_eq!((cells[0].column, cells[0].row), (0, 0));
    assert_eq!((cells[1].column, cells[1].row), (1, 0));
    assert_eq!(cells[0].value, Some([0x6f6c6c6568, 0, 0, 0]));
    assert_eq!(cells[1].value, Some([0, 0, 0, 0]));
}

#[test]
fn empty_circuit_has_unknown_witnesses() {
    let statement = prepare_statement(b"hello").unwrap();
    let empty = HashCircuit::from_statement(&statement).without_witnesses();
    assert!(empty.message.is_none());
    assert!(empty.output.is_none());
    let config = HashCircuit::configure(3, 2, 2).unwrap();
    let cells = empty.synthesize(&config);
    assert_eq!(cells.len(), 2);
    assert!(cells.iter().all(|c| c.value.is_none() && c.row == 0));
}

#[test]
fn permutation_parameters() {
    assert_eq!(MySpec::<3, 2>::full_rounds(), 8);
    assert_eq!(MySpec::<3, 2>::partial_rounds(), 56);
    assert_eq!(MySpec::<9, 8>::secure_mds(), 0);
    assert!(MySpec::<3, 2>::is_supported());
    assert!(MySpec::<9, 8>::is_supported());
    assert!(MySpec::<12, 11>::is_supported());
    assert!(!MySpec::<4, 3>::is_supported());
}

#[test]
fn sbox_of_two_is_thirty_two() {
    let mut expected = [0u8; 32];
    expected[0] = 32;
    assert_eq!(MySpec::<3, 2>::sbox([2, 0, 0, 0]), expected);
}

#[test]
fn sbox_of_minus_one_is_minus_one() {
    // p - 1, little-endian
    let p_minus_one = [0x992d30ed00000000u64, 0x224698fc094cf91b, 0, 0x4000000000000000];
    let r = MySpec::<3, 2>::sbox(p_minus_one);
    let mut expected = Vec::new();
    for limb in p_minus_one.iter() {
        expected.extend_from_slice(&limb.to_le_bytes());
    }
    assert_eq!(r.to_vec(), expected);
}

#[test]
fn sbox_reduces_its_input() {
    // p + 2 is 2 in the field
    let p_plus_two = [0x992d30ed00000003u64, 0x224698fc094cf91b, 0, 0x4000000000000000];
    let mut expected = [0u8; 32];
    expected[0] = 32;
    assert_eq!(MySpec::<3, 2>::sbox(p_plus_two), expected);
}
