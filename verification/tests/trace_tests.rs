use stark_proofs::field::{FieldElement, FIELD_MODULUS};
use stark_proofs::shoe_size::{build_do_work_trace, do_work, ShoeSizeProofGenerator};
use stark_proofs::stacks::utils::{Transaction, TransactionDetails};
use stark_proofs::stacks_voting::utils::{next_power_of_two, pad_to_power_of_two};
use stark_proofs::stacks_voting::{StacksVotingProofGenrator, TraceError};
use stark_proofs::stacks_voting::{MessageInputs, SignatureData};

fn tx(sent: &str, received: &str, height: u64) -> Transaction {
    Transaction {
        tx: TransactionDetails {
            tx_id: "t".to_string(),
            nonce: 0,
            block_height: height,
            burn_block_height: height,
            tx_index: 0,
            tx_status: "success".to_string(),
            parent_block_hash: "".to_string(),
            tx_type: "token_transfer".to_string(),
        },
        stx_sent: sent.to_string(),
        stx_received: received.to_string(),
    }
}

fn signature_data(balance: u64, height: u64) -> SignatureData {
    SignatureData {
        message_inputs: MessageInputs {
            message: "I vote in favor".to_string(),
            vote: "for".to_string(),
            proposal: "SIP-028".to_string(),
            balance_at_height: balance,
            block_proof_height: height,
            voting_end_height: height + 10,
        },
        public_key: "02abcd".to_string(),
        hash: "245172c".to_string(),
        signature: "db6eac1".to_string(),
        message: "Some signed message".to_string(),
        domain: None,
    }
}

#[test]
fn test_cubing_trace_scenario() {
    // start = 5, n = 4: rows 5, 5^3 + 42 = 167, 167^3 + 42, and one more step
    let start = FieldElement::new(5);
    let trace = build_do_work_trace(start, 4);
    assert_eq!(trace.len(), 4);
    assert_eq!(trace[0].value, 5);
    assert_eq!(trace[1].value, 167);
    let third: u128 = 167 * 167 * 167 + 42;
    assert_eq!(trace[2].value, third);
    assert_eq!(trace[3].value, (third * third % FIELD_MODULUS) * third % FIELD_MODULUS + 42);
    let result = do_work(start, 4);
    assert_eq!(result.value, trace[3].value);
}

#[test]
fn test_cubing_trace_deterministic() {
    let start = FieldElement::new(123456789);
    let first = build_do_work_trace(start, 64);
    let second = build_do_work_trace(start, 64);
    assert_eq!(first, second);
}

#[test]
fn test_cubing_build_instance_binds_last_row() {
    let (trace, result) = ShoeSizeProofGenerator::build_instance(5, 8);
    assert_eq!(trace.len(), 8);
    assert_eq!(trace[0].value, 5);
    assert_eq!(result, trace[7]);
}

#[test]
fn test_field_arithmetic_wraps() {
    let a = FieldElement::new(FIELD_MODULUS - 1);
    let b = FieldElement::new(2);
    assert_eq!(a.add(b).value, 1);
    assert_eq!(b.sub(a).value, 3);
    // (M - 1)^2 = 1 modulo M
    assert_eq!(a.mul(a).value, 1);
    assert_eq!(FieldElement::new(FIELD_MODULUS).value, 0);
}

#[test]
fn test_balance_trace_scenario() {
    // balance 100, send 10, receive 30: padded rows reach 100 - 10 + 30 = 120
    let txs = vec![tx("10", "0", 1), tx("0", "30", 2)];
    let data = signature_data(100, 8);
    let (trace, deltas, result) = StacksVotingProofGenrator::build_instance(&data, &txs).unwrap();
    assert_eq!(trace.len(), 8);
    assert_eq!(trace[0].value, 100);
    assert_eq!(trace[1].value, 90);
    assert_eq!(trace[2].value, 120);
    for row in trace.iter().skip(2) {
        assert_eq!(row.value, 120);
    }
    assert_eq!(result.value, 120);
    // the delta column: -10, +30, then zeros on the padding rows
    assert_eq!(deltas.len(), 8);
    assert_eq!(deltas[0].value, FIELD_MODULUS - 10);
    assert_eq!(deltas[1].value, 30);
    for delta in deltas.iter().skip(2) {
        assert_eq!(delta.value, 0);
    }
}

#[test]
fn test_balance_trace_deterministic() {
    let txs = vec![tx("7", "3", 1), tx("0", "11", 2), tx("2", "2", 3)];
    let data = signature_data(500, 8);
    let first = StacksVotingProofGenrator::build_instance(&data, &txs).unwrap();
    let second = StacksVotingProofGenrator::build_instance(&data, &txs).unwrap();
    assert_eq!(first.0, second.0);
    assert_eq!(first.1, second.1);
    assert_eq!(first.2, second.2);
}

#[test]
fn test_empty_history_result_is_balance() {
    let txs: Vec<Transaction> = Vec::new();
    let data = signature_data(100, 8);
    let (trace, deltas, result) = StacksVotingProofGenrator::build_instance(&data, &txs).unwrap();
    assert_eq!(trace.len(), 8);
    for row in trace.iter() {
        assert_eq!(row.value, 100);
    }
    for delta in deltas.iter() {
        assert_eq!(delta.value, 0);
    }
    assert_eq!(result.value, 100);
}

#[test]
fn test_malformed_amount_is_rejected() {
    let txs = vec![tx("10", "not a number", 1)];
    let data = signature_data(100, 8);
    let err = StacksVotingProofGenrator::build_instance(&data, &txs).unwrap_err();
    assert_eq!(err, TraceError::MalformedAmount);
}

#[test]
fn test_invalid_target_step_is_rejected() {
    let txs = vec![tx("10", "0", 1)];
    let zero_height = signature_data(100, 0);
    let err = StacksVotingProofGenrator::build_instance(&zero_height, &txs).unwrap_err();
    assert_eq!(err, TraceError::InvalidTargetStep);
    let beyond = signature_data(100, 9);
    let err = StacksVotingProofGenrator::build_instance(&beyond, &txs).unwrap_err();
    assert_eq!(err, TraceError::InvalidTargetStep);
}

#[test]
fn test_padding_to_next_power_of_two() {
    let txs = vec![tx("1", "0", 1), tx("2", "0", 2), tx("3", "0", 3)];
    let padded = pad_to_power_of_two(txs.clone());
    assert_eq!(padded.len(), 4);
    assert_eq!(&padded[..3], &txs[..]);
    assert_eq!(padded[3].stx_sent, "0");
    assert_eq!(padded[3].stx_received, "0");
    assert_eq!(padded[3].tx.tx_id, "0");
    assert_eq!(padded[3].tx.block_height, 0);
    assert_eq!(padded[3].tx.burn_block_height, 0);
    assert_eq!(padded[3].tx.nonce, 0);
    assert_eq!(padded[3].tx.tx_index, 0);
    assert_eq!(padded[3].tx.tx_status, "");
    assert_eq!(padded[3].tx.parent_block_hash, "");
    assert_eq!(padded[3].tx.tx_type, "");
    assert_eq!(next_power_of_two(5), 8);
    assert_eq!(next_power_of_two(8), 8);
    assert_eq!(next_power_of_two(0), 1);
    // an empty history pads to a single filler record
    let padded_empty = pad_to_power_of_two(Vec::new());
    assert_eq!(padded_empty.len(), 1);
    assert_eq!(padded_empty[0].stx_sent, "0");
    assert_eq!(padded_empty[0].stx_received, "0");
    assert_eq!(padded_empty[0].tx.tx_id, "0");
    assert_eq!(padded_empty[0].tx.block_height, 0);
}

#[test]
fn test_padding_leaves_result_unchanged() {
    // 5 transactions (not a power of two): the result with zero-delta
    // fillers appended equals the result without them
    let txs = vec![
        tx("10", "0", 1),
        tx("0", "25", 2),
        tx("5", "5", 3),
        tx("0", "1", 4),
        tx("2", "0", 5),
    ];
    let data = signature_data(1000, 8);
    let (_, _, plain) = StacksVotingProofGenrator::build_instance(&data, &txs).unwrap();
    let padded = pad_to_power_of_two(txs);
    assert_eq!(padded.len(), 8);
    let data16 = signature_data(1000, 16);
    let (_, _, with_fillers) = StacksVotingProofGenrator::build_instance(&data16, &padded).unwrap();
    assert_eq!(plain.value, 1000 - 10 + 25 - 5 + 5 + 1 - 2);
    assert_eq!(with_fillers.value, plain.value);
}
