use stark_proofs::protocol::{
    handle_message, handle_voting_generation, ApplicationMessage, ApplicationResponseMessage,
    DispatchAction, ProofGenerationMessage, ProofGenerator, ProofResponse,
    ProofVerificationMessage, ProofVerifier, VotingProofGenerator,
};
use stark_proofs::stacks::utils::{public_key_to_stacks_address, Transaction};
use stark_proofs::stacks_voting::{Domain, MessageInputs, SignatureData};

struct FixedGenerator;

impl ProofGenerator for FixedGenerator {
    fn generate_proof(_start: u128, _n: usize) -> (Vec<u8>, u128) {
        (vec![1, 2, 3], 42)
    }
}

struct FailingGenerator;

impl ProofGenerator for FailingGenerator {
    fn generate_proof(_start: u128, _n: usize) -> (Vec<u8>, u128) {
        (Vec::new(), 0)
    }
}

struct FixedVotingGenerator;

impl VotingProofGenerator for FixedVotingGenerator {
    fn generate_proof(_data: SignatureData, _transactions: Vec<Transaction>) -> (Vec<u8>, u128) {
        (vec![9, 8, 7], 120)
    }
}

struct FailingVotingGenerator;

impl VotingProofGenerator for FailingVotingGenerator {
    fn generate_proof(_data: SignatureData, _transactions: Vec<Transaction>) -> (Vec<u8>, u128) {
        (Vec::new(), 0)
    }
}

struct AcceptAll;

impl ProofVerifier for AcceptAll {
    fn verify_proof(_start: u128, _result_in: u128, _proof: Vec<u8>) -> bool {
        true
    }
}

struct RejectAll;

impl ProofVerifier for RejectAll {
    fn verify_proof(_start: u128, _result_in: u128, _proof: Vec<u8>) -> bool {
        false
    }
}

fn signature_data_at(public_key: &str, height: u64) -> SignatureData {
    SignatureData {
        message_inputs: MessageInputs {
            message: "I vote in favor".to_string(),
            vote: "for".to_string(),
            proposal: "SIP-028".to_string(),
            balance_at_height: 100,
            block_proof_height: height,
            voting_end_height: 60,
        },
        public_key: public_key.to_string(),
        hash: "245172c".to_string(),
        signature: "db6eac1".to_string(),
        message: "Some signed message".to_string(),
        domain: Some(Domain {
            name: "stacks".to_string(),
            version: "1".to_string(),
            chain_id: 1,
        }),
    }
}

#[test]
fn test_generation_response_encodes_result_and_proof() {
    let msg = ApplicationMessage::ProofGeneration(ProofGenerationMessage::VdfProof {
        start: 5,
        n: 8,
    });
    let action = handle_message::<FixedGenerator, AcceptAll, AcceptAll>(msg).unwrap();
    match action {
        DispatchAction::Respond(ApplicationResponseMessage::ProofGenerationResponse(
            ProofResponse::VdfProof { result, proof },
        )) => {
            assert_eq!(result, "42");
            assert_eq!(proof, "AQID");
        },
        _ => panic!("expected a generation response"),
    }
}

#[test]
fn test_empty_proof_is_a_generation_error() {
    let msg = ApplicationMessage::ProofGeneration(ProofGenerationMessage::VdfProof {
        start: 5,
        n: 8,
    });
    let err = handle_message::<FailingGenerator, AcceptAll, AcceptAll>(msg).unwrap_err();
    assert_eq!(err.message(), "Proof generation failed");
}

#[test]
fn test_verification_responses_carry_the_outcome() {
    let accepted = handle_message::<FixedGenerator, AcceptAll, AcceptAll>(
        ApplicationMessage::ProofVerification(ProofVerificationMessage::VdfProof {
            start: 5,
            result: 42,
            proof: vec![1],
        }),
    )
    .unwrap();
    match accepted {
        DispatchAction::Respond(ApplicationResponseMessage::ProofVerificationResponse(v)) => {
            assert!(v.ok);
            assert_eq!(v.error, "None");
        },
        _ => panic!("expected a verification response"),
    }
    let rejected = handle_message::<FixedGenerator, AcceptAll, RejectAll>(
        ApplicationMessage::ProofVerification(ProofVerificationMessage::StacksVotingProof {
            start: 5,
            result: 42,
            proof: vec![1],
        }),
    )
    .unwrap();
    match rejected {
        DispatchAction::Respond(ApplicationResponseMessage::ProofVerificationResponse(v)) => {
            assert!(!v.ok);
            assert_eq!(v.error, "None");
        },
        _ => panic!("expected a verification response"),
    }
}

#[test]
fn test_voting_generation_asks_for_the_history() {
    let data = signature_data_at("02abcdef", 8);
    let expected = public_key_to_stacks_address("02abcdef".to_string()).unwrap();
    let msg = ApplicationMessage::ProofGeneration(ProofGenerationMessage::StacksVotingProof {
        signature_data: data,
    });
    let action = handle_message::<FixedGenerator, AcceptAll, AcceptAll>(msg).unwrap();
    match action {
        DispatchAction::FetchHistory { address, signature_data } => {
            assert_eq!(address, expected);
            assert_eq!(signature_data.public_key, "02abcdef");
        },
        _ => panic!("expected a fetch-history action"),
    }
}

#[test]
fn test_voting_generation_rejects_malformed_public_key() {
    let data = signature_data_at("02abcd..", 8);
    let msg = ApplicationMessage::ProofGeneration(ProofGenerationMessage::StacksVotingProof {
        signature_data: data,
    });
    let err = handle_message::<FixedGenerator, AcceptAll, AcceptAll>(msg).unwrap_err();
    assert_eq!(err.message(), "malformed public key hex");
}

#[test]
fn test_zero_step_count_is_rejected_before_the_backend() {
    let msg = ApplicationMessage::ProofGeneration(ProofGenerationMessage::VdfProof {
        start: 5,
        n: 0,
    });
    let err = handle_message::<FixedGenerator, AcceptAll, AcceptAll>(msg).unwrap_err();
    assert_eq!(err.message(), "step count must be at least one");
}

#[test]
fn test_unsupported_message_is_an_error() {
    let msg = ApplicationMessage::Other("ping".to_string());
    assert!(handle_message::<FixedGenerator, AcceptAll, AcceptAll>(msg).is_err());
}

#[test]
fn test_voting_generation_wraps_the_backend_outcome() {
    // an empty history pads to eight rows, so a target step of eight is valid
    let response = handle_voting_generation::<FixedVotingGenerator>(
        signature_data_at("02abcdef", 8),
        Vec::new(),
    )
    .unwrap();
    match response {
        ApplicationResponseMessage::ProofGenerationResponse(
            ProofResponse::StacksVotingProof { result, proof },
        ) => {
            assert_eq!(result, "120");
            assert_eq!(proof, "CQgH");
        },
        _ => panic!("expected a voting generation response"),
    }
    let err = handle_voting_generation::<FailingVotingGenerator>(
        signature_data_at("02abcdef", 8),
        Vec::new(),
    )
    .unwrap_err();
    assert_eq!(err.message(), "Proof generation failed");
}

#[test]
fn test_voting_generation_validates_before_proving() {
    // a target step beyond the padded trace fails before the backend runs
    let err = handle_voting_generation::<FixedVotingGenerator>(
        signature_data_at("02abcdef", 50),
        Vec::new(),
    )
    .unwrap_err();
    assert_eq!(err.message(), "target step is outside the padded trace");
    // a malformed amount fails before the backend runs
    let bad_tx = Transaction {
        tx: stark_proofs::stacks::utils::TransactionDetails {
            tx_id: "t".to_string(),
            nonce: 0,
            block_height: 1,
            burn_block_height: 1,
            tx_index: 0,
            tx_status: "success".to_string(),
            parent_block_hash: "".to_string(),
            tx_type: "token_transfer".to_string(),
        },
        stx_sent: "ten".to_string(),
        stx_received: "0".to_string(),
    };
    let err = handle_voting_generation::<FixedVotingGenerator>(
        signature_data_at("02abcdef", 8),
        vec![bad_tx],
    )
    .unwrap_err();
    assert_eq!(err.message(), "malformed transaction amount");
}
