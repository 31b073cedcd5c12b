//! The message-level protocol around proof generation and verification:
//! typed request and response envelopes, the capability interface of the
//! proving backend, and the dispatcher that connects the two. Requests
//! arrive already decoded from their wire format; responses carry the
//! claimed result as a decimal numeral and the proof bytes in
//! transport-safe base64.

use vstd::prelude::*;
use vstd::string::StringExecFns;
use crate::codec::{base64_chars, dec_string_of, encode_base64, hex_bytes, is_hex_string,
    u128_to_decimal};
use crate::stacks::utils::{c32_address_of, public_key_to_stacks_address, ripemd160_of, sha256_of,
    Transaction, MAINNET_ADDRESS_VERSION};
use crate::stacks_voting::{padded_trace_len, tx_amounts_ok, SignatureData,
    StacksVotingProofGenrator, TraceError};
use crate::stacks_voting::utils::MAX_TRANSACTIONS;

verus! {

/// An error of the proof protocol, carrying a human-readable description.
#[derive(Debug)]
pub struct ProofsError {
    message: String,
}

impl ProofsError {
    /// The description the error carries.
    pub closed spec fn spec_message(&self) -> Seq<char> {
        self.message@
    }

    /// Wraps a human-readable description of the failure.
    pub fn new(msg: &str) -> (r: Self)
        ensures
            r.spec_message() == msg@,
    {
        ProofsError { message: String::from_str(msg) }
    }

    /// The human-readable description of the failure.
    pub fn message(&self) -> (r: String)
        ensures
            r@ == self.spec_message(),
    {
        self.message.clone()
    }
}

/// A protocol error as the transport layer rejects it.
#[derive(Debug)]
pub struct RejectionError(pub ProofsError);

/// The capability of generating a cubing-delay proof: from the start value
/// and the step count, the proof bytes and the claimed result. An empty
/// proof signals that the backend could not prove the run.
pub trait ProofGenerator {
    fn generate_proof(start: u128, n: usize) -> (Vec<u8>, u128);
}

/// The capability of generating a balance-evolution proof from a signed
/// request and the wallet's fetched transaction history. An empty proof
/// signals that the backend could not prove the run.
pub trait VotingProofGenerator {
    fn generate_proof(data: SignatureData, transactions: Vec<Transaction>) -> (Vec<u8>, u128);
}

/// The capability of checking a proof against its public inputs under the
/// security floor.
pub trait ProofVerifier {
    fn verify_proof(start: u128, result_in: u128, proof: Vec<u8>) -> bool;
}

/// A proof-generation request, tagged by computation kind.
pub enum ProofGenerationMessage {
    VdfProof { start: u128, n: usize },
    StacksVotingProof { signature_data: SignatureData },
}

/// A proof-verification request, tagged by computation kind: the public
/// inputs and the proof artifact to check.
pub enum ProofVerificationMessage {
    VdfProof { start: u128, result: u128, proof: Vec<u8> },
    StacksVotingProof { start: u128, result: u128, proof: Vec<u8> },
}

/// A decoded protocol message.
pub enum ApplicationMessage {
    ProofGeneration(ProofGenerationMessage),
    ProofVerification(ProofVerificationMessage),
    Other(String),
}

/// The outcome of a verification request.
#[derive(Debug)]
pub struct VerificationResponse {
    pub ok: bool,
    pub error: String,
}

/// The outcome of a generation request, tagged by computation kind: the
/// claimed result as a decimal numeral and the proof in base64.
#[derive(Debug)]
pub enum ProofResponse {
    ProofError { message: String },
    VdfProof { result: String, proof: String },
    StacksVotingProof { result: String, proof: String },
}

/// A response to a protocol message.
#[derive(Debug)]
pub enum ApplicationResponseMessage {
    ProofGenerationResponse(ProofResponse),
    ProofVerificationResponse(VerificationResponse),
}

/// What the dispatcher asks of its caller next: hand a finished response
/// back to the requester, or fetch the wallet's transaction history and
/// finish the request with `handle_voting_generation`.
#[derive(Debug)]
pub enum DispatchAction {
    Respond(ApplicationResponseMessage),
    FetchHistory { address: String, signature_data: SignatureData },
}

/// A generation response is genuine: its fields are the decimal rendering
/// of some claimed result and the base64 rendering of some nonempty proof
/// the backend returned. A dispatcher whose responses satisfy this cannot
/// fabricate a generation response out of nothing.
pub open spec fn encodes_backend_outcome(result_text: Seq<char>, proof_text: Seq<char>) -> bool {
    exists|p: Seq<u8>, res: u128|
        p.len() > 0 && result_text == dec_string_of(res as nat) && proof_text == base64_chars(p)
}

/// Builds the generation response of the cubing-delay kind from what the
/// backend returned: the claimed result as a decimal numeral and the proof
/// bytes in transport-safe base64.
pub fn vdf_generation_response(result: u128, proof: Vec<u8>) -> (r: ApplicationResponseMessage)
    ensures
        r matches ApplicationResponseMessage::ProofGenerationResponse(
            ProofResponse::VdfProof { result: rs, proof: ps },
        ) && rs@ == dec_string_of(result as nat) && ps@ == base64_chars(proof@),
{
    ApplicationResponseMessage::ProofGenerationResponse(ProofResponse::VdfProof {
        result: u128_to_decimal(result),
        proof: encode_base64(&proof),
    })
}

/// Builds the generation response of the balance-evolution kind from what
/// the backend returned: the claimed result as a decimal numeral and the
/// proof bytes in transport-safe base64.
pub fn stacks_voting_generation_response(result: u128, proof: Vec<u8>) -> (r:
    ApplicationResponseMessage)
    ensures
        r matches ApplicationResponseMessage::ProofGenerationResponse(
            ProofResponse::StacksVotingProof { result: rs, proof: ps },
        ) && rs@ == dec_string_of(result as nat) && ps@ == base64_chars(proof@),
{
    ApplicationResponseMessage::ProofGenerationResponse(ProofResponse::StacksVotingProof {
        result: u128_to_decimal(result),
        proof: encode_base64(&proof),
    })
}

/// Wraps a verification outcome: the boolean the backend returned, with the
/// placeholder error text the protocol currently uses on every outcome.
pub fn verification_response(ok: bool) -> (r: ApplicationResponseMessage)
    ensures
        r matches ApplicationResponseMessage::ProofVerificationResponse(v) && v.ok == ok
            && v.error@ == "None"@,
{
    ApplicationResponseMessage::ProofVerificationResponse(VerificationResponse {
        ok,
        error: String::from_str("None"),
    })
}

/// Handles one decoded protocol message. Verification requests and
/// cubing-delay generation are answered directly through the backend
/// capabilities; a balance-evolution generation request needs the wallet's
/// transaction history first, so for it the dispatcher derives the wallet
/// address and asks the caller to fetch the history and finish with
/// `handle_voting_generation`. An unrecognized message is an explicit
/// error, never a default response.
pub fn handle_message<VG: ProofGenerator, VV: ProofVerifier, SV: ProofVerifier>(
    msg: ApplicationMessage,
) -> (r: Result<DispatchAction, ProofsError>)
    ensures
        msg matches ApplicationMessage::ProofGeneration(
            ProofGenerationMessage::VdfProof { .. },
        ) ==> {
            ||| r matches Ok(DispatchAction::Respond(
                ApplicationResponseMessage::ProofGenerationResponse(
                    ProofResponse::VdfProof { .. },
                ),
            ))
            ||| r is Err
        },
        msg matches ApplicationMessage::ProofGeneration(
            ProofGenerationMessage::VdfProof { start, n },
        ) ==> {
            &&& (n < 1 ==> (r matches Err(e) && e.spec_message()
                == "step count must be at least one"@))
            &&& (n >= 1 ==> (r matches Err(e) ==> e.spec_message()
                == "Proof generation failed"@))
        },
        r matches Ok(DispatchAction::Respond(
            ApplicationResponseMessage::ProofGenerationResponse(
                ProofResponse::VdfProof { result: rs, proof: ps },
            ),
        )) ==> encodes_backend_outcome(rs@, ps@),
        msg matches ApplicationMessage::ProofGeneration(
            ProofGenerationMessage::StacksVotingProof { signature_data },
        ) ==> {
            ||| {
                &&& r matches Ok(DispatchAction::FetchHistory { address, signature_data: sd })
                &&& is_hex_string(signature_data.public_key@)
                &&& address@ == c32_address_of(
                    ripemd160_of(sha256_of(hex_bytes(signature_data.public_key@))),
                    MAINNET_ADDRESS_VERSION,
                )
                &&& sd == signature_data
            }
            ||| {
                &&& r matches Err(e)
                &&& !is_hex_string(signature_data.public_key@)
                &&& e.spec_message() == "malformed public key hex"@
            }
        },
        msg matches ApplicationMessage::ProofVerification(_) ==> (r matches Ok(
            DispatchAction::Respond(ApplicationResponseMessage::ProofVerificationResponse(resp)),
        ) && resp.error@ == "None"@),
        msg matches ApplicationMessage::Other(_) ==> r is Err,
{
    match msg {
        ApplicationMessage::ProofGeneration(proof_gen_msg) => {
            match proof_gen_msg {
                ProofGenerationMessage::VdfProof { start, n } => {
                    if n < 1 {
                        return Err(ProofsError::new("step count must be at least one"));
                    }
                    let (proof, result) = VG::generate_proof(start, n);
                    if proof.len() == 0 {
                        return Err(ProofsError::new("Proof generation failed"));
                    }
                    let ghost p = proof@;
                    let ghost res = result;
                    let response = vdf_generation_response(result, proof);
                    proof {
                        assert(p.len() > 0 && dec_string_of(res as nat) == dec_string_of(
                            res as nat,
                        ) && base64_chars(p) == base64_chars(p));
                        assert(encodes_backend_outcome(dec_string_of(res as nat), base64_chars(p)));
                    }
                    Ok(DispatchAction::Respond(response))
                },
                ProofGenerationMessage::StacksVotingProof { signature_data } => {
                    let public_key = signature_data.public_key.clone();
                    match public_key_to_stacks_address(public_key) {
                        Ok(address) => Ok(DispatchAction::FetchHistory { address, signature_data }),
                        Err(e) => Err(e),
                    }
                },
            }
        },
        ApplicationMessage::ProofVerification(proof_ver_msg) => {
            match proof_ver_msg {
                ProofVerificationMessage::VdfProof { start, result, proof } => {
                    let ok = VV::verify_proof(start, result, proof);
                    Ok(DispatchAction::Respond(verification_response(ok)))
                },
                ProofVerificationMessage::StacksVotingProof { start, result, proof } => {
                    let ok = SV::verify_proof(start, result, proof);
                    Ok(DispatchAction::Respond(verification_response(ok)))
                },
            }
        },
        ApplicationMessage::Other(_) => Err(ProofsError::new("unsupported message type")),
    }
}

/// Finishes a balance-evolution generation request once the wallet's
/// transaction history is in hand. The request is validated first — an
/// oversized history, a target step outside the padded trace, or a
/// malformed amount each fail fast with their own typed error, before any
/// proving work — and only then does the backend prove the run. An empty
/// proof from the backend is an explicit generation error.
pub fn handle_voting_generation<VG: VotingProofGenerator>(
    signature_data: SignatureData,
    transactions: Vec<Transaction>,
) -> (r: Result<ApplicationResponseMessage, ProofsError>)
    ensures
        transactions@.len() > MAX_TRANSACTIONS ==> (r matches Err(e) && e.spec_message()
            == "too many transactions"@),
        (transactions@.len() <= MAX_TRANSACTIONS
            && !(1 <= signature_data.message_inputs.block_proof_height <= padded_trace_len(
            transactions@.len(),
        ))) ==> (r matches Err(e) && e.spec_message()
            == "target step is outside the padded trace"@),
        (transactions@.len() <= MAX_TRANSACTIONS
            && 1 <= signature_data.message_inputs.block_proof_height <= padded_trace_len(
            transactions@.len(),
        ) && !(forall|i: int|
            0 <= i < transactions@.len() ==> tx_amounts_ok(#[trigger] transactions@[i])))
            ==> (r matches Err(e) && e.spec_message() == "malformed transaction amount"@),
        (transactions@.len() <= MAX_TRANSACTIONS
            && 1 <= signature_data.message_inputs.block_proof_height <= padded_trace_len(
            transactions@.len(),
        ) && (forall|i: int|
            0 <= i < transactions@.len() ==> tx_amounts_ok(#[trigger] transactions@[i])))
            ==> (r matches Err(e) ==> e.spec_message() == "Proof generation failed"@),
        r matches Ok(ApplicationResponseMessage::ProofGenerationResponse(
            ProofResponse::StacksVotingProof { result: rs, proof: ps },
        )) ==> encodes_backend_outcome(rs@, ps@),
        r matches Ok(resp) ==> {
            &&& resp matches ApplicationResponseMessage::ProofGenerationResponse(
                ProofResponse::StacksVotingProof { .. },
            )
            &&& transactions@.len() <= MAX_TRANSACTIONS
            &&& 1 <= signature_data.message_inputs.block_proof_height <= padded_trace_len(
                transactions@.len(),
            )
            &&& (forall|i: int|
                0 <= i < transactions@.len() ==> tx_amounts_ok(#[trigger] transactions@[i]))
        },
{
    match StacksVotingProofGenrator::build_instance(&signature_data, &transactions) {
        Err(TraceError::TooManyTransactions) => {
            return Err(ProofsError::new("too many transactions"));
        },
        Err(TraceError::InvalidTargetStep) => {
            return Err(ProofsError::new("target step is outside the padded trace"));
        },
        Err(TraceError::MalformedAmount) => {
            return Err(ProofsError::new("malformed transaction amount"));
        },
        Ok(_) => {},
    }
    let (proof, result) = VG::generate_proof(signature_data, transactions);
    if proof.len() == 0 {
        return Err(ProofsError::new("Proof generation failed"));
    }
    let ghost p = proof@;
    let ghost res = result;
    let response = stacks_voting_generation_response(result, proof);
    proof {
        assert(p.len() > 0 && dec_string_of(res as nat) == dec_string_of(res as nat)
            && base64_chars(p) == base64_chars(p));
        assert(encodes_backend_outcome(dec_string_of(res as nat), base64_chars(p)));
    }
    Ok(response)
}

} // verus!
