use vstd::prelude::*;

verus! {

/// A request to verify the proof registered under `tx_id`.
#[derive(Debug)]
pub struct VerifyProof {
    pub tx_id: String,
    pub verify_type: u8,
}

/// Why a request could not be verified at all, as opposed to a proof that
/// was read and found not valid.
#[derive(Debug, Clone, Copy, PartialEq, Eq, Structural)]
pub enum VerificationError {
    /// The artifact files could not be read or decoded.
    Artifacts,
    /// The request's `tx_id` had no registry entry when it was taken up.
    NotRegistered,
}

/// The outcome sent to the peer service for one processed request.
/// `is_valid` holds only for a proof that was read and accepted; `error`
/// names the failure when the proof could not be checked at all.
#[derive(Debug)]
pub struct PostVerificationResult {
    pub tx_id: String,
    pub is_valid: bool,
    pub error: Option<VerificationError>,
}

/// A registration of proof artifacts, as received from a client.
#[derive(Debug)]
pub struct ProofDataPlonky2 {
    pub tx_id: String,
    pub proof_file_path: String,
    pub common_data_file_path: String,
    pub verifier_data_file_path: String,
}

/// The artifact locations stored in the registry for one transaction.
#[derive(Debug)]
pub struct Plonky2Proof {
    pub proof_file_path: String,
    pub common_data_file_path: String,
    pub verifier_data_file_path: String,
}

/// Reply of the liveness probe.
#[derive(Debug)]
pub struct PingSingle {
    pub success: bool,
}

/// Reply to a registration or a submission: whether it was accepted.
#[derive(Debug)]
pub struct SubmitionResult {
    pub is_submitted: bool,
}

impl Plonky2Proof {
    /// A field-for-field copy.
    pub fn copy(&self) -> (r: Plonky2Proof)
        ensures
            r == *self,
    {
        Plonky2Proof {
            proof_file_path: self.proof_file_path.clone(),
            common_data_file_path: self.common_data_file_path.clone(),
            verifier_data_file_path: self.verifier_data_file_path.clone(),
        }
    }
}

impl ProofDataPlonky2 {
    /// The artifact locations of a registration, without its key.
    pub open spec fn artifacts(self) -> Plonky2Proof {
        Plonky2Proof {
            proof_file_path: self.proof_file_path,
            common_data_file_path: self.common_data_file_path,
            verifier_data_file_path: self.verifier_data_file_path,
        }
    }

    /// Splits a registration into its key and its artifact locations.
    pub fn into_parts(self) -> (r: (String, Plonky2Proof))
        ensures
            r.0 == self.tx_id,
            r.1 == self.artifacts(),
    {
        (
            self.tx_id,
            Plonky2Proof {
                proof_file_path: self.proof_file_path,
                common_data_file_path: self.common_data_file_path,
                verifier_data_file_path: self.verifier_data_file_path,
            },
        )
    }
}

/// The reply of the liveness probe, which always reports success.
pub fn ping_single() -> (r: PingSingle)
    ensures
        r.success,
{
    PingSingle { success: true }
}

} // verus!
