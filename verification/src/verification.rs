//! The synchronous verification collaborator's request path: checking the
//! submitted proof text and naming the files its run works on.
//!
//! The check of the proof itself is an external step; what this crate owns
//! is the request's bookkeeping: the submitted proof text must be a
//! well-formed JSON document, the run's proof artifact is filed under a
//! verification salt of its own (minted from the given identity and a fresh
//! random tag — deliberately a separate identifier space from both the job
//! identity and the artifact salt), while the public-inputs artifact is
//! looked up under the given identity alone.

use vstd::prelude::*;

use crate::trusted::{fresh_uuid, json_parses, parse_json};

verus! {

/// The verification request: an identity naming the run's public inputs,
/// and the proof text to check.
#[derive(Debug)]
pub struct ProofInputs {
    pub id: String,
    pub proof: String,
}

/// The verification answer: the verdict and its transport label.
#[derive(Debug)]
pub struct VerificationResponse {
    pub is_valid: bool,
    pub status: String,
}

/// The file names of one verification run, salted by `tag`.
pub struct VerificationPaths {
    pub salt: String,
    pub proof_file: String,
    pub public_file: String,
}

/// Derives one verification run's salt and file names: the proof artifact
/// is namespaced by the fresh salt, the public-inputs artifact by the given
/// identity alone.
pub fn verification_paths(id: &str, tag: &str) -> (p: VerificationPaths)
    ensures
        p.salt@ == id@ + "_"@ + tag@,
        p.proof_file@ == "proof_"@ + id@ + "_"@ + tag@ + ".json"@,
        p.public_file@ == "public_"@ + id@ + ".json"@,
{
    let salt = String::from_str(id).concat("_").concat(tag);
    let proof_file = String::from_str("proof_").concat(salt.as_str()).concat(".json");
    let public_file = String::from_str("public_").concat(id).concat(".json");
    VerificationPaths { salt, proof_file, public_file }
}

/// Everything the external verification step needs: the file names and the
/// parsed proof document to be written out for it.
pub struct VerificationPlan {
    pub paths: VerificationPaths,
    pub payload: serde_json::Value,
}

/// Checks and prepares one verification request: rejected exactly when the
/// submitted proof text is not well-formed JSON; otherwise the parsed
/// document together with the run's freshly salted file names.
pub fn prepare_verification(inputs: &ProofInputs) -> (r: Result<VerificationPlan, String>)
    ensures
        r matches Ok(p) ==> json_parses(inputs.proof@) && (exists|u: Seq<char>|
            u.len() == 36 && p.paths.salt@ == inputs.id@ + "_"@ + u && p.paths.proof_file@
                == "proof_"@ + inputs.id@ + "_"@ + u + ".json"@) && p.paths.public_file@
            == "public_"@ + inputs.id@ + ".json"@,
        r matches Err(e) ==> !json_parses(inputs.proof@) && e@ == "Invalid proof format"@,
{
    match parse_json(inputs.proof.as_str()) {
        Some(payload) => {
            let tag = fresh_uuid();
            let paths = verification_paths(inputs.id.as_str(), tag.as_str());
            proof {
                assert(paths.salt@ == inputs.id@ + "_"@ + tag@);
            }
            Ok(VerificationPlan { paths, payload })
        },
        None => Err(String::from_str("Invalid proof format")),
    }
}

/// The answer to a verification request, from the external step's verdict.
pub fn verification_response(is_valid: bool) -> (r: VerificationResponse)
    ensures
        r.is_valid == is_valid,
        is_valid ==> r.status@ == "success"@,
        !is_valid ==> r.status@ == "failure"@,
{
    let status = if is_valid {
        String::from_str("success")
    } else {
        String::from_str("failure")
    };
    VerificationResponse { is_valid, status }
}

} // verus!
