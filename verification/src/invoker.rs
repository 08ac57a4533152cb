//! The task-invoker boundary: naming one computation run and tagging its
//! failures.
//!
//! The computation itself is an external black-box step, driven outside this
//! crate with file-based inputs and outputs. What the crate owns is the
//! bookkeeping around it: the correlation salt that namespaces one run's
//! external artifacts so concurrent runs never collide, the artifact file
//! names derived from that salt, and the exact diagnostic string attached to
//! each phase in which a run can fail.

use vstd::prelude::*;

use crate::digits::{i64_to_dec, int_rep};
use crate::trusted::{fresh_uuid, now_timestamp};

verus! {

/// The outcome of a successful run: the proof text and the correlation salt
/// the run's artifacts were filed under.
#[derive(Debug)]
pub struct ProofAndSalt {
    pub proof: String,
    pub salt: String,
}

/// Builds a correlation salt from a timestamp and a run tag.
pub fn artifact_salt(now: i64, tag: &str) -> (r: String)
    ensures
        r@ == int_rep(now as int) + "_"@ + tag@,
{
    i64_to_dec(now).concat("_").concat(tag)
}

/// Mints a correlation salt for a new run: the current Unix timestamp and a
/// fresh random tag, so concurrent runs never share artifact names.
pub fn fresh_artifact_salt() -> (r: String)
    ensures
        exists|t: int, u: Seq<char>| u.len() == 36 && r@ == int_rep(t) + "_"@ + u,
{
    let now = now_timestamp();
    let tag = fresh_uuid();
    let r = artifact_salt(now, tag.as_str());
    proof {
        assert(r@ == int_rep(now as int) + "_"@ + tag@);
    }
    r
}

/// The artifact names of one run, every one derived from the run's salt.
pub struct InvocationPlan {
    pub salt: String,
    pub inputs_file: String,
    pub witness_file: String,
    pub proof_file: String,
    pub public_file: String,
}

/// Derives the four artifact file names of one run from its salt.
pub fn plan_invocation(salt: String) -> (p: InvocationPlan)
    ensures
        p.salt@ == salt@,
        p.inputs_file@ == "./circuits/utils/inputs_"@ + salt@ + ".json"@,
        p.witness_file@ == "witness_"@ + salt@ + ".wtns"@,
        p.proof_file@ == "proof_"@ + salt@ + ".json"@,
        p.public_file@ == "public_"@ + salt@ + ".json"@,
{
    let inputs_file = String::from_str("./circuits/utils/inputs_").concat(salt.as_str()).concat(
        ".json",
    );
    let witness_file = String::from_str("witness_").concat(salt.as_str()).concat(".wtns");
    let proof_file = String::from_str("proof_").concat(salt.as_str()).concat(".json");
    let public_file = String::from_str("public_").concat(salt.as_str()).concat(".json");
    InvocationPlan { salt, inputs_file, witness_file, proof_file, public_file }
}

/// Every phase in which one run can fail. The first two cover writing the
/// input artifact, the middle four cover launching and completing the two
/// external computation steps, the last two cover reading the output
/// artifact back.
#[derive(Clone, Copy, PartialEq, Eq, Structural, Debug)]
pub enum InvokeFailure {
    CreateInputs,
    WriteInputs,
    LaunchWitness,
    WitnessStatus,
    LaunchProve,
    ProveStatus,
    OpenProof,
    ParseProof,
}

/// The diagnostic prefix attached to each failure phase.
pub open spec fn failure_prefix(f: InvokeFailure) -> Seq<char> {
    match f {
        InvokeFailure::CreateInputs => "Unable to create inputs.json: "@,
        InvokeFailure::WriteInputs => "Unable to write data to inputs.json: "@,
        InvokeFailure::LaunchWitness => "Failed to execute snarkjs witness calculation: "@,
        InvokeFailure::WitnessStatus => "Witness generation failed: "@,
        InvokeFailure::LaunchProve => "Failed to execute snarkjs proof generation: "@,
        InvokeFailure::ProveStatus => "Proof generation failed: "@,
        InvokeFailure::OpenProof => "Unable to open proof file: "@,
        InvokeFailure::ParseProof => "Unable to parse proof file: "@,
    }
}

/// Tags a failure with the phase it arose in: the phase's fixed prefix
/// followed by the underlying detail, so the caller sees which phase failed
/// in an otherwise opaque string.
pub fn tag_failure(f: InvokeFailure, detail: &str) -> (r: String)
    ensures
        r@ == failure_prefix(f) + detail@,
{
    let prefix = match f {
        InvokeFailure::CreateInputs => "Unable to create inputs.json: ",
        InvokeFailure::WriteInputs => "Unable to write data to inputs.json: ",
        InvokeFailure::LaunchWitness => "Failed to execute snarkjs witness calculation: ",
        InvokeFailure::WitnessStatus => "Witness generation failed: ",
        InvokeFailure::LaunchProve => "Failed to execute snarkjs proof generation: ",
        InvokeFailure::ProveStatus => "Proof generation failed: ",
        InvokeFailure::OpenProof => "Unable to open proof file: ",
        InvokeFailure::ParseProof => "Unable to parse proof file: ",
    };
    String::from_str(prefix).concat(detail)
}

} // verus!
