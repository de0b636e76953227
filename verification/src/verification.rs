//! Checking an upload: the stored bytes are fetched once and compared with
//! the bytes that were sent.

use vstd::prelude::*;
use crate::paths::{file_name_of, final_component, name_model};

verus! {

/// A file to be written for the operator: its name and what it holds.
#[derive(Debug, PartialEq, Eq)]
pub struct Artifact {
    pub file_name: String,
    pub content: Vec<u8>,
}

/// How a verification ended.
#[derive(Debug, PartialEq, Eq)]
pub enum Verification {
    /// The stored bytes could not be fetched, so nothing was compared.
    Skipped,
    /// The stored bytes are the bytes that were sent. The artifact is the
    /// verified copy, under the name of the uploaded file.
    Matched(Artifact),
    /// The stored bytes differ. The artifact holds them as evidence, under a
    /// name that marks the mismatch.
    Mismatched(Artifact),
}

/// Why a verification could not name its artifact.
#[derive(Clone, Copy, Debug, PartialEq, Eq)]
pub enum VerificationError {
    /// The uploaded file's path has no final component.
    MissingFileName,
}

/// A verification as a value.
pub enum VerificationModel {
    Skipped,
    Matched { file_name: Seq<char>, content: Seq<u8> },
    Mismatched { file_name: Seq<char>, content: Seq<u8> },
}

impl View for Verification {
    type V = VerificationModel;

    open spec fn view(&self) -> VerificationModel {
        match *self {
            Verification::Skipped => VerificationModel::Skipped,
            Verification::Matched(artifact) => VerificationModel::Matched {
                file_name: artifact.file_name@,
                content: artifact.content@,
            },
            Verification::Mismatched(artifact) => VerificationModel::Mismatched {
                file_name: artifact.file_name@,
                content: artifact.content@,
            },
        }
    }
}

/// The ending that marks the file of a mismatch.
pub open spec fn mismatch_suffix() -> Seq<char> {
    ".mismatched"@
}

/// How a verification ends, given the bytes that were sent, the bytes that
/// came back (if any did) and the uploaded file's name (if it has one).
///
/// A failed fetch ends it without comparison. Equal bytes give the verified
/// copy under the file's name. Different bytes give the fetched bytes under
/// the file's name followed by `.mismatched`, and no file under the name
/// itself.
pub open spec fn assessed(
    sent: Seq<u8>,
    fetched: Option<Seq<u8>>,
    base_name: Option<Seq<char>>,
) -> Result<VerificationModel, VerificationError> {
    match fetched {
        None => Ok(VerificationModel::Skipped),
        Some(bytes) => match base_name {
            None => Err(VerificationError::MissingFileName),
            Some(name) => if bytes == sent {
                Ok(VerificationModel::Matched { file_name: name, content: sent })
            } else {
                Ok(
                    VerificationModel::Mismatched {
                        file_name: name + mismatch_suffix(),
                        content: bytes,
                    },
                )
            },
        },
    }
}

/// The file of a mismatch never has the name of the uploaded file, so a
/// mismatch leaves no file under that name.
pub proof fn lemma_mismatch_name_differs(name: Seq<char>)
    ensures
        name + mismatch_suffix() != name,
        mismatch_suffix().len() == 11,
{
    reveal_strlit(".mismatched");
    assert((name + mismatch_suffix()).len() == name.len() + 11);
}

/// The view of a verification result.
pub open spec fn result_model(r: Result<Verification, VerificationError>) -> Result<
    VerificationModel,
    VerificationError,
> {
    match r {
        Ok(v) => Ok(v@),
        Err(e) => Err(e),
    }
}

/// The view of optional bytes.
pub open spec fn bytes_model(bytes: Option<Vec<u8>>) -> Option<Seq<u8>> {
    match bytes {
        Some(b) => Some(b@),
        None => None,
    }
}

/// Whether two byte strings are equal.
pub fn same_bytes(a: &[u8], b: &[u8]) -> (same: bool)
    ensures
        same <==> a@ == b@,
{
    if a.len() != b.len() {
        return false;
    }
    let mut i: usize = 0;
    while i < a.len()
        invariant
            i <= a.len(),
            a.len() == b.len(),
            forall|j: int| 0 <= j < i ==> a@[j] == b@[j],
        decreases a.len() - i,
    {
        if a[i] != b[i] {
            return false;
        }
        i += 1;
    }
    assert(a@ =~= b@);
    true
}

/// Compares the fetched bytes with the bytes that were sent and says which
/// file to write.
pub fn assess(sent: &[u8], fetched: Option<Vec<u8>>, base_name: Option<String>) -> (r: Result<
    Verification,
    VerificationError,
>)
    ensures
        result_model(r) == assessed(sent@, bytes_model(fetched), name_model(base_name)),
{
    match fetched {
        None => Ok(Verification::Skipped),
        Some(bytes) => match base_name {
            None => Err(VerificationError::MissingFileName),
            Some(name) => {
                if same_bytes(sent, bytes.as_slice()) {
                    Ok(Verification::Matched(Artifact { file_name: name, content: bytes }))
                } else {
                    let file_name = name.concat(".mismatched");
                    Ok(Verification::Mismatched(Artifact { file_name, content: bytes }))
                }
            },
        },
    }
}

/// Verifies an upload of the file at `file_path`: compares what was fetched
/// with what was sent and names the file to write after the final component
/// of `file_path`.
pub fn verify(sent: &[u8], fetched: Option<Vec<u8>>, file_path: &str) -> (r: Result<
    Verification,
    VerificationError,
>)
    ensures
        result_model(r) == assessed(sent@, bytes_model(fetched), final_component(file_path@)),
{
    assess(sent, fetched, file_name_of(file_path))
}

} // verus!
