//! Naming and replies of uploaded files. The caller stores the bytes, and
//! deletes the file once `DELETE_AFTER_SECS` have passed.

use rand::distributions::{Alphanumeric, DistString};
use vstd::prelude::*;
use vstd::string::*;

verus! {

/// How many characters the name of a stored upload has.
pub const UPLOAD_NAME_LEN: usize = 24;

/// How long an upload is kept, in seconds.
pub const DELETE_AFTER_SECS: u64 = 120;

/// A character of `[A-Za-z0-9]`.
pub open spec fn is_ascii_alphanumeric(c: char) -> bool {
    ('0' <= c && c <= '9') || ('A' <= c && c <= 'Z') || ('a' <= c && c <= 'z')
}

/// `rand::distributions::DistString::sample_string` of `Alphanumeric`, drawn
/// from `rand::thread_rng()`: `len` characters, each from `[A-Za-z0-9]`.
/// Which ones they are is left to chance.
#[verifier::external_body]
fn sample_alphanumeric(len: usize) -> (s: String)
    ensures
        s@.len() == len,
        forall|i: int| 0 <= i < len ==> is_ascii_alphanumeric(#[trigger] s@[i]),
{
    Alphanumeric.sample_string(&mut rand::thread_rng(), len)
}

/// A fresh random name for an upload: `UPLOAD_NAME_LEN` characters from
/// `[A-Za-z0-9]`.
pub fn new_upload_name() -> (name: String)
    ensures
        name@.len() == UPLOAD_NAME_LEN,
        forall|i: int| 0 <= i < name@.len() ==> is_ascii_alphanumeric(#[trigger] name@[i]),
{
    sample_alphanumeric(UPLOAD_NAME_LEN)
}

/// The path under which an upload named `name` is stored.
pub open spec fn upload_location(name: Seq<char>) -> Seq<char> {
    "uploads/"@ + name
}

/// Where the upload called `name` is stored: `uploads/<name>`.
pub fn stored_path(name: &str) -> (path: String)
    ensures
        path@ == upload_location(name@),
{
    let mut path = String::from_str("uploads/");
    path.append(name);
    path
}

/// How storing an upload ended.
#[derive(Debug, Clone, Copy, PartialEq, Eq, Structural)]
pub enum UploadOutcome {
    /// The file was created and the whole body written.
    Stored,
    /// The file could not be created.
    CreateFailed,
    /// The file was created but the body could not be written.
    WriteFailed,
}

/// The HTTP reply to an upload.
pub struct UploadReply {
    pub status: u16,
    pub body: String,
    /// Whether the stored file is to be deleted after `DELETE_AFTER_SECS`.
    pub schedule_deletion: bool,
}

/// The reply to an upload stored (or not) under `name`: the name itself
/// with status 200 on success, or status 500 and the step that failed.
pub fn upload_reply(outcome: UploadOutcome, name: String) -> (reply: UploadReply)
    ensures
        outcome == UploadOutcome::Stored ==> reply.status == 200 && reply.body@ == name@
            && reply.schedule_deletion,
        outcome == UploadOutcome::CreateFailed ==> reply.status == 500 && reply.body@
            == "Failed to create file"@ && !reply.schedule_deletion,
        outcome == UploadOutcome::WriteFailed ==> reply.status == 500 && reply.body@
            == "Failed to write file"@ && !reply.schedule_deletion,
{
    match outcome {
        UploadOutcome::Stored => UploadReply { status: 200, body: name, schedule_deletion: true },
        UploadOutcome::CreateFailed => UploadReply {
            status: 500,
            body: String::from_str("Failed to create file"),
            schedule_deletion: false,
        },
        UploadOutcome::WriteFailed => UploadReply {
            status: 500,
            body: String::from_str("Failed to write file"),
            schedule_deletion: false,
        },
    }
}

} // verus!
