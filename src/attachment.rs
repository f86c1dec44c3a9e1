//! Attachment records: where their files live, and how a failed delete is
//! retried before the item is given up.
use vstd::prelude::*;

verus! {

/// A file attached to a vault item.
#[derive(Clone, Debug)]
pub struct Attachment {
    pub id: String,
    pub cipher_uuid: String,
    pub file_name: String,
    pub file_size: i32,
}

impl Attachment {
    pub fn new(id: String, cipher_uuid: String, file_name: String, file_size: i32) -> (r: Attachment)
        ensures
            r == (Attachment { id, cipher_uuid, file_name, file_size }),
    {
        Attachment { id, cipher_uuid, file_name, file_size }
    }

    /// `<folder>/<cipher uuid>/<id>`: where the file is stored.
    pub fn get_file_path(&self, folder: &str) -> (r: String)
        ensures
            r@ == folder@ + seq!['/'] + self.cipher_uuid@ + seq!['/'] + self.id@,
    {
        proof {
            reveal_strlit("/");
        }
        let r = folder.to_owned().concat("/").concat(self.cipher_uuid.as_str()).concat("/").concat(
            self.id.as_str(),
        );
        assert(r@ =~= folder@ + seq!['/'] + self.cipher_uuid@ + seq!['/'] + self.id@);
        r
    }

    /// `<host>/attachments/<cipher uuid>/<id>`: where clients download the file.
    pub fn web_path(&self, host: &str) -> (r: String)
        ensures
            r@ == host@ + seq!['/', 'a', 't', 't', 'a', 'c', 'h', 'm', 'e', 'n', 't', 's', '/']
                + self.cipher_uuid@ + seq!['/'] + self.id@,
    {
        proof {
            reveal_strlit("/attachments/");
            reveal_strlit("/");
        }
        let r = host.to_owned().concat("/attachments/").concat(self.cipher_uuid.as_str()).concat(
            "/",
        ).concat(self.id.as_str());
        assert(r@ =~= host@ + seq!['/', 'a', 't', 't', 'a', 'c', 'h', 'm', 'e', 'n', 't', 's', '/']
            + self.cipher_uuid@ + seq!['/'] + self.id@);
        r
    }
}

/// Retries after the first failed delete.
pub const DELETE_RETRIES: u32 = 10;

/// Pause between delete attempts, in milliseconds.
pub const DELETE_RETRY_DELAY_MS: u64 = 500;

/// What to do after a delete attempt failed.
#[derive(Clone, Copy, Debug, PartialEq, Eq, Structural)]
pub enum RetryStep {
    /// Wait this many milliseconds and try again.
    RetryAfter(u64),
    /// Stop and report the failure for this item.
    GiveUp,
}

/// After `failures` failed attempts of a delete: retry while fewer than
/// `DELETE_RETRIES` retries were spent, then give up.
pub fn after_failed_delete(failures: u32) -> (r: RetryStep)
    ensures
        r == (if failures <= DELETE_RETRIES {
            RetryStep::RetryAfter(DELETE_RETRY_DELAY_MS)
        } else {
            RetryStep::GiveUp
        }),
{
    if failures <= DELETE_RETRIES {
        RetryStep::RetryAfter(DELETE_RETRY_DELAY_MS)
    } else {
        RetryStep::GiveUp
    }
}

} // verus!
