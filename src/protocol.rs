use vstd::prelude::*;

use crate::db::Language;

verus! {

/// Requests sent from the interface to the storage worker.
/// Several kinds of request share one queue.
#[derive(Debug)]
pub enum Command {
    AddLanguage { name: String },
    GetAllLanguages,
}

/// Outcomes sent back from the storage worker: one per command, plus a
/// catch-all error.
#[derive(Debug)]
pub enum DbResult {
    AddLanguageResult,
    GetAllLanguagesResult { lang_vec: Vec<Language> },
    Error { msg: String },
}

/// The message that stands in for a storage failure that came with no text.
pub open spec fn fallback_message() -> Seq<char> {
    "storage operation failed"@
}

/// A failed storage operation, with a message that is never empty.
#[derive(Debug)]
pub struct StorageError {
    message: String,
}

impl StorageError {
    /// The message carried, as a string value.
    pub closed spec fn spec_message(&self) -> String {
        self.message
    }

    /// Every error carries a non-empty message.
    pub open spec fn wf(&self) -> bool {
        self.spec_message()@.len() > 0
    }

    /// An error with `message`, or with the fallback message where `message` is empty.
    pub fn new(message: String) -> (r: StorageError)
        ensures
            r.wf(),
            message@.len() > 0 ==> r.spec_message() == message,
            message@.len() == 0 ==> r.spec_message()@ == fallback_message(),
    {
        if message.as_str().is_empty() {
            proof {
                reveal_strlit("storage operation failed");
            }
            StorageError { message: String::from_str("storage operation failed") }
        } else {
            StorageError { message }
        }
    }

    pub fn message(&self) -> (r: &str)
        ensures
            r@ == self.spec_message()@,
    {
        self.message.as_str()
    }

    pub fn into_message(self) -> (r: String)
        ensures
            r == self.spec_message(),
    {
        self.message
    }
}

} // verus!
