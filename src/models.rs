use vstd::prelude::*;

verus! {

/// A file stored in a workspace, addressed by the hash of its content.
#[derive(Clone, Debug, PartialEq, Eq)]
pub struct ChatFile {
    pub ws_id: u64,
    /// Extension taken from the file name or the mime type.
    pub ext: String,
    pub hash: String,
}

/// The body that sign-up and sign-in answer with.
#[derive(Clone, Debug, PartialEq, Eq)]
pub struct AuthOutput {
    pub token: String,
}

} // verus!
