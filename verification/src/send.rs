//! What the sender reports about a shared file.
use vstd::prelude::*;
use crate::paths::{file_name_of, path_file_name};
use crate::save_path::text_or;

verus! {

/// The name a shared file is announced under: the last component of its path, or
/// `downloaded` where the path has none.
pub open spec fn announced_name(file_path: Seq<char>) -> Seq<char> {
    text_or(path_file_name(file_path), "downloaded"@)
}

/// The name a shared file is announced under (see [`announced_name`]).
pub fn sent_file_name(file_path: &str) -> (name: String)
    ensures
        name@ == announced_name(file_path@),
{
    match file_name_of(file_path) {
        Some(n) => n,
        None => String::from_str("downloaded"),
    }
}

/// What sharing a file answers with.
#[derive(Debug, Clone, PartialEq, Eq)]
pub struct SendReceipt {
    pub blob_id: String,
    pub ticket: String,
    pub file_name: String,
    pub node_id: String,
    pub file_size: u64,
}

/// Assembles the answer to sharing the file at `file_path`, once it was added under
/// `blob_id` and `ticket` was issued for it.
pub fn send_receipt(
    file_path: &str,
    node_id: String,
    blob_id: String,
    ticket: String,
    file_size: u64,
) -> (r: SendReceipt)
    ensures
        r.blob_id@ == blob_id@,
        r.ticket@ == ticket@,
        r.file_name@ == announced_name(file_path@),
        r.node_id@ == node_id@,
        r.file_size == file_size,
{
    SendReceipt { blob_id, ticket, file_name: sent_file_name(file_path), node_id, file_size }
}

/// A shared file is announced under the last component of its path whenever the path has
/// one, whatever its extension (or lack of one); only a path without a last component
/// (such as `/` or one ending in `..`) is announced as `downloaded`.
pub proof fn law_announced_name_is_file_name(file_path: Seq<char>)
    ensures
        path_file_name(file_path) matches Some(n) ==> announced_name(file_path) == n,
        path_file_name(file_path) is None ==> announced_name(file_path) == "downloaded"@,
{
}

} // verus!
