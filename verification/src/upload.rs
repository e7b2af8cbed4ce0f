//! The upload step: the key an archive is stored under.

use vstd::prelude::*;
use vstd::string::*;

verus! {

/// The key of the archive named `file` in the bucket of a job whose remote
/// path is `remote_path`.
pub open spec fn remote_key(remote_path: Seq<char>, file: Seq<char>) -> Seq<char> {
    remote_path + "/"@ + file
}

pub fn remote_key_for(remote_path: &str, file: &str) -> (key: String)
    ensures
        key@ == remote_key(remote_path@, file@),
{
    let mut key = String::from_str(remote_path);
    key.append("/");
    key.append(file);
    key
}

} // verus!
