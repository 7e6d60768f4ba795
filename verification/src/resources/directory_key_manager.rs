//! Where the symmetric keys live: one file for each key identifier, directly
//! under one directory, holding the raw key and nothing else.

use vstd::prelude::*;
use vstd::string::*;

verus! {

/// The directory of the key files, with its closing `/`.
pub const VERDICTD_KEY_PATH: &'static str = "/opt/verdictd/keys/";

/// The file that holds the key named `kid`.
pub open spec fn key_path_of(kid: Seq<char>) -> Seq<char> {
    VERDICTD_KEY_PATH@ + kid
}

/// The path of the file that holds the key named `kid`.
pub fn key_path(kid: &str) -> (r: String)
    ensures
        r@ == key_path_of(kid@),
{
    VERDICTD_KEY_PATH.to_owned().concat(kid)
}

/// Two key identifiers never share a file.
pub proof fn lemma_key_path_injective(a: Seq<char>, b: Seq<char>)
    requires
        key_path_of(a) == key_path_of(b),
    ensures
        a == b,
{
    let root = VERDICTD_KEY_PATH@;
    assert(a =~= (root + a).subrange(root.len() as int, (root + a).len() as int));
    assert(b =~= (root + b).subrange(root.len() as int, (root + b).len() as int));
}

} // verus!
