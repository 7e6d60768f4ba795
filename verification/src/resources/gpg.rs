//! The OpenPGP keyring: where it lives, and how it is exported.
//!
//! The keyring is one file that the `gpg` tool owns. Reading it, and holding
//! the lock that keeps an export apart from a change, is the caller's part;
//! how the lock is to be held, and what is made of the bytes that were read,
//! is decided here. The laws at the end of the module say what the lock, held
//! that way, is good for.

use crate::encoding::{base64_fits, base64_len, base64_text, debug_text, format_debug};
use crate::resources::file;
use vstd::prelude::*;
use vstd::string::*;
use vstd::utf8::*;

verus! {

/// The directory that holds the keyring, with its closing `/`.
pub const GPG_PATH: &'static str = "/opt/verdictd/gpg/";

/// The keyring file.
pub const GPG_KEYRING: &'static str = "/opt/verdictd/gpg/keyring.gpg";

/// What a failed export's message begins with.
pub const EXPORT_FAILED: &'static str = "export GPG keyring failed:";

/// What a failed size query's message begins with.
pub const SIZE_FAILED: &'static str = "Fetch GPG keyring size failed:";

/// What can be asked of the keyring.
#[derive(Clone, Copy, Debug, PartialEq, Eq)]
pub enum Operation {
    /// Listing the keys.
    List,
    /// Importing a key.
    Import,
    /// Deleting a key.
    Delete,
    /// Exporting the keyring.
    Export,
    /// Measuring the exported keyring.
    Size,
}

/// How the one lock on the keyring is held while an operation runs.
#[derive(Clone, Copy, Debug, PartialEq, Eq)]
pub enum Token {
    /// Not at all.
    Free,
    /// Together with other readers.
    Shared,
    /// Alone.
    Exclusive,
}

/// The token of each operation: a change holds the lock alone, an export
/// shares it with other exports, a listing goes without.
pub open spec fn token_of(operation: Operation) -> Token {
    match operation {
        Operation::List => Token::Free,
        Operation::Import | Operation::Delete => Token::Exclusive,
        Operation::Export | Operation::Size => Token::Shared,
    }
}

/// Whether the lock lets a holder of `a` and a holder of `b` run at once.
pub open spec fn may_overlap(a: Token, b: Token) -> bool {
    a is Free || b is Free || (a is Shared && b is Shared)
}

/// Whether an operation changes the keyring.
pub open spec fn changes(operation: Operation) -> bool {
    operation is Import || operation is Delete
}

/// Whether an operation reads the whole keyring.
pub open spec fn exports(operation: Operation) -> bool {
    operation is Export || operation is Size
}

/// Why the keyring, read with the outcome `keyring`, cannot be exported, if it
/// cannot: the read's own message, or [`file::TOO_LARGE`].
pub open spec fn export_obstacle(keyring: Result<Vec<u8>, String>) -> Option<Seq<char>> {
    match keyring {
        Ok(data) => if base64_fits(data@.len()) {
            None
        } else {
            Some(file::TOO_LARGE@)
        },
        Err(error) => Some(error@),
    }
}

/// The message of initialisation that could not create the directory.
pub open spec fn create_failed_text() -> Seq<char> {
    "create "@ + debug_text(GPG_PATH@) + " failed"@
}

/// The keyring as base64 text, given the outcome of reading the keyring file.
///
/// Where the read failed, or the text would not fit the machine, the error is
/// [`EXPORT_FAILED`] followed by the obstacle's message as `{:?}` shows it.
pub fn export_base64(keyring: Result<Vec<u8>, String>) -> (r: Result<String, String>)
    ensures
        match export_obstacle(keyring) {
            None => {
                &&& r matches Ok(text)
                &&& text@ == base64_text(keyring->Ok_0@)
                &&& text@.len() == base64_len(keyring->Ok_0@.len())
                &&& is_ascii_chars(text@)
            },
            Some(obstacle) => r matches Err(message) && message@ == EXPORT_FAILED@ + debug_text(
                obstacle,
            ),
        },
{
    match file::export_base64(keyring) {
        Ok(text) => Ok(text),
        Err(error) => Err(EXPORT_FAILED.to_owned().concat(format_debug(error.as_str()).as_str())),
    }
}

/// The length of the keyring's base64 text, given the outcome of reading the
/// keyring file.
///
/// Where the read failed, or the text would not fit the machine, the error is
/// [`SIZE_FAILED`] followed by the obstacle's message as `{:?}` shows it.
pub fn size_base64(keyring: Result<Vec<u8>, String>) -> (r: Result<usize, String>)
    ensures
        match export_obstacle(keyring) {
            None => r matches Ok(size) && size == base64_len(keyring->Ok_0@.len()),
            Some(obstacle) => r matches Err(message) && message@ == SIZE_FAILED@ + debug_text(
                obstacle,
            ),
        },
{
    match file::export_base64(keyring) {
        Ok(text) => {
            proof {
                is_ascii_chars_encode_utf8(text@);
            }
            Ok(text.as_str().len())
        },
        Err(error) => Err(SIZE_FAILED.to_owned().concat(format_debug(error.as_str()).as_str())),
    }
}

/// How the lock on the keyring is to be held while `operation` runs.
pub fn token(operation: Operation) -> (r: Token)
    ensures
        r == token_of(operation),
{
    match operation {
        Operation::List => Token::Free,
        Operation::Import | Operation::Delete => Token::Exclusive,
        Operation::Export | Operation::Size => Token::Shared,
    }
}


/// The first half of initialisation: the directory that has to be created,
/// given whether the keyring's directory exists. Nothing where it does, so that
/// initialising again changes nothing.
pub fn default(exists: bool) -> (r: Option<String>)
    ensures
        r is None <==> exists,
        r matches Some(directory) ==> directory@ == GPG_PATH@,
{
    if exists {
        None
    } else {
        Some(GPG_PATH.to_owned())
    }
}

/// The second half of initialisation: its result, given whether the directory
/// asked for by [`default`] was created.
pub fn default_result(created: bool) -> (r: Result<(), String>)
    ensures
        r is Ok <==> created,
        r matches Err(message) ==> message@ == create_failed_text(),
{
    if created {
        Ok(())
    } else {
        Err("create ".to_owned().concat(format_debug(GPG_PATH).as_str()).concat(" failed"))
    }
}

/// The keyring and the operations at work on it, as the laws below see them.
pub struct Custody {
    /// What the keyring file holds.
    pub content: Seq<u8>,
    /// The operations that have begun and not ended, in the order they began.
    pub running: Seq<Operation>,
}

/// Whether the lock lets `operation` begin beside the operations that run.
pub open spec fn admits(custody: Custody, operation: Operation) -> bool {
    forall|i: int|
        0 <= i < custody.running.len() ==> may_overlap(
            token_of(operation),
            token_of(#[trigger] custody.running[i]),
        )
}

/// Whether every two of the running operations may run at once.
pub open spec fn orderly(custody: Custody) -> bool {
    forall|i: int, j: int|
        #![trigger custody.running[i], custody.running[j]]
        0 <= i < j < custody.running.len() ==> may_overlap(
            token_of(custody.running[i]),
            token_of(custody.running[j]),
        )
}

/// The custody once `operation` has begun.
pub open spec fn begun(custody: Custody, operation: Operation) -> Custody {
    Custody { running: custody.running.push(operation), ..custody }
}

/// The custody once the running operation at `index` has ended: a change
/// leaves `content` in the keyring, any other operation leaves what was there.
pub open spec fn ended(custody: Custody, index: int, content: Seq<u8>) -> Custody {
    Custody {
        content: if changes(custody.running[index]) {
            content
        } else {
            custody.content
        },
        running: custody.running.remove(index),
    }
}

/// No export runs while the keyring changes, and no two changes run at once:
/// a change overlaps nothing but a listing.
pub proof fn lemma_change_excludes(change: Operation, other: Operation)
    requires
        changes(change),
    ensures
        may_overlap(token_of(change), token_of(other)) <==> other is List,
{
}

/// With nothing running, the custody is orderly.
pub proof fn lemma_idle_custody_is_orderly(content: Seq<u8>)
    ensures
        orderly(Custody { content, running: Seq::empty() }),
{
}

/// As long as operations begin only where the lock admits them, every two
/// that run may run at once.
pub proof fn lemma_custody_stays_orderly(
    custody: Custody,
    operation: Operation,
    index: int,
    content: Seq<u8>,
)
    requires
        orderly(custody),
    ensures
        admits(custody, operation) ==> orderly(begun(custody, operation)),
        0 <= index < custody.running.len() ==> orderly(ended(custody, index, content)),
{
    if admits(custody, operation) {
        let after = begun(custody, operation);
        assert forall|i: int, j: int|
            #![trigger after.running[i], after.running[j]]
            0 <= i < j < after.running.len() implies may_overlap(
            token_of(after.running[i]),
            token_of(after.running[j]),
        ) by {
            if j < custody.running.len() {
                assert(after.running[i] == custody.running[i]);
                assert(after.running[j] == custody.running[j]);
            } else {
                assert(after.running[i] == custody.running[i]);
                assert(after.running[j] == operation);
            }
        }
    }
    if 0 <= index < custody.running.len() {
        let after = ended(custody, index, content);
        assert forall|i: int, j: int|
            #![trigger after.running[i], after.running[j]]
            0 <= i < j < after.running.len() implies may_overlap(
            token_of(after.running[i]),
            token_of(after.running[j]),
        ) by {
            let before_i = if i < index {
                i
            } else {
                i + 1
            };
            let before_j = if j < index {
                j
            } else {
                j + 1
            };
            assert(after.running[i] == custody.running[before_i]);
            assert(after.running[j] == custody.running[before_j]);
        }
    }
}

/// An export sees one keyring: while it runs no change can begin, none is
/// running, and whatever operation ends leaves the keyring as the export found
/// it. What it reads is whole, from before or from after any change.
pub proof fn lemma_export_sees_one_keyring(
    custody: Custody,
    export: int,
    change: Operation,
    index: int,
    content: Seq<u8>,
)
    requires
        orderly(custody),
        0 <= export < custody.running.len(),
        exports(custody.running[export]),
        changes(change),
    ensures
        !admits(custody, change),
        0 <= index < custody.running.len() ==> !changes(custody.running[index]),
        0 <= index < custody.running.len() ==> ended(custody, index, content).content
            == custody.content,
        begun(custody, Operation::Export).content == custody.content,
{
    if 0 <= index < custody.running.len() && index != export {
        if index < export {
            assert(may_overlap(token_of(custody.running[index]), token_of(custody.running[export])));
        } else {
            assert(may_overlap(token_of(custody.running[export]), token_of(custody.running[index])));
        }
    }
}

} // verus!
