//! The keyring service.
//!
//! Every operation but the export is the work of the `gpg` tool. For each the
//! service says how the tool is to be run and, once the caller has run it, what
//! is answered. The export reads the keyring file instead: see
//! [`crate::resources::gpg`].

use crate::client_api::api::{
    DeleteGpgKeyRequest, DeleteGpgKeyResponse, ExportGpgKeyringResponse, ImportGpgKeyRequest,
    ImportGpgKeyResponse, ListGpgKeysResponse, STATUS_OK,
};
use crate::encoding::{from_utf8, text_bytes};
use crate::resources::gpg::GPG_KEYRING;
use vstd::prelude::*;
use vstd::string::*;
use vstd::utf8::*;

verus! {

/// The tool that owns the keyring.
pub const GPG: &'static str = "gpg";

/// The status of a successful deletion.
pub const STATUS_DELETED: &'static str = "Delete key successfully";

/// One run of the tool: the program, its arguments in order, and the bytes to
/// feed to its standard input, if it is to get any.
#[derive(Debug, PartialEq, Eq)]
pub struct ToolRun {
    pub program: String,
    pub args: Vec<String>,
    pub input: Option<Vec<u8>>,
}

/// What a run of the tool gave: whether it exited with success, and what it
/// wrote to its standard output and to its standard error.
#[derive(Debug, Default, PartialEq, Eq)]
pub struct ToolOutput {
    pub success: bool,
    pub stdout: Vec<u8>,
    pub stderr: Vec<u8>,
}

impl ToolOutput {
    /// What stands for the output of a tool that could not be run at all: no
    /// success, nothing printed, and `message` as the diagnostic.
    pub fn not_run(message: &str) -> (r: ToolOutput)
        ensures
            !r.success,
            r.stdout@ == Seq::<u8>::empty(),
            r.stderr@ == text_bytes(message@),
    {
        ToolOutput { success: false, stdout: Vec::new(), stderr: message.as_bytes_vec() }
    }
}

/// The argument that points the tool at the keyring.
pub open spec fn keyring_arg() -> Seq<char> {
    "--keyring="@ + GPG_KEYRING@
}

/// The arguments that list the keyring.
pub open spec fn list_args() -> Seq<Seq<char>> {
    seq!["--no-default-keyring"@, keyring_arg(), "--list-keys"@]
}

/// The arguments that import what is on standard input.
pub open spec fn import_args() -> Seq<Seq<char>> {
    seq!["--no-default-keyring"@, keyring_arg(), "--import"@]
}

/// The arguments that delete the key `keyid` without asking.
pub open spec fn delete_args(keyid: Seq<char>) -> Seq<Seq<char>> {
    seq!["--batch"@, "--yes"@, "--no-default-keyring"@, keyring_arg(), "--delete-key"@, keyid]
}

fn keyring_argument() -> (r: String)
    ensures
        r@ == keyring_arg(),
{
    "--keyring=".to_owned().concat(GPG_KEYRING)
}

/// The keyring service. It holds nothing: the keyring is on disk.
#[allow(non_camel_case_types)]
#[derive(Debug, Default)]
pub struct gpgService {}

impl gpgService {
    /// How the tool is run to list the keyring.
    pub fn list_gpg_keys_run(&self) -> (r: ToolRun)
        ensures
            r.program@ == GPG@,
            r.args.deep_view() == list_args(),
            r.input is None,
    {
        let mut args: Vec<String> = Vec::new();
        args.push("--no-default-keyring".to_owned());
        args.push(keyring_argument());
        args.push("--list-keys".to_owned());
        assert(args.deep_view() =~= list_args());
        ToolRun { program: GPG.to_owned(), args, input: None }
    }

    /// The listing: what the tool printed, whether or not it reported success.
    pub fn list_gpg_keys(&self, output: ToolOutput) -> (r: ListGpgKeysResponse)
        ensures
            r.keys@ == output.stdout@,
    {
        ListGpgKeysResponse { keys: output.stdout }
    }

    /// How the tool is run to import `request.key`: the key, unchanged, goes to
    /// the tool's standard input. `None` where the key is not UTF-8, and only
    /// then.
    pub fn import_gpg_key_run(&self, request: ImportGpgKeyRequest) -> (r: Option<ToolRun>)
        ensures
            r is Some <==> valid_utf8(request.key@),
            r matches Some(run) ==> {
                &&& run.program@ == GPG@
                &&& run.args.deep_view() == import_args()
                &&& run.input matches Some(input)
                &&& input@ == request.key@
            },
    {
        match from_utf8(request.key) {
            Some(key) => {
                let mut args: Vec<String> = Vec::new();
                args.push("--no-default-keyring".to_owned());
                args.push(keyring_argument());
                args.push("--import".to_owned());
                assert(args.deep_view() =~= import_args());
                let input = key.as_str().as_bytes_vec();
                Some(ToolRun { program: GPG.to_owned(), args, input: Some(input) })
            },
            None => None,
        }
    }

    /// The answer to an import: what the tool wrote to its standard error.
    pub fn import_gpg_key(&self, output: ToolOutput) -> (r: ImportGpgKeyResponse)
        ensures
            r.status@ == output.stderr@,
    {
        ImportGpgKeyResponse { status: output.stderr }
    }

    /// How the tool is run to delete the key `request.keyid`. `None` where the
    /// key id is not UTF-8, and only then.
    pub fn delete_gpg_key_run(&self, request: DeleteGpgKeyRequest) -> (r: Option<ToolRun>)
        ensures
            r is Some <==> valid_utf8(request.keyid@),
            r matches Some(run) ==> {
                &&& run.program@ == GPG@
                &&& run.args.deep_view() == delete_args(decode_utf8(request.keyid@))
                &&& run.input is None
            },
    {
        let ghost given = request.keyid@;
        match from_utf8(request.keyid) {
            Some(keyid) => {
                let mut args: Vec<String> = Vec::new();
                args.push("--batch".to_owned());
                args.push("--yes".to_owned());
                args.push("--no-default-keyring".to_owned());
                args.push(keyring_argument());
                args.push("--delete-key".to_owned());
                args.push(keyid);
                assert(args.deep_view() =~= delete_args(decode_utf8(given)));
                Some(ToolRun { program: GPG.to_owned(), args, input: None })
            },
            None => None,
        }
    }

    /// The answer to a deletion: [`STATUS_DELETED`] where the tool reported
    /// success, else what it wrote to its standard error.
    pub fn delete_gpg_key(&self, output: ToolOutput) -> (r: DeleteGpgKeyResponse)
        ensures
            r.status@ == if output.success {
                text_bytes(STATUS_DELETED@)
            } else {
                output.stderr@
            },
    {
        if output.success {
            DeleteGpgKeyResponse { status: STATUS_DELETED.as_bytes_vec() }
        } else {
            DeleteGpgKeyResponse { status: output.stderr }
        }
    }

    /// The answer to an export, given what
    /// [`export_base64`](crate::resources::gpg::export_base64) made of the
    /// keyring: `OK` and the text, or the error as status and no content.
    pub fn export_gpg_keyring(
        &self,
        exported: Result<String, String>,
    ) -> (r: ExportGpgKeyringResponse)
        ensures
            match exported {
                Ok(content) => {
                    &&& r.status@ == text_bytes(STATUS_OK@)
                    &&& r.content@ == text_bytes(content@)
                },
                Err(error) => {
                    &&& r.status@ == text_bytes(error@)
                    &&& r.content@ == Seq::<u8>::empty()
                },
            },
    {
        match exported {
            Ok(content) => ExportGpgKeyringResponse {
                status: STATUS_OK.as_bytes_vec(),
                content: content.as_str().as_bytes_vec(),
            },
            Err(error) => ExportGpgKeyringResponse {
                status: error.as_str().as_bytes_vec(),
                content: Vec::new(),
            },
        }
    }
}

} // verus!
