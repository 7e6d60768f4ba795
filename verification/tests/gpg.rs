use verdictd::client_api::api::{DeleteGpgKeyRequest, ImportGpgKeyRequest};
use verdictd::client_api::gpg::{gpgService, ToolOutput, ToolRun};
use verdictd::resources::gpg::{export_base64, size_base64, token, Operation, Token};

fn output(success: bool, stdout: &str, stderr: &str) -> ToolOutput {
    ToolOutput { success, stdout: stdout.as_bytes().to_vec(), stderr: stderr.as_bytes().to_vec() }
}

fn strings(args: &[&str]) -> Vec<String> {
    args.iter().map(|arg| arg.to_string()).collect()
}

#[test]
fn test_default() {
    // The directory is missing, is asked for, and is created.
    let result = match verdictd::resources::gpg::default(false) {
        Some(_) => verdictd::resources::gpg::default_result(true),
        None => Ok(()),
    };
    assert!(result.is_ok(), "default() 函数测试失败");
}

#[test]
fn default_asks_for_the_directory_only_when_it_is_missing() {
    assert_eq!(verdictd::resources::gpg::default(true), None);
    assert_eq!(verdictd::resources::gpg::default(false), Some("/opt/verdictd/gpg/".to_string()));
}

#[test]
fn default_reports_a_directory_that_cannot_be_created() {
    assert_eq!(verdictd::resources::gpg::default_result(true), Ok(()));
    assert_eq!(
        verdictd::resources::gpg::default_result(false),
        Err("create \"/opt/verdictd/gpg/\" failed".to_string())
    );
}

#[test]
fn test_export_gpg_keyring() {
    let service = gpgService {};

    // Export GPG keyring
    let response = service.export_gpg_keyring(export_base64(Ok(b"test_content".to_vec())));
    assert_eq!(response.status, b"OK");
    assert_eq!(response.content, b"dGVzdF9jb250ZW50");
}

#[test]
fn export_gpg_keyring_reports_a_failed_read() {
    let service = gpgService {};
    let response = service.export_gpg_keyring(export_base64(Err("No such file".to_string())));
    assert_eq!(response.status, b"export GPG keyring failed:\"No such file\"");
    assert_eq!(response.content, b"");
}

#[test]
fn export_gpg_keyring_answers_the_text_or_the_error() {
    let service = gpgService {};
    let response = service.export_gpg_keyring(Ok("dGVzdA==".to_string()));
    assert_eq!(response.status, b"OK");
    assert_eq!(response.content, b"dGVzdA==");
    let response = service.export_gpg_keyring(Err("it failed".to_string()));
    assert_eq!(response.status, b"it failed");
    assert_eq!(response.content, b"");
}

#[test]
fn export_base64_encodes_the_keyring() {
    assert_eq!(export_base64(Ok(b"test_content".to_vec())), Ok("dGVzdF9jb250ZW50".to_string()));
    assert_eq!(export_base64(Ok(Vec::new())), Ok(String::new()));
}

#[test]
fn export_base64_quotes_the_error() {
    assert_eq!(
        export_base64(Err("No such file or directory (os error 2)".to_string())),
        Err("export GPG keyring failed:\"No such file or directory (os error 2)\"".to_string())
    );
    assert_eq!(
        export_base64(Err("a \"quoted\" name\n".to_string())),
        Err("export GPG keyring failed:\"a \\\"quoted\\\" name\\n\"".to_string())
    );
}

#[test]
fn size_base64_counts_the_text() {
    assert_eq!(size_base64(Ok(b"test_content".to_vec())), Ok(16));
    assert_eq!(size_base64(Ok(Vec::new())), Ok(0));
    assert_eq!(size_base64(Ok(vec![0u8; 1])), Ok(4));
    assert_eq!(size_base64(Ok(vec![0u8; 2])), Ok(4));
    assert_eq!(size_base64(Ok(vec![0u8; 3])), Ok(4));
    assert_eq!(size_base64(Ok(vec![0u8; 4])), Ok(8));
    assert_eq!(size_base64(Ok(vec![0u8; 1000])), Ok(1336));
}

#[test]
fn size_base64_quotes_the_error() {
    assert_eq!(
        size_base64(Err("Permission denied (os error 13)".to_string())),
        Err("Fetch GPG keyring size failed:\"Permission denied (os error 13)\"".to_string())
    );
}

#[test]
fn size_base64_is_the_length_of_export_base64() {
    for len in 0..50usize {
        let keyring = vec![0x5au8; len];
        assert_eq!(
            size_base64(Ok(keyring.clone())),
            Ok(export_base64(Ok(keyring)).unwrap().len())
        );
    }
}

#[test]
fn tokens_keep_a_change_alone() {
    assert_eq!(token(Operation::List), Token::Free);
    assert_eq!(token(Operation::Import), Token::Exclusive);
    assert_eq!(token(Operation::Delete), Token::Exclusive);
    assert_eq!(token(Operation::Export), Token::Shared);
    assert_eq!(token(Operation::Size), Token::Shared);
}

#[test]
fn list_runs_gpg_on_the_keyring() {
    let service = gpgService {};
    assert_eq!(
        service.list_gpg_keys_run(),
        ToolRun {
            program: "gpg".to_string(),
            args: strings(&[
                "--no-default-keyring",
                "--keyring=/opt/verdictd/gpg/keyring.gpg",
                "--list-keys"
            ]),
            input: None,
        }
    );
}

#[test]
fn list_answers_what_the_tool_printed() {
    let service = gpgService {};
    let listing = "pub   rsa3072 2023-01-01 [SC]\n      ABCDEF\nuid   someone\n";
    assert_eq!(service.list_gpg_keys(output(true, listing, "")).keys, listing.as_bytes());
    assert_eq!(service.list_gpg_keys(output(false, "partial", "gpg: error")).keys, b"partial");
    assert_eq!(service.list_gpg_keys(output(true, "", "")).keys, b"");
}

#[test]
fn a_tool_that_was_not_run_has_failed() {
    let service = gpgService {};
    let output = ToolOutput::not_run("No such file or directory (os error 2)");
    assert_eq!(
        output,
        ToolOutput {
            success: false,
            stdout: Vec::new(),
            stderr: b"No such file or directory (os error 2)".to_vec(),
        }
    );
    assert_eq!(service.delete_gpg_key(output).status, b"No such file or directory (os error 2)");
    let output = ToolOutput::not_run("gpg is missing");
    assert_eq!(service.list_gpg_keys(output).keys, b"");
}

#[test]
fn import_feeds_the_key_to_gpg() {
    let service = gpgService {};
    let key =
        b"-----BEGIN PGP PUBLIC KEY BLOCK-----\n\nmQGNBF\n-----END PGP PUBLIC KEY BLOCK-----\n";
    assert_eq!(
        service.import_gpg_key_run(ImportGpgKeyRequest { key: key.to_vec() }),
        Some(ToolRun {
            program: "gpg".to_string(),
            args: strings(&[
                "--no-default-keyring",
                "--keyring=/opt/verdictd/gpg/keyring.gpg",
                "--import"
            ]),
            input: Some(key.to_vec()),
        })
    );
}

#[test]
fn import_refuses_a_key_that_is_not_utf8() {
    let service = gpgService {};
    let request = ImportGpgKeyRequest { key: vec![0x99, 0x01, 0x8d] };
    assert_eq!(service.import_gpg_key_run(request), None);
}

#[test]
fn import_answers_the_diagnostics() {
    let service = gpgService {};
    let said = "gpg: key ABCDEF: public key \"someone\" imported\ngpg: Total number processed: 1\n";
    assert_eq!(service.import_gpg_key(output(true, "", said)).status, said.as_bytes());
    let said = "gpg: no valid OpenPGP data found.\n";
    assert_eq!(service.import_gpg_key(output(false, "ignored", said)).status, said.as_bytes());
}

#[test]
fn delete_runs_gpg_in_batch_mode() {
    let service = gpgService {};
    assert_eq!(
        service.delete_gpg_key_run(DeleteGpgKeyRequest { keyid: b"ABCDEF".to_vec() }),
        Some(ToolRun {
            program: "gpg".to_string(),
            args: strings(&[
                "--batch",
                "--yes",
                "--no-default-keyring",
                "--keyring=/opt/verdictd/gpg/keyring.gpg",
                "--delete-key",
                "ABCDEF"
            ]),
            input: None,
        })
    );
}

#[test]
fn delete_refuses_a_key_id_that_is_not_utf8() {
    let service = gpgService {};
    assert_eq!(service.delete_gpg_key_run(DeleteGpgKeyRequest { keyid: vec![0xff, 0xfe] }), None);
}

#[test]
fn delete_confirms_a_deletion() {
    let service = gpgService {};
    assert_eq!(service.delete_gpg_key(output(true, "", "")).status, b"Delete key successfully");
    assert_eq!(
        service.delete_gpg_key(output(true, "out", "gpg: a warning\n")).status,
        b"Delete key successfully"
    );
}

#[test]
fn delete_of_a_missing_key_answers_the_diagnostic() {
    let service = gpgService {};
    let said =
        "gpg: key \"notexist\" not found: Not found\ngpg: notexist: delete key failed: Not found\n";
    assert_eq!(service.delete_gpg_key(output(false, "", said)).status, said.as_bytes());
}

#[test]
fn a_keyring_is_listed_after_an_import_and_not_after_a_deletion() {
    // The tool is played by hand: what it would print at each step.
    let service = gpgService {};
    let run = service.import_gpg_key_run(ImportGpgKeyRequest { key: b"key material".to_vec() });
    assert_eq!(run.unwrap().input, Some(b"key material".to_vec()));
    let imported = service.import_gpg_key(output(true, "", "gpg: key 1A2B: imported\n"));
    assert_eq!(imported.status, b"gpg: key 1A2B: imported\n");
    let listed = service.list_gpg_keys(output(true, "pub 1A2B\n", ""));
    assert_eq!(listed.keys, b"pub 1A2B\n");
    let run = service.delete_gpg_key_run(DeleteGpgKeyRequest { keyid: b"1A2B".to_vec() }).unwrap();
    assert_eq!(run.args[5], "1A2B");
    let deleted = service.delete_gpg_key(output(true, "", ""));
    assert_eq!(deleted.status, b"Delete key successfully");
    let listed = service.list_gpg_keys(output(true, "", ""));
    assert_eq!(listed.keys, b"");
    let again = service.delete_gpg_key(output(false, "", "gpg: key \"1A2B\" not found\n"));
    assert_eq!(again.status, b"gpg: key \"1A2B\" not found\n");
}
