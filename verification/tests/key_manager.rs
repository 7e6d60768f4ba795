use std::collections::HashMap;
use verdictd::client_api::api::GetKeyRequest;
use verdictd::client_api::key_manager::keyManagerService;
use verdictd::resources::directory_key_manager::key_path;

fn read(disk: &HashMap<String, Vec<u8>>, path: &str) -> Result<Vec<u8>, String> {
    disk.get(path).cloned().ok_or_else(|| "No such file or directory (os error 2)".to_string())
}

#[test]
fn test_get_key_not_exist() {
    let service = keyManagerService {};
    let request = GetKeyRequest { uuid: b"notexist".to_vec() };
    let disk: HashMap<String, Vec<u8>> = HashMap::new();
    let path = service.get_key_path(request);
    assert_eq!(path, "/opt/verdictd/keys/notexist");
    let response = service.get_key(read(&disk, &path));
    assert_eq!(response.status, b"key is not exist");
    assert_eq!(response.key, b"");
}

#[test]
fn test_get_key() {
    let kid = String::from("test_key");
    let key_content = b"test_key_content".to_vec();
    let mut disk: HashMap<String, Vec<u8>> = HashMap::new();
    disk.insert(key_path(&kid), key_content.clone());

    let service = keyManagerService {};
    let path = service.get_key_path(GetKeyRequest { uuid: kid.into_bytes() });
    let response = service.get_key(read(&disk, &path));
    assert_eq!(response.status, b"OK");
    assert_eq!(base64::decode(&response.key).unwrap(), key_content);
    assert_eq!(response.key, b"dGVzdF9rZXlfY29udGVudA==");
}

#[test]
fn key_path_is_under_the_key_directory() {
    assert_eq!(key_path("test_key"), "/opt/verdictd/keys/test_key");
    assert_eq!(key_path(""), "/opt/verdictd/keys/");
    assert_eq!(
        key_path("00000000-0000-0000-0000-000000000000"),
        "/opt/verdictd/keys/00000000-0000-0000-0000-000000000000"
    );
}

#[test]
fn new_key_is_a_uuid_and_32_bytes() {
    let service = keyManagerService {};
    let key = service.new_key();
    assert_eq!(key.key.len(), 32);
    assert_eq!(key.kid.len(), 36);
    let parsed = uuid::Uuid::parse_str(&key.kid).unwrap();
    assert_eq!(parsed.get_version_num(), 4);
    assert_eq!(parsed.get_variant(), Some(uuid::Variant::RFC4122));
    assert_eq!(parsed.to_string(), key.kid);
    assert_eq!(key.path, format!("/opt/verdictd/keys/{}", key.kid));
    for (i, c) in key.kid.chars().enumerate() {
        if i == 8 || i == 13 || i == 18 || i == 23 {
            assert_eq!(c, '-');
        } else {
            assert!(matches!(c, '0'..='9' | 'a'..='f'));
        }
    }
}

#[test]
fn every_new_key_has_the_form() {
    let service = keyManagerService {};
    for _ in 0..200 {
        let key = service.new_key();
        assert_eq!(key.key.len(), 32);
        let kid: Vec<char> = key.kid.chars().collect();
        assert_eq!(kid.len(), 36);
        for (i, c) in kid.iter().enumerate() {
            if i == 8 || i == 13 || i == 18 || i == 23 {
                assert_eq!(*c, '-');
            } else {
                assert!(matches!(*c, '0'..='9' | 'a'..='f'));
            }
        }
        assert_eq!(kid[14], '4');
        assert!(matches!(kid[19], '8' | '9' | 'a' | 'b'));
        assert_eq!(key.path, format!("/opt/verdictd/keys/{}", key.kid));
    }
}

#[test]
fn new_key_is_fresh_each_time() {
    let service = keyManagerService {};
    let first = service.new_key();
    let second = service.new_key();
    assert_ne!(first.kid, second.kid);
    assert_ne!(first.key, second.key);
    assert_ne!(first.key, vec![0u8; 32]);
    assert_ne!(first.path, second.path);
}

#[test]
fn create_then_get_returns_the_key() {
    let service = keyManagerService {};
    let mut disk: HashMap<String, Vec<u8>> = HashMap::new();

    let key = service.new_key();
    let drawn = key.key.clone();
    let kid = key.kid.clone();
    disk.insert(key.path.clone(), key.key.clone());
    let created = service.create_key(key, true);
    assert_eq!(created.status, b"OK");
    assert_eq!(created.uuid, kid.as_bytes());
    assert!(uuid::Uuid::parse_str(std::str::from_utf8(&created.uuid).unwrap()).is_ok());

    let path = service.get_key_path(GetKeyRequest { uuid: created.uuid });
    let got = service.get_key(read(&disk, &path));
    assert_eq!(got.status, b"OK");
    assert_eq!(base64::decode(&got.key).unwrap(), drawn);

    let path = service.get_key_path(GetKeyRequest { uuid: b"notexist".to_vec() });
    let missing = service.get_key(read(&disk, &path));
    assert_eq!(missing.status, b"key is not exist");
    assert_eq!(missing.key, b"");
}

#[test]
fn create_key_reports_a_key_that_was_not_stored() {
    let service = keyManagerService {};
    let key = service.new_key();
    let response = service.create_key(key, false);
    assert_eq!(response.status, b"Greate key failed");
    assert_eq!(response.uuid, b"");
}

#[test]
fn get_key_path_falls_back_on_the_nil_identifier() {
    let service = keyManagerService {};
    assert_eq!(
        service.get_key_path(GetKeyRequest { uuid: vec![0xff, 0x00] }),
        "/opt/verdictd/keys/00000000-0000-0000-0000-000000000000"
    );
    assert_eq!(service.get_key_path(GetKeyRequest { uuid: Vec::new() }), "/opt/verdictd/keys/");
}

#[test]
fn get_key_encodes_what_was_read() {
    let service = keyManagerService {};
    let response = service.get_key(Ok(vec![0u8; 32]));
    assert_eq!(response.status, b"OK");
    assert_eq!(response.key, b"AAAAAAAAAAAAAAAAAAAAAAAAAAAAAAAAAAAAAAAAAAA=");
    let response = service.get_key(Ok(Vec::new()));
    assert_eq!(response.status, b"OK");
    assert_eq!(response.key, b"");
}

#[test]
fn key_response_carries_the_text() {
    let service = keyManagerService {};
    let response = service.key_response(Some("dGVzdA==".to_string()));
    assert_eq!(response.status, b"OK");
    assert_eq!(response.key, b"dGVzdA==");
    let response = service.key_response(None);
    assert_eq!(response.status, b"key is not exist");
    assert_eq!(response.key, b"");
}

#[test]
fn delete_key_is_not_implemented() {
    let service = keyManagerService {};
    assert_eq!(service.delete_key().status, b"Not implemented");
}

#[test]
fn a_created_key_encrypts() {
    let service = keyManagerService {};
    let key = service.new_key();
    let iv = b"012345678901";
    let sealed = verdictd::crypto::aes256_gcm::encrypt(b"test_data", &key.key, iv).unwrap();
    assert_eq!(
        verdictd::crypto::aes256_gcm::decrypt(&sealed, &key.key, iv),
        Ok(b"test_data".to_vec())
    );
}
