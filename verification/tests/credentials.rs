use synoplayer::credentials::base64::{base64_decode, base64_encode};
use synoplayer::credentials::store::CredentialStore;
use synoplayer::error::SynoError;

#[test]
fn encrypted_file_save_and_load() {
    let store = CredentialStore::encrypted_file("/tmp/creds.enc".to_string());
    let file = store.save("myuser", "mypass").unwrap();
    assert_eq!(file.path, "/tmp/creds.enc");
    let (user, pass) = store.load(Some(&file.contents)).unwrap().unwrap();
    assert_eq!(user, "myuser");
    assert_eq!(pass, "mypass");
}

#[test]
fn encrypted_file_clear() {
    let store = CredentialStore::encrypted_file("/tmp/creds.enc".to_string());
    store.save("user", "pass").unwrap();
    assert_eq!(store.clear().unwrap(), "/tmp/creds.enc");
    assert!(store.load(None).unwrap().is_none());
}

#[test]
fn encrypted_file_overwrite() {
    let store = CredentialStore::encrypted_file("/tmp/creds.enc".to_string());
    let _first = store.save("user1", "pass1").unwrap();
    let second = store.save("user2", "pass2").unwrap();
    let (user, pass) = store.load(Some(&second.contents)).unwrap().unwrap();
    assert_eq!(user, "user2");
    assert_eq!(pass, "pass2");
}

#[test]
fn load_from_nonexistent_returns_none() {
    let store = CredentialStore::encrypted_file("/tmp/nope.enc".to_string());
    assert!(store.load(None).unwrap().is_none());
}

#[test]
fn exists_returns_false_when_empty() {
    let store = CredentialStore::encrypted_file("/tmp/creds.enc".to_string());
    assert!(!store.has_stored(None));
}

#[test]
fn base64_roundtrip() {
    let original = "hello:world";
    let encoded = base64_encode(original.as_bytes());
    let decoded = base64_decode(&encoded).unwrap();
    assert_eq!(String::from_utf8(decoded).unwrap(), original);
}

#[test]
fn base64_unicode_roundtrip() {
    let original = "пользователь:пароль";
    let encoded = base64_encode(original.as_bytes());
    let decoded = base64_decode(&encoded).unwrap();
    assert_eq!(String::from_utf8(decoded).unwrap(), original);
}

#[test]
fn base64_known_values() {
    assert_eq!(base64_encode(b""), "");
    assert_eq!(base64_encode(b"f"), "Zg==");
    assert_eq!(base64_encode(b"fo"), "Zm8=");
    assert_eq!(base64_encode(b"foo"), "Zm9v");
    assert_eq!(base64_decode("Zm9v").unwrap(), b"foo".to_vec());
    assert_eq!(base64_decode("Zm\n9v").unwrap(), b"foo".to_vec());
}

#[test]
fn base64_rejects_invalid_character() {
    assert!(base64_decode("Zm!v").is_err());
    assert_eq!(base64_decode("Zm9v!").unwrap(), b"foo".to_vec());
}

#[test]
fn keyring_backend_is_unavailable() {
    let store = CredentialStore::keyring();
    match store.save("u", "p") {
        Err(SynoError::Credential(m)) => assert!(m.contains("Keyring backend not available")),
        _ => panic!("keyring save should fail"),
    }
    assert!(store.load(Some("x")).is_err());
    assert!(!store.has_stored(Some("x")));
}

#[test]
fn from_config_picks_backend() {
    assert!(matches!(CredentialStore::from_config("keyring"), CredentialStore::Keyring));
    assert!(matches!(CredentialStore::from_config("encrypted_file"), CredentialStore::EncryptedFile { .. }));
}
