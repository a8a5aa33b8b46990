use base64::Engine;
use riot_switcher::crypto::{resolve_import_path, ImportPathChoice};
use riot_switcher::crypto::{
    decrypt_bytes, derive_key, export_file_name, open, safe_name_char, seal, seal_with, CryptoError, ExportFileV2,
    FORMAT_VERSION,
};

#[test]
fn sealed_file_opens_with_its_password() {
    let plaintext = br#"{"name":"main","data":"riot-login: x","riot_id":null}"#;
    let file = match seal(plaintext, "hunter2") {
        Ok(f) => f,
        Err(_) => panic!("sealing failed"),
    };
    assert_eq!(file.v, FORMAT_VERSION);
    match open(&file, "hunter2") {
        Ok(p) => assert_eq!(p, plaintext.to_vec()),
        Err(_) => panic!("opening failed"),
    }
}

#[test]
fn wrong_password_is_refused() {
    let file = match seal(b"secret payload", "right") {
        Ok(f) => f,
        Err(_) => panic!("sealing failed"),
    };
    assert!(matches!(open(&file, "wrong"), Err(CryptoError::WrongPasswordOrCorrupted)));
}

#[test]
fn seal_with_fixed_salt_and_nonce() {
    let salt = [7u8; 16];
    let nonce = [9u8; 12];
    let a = match seal_with(b"abc", "pw", &salt, &nonce) {
        Ok(f) => f,
        Err(_) => panic!("sealing failed"),
    };
    let b = match seal_with(b"abc", "pw", &salt, &nonce) {
        Ok(f) => f,
        Err(_) => panic!("sealing failed"),
    };
    assert_eq!(a.salt, "BwcHBwcHBwcHBwcHBwcHBw==");
    assert_eq!(a.nonce, "CQkJCQkJCQkJCQkJ");
    assert_eq!(a.ciphertext, b.ciphertext);
    assert_ne!(a.ciphertext, "YWJj");
    match decrypt_bytes(&a.salt, &a.nonce, &a.ciphertext, "pw") {
        Ok(p) => assert_eq!(p, b"abc".to_vec()),
        Err(_) => panic!("opening failed"),
    }
}

#[test]
fn invalid_base64_is_reported() {
    let file = ExportFileV2 {
        v: 2,
        salt: "!!!".to_string(),
        nonce: "CQkJCQkJCQkJCQkJ".to_string(),
        ciphertext: "AAAA".to_string(),
    };
    assert!(matches!(open(&file, "pw"), Err(CryptoError::InvalidBase64(_))));
}

#[test]
fn short_nonce_is_reported() {
    let file = ExportFileV2 {
        v: 2,
        salt: "BwcHBwcHBwcHBwcHBwcHBw==".to_string(),
        nonce: "CQkJ".to_string(),
        ciphertext: "AAAA".to_string(),
    };
    assert!(matches!(open(&file, "pw"), Err(CryptoError::InvalidNonceLength)));
}

#[test]
fn altered_ciphertext_is_refused() {
    let file = match seal_with(b"payload", "pw", &[1u8; 16], &[2u8; 12]) {
        Ok(f) => f,
        Err(_) => panic!("sealing failed"),
    };
    let altered = ExportFileV2 { v: 2, salt: file.salt, nonce: file.nonce, ciphertext: "AAAAAAAAAAAAAAAAAAAAAAAAAAAA".to_string() };
    assert!(matches!(open(&altered, "pw"), Err(CryptoError::WrongPasswordOrCorrupted)));
}

#[test]
fn derived_key_depends_on_salt() {
    let a = derive_key("password", b"salt-one");
    let b = derive_key("password", b"salt-two");
    assert_eq!(a.len(), 32);
    assert_eq!(a, derive_key("password", b"salt-one"));
    assert_ne!(a, b);
    assert_ne!(a, b"password".to_vec());
}

#[test]
fn export_names_are_made_safe() {
    assert_eq!(export_file_name("My Acc/1"), "My_Acc_1.riotacc");
    assert_eq!(export_file_name("Café-main_2"), "Café-main_2.riotacc");
    assert_eq!(export_file_name(""), ".riotacc");
    assert_eq!(export_file_name("..\\x"), "___x.riotacc");
}

#[test]
fn first_bad_field_error_is_reported() {
    let expected = base64::engine::general_purpose::STANDARD.decode("!!!").unwrap_err();
    let file = ExportFileV2 {
        v: 2,
        salt: "!!!".to_string(),
        nonce: "@@@@".to_string(),
        ciphertext: "AAAA".to_string(),
    };
    match open(&file, "pw") {
        Err(CryptoError::InvalidBase64(e)) => assert_eq!(e, expected),
        _ => panic!("expected a base64 error"),
    }
    let nonce_err = base64::engine::general_purpose::STANDARD.decode("@@@@").unwrap_err();
    match decrypt_bytes("BwcHBwcHBwcHBwcHBwcHBw==", "@@@@", "!!!", "pw") {
        Err(CryptoError::InvalidBase64(e)) => assert_eq!(e, nonce_err),
        _ => panic!("expected a base64 error"),
    }
}

#[test]
fn sealed_ciphertext_has_tag() {
    let f = match seal_with(b"twelve bytes", "pw", &[3u8; 16], &[4u8; 12]) {
        Ok(f) => f,
        Err(_) => panic!("sealing failed"),
    };
    let ct = base64::engine::general_purpose::STANDARD.decode(&f.ciphertext).unwrap();
    assert_eq!(ct.len(), 12 + 16);
}

#[test]
fn import_path_choice() {
    assert!(matches!(resolve_import_path(true, true), ImportPathChoice::AsGiven));
    assert!(matches!(resolve_import_path(false, true), ImportPathChoice::InProgramDir));
    assert!(matches!(resolve_import_path(false, false), ImportPathChoice::AsGiven));
}

#[test]
fn safe_name_char_keeps_alphanumeric_dash_underscore() {
    assert_eq!(safe_name_char('a', true), 'a');
    assert_eq!(safe_name_char('\u{e9}', true), '\u{e9}');
    assert_eq!(safe_name_char('-', false), '-');
    assert_eq!(safe_name_char('_', false), '_');
    assert_eq!(safe_name_char('/', false), '_');
    assert_eq!(safe_name_char('a', false), '_');
}
