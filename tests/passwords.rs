use lora_link::passwords::{
    pwhash_create_md5_hash, pwhash_create_md5_password_hash, pwhash_create_sha256_password_hash,
    pwhash_create_sha512_password_hash,
};

#[test]
fn md5_hex_of_text() {
    assert_eq!(pwhash_create_md5_hash(String::new()).unwrap(), "d41d8cd98f00b204e9800998ecf8427e");
    assert_eq!(pwhash_create_md5_hash("abc".to_string()).unwrap(), "900150983cd24fb0d6963f7d28e17f72");
    assert_eq!(pwhash_create_md5_hash("lora".to_string()).unwrap().len(), 32);
}

#[test]
fn salt_outside_printable_ascii_is_rejected() {
    for salt in ["\u{80}", "\t", "ab\u{e9}cd"] {
        let s = Some(salt.to_string());
        let e = "Invalid encoding".to_string();
        assert_eq!(pwhash_create_md5_password_hash("pw".to_string(), s.clone(), None), Err(e.clone()));
        assert_eq!(pwhash_create_sha256_password_hash("pw".to_string(), s.clone(), None), Err(e.clone()));
        assert_eq!(pwhash_create_sha512_password_hash("pw".to_string(), s, None), Err(e));
    }
}

#[test]
fn salt_outside_crypt_alphabet_is_rejected() {
    let s = Some("sa!t".to_string());
    let e = "Invalid encoding".to_string();
    assert_eq!(pwhash_create_md5_password_hash("pw".to_string(), s.clone(), None), Err(e.clone()));
    assert_eq!(pwhash_create_sha256_password_hash("pw".to_string(), s.clone(), None), Err(e.clone()));
    assert_eq!(pwhash_create_sha512_password_hash("pw".to_string(), s, None), Err(e));
}

#[test]
fn long_salt_is_cut_and_equal_inputs_agree() {
    let s = Some("saltsaltEXTRA".to_string());
    let a = pwhash_create_md5_password_hash("pw".to_string(), s.clone(), None).unwrap();
    let b = pwhash_create_md5_password_hash("pw".to_string(), s, None).unwrap();
    assert_eq!(a, b);
    assert!(a.starts_with("$1$saltsalt$"));
    let c = pwhash_create_sha256_password_hash("pw".to_string(), Some("saltsalt".to_string()), None).unwrap();
    assert!(c.starts_with("$5$saltsalt$"));
    let d = pwhash_create_sha512_password_hash("pw".to_string(), Some("saltsalt".to_string()), None).unwrap();
    assert!(d.starts_with("$6$saltsalt$"));
    assert_ne!(c, pwhash_create_sha256_password_hash("pw2".to_string(), Some("saltsalt".to_string()), None).unwrap());
}

#[test]
fn md5_crypt_with_salt() {
    let h = pwhash_create_md5_password_hash("password".to_string(), Some("5pZSV9va".to_string()), None);
    assert_eq!(h.unwrap(), "$1$5pZSV9va$azfrPr6af3Fc7dLblQXVa0");
}

#[test]
fn md5_crypt_random_salt() {
    let h = pwhash_create_md5_password_hash("password".to_string(), None, None).unwrap();
    assert!(h.starts_with("$1$"));
    assert!(pwhash_create_sha256_password_hash("password".to_string(), None, None).unwrap().starts_with("$5$"));
    assert!(pwhash_create_sha512_password_hash("password".to_string(), None, None).unwrap().starts_with("$6$"));
}

#[test]
fn sha_crypt_prefixes() {
    let a = pwhash_create_sha256_password_hash("pw".to_string(), Some("salt".to_string()), None).unwrap();
    assert!(a.starts_with("$5$salt$"));
    let b = pwhash_create_sha512_password_hash("pw".to_string(), Some("salt".to_string()), Some(5000)).unwrap();
    assert!(b.starts_with("$6$rounds=5000$salt$"));
}
