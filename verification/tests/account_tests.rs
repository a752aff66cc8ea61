use gtk_qq::account::{load_flag, AccountError, LocalAccount, LoginSettings, SavedAccount};

#[test]
fn token_is_written_as_base64() {
    assert_eq!(LocalAccount::token_to_base64(b"hi"), "aGk=");
    assert_eq!(LocalAccount::token_to_base64(b""), "");
    assert_eq!(LocalAccount::base64_to_token("aGk=").ok(), Some(b"hi".to_vec()));
    assert_eq!(LocalAccount::base64_to_token("a*k=").err(), Some(AccountError::BadBase64));
}

#[test]
fn saved_account_reads_back() {
    let acc = LocalAccount::new(123456789, vec![0, 1, 2, 250, 255]);
    let saved = acc.save_account();
    assert_eq!(saved.account, "123456789");
    let back = LocalAccount::get_account(Some(saved.account.clone()), Some(saved.token.clone()));
    assert_eq!(back, Ok(Some(acc)));
}

#[test]
fn test_account_load() {
    let saved = LocalAccount::new(-42, vec![7; 40]).save_account();
    let acc = LocalAccount::get_account(Some(saved.account), Some(saved.token));
    println!("{acc:?}");
    assert_eq!(acc.map(|a| a.map(|a| a.account)), Ok(Some(-42)));
}

#[test]
fn missing_or_bad_settings() {
    assert_eq!(LocalAccount::get_account(None, Some("aGk=".to_string())), Ok(None));
    assert_eq!(LocalAccount::get_account(Some("12x".to_string()), Some("aGk=".to_string())), Ok(None));
    assert_eq!(LocalAccount::get_account(Some("12".to_string()), None), Ok(None));
    assert_eq!(LocalAccount::get_account(Some("12".to_string()), Some("!!".to_string())), Err(AccountError::BadBase64));
    let ok = SavedAccount { account: "5".to_string(), token: "AAE=".to_string() };
    assert_eq!(
        LocalAccount::get_account(Some(ok.account), Some(ok.token)),
        Ok(Some(LocalAccount { account: 5, token: vec![0, 1] }))
    );
}

#[test]
fn login_switches_read_back() {
    for (r, a) in [(true, false), (false, true), (true, true), (false, false)] {
        let s = LoginSettings { remember_pwd: r, auto_login: a };
        let (rt, at) = s.save_login_setting();
        assert_eq!(LoginSettings::load(Some(rt), Some(at)), s);
    }
    assert!(!load_flag(None));
    assert!(!load_flag(Some("yes".to_string())));
    assert!(load_flag(Some("true".to_string())));
}

#[test]
fn base64_matches_rfc_vectors() {
    let vectors: [(&[u8], &str); 7] = [
        (b"", ""),
        (b"f", "Zg=="),
        (b"fo", "Zm8="),
        (b"foo", "Zm9v"),
        (b"foob", "Zm9vYg=="),
        (b"fooba", "Zm9vYmE="),
        (b"foobar", "Zm9vYmFy"),
    ];
    for (bytes, text) in vectors {
        assert_eq!(LocalAccount::token_to_base64(bytes), text);
        assert_eq!(LocalAccount::base64_to_token(text).ok(), Some(bytes.to_vec()));
    }
    assert_eq!(LocalAccount::token_to_base64(&[0xfb, 0xff]), "+/8=");
}
