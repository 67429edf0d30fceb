use creaters::password::{check_password, hash_password, PasswordError};
use creaters::reply::FlashKind;
use creaters::signin::{signout_reply, SigninForm};
use creaters::signup::{signup_reply, SignupForm};

fn form(account: &str, password: &str) -> SignupForm {
    SignupForm {
        account: account.to_string(),
        mail_address: "a@example.com".to_string(),
        password: password.to_string(),
    }
}

#[test]
fn account_names_are_ascii_letters_and_digits() {
    assert!(form("abc123", "x").check_account());
    assert!(form("Z", "x").check_account());
    assert!(!form("", "x").check_account());
    assert!(!form("ab-c", "x").check_account());
    assert!(!form("ab c", "x").check_account());
    assert!(!form("ab\nc", "x").check_account());
    assert!(!form("名前", "x").check_account());
}

#[test]
fn signup_reply_cases() {
    let (create, r) = signup_reply(false, 0);
    assert!(!create);
    assert_eq!(r.kind, FlashKind::Error);
    assert_eq!(r.target, "/signup");
    assert_eq!(r.message, "アカウントは半角英数字で入力してください。");

    let (create, r) = signup_reply(true, 0);
    assert!(create);
    assert_eq!(r.kind, FlashKind::Success);
    assert_eq!(r.target, "/creater/account/new");
    assert_eq!(r.message, "");

    let (create, r) = signup_reply(true, 2);
    assert!(!create);
    assert_eq!(r.kind, FlashKind::Error);
    assert_eq!(r.target, "/signup");
    assert_eq!(r.message, "そのアカウントは存在しています。");
}

#[test]
fn hash_and_check() {
    let h = hash_password("secret").unwrap();
    assert_eq!(h.len(), 60);
    assert!(h.starts_with("$2b$12$"));
    assert_ne!(h, "secret");
    assert_eq!(check_password("secret", &h), Ok(true));
    assert_eq!(check_password("Secret", &h), Ok(false));
}

#[test]
fn unknown_account_and_malformed_hash() {
    assert_eq!(check_password("secret", ""), Ok(false));
    assert_eq!(check_password("secret", "not a hash"), Err(PasswordError::MalformedHash));
}

#[test]
fn signup_record_keeps_fields_and_hashes_trimmed_password() {
    let record = form("alice", "  pw1 ").signup_record().unwrap();
    assert_eq!(record.id, None);
    assert_eq!(record.account, "alice");
    assert_eq!(record.mail_address, "a@example.com");
    assert_eq!(check_password("pw1", &record.password), Ok(true));
}

#[test]
fn registered_password_signs_in_example() {
    let record = form("alice", "pw1").signup_record().unwrap();
    let signin = SigninForm { account_flag: "alice".to_string(), password_flag: "pw1".to_string() };
    assert_eq!(signin.check(&record.password), Ok(true));
}

#[test]
fn padded_password_does_not_sign_in_as_typed() {
    let record = form("alice", " pw1").signup_record().unwrap();
    let signin = SigninForm { account_flag: "alice".to_string(), password_flag: " pw1".to_string() };
    assert_eq!(signin.check(&record.password), Ok(false));
}

#[test]
fn signin_checks_and_replies() {
    let signin = SigninForm { account_flag: "bob".to_string(), password_flag: "pw".to_string() };
    assert_eq!(signin.check(""), Ok(false));
    assert_eq!(signin.check("$2b$12$short"), Err(PasswordError::MalformedHash));

    let ok = signin.reply(true);
    assert_eq!(ok.kind, FlashKind::Success);
    assert_eq!(ok.target, "/creater/account/bob");
    assert_eq!(ok.message, "");

    let bad = signin.reply(false);
    assert_eq!(bad.kind, FlashKind::Error);
    assert_eq!(bad.target, "/login");
    assert_eq!(bad.message, "アカウントまたはパスワードが間違っています。");
}

#[test]
fn signout_goes_home() {
    let r = signout_reply();
    assert_eq!(r.kind, FlashKind::Success);
    assert_eq!(r.target, "/");
    assert_eq!(r.message, "");
}
