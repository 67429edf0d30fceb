//! Sign-up: the account name rule, the decision taken on a sign-up form and
//! the record stored for a new account.

use vstd::prelude::*;
use vstd::string::*;
use crate::password::{hash_password, registered_hash, PasswordError};
use crate::reply::{flash, FlashKind, FlashRedirect};
use crate::text::trim;

verus! {

#[verifier::external_type_specification]
#[verifier::external_body]
pub struct ExRegexError(regex::Error);

/// Whether `regex::Regex::is_match` finds a match of `pattern` in `haystack`.
pub uninterp spec fn regex_finds_match(pattern: Seq<char>, haystack: Seq<char>) -> bool;

/// The pattern that account names must match: one or more ASCII letters or
/// digits and nothing else.
pub open spec fn account_pattern() -> Seq<char> {
    "^[a-zA-Z0-9]+$"@
}

/// `c` is an ASCII letter or digit.
pub open spec fn is_ascii_alphanumeric(c: char) -> bool {
    ('a' <= c && c <= 'z') || ('A' <= c && c <= 'Z') || ('0' <= c && c <= '9')
}

/// `account` is a non-empty run of ASCII letters and digits.
pub open spec fn valid_account(account: Seq<char>) -> bool {
    account.len() > 0 && forall|i: int| 0 <= i < account.len() ==> is_ascii_alphanumeric(account[i])
}

/// Compiles `pattern` with `regex::Regex::new` and tests `text` with
/// `Regex::is_match`. Claimed: a compiled pattern's answer is the named
/// result; for the account pattern `^[a-zA-Z0-9]+$` (anchored at both ends
/// of the text, one or more characters of the ASCII class) compilation
/// succeeds and the answer is whether `text` is a non-empty run of ASCII
/// letters and digits, as the crate's syntax documentation defines it.
#[verifier::external_body]
fn regex_is_match(pattern: &str, text: &str) -> (r: Result<bool, regex::Error>)
    ensures
        r matches Ok(b) ==> b == regex_finds_match(pattern@, text@),
        r is Err ==> pattern@ != account_pattern(),
        r matches Ok(b) ==> (pattern@ == account_pattern() ==> b == valid_account(text@)),
{
    match regex::Regex::new(pattern) {
        Ok(re) => Ok(re.is_match(text)),
        Err(e) => Err(e),
    }
}

/// An account row of the `creater` table.
pub struct Signup {
    pub id: Option<i32>,
    pub account: String,
    pub mail_address: String,
    pub password: String,
}

/// The fields of the sign-up form.
pub struct SignupForm {
    pub account: String,
    pub mail_address: String,
    pub password: String,
}

impl SignupForm {
    /// Whether the account name is made of ASCII letters and digits only
    /// (and is not empty).
    pub fn check_account(&self) -> (r: bool)
        ensures
            r == valid_account(self.account@),
    {
        let pattern = "^[a-zA-Z0-9]+$";
        match regex_is_match(pattern, self.account.as_str()) {
            Ok(b) => b,
            Err(_) => false,
        }
    }

    /// The row to store for this form: no id yet, the account and mail
    /// address as given, and the bcrypt hash of the trimmed password.
    pub fn signup_record(self) -> (r: Result<Signup, PasswordError>)
        ensures
            r matches Ok(s) ==> {
                &&& s.id is None
                &&& s.account@ == self.account@
                &&& s.mail_address@ == self.mail_address@
                &&& registered_hash(self.password@, s.password@)
            },
            r matches Err(e) ==> e == PasswordError::HashFailed,
    {
        let trimmed_password = trim(self.password.as_str());
        match hash_password(trimmed_password) {
            Ok(h) => Ok(Signup { id: None, account: self.account, mail_address: self.mail_address, password: h }),
            Err(e) => Err(e),
        }
    }
}

/// The outcome of a sign-up form: whether the account is to be created, and
/// the flash redirect to answer with. An invalid account name is refused
/// first; a valid one is created when no stored account has the same name or
/// mail address (`duplicate_rows` counts those rows).
pub fn signup_reply(account_valid: bool, duplicate_rows: usize) -> (r: (bool, FlashRedirect))
    ensures
        r.0 == (account_valid && duplicate_rows == 0),
        !account_valid ==> {
            &&& r.1.kind == FlashKind::Error
            &&& r.1.target@ == "/signup"@
            &&& r.1.message@ == "アカウントは半角英数字で入力してください。"@
        },
        account_valid && duplicate_rows == 0 ==> {
            &&& r.1.kind == FlashKind::Success
            &&& r.1.target@ == "/creater/account/new"@
            &&& r.1.message@ == ""@
        },
        account_valid && duplicate_rows != 0 ==> {
            &&& r.1.kind == FlashKind::Error
            &&& r.1.target@ == "/signup"@
            &&& r.1.message@ == "そのアカウントは存在しています。"@
        },
{
    if !account_valid {
        (false, flash(FlashKind::Error, "/signup", "アカウントは半角英数字で入力してください。"))
    } else if duplicate_rows == 0 {
        (true, flash(FlashKind::Success, "/creater/account/new", ""))
    } else {
        (false, flash(FlashKind::Error, "/signup", "そのアカウントは存在しています。"))
    }
}

/// The account rule is a rule on single characters: the empty name is
/// refused, a one-character name is accepted exactly when that character is
/// an ASCII letter or digit, and a name made of two non-empty parts is
/// accepted exactly when both parts are (so no length limit applies).
pub proof fn account_rule_is_per_character(a: Seq<char>, b: Seq<char>, c: char)
    ensures
        !valid_account(Seq::<char>::empty()),
        valid_account(seq![c]) <==> (('a' <= c && c <= 'z') || ('A' <= c && c <= 'Z') || ('0' <= c
            && c <= '9')),
        a.len() > 0 && b.len() > 0 ==> (valid_account(a + b) <==> (valid_account(a)
            && valid_account(b))),
{
    let s = seq![c];
    assert(s[0] == c);
    if a.len() > 0 && b.len() > 0 {
        let ab = a + b;
        if valid_account(ab) {
            assert forall|i: int| 0 <= i < a.len() implies is_ascii_alphanumeric(a[i]) by {
                assert(ab[i] == a[i]);
            }
            assert forall|i: int| 0 <= i < b.len() implies is_ascii_alphanumeric(b[i]) by {
                assert(ab[a.len() + i] == b[i]);
            }
        }
        if valid_account(a) && valid_account(b) {
            assert forall|i: int| 0 <= i < ab.len() implies is_ascii_alphanumeric(ab[i]) by {
                if i < a.len() {
                    assert(ab[i] == a[i]);
                } else {
                    assert(ab[i] == b[i - a.len()]);
                }
            }
        }
    }
}

} // verus!
