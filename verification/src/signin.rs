//! Sign-in: checking a sign-in form against the stored password and the
//! redirect that answers it.

use vstd::prelude::*;
use crate::password::{check_password, credentials_outcome, PasswordError};
use crate::reply::{account_page, account_page_path, flash, FlashKind, FlashRedirect};

verus! {

/// The fields of the sign-in form.
pub struct SigninForm {
    pub account_flag: String,
    pub password_flag: String,
}

impl SigninForm {
    /// Whether the typed password matches `stored_password`, the password
    /// column of the account's row (empty when there is no such row).
    pub fn check(&self, stored_password: &str) -> (r: Result<bool, PasswordError>)
        ensures
            match credentials_outcome(self.password_flag@, stored_password@) {
                Some(b) => r == Ok::<bool, PasswordError>(b),
                None => r == Err::<bool, PasswordError>(PasswordError::MalformedHash),
            },
    {
        check_password(self.password_flag.as_str(), stored_password)
    }

    /// The redirect that answers the form: the account's page on success,
    /// the sign-in page with an error message otherwise.
    pub fn reply(&self, accepted: bool) -> (r: FlashRedirect)
        ensures
            accepted ==> {
                &&& r.kind == FlashKind::Success
                &&& r.target@ == account_page_path(self.account_flag@)
                &&& r.message@ == ""@
            },
            !accepted ==> {
                &&& r.kind == FlashKind::Error
                &&& r.target@ == "/login"@
                &&& r.message@ == "アカウントまたはパスワードが間違っています。"@
            },
    {
        if accepted {
            let target = account_page(self.account_flag.as_str());
            flash(FlashKind::Success, target.as_str(), "")
        } else {
            flash(FlashKind::Error, "/login", "アカウントまたはパスワードが間違っています。")
        }
    }
}

/// The redirect that answers a sign-out: the home page, with an empty
/// success message.
pub fn signout_reply() -> (r: FlashRedirect)
    ensures
        r.kind == FlashKind::Success,
        r.target@ == "/"@,
        r.message@ == ""@,
{
    flash(FlashKind::Success, "/", "")
}

} // verus!
