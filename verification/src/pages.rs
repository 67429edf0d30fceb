//! The contexts that the site's pages are rendered with, and the decisions
//! each page takes from the visitor's `account` cookie.

use vstd::prelude::*;
use vstd::string::*;
use crate::creater_setting::Profile;
use crate::news_posts::PostImg;
use crate::reply::{account_page, account_page_path, flash, FlashKind, FlashRedirect};

verus! {

/// The context of the plain pages: whether the visitor is signed in.
pub struct UserCookies {
    pub user_lisence: bool,
}

impl UserCookies {
    /// The context for a visitor whose `account` cookie is `account_cookie`.
    pub fn for_viewer(account_cookie: &Option<String>) -> (r: UserCookies)
        ensures
            r.user_lisence == account_cookie is Some,
    {
        UserCookies { user_lisence: account_cookie.is_some() }
    }
}

/// The context of the sign-in page: whether the visitor is signed in and the
/// flash message to show.
pub struct LoginMsg {
    pub user_lisence: bool,
    pub message: String,
}

impl LoginMsg {
    /// The context for a visitor with the given flash message (if any) and
    /// `account` cookie; without a flash message the message is empty.
    pub fn for_viewer(flash_message: Option<String>, account_cookie: &Option<String>) -> (r: LoginMsg)
        ensures
            r.user_lisence == account_cookie is Some,
            r.message@ == (match flash_message {
                Some(m) => m@,
                None => ""@,
            }),
    {
        let message = match flash_message {
            Some(m) => m,
            None => String::from_str(""),
        };
        LoginMsg { user_lisence: account_cookie.is_some(), message }
    }
}

/// The context of the pages that list posts and profiles; `user_lisence`
/// tells whether the visitor owns the page (or, on the shared listings,
/// is signed in).
pub struct Context {
    pub post_img: Vec<PostImg>,
    pub profile: Vec<Profile>,
    pub user_lisence: bool,
}

impl Context {
    /// The shared listing of posts and profiles, as seen by an anonymous
    /// visitor.
    pub fn row_image(post_img: Vec<PostImg>, profile: Vec<Profile>) -> (r: Context)
        ensures
            r.post_img@ == post_img@,
            r.profile@ == profile@,
            !r.user_lisence,
    {
        Context { post_img, profile, user_lisence: false }
    }

    /// The signed-in visitor's own page, with their posts and profile.
    pub fn row(post_img: Vec<PostImg>, profile: Vec<Profile>) -> (r: Context)
        ensures
            r.post_img@ == post_img@,
            r.profile@ == profile@,
            r.user_lisence,
    {
        Context { post_img, profile, user_lisence: true }
    }

    /// Another account's page, with that account's posts and profile.
    pub fn account_row(post_img: Vec<PostImg>, profile: Vec<Profile>) -> (r: Context)
        ensures
            r.post_img@ == post_img@,
            r.profile@ == profile@,
            !r.user_lisence,
    {
        Context { post_img, profile, user_lisence: false }
    }

    /// The shared listing as seen by a visitor with `account_cookie`: a
    /// signed-in visitor gets `user_lisence`, the rest is unchanged.
    pub fn seen_by(self, account_cookie: &Option<String>) -> (r: Context)
        ensures
            r.post_img@ == self.post_img@,
            r.profile@ == self.profile@,
            r.user_lisence == (account_cookie is Some || self.user_lisence),
    {
        if account_cookie.is_some() {
            Context { user_lisence: true, ..self }
        } else {
            self
        }
    }
}

/// Whether a visitor with `account_cookie` looking at the page of `account`
/// is that account's owner.
pub fn views_own_page(account_cookie: &Option<String>, account: &str) -> (r: bool)
    ensures
        r == (account_cookie matches Some(c) && c@ == account@),
{
    match account_cookie {
        Some(c) => {
            let a = String::from_str(account);
            *c == a
        },
        None => false,
    }
}

/// The context of the list of creators.
pub struct ProfileContext {
    pub profile: Vec<Profile>,
    pub user_lisence: bool,
}

impl ProfileContext {
    /// The list of all profiles for a visitor with `account_cookie`.
    pub fn row(account_cookie: &Option<String>, profile: Vec<Profile>) -> (r: ProfileContext)
        ensures
            r.profile@ == profile@,
            r.user_lisence == account_cookie is Some,
    {
        if account_cookie.is_some() {
            ProfileContext { profile, user_lisence: true }
        } else {
            ProfileContext { profile, user_lisence: false }
        }
    }
}

/// The answer to deleting a post: back to the visitor's page when the row
/// was deleted, a failure otherwise.
pub fn delete_reply(deleted: bool, account: Option<String>) -> (r: Result<FlashRedirect, ()>)
    requires
        deleted ==> account is Some,
    ensures
        r is Ok <==> deleted,
        r matches Ok(f) ==> {
            &&& f.kind == FlashKind::Success
            &&& f.target@ == account_page_path(account->Some_0@)
            &&& f.message@ == "Todo was deleted."@
        },
{
    if deleted {
        let account = account.unwrap();
        let target = account_page(account.as_str());
        Ok(flash(FlashKind::Success, target.as_str(), "Todo was deleted."))
    } else {
        Err(())
    }
}

} // verus!
