//! What a request handler answers: a flash message with a redirect, or the
//! reply to a multipart upload.

use vstd::prelude::*;
use vstd::string::*;
use crate::text::concatenate;

verus! {

/// Whether a flash message reports success or an error.
#[derive(PartialEq, Eq, Structural, Clone, Copy, Debug)]
pub enum FlashKind {
    Success,
    Error,
}

/// A redirect to `target` that carries a one-time flash `message`.
pub struct FlashRedirect {
    pub kind: FlashKind,
    pub target: String,
    pub message: String,
}

/// The answer to a multipart upload request.
pub enum UploadReply {
    /// The upload was stored; the browser is sent to this path.
    Redirect(String),
    /// `400 Bad Request` with this body.
    BadRequest(String),
    /// `500 Internal Server Error` with this body.
    ServerError(String),
}

/// The path of an account's page.
pub open spec fn account_page_path(account: Seq<char>) -> Seq<char> {
    "/creater/account/"@ + account
}

/// The path of the page of `account`.
pub fn account_page(account: &str) -> (r: String)
    ensures
        r@ == account_page_path(account@),
{
    concatenate("/creater/account/", account)
}

/// Builds a flash redirect.
pub fn flash(kind: FlashKind, target: &str, message: &str) -> (r: FlashRedirect)
    ensures
        r.kind == kind,
        r.target@ == target@,
        r.message@ == message@,
{
    FlashRedirect { kind, target: String::from_str(target), message: String::from_str(message) }
}

/// The value of the first `boundary` parameter of a `Content-Type`, given as
/// its list of `(name, value)` parameters.
pub fn find_boundary(params: &Vec<(String, String)>) -> (r: Option<String>)
    ensures
        r is None <==> forall|i: int| 0 <= i < params@.len() ==> params@[i].0@ != "boundary"@,
        r matches Some(v) ==> exists|i: int|
            0 <= i < params@.len() && params@[i].0@ == "boundary"@ && v@ == params@[i].1@ && (forall|
                k: int,
            | 0 <= k < i ==> params@[k].0@ != "boundary"@),
{
    let key = String::from_str("boundary");
    let mut i: usize = 0;
    while i < params.len()
        invariant
            i <= params@.len(),
            key@ == "boundary"@,
            forall|k: int| 0 <= k < i ==> params@[k].0@ != "boundary"@,
        decreases params@.len() - i,
    {
        if params[i].0 == key {
            return Some(params[i].1.clone());
        }
        i = i + 1;
    }
    None
}

/// The answer when the `Content-Type` of an upload names no boundary.
pub fn missing_boundary_reply() -> (r: UploadReply)
    ensures
        r matches UploadReply::BadRequest(m) && m@
            == "`Content-Type: multipart/form-data` boundary param not provided"@,
{
    UploadReply::BadRequest(
        String::from_str("`Content-Type: multipart/form-data` boundary param not provided"),
    )
}

/// The answer once an upload was processed: a redirect to the uploader's
/// page, or `500` with the error's text.
pub fn upload_reply(outcome: Result<(), String>, account: Option<String>) -> (r: UploadReply)
    requires
        outcome is Ok ==> account is Some,
    ensures
        outcome is Ok ==> (r matches UploadReply::Redirect(p) && p@ == account_page_path(
            account->Some_0@,
        )),
        outcome matches Err(e) ==> (r matches UploadReply::ServerError(m) && m@ == e@),
{
    match outcome {
        Ok(()) => {
            let account = account.unwrap();
            UploadReply::Redirect(account_page(account.as_str()))
        },
        Err(e) => UploadReply::ServerError(e),
    }
}

/// An account's page path is `/creater/account/` followed by the whole
/// account name, so two different accounts never share a page.
pub proof fn account_page_path_holds_whole_name(a: Seq<char>, b: Seq<char>)
    ensures
        account_page_path(a).len() == 17 + a.len(),
        account_page_path(a).take(17) == "/creater/account/"@,
        account_page_path(a).skip(17) == a,
        account_page_path(a) == account_page_path(b) ==> a == b,
{
    reveal_strlit("/creater/account/");
    let pa = account_page_path(a);
    let pb = account_page_path(b);
    assert(pa.take(17) =~= "/creater/account/"@);
    assert(pa.skip(17) =~= a);
    assert(pb.skip(17) =~= b);
}

} // verus!
