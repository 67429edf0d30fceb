//! Creator profiles: the fields of the profile form, as a multipart upload
//! saves them, and the profile row stored for an account.

use vstd::prelude::*;
use crate::saved::{static_url, static_url_of, SavedValue};
use crate::text::strip_all_prefixes;

verus! {

/// A row of the `profile` table.
pub struct Profile {
    pub id: Option<i32>,
    pub name: String,
    pub account: String,
    pub profile_text: String,
    pub profile_img: String,
    pub regulation: bool,
}

/// The fields of the profile form.
pub struct ProfileForm {
    pub name: String,
    pub profile_text: String,
    pub profile_img: String,
}

/// The values gathered from the saved `profile_img`, `name` and
/// `profile_text` fields, in that order: the image's address when it was
/// saved to a file, then each of the two texts when it is text.
pub open spec fn profile_values(name: SavedValue, profile_text: SavedValue, profile_img: SavedValue) -> Seq<
    Seq<char>,
> {
    let img = match profile_img.file_path() {
        Some(p) => seq![static_url(p)],
        None => Seq::empty(),
    };
    let n = match name.text() {
        Some(t) => seq![t],
        None => Seq::empty(),
    };
    let t = match profile_text.text() {
        Some(t) => seq![t],
        None => Seq::empty(),
    };
    img + n + t
}

/// The profile form carried by the saved fields of an upload. The form is
/// made only when all three values were gathered: the image saved to a file
/// and the name and the text as text.
pub fn profile_form(name: &SavedValue, profile_text: &SavedValue, profile_img: &SavedValue) -> (r:
    Option<ProfileForm>)
    ensures
        r is Some <==> profile_values(*name, *profile_text, *profile_img).len() >= 3,
        r is Some <==> (profile_img.file_path() is Some && name.text() is Some
            && profile_text.text() is Some),
        r matches Some(f) ==> {
            let v = profile_values(*name, *profile_text, *profile_img);
            &&& f.profile_img@ == v[0]
            &&& f.name@ == v[1]
            &&& f.profile_text@ == v[2]
        },
{
    let mut tmp: Vec<String> = Vec::new();
    if let SavedValue::File(path) = profile_img {
        tmp.push(static_url_of(path.as_str()));
    }
    if let SavedValue::Text(name_string) = name {
        tmp.push(name_string.clone());
    }
    if let SavedValue::Text(profile_string) = profile_text {
        tmp.push(profile_string.clone());
    }
    let ghost v = profile_values(*name, *profile_text, *profile_img);
    assert(tmp@.len() == v.len());
    assert(forall|i: int| 0 <= i < v.len() ==> #[trigger] tmp@[i]@ == v[i]);
    if tmp.len() < 3 {
        return None;
    }
    Some(
        ProfileForm {
            profile_img: tmp[0].clone(),
            name: tmp[1].clone(),
            profile_text: tmp[2].clone(),
        },
    )
}

impl Profile {
    /// The row stored for a submitted profile form of `account`: no id yet,
    /// not under regulation.
    pub fn from_form(form: ProfileForm, account: String) -> (r: Profile)
        ensures
            r.id is None,
            r.account@ == account@,
            r.name@ == form.name@,
            r.profile_text@ == form.profile_text@,
            r.profile_img@ == form.profile_img@,
            !r.regulation,
    {
        Profile {
            id: None,
            account,
            name: form.name,
            profile_text: form.profile_text,
            profile_img: form.profile_img,
            regulation: false,
        }
    }
}

/// When the image was saved to a file and the name and the text are text,
/// the gathered values are exactly the image's address under the static
/// directory, the whole name and the whole profile text.
pub proof fn profile_values_are_the_fields(
    name: SavedValue,
    profile_text: SavedValue,
    profile_img: SavedValue,
)
    ensures
        profile_img matches SavedValue::File(p) ==> name matches SavedValue::Text(n)
            ==> profile_text matches SavedValue::Text(t) ==> profile_values(
            name,
            profile_text,
            profile_img,
        ) == seq![strip_all_prefixes(p@ + ".png"@, "static/"@), n@, t@],
{
    if let SavedValue::File(p) = profile_img {
        if let SavedValue::Text(n) = name {
            if let SavedValue::Text(t) = profile_text {
                assert(profile_values(name, profile_text, profile_img) =~= seq![
                    strip_all_prefixes(p@ + ".png"@, "static/"@),
                    n@,
                    t@,
                ]);
            }
        }
    }
}

} // verus!
