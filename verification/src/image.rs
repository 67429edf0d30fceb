//! The plain image uploader: one file per upload, stored for the `root`
//! account.

use vstd::prelude::*;
use vstd::string::*;
use crate::saved::{rooted_url, rooted_url_of, SavedValue};

verus! {

/// A row of the image uploader's `post_img` table.
pub struct PostImg {
    pub id: Option<i32>,
    pub account: String,
    pub img_url_1: String,
    pub regulation: bool,
}

/// The field of the image upload form.
pub struct PostImgForm {
    pub img_url_1: String,
}

impl PostImgForm {
    /// The form carried by the saved `file` field: made when the field was
    /// saved to a file, with the address of its renamed `.png`.
    pub fn from_saved(file: &SavedValue) -> (r: Option<PostImgForm>)
        ensures
            r is Some <==> file.file_path() is Some,
            r matches Some(f) ==> f.img_url_1@ == rooted_url(file.file_path()->Some_0),
    {
        match file {
            SavedValue::File(path) => Some(PostImgForm { img_url_1: rooted_url_of(path.as_str()) }),
            _ => None,
        }
    }
}

impl PostImg {
    /// The row stored for an uploaded image: no id yet, owned by `root`, not
    /// under regulation.
    pub fn from_form(form: PostImgForm) -> (r: PostImg)
        ensures
            r.id is None,
            r.account@ == "root"@,
            r.img_url_1@ == form.img_url_1@,
            !r.regulation,
    {
        PostImg { id: None, account: String::from_str("root"), img_url_1: form.img_url_1, regulation: false }
    }
}

} // verus!
