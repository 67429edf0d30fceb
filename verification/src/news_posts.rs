//! Posts: the fields of the posting form, as a multipart upload saves them,
//! the row stored for a post, its creation time in Japan time, and which
//! posts a listing shows.

use vstd::prelude::*;
use vstd::string::*;
use crate::saved::{static_url, static_url_of, SavedValue};
use crate::text::strip_all_prefixes;

verus! {

/// A row of the `post_img` table.
pub struct PostImg {
    pub id: Option<i32>,
    pub account: String,
    pub name: String,
    pub title: String,
    pub body: String,
    pub img_url_1: String,
    pub img_url_2: String,
    pub img_url_3: String,
    pub img_url_4: String,
    pub adult_check: String,
    pub created_day: String,
}

/// The fields of the posting form.
pub struct PostImgForm {
    pub title: String,
    pub body: String,
    pub img_url_1: String,
    pub img_url_2: String,
    pub img_url_3: String,
    pub img_url_4: String,
    pub adult_check: String,
}

/// The views of a sequence of strings.
pub open spec fn string_views(v: Seq<String>) -> Seq<Seq<char>> {
    v.map_values(|s: String| s@)
}

/// The value gathered from an optional text field: its text, nothing when it
/// holds something else, and an empty text when the field is missing.
pub open spec fn optional_text_values(field: Option<SavedValue>) -> Seq<Seq<char>> {
    match field {
        None => seq![Seq::<char>::empty()],
        Some(v) => match v.text() {
            Some(t) => seq![t],
            None => Seq::empty(),
        },
    }
}

/// The value gathered from a required text field: its text, or nothing.
pub open spec fn text_values(field: SavedValue) -> Seq<Seq<char>> {
    match field.text() {
        Some(t) => seq![t],
        None => Seq::empty(),
    }
}

/// The value gathered for image slot `i`: the address of the `i`-th uploaded
/// file when it was saved to a file, an empty text otherwise.
pub open spec fn file_slot_value(files: Seq<SavedValue>, i: int) -> Seq<char> {
    if i < files.len() {
        match files[i].file_path() {
            Some(p) => static_url(p),
            None => Seq::empty(),
        }
    } else {
        Seq::empty()
    }
}

/// The values gathered for the four image slots; nothing at all when the
/// form has no file field.
pub open spec fn file_values(files: Option<Seq<SavedValue>>) -> Seq<Seq<char>> {
    match files {
        None => Seq::empty(),
        Some(fs) => seq![
            file_slot_value(fs, 0),
            file_slot_value(fs, 1),
            file_slot_value(fs, 2),
            file_slot_value(fs, 3),
        ],
    }
}

/// The values gathered from a posting, in order: title, body, the adult
/// flag, then the four image slots.
pub open spec fn post_values(
    title: Option<SavedValue>,
    body: Option<SavedValue>,
    adult_check: SavedValue,
    files: Option<Seq<SavedValue>>,
) -> Seq<Seq<char>> {
    optional_text_values(title) + optional_text_values(body) + text_values(adult_check)
        + file_values(files)
}

/// The files of an optional file field, as a sequence.
pub open spec fn file_seq(files: Option<Vec<SavedValue>>) -> Option<Seq<SavedValue>> {
    match files {
        Some(v) => Some(v@),
        None => None,
    }
}

/// Appends the value gathered from an optional text field.
fn push_optional_text(tmp: &mut Vec<String>, field: &Option<SavedValue>)
    ensures
        string_views(final(tmp)@) == string_views(old(tmp)@) + optional_text_values(*field),
{
    match field {
        Some(v) => {
            if let SavedValue::Text(t) = v {
                tmp.push(t.clone());
            }
        },
        None => {
            tmp.push(String::new());
        },
    }
    assert(string_views(tmp@) =~= string_views(old(tmp)@) + optional_text_values(*field));
}

/// The values gathered from the saved fields of a posting (`title`, `body`,
/// `customRadio` and the first four files of `file[]`).
pub fn gather_post_values(
    title: &Option<SavedValue>,
    body: &Option<SavedValue>,
    adult_check: &SavedValue,
    files: &Option<Vec<SavedValue>>,
) -> (r: Vec<String>)
    ensures
        string_views(r@) == post_values(*title, *body, *adult_check, file_seq(*files)),
{
    let mut tmp: Vec<String> = Vec::new();
    push_optional_text(&mut tmp, title);
    push_optional_text(&mut tmp, body);
    if let SavedValue::Text(flag) = adult_check {
        tmp.push(flag.clone());
    }
    assert(string_views(tmp@) =~= optional_text_values(*title) + optional_text_values(*body)
        + text_values(*adult_check));
    let ghost start = string_views(tmp@);
    let mut i: usize = 0;
    while i < 4
        invariant
            i <= 4,
            files is None ==> string_views(tmp@) == start,
            files matches Some(fs) ==> string_views(tmp@) == start + Seq::new(
                i as nat,
                |k: int| file_slot_value(fs@, k),
            ),
        decreases 4 - i,
    {
        if let Some(file_data) = files {
            let ghost before = tmp@;
            if i < file_data.len() {
                if let SavedValue::File(path) = &file_data[i] {
                    tmp.push(static_url_of(path.as_str()));
                } else {
                    tmp.push(String::new());
                }
            } else {
                tmp.push(String::new());
            }
            assert(tmp@ == before.push(tmp@.last()));
            assert(tmp@.last()@ == file_slot_value(file_data@, i as int));
            assert(string_views(tmp@) =~= string_views(before).push(tmp@.last()@));
            assert(string_views(tmp@) =~= start + Seq::new(
                (i + 1) as nat,
                |k: int| file_slot_value(file_data@, k),
            ));
        }
        i = i + 1;
    }
    proof {
        if let Some(fs) = files {
            assert(Seq::new(4, |k: int| file_slot_value(fs@, k)) =~= file_values(file_seq(*files)));
        } else {
            assert(start + file_values(file_seq(*files)) =~= start);
        }
    }
    tmp
}

/// The posting form carried by the saved fields: made when all seven values
/// were gathered, which they are when the title and body are text or
/// missing, the adult flag is text and the form has a file field.
pub fn post_form(
    title: &Option<SavedValue>,
    body: &Option<SavedValue>,
    adult_check: &SavedValue,
    files: &Option<Vec<SavedValue>>,
) -> (r: Option<PostImgForm>)
    ensures
        ({
            let v = post_values(*title, *body, *adult_check, file_seq(*files));
            &&& (r is Some <==> v.len() >= 7)
            &&& (r matches Some(f) ==> {
                &&& f.title@ == v[0]
                &&& f.body@ == v[1]
                &&& f.adult_check@ == v[2]
                &&& f.img_url_1@ == v[3]
                &&& f.img_url_2@ == v[4]
                &&& f.img_url_3@ == v[5]
                &&& f.img_url_4@ == v[6]
            })
        }),
{
    let tmp = gather_post_values(title, body, adult_check, files);
    let ghost v = post_values(*title, *body, *adult_check, file_seq(*files));
    assert(tmp@.len() == v.len()) by {
        assert(string_views(tmp@).len() == tmp@.len());
    }
    if tmp.len() < 7 {
        return None;
    }
    assert(forall|i: int| 0 <= i < 7 ==> #[trigger] tmp@[i]@ == v[i]) by {
        assert forall|i: int| 0 <= i < 7 implies #[trigger] tmp@[i]@ == v[i] by {
            assert(string_views(tmp@)[i] == tmp@[i]@);
        }
    }
    Some(
        PostImgForm {
            title: tmp[0].clone(),
            body: tmp[1].clone(),
            adult_check: tmp[2].clone(),
            img_url_1: tmp[3].clone(),
            img_url_2: tmp[4].clone(),
            img_url_3: tmp[5].clone(),
            img_url_4: tmp[6].clone(),
        },
    )
}

impl PostImg {
    /// The row stored for a submitted posting of `account`, whose profile
    /// name is `name`, made at `created_day`: no id yet.
    pub fn new_post(form: PostImgForm, account: String, name: String, created_day: String) -> (r:
        PostImg)
        ensures
            r.id is None,
            r.account@ == account@,
            r.name@ == name@,
            r.title@ == form.title@,
            r.body@ == form.body@,
            r.img_url_1@ == form.img_url_1@,
            r.img_url_2@ == form.img_url_2@,
            r.img_url_3@ == form.img_url_3@,
            r.img_url_4@ == form.img_url_4@,
            r.adult_check@ == form.adult_check@,
            r.created_day@ == created_day@,
    {
        PostImg {
            id: None,
            account,
            name,
            title: form.title,
            body: form.body,
            img_url_1: form.img_url_1,
            img_url_2: form.img_url_2,
            img_url_3: form.img_url_3,
            img_url_4: form.img_url_4,
            adult_check: form.adult_check,
            created_day,
        }
    }
}

/// The RFC 3339 text of the instant `secs` seconds and `nanos` nanoseconds
/// after the Unix epoch, in the `Japan` time zone of the tz database.
pub uninterp spec fn japan_rfc3339(secs: int, nanos: int) -> Seq<char>;

/// An instant that `chrono` can represent: within about 253,000 years of the
/// epoch, with a nanosecond part below one second (or below two seconds in
/// the last second of a minute, for a leap second).
pub open spec fn valid_instant(secs: int, nanos: int) -> bool {
    &&& -8_000_000_000_000 <= secs <= 8_000_000_000_000
    &&& (nanos < 1_000_000_000 || (nanos < 2_000_000_000 && secs % 60 == 59))
}

/// Makes the instant with `chrono::DateTime::<Utc>::from_timestamp`, moves
/// it to `chrono_tz::Tz::Japan` with `DateTime::with_timezone` and formats it
/// with `DateTime::to_rfc3339`. Claimed: the text is the named result, and
/// every instant within the stated range is accepted (`from_timestamp`
/// refuses only days outside `i32` or the representable years, seconds of
/// the day from 86,400 on, and nanoseconds that are not a valid fraction).
#[verifier::external_body]
fn japan_time_text(secs: i64, nanos: u32) -> (r: Option<String>)
    ensures
        r matches Some(t) ==> t@ == japan_rfc3339(secs as int, nanos as int),
        r is None ==> !valid_instant(secs as int, nanos as int),
{
    match chrono::DateTime::<chrono::Utc>::from_timestamp(secs, nanos) {
        Some(t) => Some(t.with_timezone(&chrono_tz::Tz::Japan).to_rfc3339()),
        None => None,
    }
}

/// The creation time stored with a post made at the given instant: its RFC
/// 3339 text in Japan time; `None` when `chrono` cannot represent the
/// instant.
pub fn created_day(secs: i64, nanos: u32) -> (r: Option<String>)
    ensures
        valid_instant(secs as int, nanos as int) ==> r is Some,
        r matches Some(t) ==> t@ == japan_rfc3339(secs as int, nanos as int),
{
    japan_time_text(secs, nanos)
}

/// Which posts a listing shows: those of one account or of all, and, for a
/// viewer who does not see adult posts, only the general ones.
pub struct PostFilter {
    pub account: Option<String>,
    pub general_only: bool,
}

impl PostFilter {
    /// Whether the listing shows `post`.
    pub open spec fn admits(self, post: PostImg) -> bool {
        &&& (self.account matches Some(a) ==> post.account@ == a@)
        &&& (self.general_only ==> post.adult_check@ == "0"@)
    }
}

/// The filter of a listing for `account` (or for all accounts) and the
/// viewer's adult flag: the flag `"0"` hides every post not marked `"0"`.
pub fn post_filter(account: Option<String>, adult_check: &str) -> (r: PostFilter)
    ensures
        r.account == account,
        r.general_only == (adult_check@ == "0"@),
        adult_check@ == "0"@ ==> forall|p: PostImg| p.adult_check@ != "0"@ ==> !#[trigger] r.admits(p),
        adult_check@ != "0"@ ==> forall|p: PostImg|
            (account matches Some(a) ==> p.account@ == a@) ==> #[trigger] r.admits(p),
{
    let flag = String::from_str(adult_check);
    let general = String::from_str("0");
    PostFilter { account, general_only: flag == general }
}

/// When the title and body are text or missing, the adult flag is text and
/// the form has a file field, seven values are gathered: the whole title
/// (empty when missing), the whole body (likewise), the whole flag, and for
/// each of the four image slots the static address of that slot's own file,
/// or an empty text when that entry is not a saved file or is absent.
pub proof fn post_values_fill_each_slot(
    title: Option<SavedValue>,
    body: Option<SavedValue>,
    adult_check: SavedValue,
    files: Seq<SavedValue>,
)
    requires
        title is None || title->Some_0 is Text,
        body is None || body->Some_0 is Text,
        adult_check is Text,
    ensures
        ({
            let v = post_values(title, body, adult_check, Some(files));
            &&& v.len() == 7
            &&& title is None ==> v[0] == Seq::<char>::empty()
            &&& title matches Some(SavedValue::Text(t)) ==> v[0] == t@
            &&& body is None ==> v[1] == Seq::<char>::empty()
            &&& body matches Some(SavedValue::Text(b)) ==> v[1] == b@
            &&& adult_check matches SavedValue::Text(a) ==> v[2] == a@
            &&& forall|k: int|
                0 <= k < 4 ==> #[trigger] v[3 + k] == (if k < files.len() && files[k] is File {
                    strip_all_prefixes(files[k]->File_0@ + ".png"@, "static/"@)
                } else {
                    Seq::<char>::empty()
                })
        }),
{
    let v = post_values(title, body, adult_check, Some(files));
    let head = optional_text_values(title) + optional_text_values(body) + text_values(adult_check);
    assert(head.len() == 3);
    assert(v == head + file_values(Some(files)));
    assert forall|k: int|
        0 <= k < 4 implies #[trigger] v[3 + k] == (if k < files.len() && files[k] is File {
            strip_all_prefixes(files[k]->File_0@ + ".png"@, "static/"@)
        } else {
            Seq::<char>::empty()
        }) by {
        assert(v[3 + k] == file_values(Some(files))[k]);
        assert(file_values(Some(files))[k] == file_slot_value(files, k));
    }
}

/// A field that is present but not text contributes no value, so the later
/// values move up by one: a non-text title (or body) gathers what a text
/// title (or body) would, less that one value; a non-text adult flag drops
/// the flag's value; and a form without a file field gathers no image slots.
pub proof fn non_text_fields_gather_nothing(
    x: SavedValue,
    s: String,
    title: Option<SavedValue>,
    body: Option<SavedValue>,
    adult_check: SavedValue,
    files: Option<Seq<SavedValue>>,
    fs: Seq<SavedValue>,
)
    requires
        !(x is Text),
        title is None || title->Some_0 is Text,
    ensures
        post_values(Some(x), body, adult_check, files) == post_values(
            Some(SavedValue::Text(s)),
            body,
            adult_check,
            files,
        ).drop_first(),
        post_values(title, Some(x), adult_check, files) == post_values(
            title,
            Some(SavedValue::Text(s)),
            adult_check,
            files,
        ).remove(1),
        ({
            let with_text = post_values(title, body, SavedValue::Text(s), files);
            let k = optional_text_values(title).len() + optional_text_values(body).len();
            post_values(title, body, x, files) == with_text.remove(k as int)
        }),
        post_values(title, body, adult_check, None) == post_values(
            title,
            body,
            adult_check,
            Some(fs),
        ).take(post_values(title, body, adult_check, Some(fs)).len() - 4),
{
    let ob = optional_text_values(body);
    let ta = text_values(adult_check);
    let fv = file_values(files);
    assert(post_values(Some(x), body, adult_check, files) =~= ob + ta + fv);
    assert(post_values(Some(SavedValue::Text(s)), body, adult_check, files) =~= seq![s@] + ob + ta
        + fv);
    assert((seq![s@] + ob + ta + fv).drop_first() =~= ob + ta + fv);
    let ot = optional_text_values(title);
    assert(ot.len() == 1);
    assert(post_values(title, Some(x), adult_check, files) =~= ot + ta + fv);
    assert((ot + seq![s@] + ta + fv).remove(1) =~= ot + ta + fv);
    assert(post_values(title, Some(SavedValue::Text(s)), adult_check, files) =~= ot + seq![s@]
        + ta + fv);
    let k = ot.len() + ob.len();
    assert(post_values(title, body, x, files) =~= ot + ob + fv);
    assert(post_values(title, body, SavedValue::Text(s), files) =~= ot + ob + seq![s@] + fv);
    assert((ot + ob + seq![s@] + fv).remove(k as int) =~= ot + ob + fv);
    let head = ot + ob + ta;
    assert(post_values(title, body, adult_check, None) =~= head);
    assert(post_values(title, body, adult_check, Some(fs)) =~= head + file_values(Some(fs)));
    assert((head + file_values(Some(fs))).take(head.len() as int) =~= head);
}

} // verus!
