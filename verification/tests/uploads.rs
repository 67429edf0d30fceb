use creaters::creater_setting::{profile_form, Profile};
use creaters::image::{PostImg as ImagePost, PostImgForm as ImageForm};
use creaters::news_posts::{created_day, gather_post_values, post_filter, post_form, PostImg};
use creaters::saved::SavedValue;

fn text(s: &str) -> SavedValue {
    SavedValue::Text(s.to_string())
}

fn file(p: &str) -> SavedValue {
    SavedValue::File(p.to_string())
}

#[test]
fn profile_form_from_all_fields() {
    let f = profile_form(&text("Alice"), &text("hello"), &file("static/profile_imgs/k1")).unwrap();
    assert_eq!(f.name, "Alice");
    assert_eq!(f.profile_text, "hello");
    assert_eq!(f.profile_img, "profile_imgs/k1.png");
    let p = Profile::from_form(f, "alice".to_string());
    assert_eq!(p.id, None);
    assert_eq!(p.account, "alice");
    assert_eq!(p.profile_img, "profile_imgs/k1.png");
    assert!(!p.regulation);
}

#[test]
fn profile_form_needs_every_field() {
    assert!(profile_form(&text("Alice"), &text("hello"), &text("not a file")).is_none());
    assert!(profile_form(&SavedValue::Bytes(vec![1]), &text("hello"), &file("static/a")).is_none());
    assert!(profile_form(&text("Alice"), &file("static/b"), &file("static/a")).is_none());
}

#[test]
fn post_form_from_all_fields() {
    let files = Some(vec![file("static/post_image/a"), text("x"), file("static/post_image/c")]);
    let f = post_form(&Some(text("T")), &Some(text("B")), &text("1"), &files).unwrap();
    assert_eq!(f.title, "T");
    assert_eq!(f.body, "B");
    assert_eq!(f.adult_check, "1");
    assert_eq!(f.img_url_1, "post_image/a.png");
    assert_eq!(f.img_url_2, "");
    assert_eq!(f.img_url_3, "post_image/c.png");
    assert_eq!(f.img_url_4, "");
}

#[test]
fn missing_title_and_body_are_empty() {
    let f = post_form(&None, &None, &text("0"), &Some(vec![])).unwrap();
    assert_eq!(f.title, "");
    assert_eq!(f.body, "");
    assert_eq!(f.adult_check, "0");
    assert_eq!(f.img_url_1, "");
}

#[test]
fn values_shift_when_a_field_is_not_text() {
    let v = gather_post_values(&Some(SavedValue::Bytes(vec![0])), &Some(text("B")), &text("0"), &Some(vec![]));
    assert_eq!(v, vec!["B".to_string(), "0".to_string(), "".to_string(), "".to_string(), "".to_string(), "".to_string()]);
    assert!(post_form(&Some(SavedValue::Bytes(vec![0])), &Some(text("B")), &text("0"), &Some(vec![])).is_none());
}

#[test]
fn no_file_field_means_no_form() {
    let v = gather_post_values(&Some(text("T")), &Some(text("B")), &text("0"), &None);
    assert_eq!(v.len(), 3);
    assert!(post_form(&Some(text("T")), &Some(text("B")), &text("0"), &None).is_none());
}

#[test]
fn only_four_files_are_kept() {
    let files = Some(vec![file("static/1"), file("static/2"), file("static/3"), file("static/4"), file("static/5")]);
    let v = gather_post_values(&None, &None, &text("0"), &files);
    assert_eq!(v.len(), 7);
    assert_eq!(v[6], "4.png");
}

#[test]
fn new_post_row() {
    let f = post_form(&Some(text("T")), &None, &text("0"), &Some(vec![file("static/x")])).unwrap();
    let p = PostImg::new_post(f, "alice".to_string(), "Alice".to_string(), "now".to_string());
    assert_eq!(p.id, None);
    assert_eq!(p.account, "alice");
    assert_eq!(p.name, "Alice");
    assert_eq!(p.title, "T");
    assert_eq!(p.img_url_1, "x.png");
    assert_eq!(p.adult_check, "0");
    assert_eq!(p.created_day, "now");
}

#[test]
fn created_day_is_japan_time() {
    assert_eq!(created_day(0, 0), Some("1970-01-01T09:00:00+09:00".to_string()));
    assert_eq!(created_day(1_600_000_000, 500_000_000), Some("2020-09-13T21:26:40.500+09:00".to_string()));
    assert_eq!(created_day(0, 1_500_000_000), None);
    assert_eq!(created_day(i64::MAX, 0), None);
}

#[test]
fn adult_flag_zero_hides_adult_posts() {
    let f = post_filter(Some("alice".to_string()), "0");
    assert_eq!(f.account, Some("alice".to_string()));
    assert!(f.general_only);
    let g = post_filter(None, "1");
    assert_eq!(g.account, None);
    assert!(!g.general_only);
    assert!(!post_filter(None, "00").general_only);
}

#[test]
fn image_uploads() {
    let f = ImageForm::from_saved(&file("/static/post_image/q")).unwrap();
    assert_eq!(f.img_url_1, "static/post_image/q.png");
    assert!(ImageForm::from_saved(&text("x")).is_none());
    let p = ImagePost::from_form(f);
    assert_eq!(p.id, None);
    assert_eq!(p.account, "root");
    assert_eq!(p.img_url_1, "static/post_image/q.png");
    assert!(!p.regulation);
}
