use creaters::reply::{account_page, find_boundary, missing_boundary_reply, upload_reply, FlashKind, UploadReply};
use creaters::saved::{rename_target, rooted_url_of, static_url_of};
use creaters::text::{concatenate, trim, trim_start_matches, white_space};

#[test]
fn trim_removes_surrounding_white_space() {
    assert_eq!(trim("  a b \t\n"), "a b");
    assert_eq!(trim("\u{3000}x\u{a0}"), "x");
    assert_eq!(trim(" \t "), "");
    assert_eq!(trim(""), "");
    assert_eq!(trim("abc"), "abc");
}

#[test]
fn white_space_follows_the_unicode_property() {
    assert!(white_space(' '));
    assert!(white_space('\u{2028}'));
    assert!(!white_space('a'));
    assert!(!white_space('\u{200b}'));
}

#[test]
fn trim_start_matches_strips_every_copy() {
    assert_eq!(trim_start_matches("static/static/x.png", "static/"), "x.png");
    assert_eq!(trim_start_matches("x/static/", "static/"), "x/static/");
    assert_eq!(trim_start_matches("//a/b", "/"), "a/b");
    assert_eq!(trim_start_matches("abc", ""), "abc");
    assert_eq!(trim_start_matches("stat", "static/"), "stat");
}

#[test]
fn concat_joins() {
    assert_eq!(concatenate("ab", "cd"), "abcd".to_string());
    assert_eq!(concatenate("", ""), "".to_string());
}

#[test]
fn account_page_is_under_creater_account() {
    assert_eq!(account_page("alice"), "/creater/account/alice".to_string());
}

#[test]
fn boundary_is_the_first_boundary_parameter() {
    let params = vec![
        ("charset".to_string(), "utf-8".to_string()),
        ("boundary".to_string(), "XyZ".to_string()),
        ("boundary".to_string(), "second".to_string()),
    ];
    assert_eq!(find_boundary(&params), Some("XyZ".to_string()));
    let none = vec![("Boundary".to_string(), "a".to_string())];
    assert_eq!(find_boundary(&none), None);
    assert_eq!(find_boundary(&vec![]), None);
}

#[test]
fn upload_replies() {
    match missing_boundary_reply() {
        UploadReply::BadRequest(m) => {
            assert_eq!(m, "`Content-Type: multipart/form-data` boundary param not provided")
        }
        _ => panic!("expected a bad request"),
    }
    match upload_reply(Ok(()), Some("bob".to_string())) {
        UploadReply::Redirect(p) => assert_eq!(p, "/creater/account/bob"),
        _ => panic!("expected a redirect"),
    }
    match upload_reply(Err("disk full".to_string()), None) {
        UploadReply::ServerError(m) => assert_eq!(m, "disk full"),
        _ => panic!("expected a server error"),
    }
    let _ = FlashKind::Success;
}

#[test]
fn upload_paths() {
    assert_eq!(rename_target("static/post_image/abc"), "static/post_image/abc.png".to_string());
    assert_eq!(rename_target(" static/p/abc"), "static/p/abc.png".to_string());
    assert_eq!(static_url_of("static/post_image/abc"), "post_image/abc.png".to_string());
    assert_eq!(static_url_of("other/abc"), "other/abc.png".to_string());
    assert_eq!(rooted_url_of("/tmp/abc"), "tmp/abc.png".to_string());
}

#[test]
fn stored_url_names_renamed_file_example() {
    let path = "static/post_image/Ab12";
    let url = static_url_of(path);
    assert_eq!(format!("static/{}", url), rename_target(path));
}

#[test]
fn stored_url_misses_file_with_leading_space() {
    let path = " static/post_image/Ab12";
    let url = static_url_of(path);
    assert_ne!(format!("static/{}", url), rename_target(path));
}
