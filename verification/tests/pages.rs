use creaters::creater_setting::Profile;
use creaters::pages::{delete_reply, views_own_page, Context, LoginMsg, ProfileContext, UserCookies};
use creaters::reply::FlashKind;

fn profile(account: &str) -> Profile {
    Profile {
        id: Some(1),
        name: "N".to_string(),
        account: account.to_string(),
        profile_text: "t".to_string(),
        profile_img: "i".to_string(),
        regulation: false,
    }
}

#[test]
fn signed_in_visitors_get_the_licence() {
    assert!(UserCookies::for_viewer(&Some("a".to_string())).user_lisence);
    assert!(!UserCookies::for_viewer(&None).user_lisence);
}

#[test]
fn login_message_defaults_to_empty() {
    let m = LoginMsg::for_viewer(None, &None);
    assert_eq!(m.message, "");
    assert!(!m.user_lisence);
    let m = LoginMsg::for_viewer(Some("oops".to_string()), &Some("a".to_string()));
    assert_eq!(m.message, "oops");
    assert!(m.user_lisence);
}

#[test]
fn contexts() {
    let c = Context::row_image(vec![], vec![profile("a")]);
    assert!(!c.user_lisence);
    assert_eq!(c.profile.len(), 1);
    let c = c.seen_by(&Some("a".to_string()));
    assert!(c.user_lisence);
    assert!(Context::row(vec![], vec![]).user_lisence);
    assert!(!Context::account_row(vec![], vec![]).user_lisence);
    assert!(!Context::row_image(vec![], vec![]).seen_by(&None).user_lisence);
    let p = ProfileContext::row(&None, vec![profile("a"), profile("b")]);
    assert!(!p.user_lisence);
    assert_eq!(p.profile.len(), 2);
    assert!(ProfileContext::row(&Some("x".to_string()), vec![]).user_lisence);
}

#[test]
fn own_page_is_the_cookie_account() {
    assert!(views_own_page(&Some("alice".to_string()), "alice"));
    assert!(!views_own_page(&Some("alice".to_string()), "bob"));
    assert!(!views_own_page(&None, "alice"));
}

#[test]
fn delete_replies() {
    let r = delete_reply(true, Some("alice".to_string())).unwrap();
    assert_eq!(r.kind, FlashKind::Success);
    assert_eq!(r.target, "/creater/account/alice");
    assert_eq!(r.message, "Todo was deleted.");
    assert!(delete_reply(false, None).is_err());
}
