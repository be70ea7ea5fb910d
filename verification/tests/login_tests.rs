use lastfm_edit::login::{
    extract_cookies_from_response, join_cookies, login_form_body, mask_password_in_form, LoginManager,
};
use lastfm_edit::types::LastFmError;

const LONG_SESSION: &str = "sessionid=.eJy1234567890abcdefghijklmnopqrstuvwxyzABCDEFGHIJKLMNOPQRSTUVWXYZ";

#[test]
fn set_cookie_headers_replace_cookies_of_the_same_name() {
    let mut cookies = vec!["csrftoken=old".to_string(), "other=1".to_string()];
    let headers = vec![
        "csrftoken=new; Path=/; Secure".to_string(),
        "sessionid=abc; HttpOnly".to_string(),
    ];
    extract_cookies_from_response(&headers, &mut cookies);
    assert_eq!(
        cookies,
        vec!["other=1".to_string(), "csrftoken=new".to_string(), "sessionid=abc".to_string()]
    );
    extract_cookies_from_response(&vec![], &mut cookies);
    assert_eq!(cookies.len(), 3);
}

#[test]
fn login_body_is_encoded_in_order() {
    let body = login_form_body("tok", "me@example.com", "p&ss word", &None);
    assert_eq!(
        body,
        "csrfmiddlewaretoken=tok&username_or_email=me%40example.com&password=p%26ss%20word"
    );
    let with_next = login_form_body("t", "u", "p", &Some("/home".to_string()));
    assert!(with_next.ends_with("&next=%2Fhome"));
}

#[test]
fn password_is_masked() {
    assert_eq!(
        mask_password_in_form("csrfmiddlewaretoken=t&password=secret&next=x"),
        "csrfmiddlewaretoken=t&password=***MASKED***&next=x"
    );
    assert_eq!(mask_password_in_form("a=1"), "a=1");
}

#[test]
fn cookies_are_joined_for_the_header() {
    assert_eq!(join_cookies(&vec!["a=1".to_string(), "b=2".to_string()]), "a=1; b=2");
    assert_eq!(join_cookies(&vec![]), "");
}

#[test]
fn login_url_and_headers() {
    let m = LoginManager::new("https://www.last.fm".to_string());
    assert_eq!(m.login_url(), "https://www.last.fm/login");
    let hs = m.login_request_headers("https://www.last.fm/login", &vec!["a=1".to_string(), "b=2".to_string()]);
    assert_eq!(hs[0], ("Referer".to_string(), "https://www.last.fm/login".to_string()));
    assert_eq!(hs[1], ("Origin".to_string(), "https://www.last.fm".to_string()));
    assert_eq!(hs.last().unwrap(), &("Cookie".to_string(), "a=1; b=2".to_string()));
    let without = m.login_request_headers("u", &vec![]);
    assert!(without.iter().all(|(k, _)| k != "Cookie"));
    assert_eq!(without.len(), hs.len() - 1);
}

#[test]
fn login_form_data_needs_a_token() {
    let m = LoginManager::new("https://www.last.fm".to_string());
    let page = r#"<form action="/login"><input name="csrfmiddlewaretoken" value="abc"><input name="next" value="/user"></form>"#;
    let (token, next) = m.extract_login_form_data(page).unwrap();
    assert_eq!(token, "abc");
    assert_eq!(next.as_deref(), Some("/user"));
    assert!(matches!(m.extract_login_form_data("<p>no form</p>"), Err(LastFmError::CsrfNotFound)));
}

#[test]
fn login_errors_are_collected() {
    let m = LoginManager::new("https://www.last.fm".to_string());
    let page = r#"<div class="alert-danger"> Wrong password </div><p class="form-error">  </p><span class="error-message">Try again</span>"#;
    assert_eq!(m.parse_login_error(page), "Login failed: Wrong password; Try again");
    assert_eq!(m.parse_login_error("<p>ok</p>"), "Login failed - please check your credentials");
}

#[test]
fn login_response_decisions() {
    let m = LoginManager::new("https://www.last.fm".to_string());
    let form_page = r#"<form action="/login"><input name="username_or_email"></form>"#;

    let ok = m
        .validate_login_response(302, form_page, "me", vec![LONG_SESSION.to_string()], "tok".to_string())
        .unwrap();
    assert_eq!(ok.username, "me");
    assert_eq!(ok.csrf_token.as_deref(), Some("tok"));
    assert!(ok.is_valid());

    let forbidden = m.validate_login_response(403, "<p>x</p>", "me", vec![LONG_SESSION.to_string()], "t".to_string());
    assert!(matches!(forbidden, Err(LastFmError::Auth(_))));

    let still_form = m.validate_login_response(200, form_page, "me", vec![], "t".to_string());
    match still_form {
        Err(LastFmError::Auth(msg)) => assert_eq!(msg, "Login failed - please check your credentials"),
        other => panic!("unexpected {:?}", other),
    }

    let no_form = m.validate_login_response(200, "<p>welcome</p>", "me", vec![], "t".to_string());
    assert!(no_form.is_ok());

    assert!(m.check_session_success(200, "me", &vec!["sessionid=.short".to_string()], "t").is_none());
    assert!(m.check_for_login_form(form_page));
    assert!(!m.check_for_login_form("<p>welcome</p>"));
}
