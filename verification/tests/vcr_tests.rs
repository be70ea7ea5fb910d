use lastfm_edit::encoding::form_decode;
use lastfm_edit::vcr::{
    encode_form_data, find_key, form_insert, parse_form_data, LastFmEditVcrMatcher, LastFmPasswordOnlyFilter,
};

fn pairs(v: &[(&str, &str)]) -> Vec<(String, String)> {
    v.iter().map(|(k, x)| (k.to_string(), x.to_string())).collect()
}

fn headers(v: &[(&str, &[&str])]) -> Vec<(String, Vec<String>)> {
    v.iter()
        .map(|(k, xs)| (k.to_string(), xs.iter().map(|x| x.to_string()).collect()))
        .collect()
}

#[test]
fn form_data_parses_and_decodes() {
    let fields = parse_form_data("a=1&b=hello%20world&novalue&a=2");
    assert_eq!(fields, pairs(&[("a", "2"), ("b", "hello world")]));
    assert_eq!(find_key(&fields, "b"), Some(1));
    assert_eq!(find_key(&fields, "c"), None);
    assert!(parse_form_data("").is_empty());
}

#[test]
fn form_data_encodes_in_order() {
    let fields = pairs(&[("user", "a b"), ("next", "/x?y=1")]);
    assert_eq!(encode_form_data(&fields), "user=a%20b&next=%2Fx%3Fy%3D1");
    let mut l = pairs(&[("k", "v")]);
    form_insert(&mut l, "k".to_string(), "w".to_string());
    form_insert(&mut l, "z".to_string(), "1".to_string());
    assert_eq!(l, pairs(&[("k", "w"), ("z", "1")]));
}

#[test]
fn matcher_compares_method_url_and_stable_headers() {
    let m = LastFmEditVcrMatcher::new();
    assert!(!m.match_body);
    let req = headers(&[("Accept", &["text/html"]), ("Cookie", &["sessionid=abc"])]);
    let rec = headers(&[("Accept", &["text/html"]), ("Cookie", &["sessionid=zzz"])]);
    assert!(m.matches_serializable("GET", "https://x/a", &req, "GET", "https://x/a", &rec));
    assert!(!m.matches_serializable("POST", "https://x/a", &req, "GET", "https://x/a", &rec));
    assert!(!m.matches_serializable("GET", "https://x/b", &req, "GET", "https://x/a", &rec));
    let rec_other = headers(&[("Accept", &["application/json"])]);
    assert!(!m.matches_serializable("GET", "https://x/a", &req, "GET", "https://x/a", &rec_other));
    let rec_ct = headers(&[("Content-Type", &["application/x-www-form-urlencoded"])]);
    assert!(m.matches_serializable("GET", "https://x/a", &req, "GET", "https://x/a", &rec_ct));
    assert!(!m.matches_serializable("POST", "https://x/a", &req, "POST", "https://x/a", &rec_ct));
    let loose = m.with_body(true);
    assert!(loose.match_body && loose.match_method && loose.match_url);
}

#[test]
fn filter_masks_session_cookies_and_passwords() {
    let f = LastFmPasswordOnlyFilter;
    assert_eq!(
        f.filter_session_cookies("csrftoken=abc;  sessionid=secret ; lang=en"),
        "csrftoken=abc; sessionid=test_session_id; lang=en"
    );
    assert_eq!(
        f.filter_set_cookie_session("sessionid=secret; Path=/; HttpOnly"),
        "sessionid=test_session_id; Path=/; HttpOnly"
    );
    assert_eq!(f.filter_set_cookie_session("sessionid=secret"), "sessionid=test_session_id");
    assert_eq!(f.filter_set_cookie_session("csrftoken=x; Path=/"), "csrftoken=x; Path=/");
    assert_eq!(
        f.filter_request_body("csrfmiddlewaretoken=t&username_or_email=me&password=hunter2"),
        "csrfmiddlewaretoken=t&username_or_email=me&password=test_password"
    );
    assert_eq!(f.filter_request_body("just some text"), "just some text");
    assert_eq!(f.filter_request_body("a=1&b=2"), "a=1&b=2");
    assert_eq!(
        f.filter_cookie_values(&vec!["sessionid=a".to_string(), "x=1".to_string()]),
        vec!["sessionid=test_session_id".to_string(), "x=1".to_string()]
    );
    assert_eq!(
        f.filter_set_cookie_values(&vec!["sessionid=a; Secure".to_string(), "x=1".to_string()]),
        vec!["sessionid=test_session_id; Secure".to_string(), "x=1".to_string()]
    );
}

#[test]
fn form_data_reads_back_what_was_encoded() {
    let fields = pairs(&[("csrfmiddlewaretoken", "a&b=c"), ("track_name", "Ünïcode / 100%"), ("empty", "")]);
    assert_eq!(parse_form_data(&encode_form_data(&fields)), fields);
    assert!(parse_form_data(&encode_form_data(&vec![])).is_empty());
}

#[test]
fn form_decoding_follows_percent_decoding() {
    assert_eq!(form_decode("caf%C3%A9"), "café");
    assert_eq!(form_decode("a+b%2Bc"), "a b c");
    assert_eq!(form_decode("%zz%4"), "%zz%4");
    assert_eq!(form_decode("%%41"), "%A");
    assert_eq!(form_decode("%FF+x"), "%FF x");
}
