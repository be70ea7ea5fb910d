//! Logging in to the web interface: the form, the cookies, and the decision on the response.

use vstd::prelude::*;
use crate::text::{
    chars_of, str_starts_with, starts_with_seq, split_chars, split_spec, trim_string, trim_spec,
};
use crate::html::{select_all, elements_in, attr_lookup, attr_value};
use crate::types::{LastFmEditSession, LastFmError, byte_len};
use crate::vcr::{join_spec, encode_form_data, encoded_form};

verus! {

broadcast use vstd::string::group_string_axioms;

// ------------------------------------------------------------------------------------------------
// Cookies
// ------------------------------------------------------------------------------------------------

/// The cookies that do not start with `prefix`.
pub open spec fn without_prefixed(cs: Seq<Seq<char>>, prefix: Seq<char>) -> Seq<Seq<char>>
    decreases cs.len(),
{
    if cs.len() == 0 {
        cs
    } else if starts_with_seq(cs.last(), prefix) {
        without_prefixed(cs.drop_last(), prefix)
    } else {
        without_prefixed(cs.drop_last(), prefix).push(cs.last())
    }
}

/// The `name=value` part of a `Set-Cookie` header: what comes before the first `;`.
pub open spec fn set_cookie_value(h: Seq<char>) -> Seq<char> {
    split_spec(h, ';')[0]
}

/// The name of a cookie: what comes before the first `=`.
pub open spec fn cookie_name(c: Seq<char>) -> Seq<char> {
    split_spec(c, '=')[0]
}

/// The cookies after one `Set-Cookie` header: any cookie of the same name is replaced by the new
/// one, which goes last.
pub open spec fn merge_set_cookie(cookies: Seq<Seq<char>>, h: Seq<char>) -> Seq<Seq<char>> {
    let v = set_cookie_value(h);
    without_prefixed(cookies, cookie_name(v) + "="@).push(v)
}

pub open spec fn merge_set_cookies_spec(cookies: Seq<Seq<char>>, hs: Seq<Seq<char>>) -> Seq<Seq<char>>
    decreases hs.len(),
{
    if hs.len() == 0 {
        cookies
    } else {
        merge_set_cookie(merge_set_cookies_spec(cookies, hs.drop_last()), hs.last())
    }
}

fn first_piece(s: &str, c: char) -> (res: String)
    ensures
        res@ == split_spec(s@, c)[0],
{
    let cs = chars_of(s);
    let pieces = split_chars(&cs, c);
    proof {
        crate::text::lemma_split_nonempty(s@, c);
    }
    assert(pieces.deep_view().len() == pieces@.len());
    pieces[0].clone()
}

fn remove_prefixed(cookies: &mut Vec<String>, prefix: &str)
    ensures
        final(cookies).deep_view() == without_prefixed(old(cookies).deep_view(), prefix@),
{
    let ghost orig = cookies.deep_view();
    let mut kept: Vec<String> = Vec::new();
    let mut i: usize = 0;
    while i < cookies.len()
        invariant
            i <= cookies@.len(),
            orig == cookies.deep_view(),
            kept.deep_view() == without_prefixed(orig.take(i as int), prefix@),
        decreases cookies.len() - i,
    {
        assert(orig.take(i + 1).drop_last() =~= orig.take(i as int));
        assert(orig.take(i + 1).last() == cookies@[i as int]@);
        if !str_starts_with(cookies[i].as_str(), prefix) {
            let ghost before = kept.deep_view();
            kept.push(cookies[i].clone());
            assert(kept.deep_view() =~= before.push(orig[i as int]));
        }
        i = i + 1;
    }
    assert(orig.take(i as int) =~= orig);
    *cookies = kept;
}

/// Folds the `Set-Cookie` headers of a response into the cookie list, one header after the
/// other: each keeps only its `name=value` part and replaces any cookie of that name.
pub fn extract_cookies_from_response(set_cookie_headers: &Vec<String>, cookies: &mut Vec<String>)
    ensures
        final(cookies).deep_view() == merge_set_cookies_spec(old(cookies).deep_view(), set_cookie_headers.deep_view()),
{
    let ghost c0 = cookies.deep_view();
    let ghost hv = set_cookie_headers.deep_view();
    let mut i: usize = 0;
    while i < set_cookie_headers.len()
        invariant
            i <= set_cookie_headers@.len(),
            hv == set_cookie_headers.deep_view(),
            cookies.deep_view() == merge_set_cookies_spec(c0, hv.take(i as int)),
        decreases set_cookie_headers.len() - i,
    {
        assert(hv.take(i + 1).drop_last() =~= hv.take(i as int));
        assert(hv.take(i + 1).last() == set_cookie_headers@[i as int]@);
        let value = first_piece(set_cookie_headers[i].as_str(), ';');
        let mut prefix = first_piece(value.as_str(), '=');
        prefix.append("=");
        remove_prefixed(cookies, prefix.as_str());
        let ghost before = cookies.deep_view();
        cookies.push(value);
        assert(cookies.deep_view() =~= before.push(value@));
        i = i + 1;
    }
    assert(hv.take(i as int) =~= hv);
}

// ------------------------------------------------------------------------------------------------
// Login form
// ------------------------------------------------------------------------------------------------

/// The fields of the login form, in the order they are sent.
pub open spec fn login_fields(csrf: Seq<char>, username: Seq<char>, password: Seq<char>, next: Option<Seq<char>>) -> Seq<(Seq<char>, Seq<char>)> {
    seq![("csrfmiddlewaretoken"@, csrf), ("username_or_email"@, username), ("password"@, password)]
        + match next {
        Some(n) => seq![("next"@, n)],
        None => Seq::empty(),
    }
}

/// The body of the login request: the login fields, percent-encoded and joined by `&`.
pub fn login_form_body(csrf_token: &str, username: &str, password: &str, next_field: &Option<String>) -> (res: String)
    ensures
        res@ == encoded_form(login_fields(csrf_token@, username@, password@, next_field.deep_view())),
{
    let mut fields: Vec<(String, String)> = Vec::new();
    fields.push((String::from_str("csrfmiddlewaretoken"), String::from_str(csrf_token)));
    fields.push((String::from_str("username_or_email"), String::from_str(username)));
    fields.push((String::from_str("password"), String::from_str(password)));
    match next_field {
        Some(n) => fields.push((String::from_str("next"), n.clone())),
        None => {},
    }
    assert(fields.deep_view() =~= login_fields(csrf_token@, username@, password@, next_field.deep_view()));
    encode_form_data(&fields)
}

/// A form body with the value of each `password=` field replaced by a mask.
pub open spec fn masked_password_form(form: Seq<char>) -> Seq<char> {
    join_spec(split_spec(form, '&').map_values(|f: Seq<char>|
        if starts_with_seq(f, "password="@) { "password=***MASKED***"@ } else { f }), "&"@)
}

/// Masks the password in a form body, for logging.
pub fn mask_password_in_form(form_data: &str) -> (res: String)
    ensures
        res@ == masked_password_form(form_data@),
{
    let cs = chars_of(form_data);
    let parts = split_chars(&cs, '&');
    let ghost pv = parts.deep_view();
    let ghost mapped = pv.map_values(|f: Seq<char>| if starts_with_seq(f, "password="@) { "password=***MASKED***"@ } else { f });
    let mut out = String::new();
    let mut i: usize = 0;
    while i < parts.len()
        invariant
            i <= parts@.len(),
            pv == parts.deep_view(),
            mapped == pv.map_values(|f: Seq<char>| if starts_with_seq(f, "password="@) { "password=***MASKED***"@ } else { f }),
            out@ == join_spec(mapped.take(i as int), "&"@),
        decreases parts.len() - i,
    {
        assert(mapped.take(i + 1).drop_last() =~= mapped.take(i as int));
        if i > 0 {
            out.append("&");
        }
        if str_starts_with(parts[i].as_str(), "password=") {
            out.append("password=***MASKED***");
        } else {
            out.append(parts[i].as_str());
        }
        assert(out@ =~= join_spec(mapped.take(i + 1), "&"@));
        i = i + 1;
    }
    assert(mapped.take(i as int) =~= mapped);
    out
}

/// The browser-like headers of the login request, with the cookies when there are any.
pub open spec fn login_headers(login_url: Seq<char>, base_url: Seq<char>, cookies: Seq<Seq<char>>) -> Seq<(Seq<char>, Seq<char>)> {
    seq![
        ("Referer"@, login_url),
        ("Origin"@, base_url),
        ("Content-Type"@, "application/x-www-form-urlencoded"@),
        ("User-Agent"@, "Mozilla/5.0 (X11; Linux x86_64) AppleWebKit/537.36 (KHTML, like Gecko) Chrome/138.0.0.0 Safari/537.36"@),
        ("Accept"@, "text/html,application/xhtml+xml,application/xml;q=0.9,image/avif,image/webp,image/apng,*/*;q=0.8,application/signed-exchange;v=b3;q=0.7"@),
        ("Accept-Language"@, "en-US,en;q=0.9"@),
        ("Accept-Encoding"@, "gzip, deflate, br"@),
        ("DNT"@, "1"@),
        ("Connection"@, "keep-alive"@),
        ("Upgrade-Insecure-Requests"@, "1"@),
        ("sec-ch-ua"@, "\"Not)A;Brand\";v=\"8\", \"Chromium\";v=\"138\", \"Google Chrome\";v=\"138\""@),
        ("sec-ch-ua-mobile"@, "?0"@),
        ("sec-ch-ua-platform"@, "\"Linux\""@),
        ("Sec-Fetch-Dest"@, "document"@),
        ("Sec-Fetch-Mode"@, "navigate"@),
        ("Sec-Fetch-Site"@, "same-origin"@),
        ("Sec-Fetch-User"@, "?1"@),
    ] + if cookies.len() > 0 { seq![("Cookie"@, join_spec(cookies, "; "@))] } else { Seq::empty() }
}

fn push_header(hs: &mut Vec<(String, String)>, name: &str, value: &str)
    ensures
        final(hs).deep_view() == old(hs).deep_view().push((name@, value@)),
{
    hs.push((String::from_str(name), String::from_str(value)));
    assert(final(hs).deep_view() =~= old(hs).deep_view().push((name@, value@)));
}

/// The cookies joined by `; `, as a `Cookie` header holds them.
pub fn join_cookies(cookies: &Vec<String>) -> (res: String)
    ensures
        res@ == join_spec(cookies.deep_view(), "; "@),
{
    let ghost cv = cookies.deep_view();
    let mut out = String::new();
    let mut i: usize = 0;
    while i < cookies.len()
        invariant
            i <= cookies@.len(),
            cv == cookies.deep_view(),
            out@ == join_spec(cv.take(i as int), "; "@),
        decreases cookies.len() - i,
    {
        assert(cv.take(i + 1).drop_last() =~= cv.take(i as int));
        if i > 0 {
            out.append("; ");
        }
        out.append(cookies[i].as_str());
        assert(out@ =~= join_spec(cv.take(i + 1), "; "@));
        i = i + 1;
    }
    assert(cv.take(i as int) =~= cv);
    out
}

// ------------------------------------------------------------------------------------------------
// Reading the pages
// ------------------------------------------------------------------------------------------------

/// The value of the first element matching `sel`, if it has one.
pub open spec fn first_value(doc: Seq<char>, sel: Seq<char>) -> Option<Seq<char>> {
    if elements_in(doc, sel).len() > 0 {
        attr_lookup(elements_in(doc, sel)[0].1, "value"@)
    } else {
        None
    }
}

fn first_value_of(document: &str, sel: &str) -> (res: Option<String>)
    ensures
        res.deep_view() == first_value(document@, sel@),
{
    let found = select_all(document, sel);
    if found.len() > 0 {
        attr_value(&found[0].1, "value")
    } else {
        None
    }
}

/// The error texts of a login page: the trimmed, non-empty texts of its alerts.
pub open spec fn error_texts(es: Seq<crate::html::ElementView>) -> Seq<Seq<char>>
    decreases es.len(),
{
    if es.len() == 0 {
        Seq::empty()
    } else {
        let prev = error_texts(es.drop_last());
        if trim_spec(es.last().0).len() > 0 { prev.push(trim_spec(es.last().0)) } else { prev }
    }
}

/// The message of a failed login: the page's alerts joined by `; `, or a generic message.
pub open spec fn login_error_text(html: Seq<char>) -> Seq<char> {
    let msgs = error_texts(elements_in(html, ".alert-danger, .form-error, .error-message"@));
    if msgs.len() == 0 {
        "Login failed - please check your credentials"@
    } else {
        "Login failed: "@ + join_spec(msgs, "; "@)
    }
}

/// Whether a page shows the login form.
pub open spec fn shows_login_form(html: Seq<char>) -> bool {
    elements_in(html, "form[action*=\"login\"], input[name=\"username_or_email\"]"@).len() > 0
}

/// A cookie of an authenticated session: `sessionid=.` and more than 50 bytes.
pub open spec fn is_real_session_cookie(c: Seq<char>) -> bool {
    starts_with_seq(c, "sessionid=."@) && byte_len(c) > 50
}

/// The session of a login that the response accepts: a real session cookie with a 302 or 200.
pub open spec fn session_established(status: u16, cookies: Seq<Seq<char>>) -> bool {
    (exists|i: int| 0 <= i < cookies.len() && is_real_session_cookie(#[trigger] cookies[i])) && (status == 302 || status
        == 200)
}

/// The result of a login whose response came back with `status` and the page `html`.
pub open spec fn login_succeeds(status: u16, html: Seq<char>, cookies: Seq<Seq<char>>) -> bool {
    status != 403 && (session_established(status, cookies) || (!shows_login_form(html) && status == 200))
}

/// Logs in to the web interface.
#[derive(Debug, Clone)]
pub struct LoginManager {
    pub base_url: String,
}

impl LoginManager {
    /// A login manager for the site at `base_url`.
    pub fn new(base_url: String) -> (res: Self)
        ensures
            res.base_url == base_url,
    {
        LoginManager { base_url }
    }

    /// The URL of the login page: the base URL followed by `/login`.
    pub fn login_url(&self) -> (res: String)
        ensures
            res@ == self.base_url@ + "/login"@,
    {
        let mut u = self.base_url.clone();
        u.append("/login");
        u
    }

    /// The headers of the login request.
    pub fn login_request_headers(&self, login_url: &str, cookies: &Vec<String>) -> (res: Vec<(String, String)>)
        ensures
            res.deep_view() == login_headers(login_url@, self.base_url@, cookies.deep_view()),
    {
        let mut hs: Vec<(String, String)> = Vec::new();
        push_header(&mut hs, "Referer", login_url);
        push_header(&mut hs, "Origin", self.base_url.as_str());
        push_header(&mut hs, "Content-Type", "application/x-www-form-urlencoded");
        push_header(&mut hs, "User-Agent", "Mozilla/5.0 (X11; Linux x86_64) AppleWebKit/537.36 (KHTML, like Gecko) Chrome/138.0.0.0 Safari/537.36");
        push_header(&mut hs, "Accept", "text/html,application/xhtml+xml,application/xml;q=0.9,image/avif,image/webp,image/apng,*/*;q=0.8,application/signed-exchange;v=b3;q=0.7");
        push_header(&mut hs, "Accept-Language", "en-US,en;q=0.9");
        push_header(&mut hs, "Accept-Encoding", "gzip, deflate, br");
        push_header(&mut hs, "DNT", "1");
        push_header(&mut hs, "Connection", "keep-alive");
        push_header(&mut hs, "Upgrade-Insecure-Requests", "1");
        push_header(&mut hs, "sec-ch-ua", "\"Not)A;Brand\";v=\"8\", \"Chromium\";v=\"138\", \"Google Chrome\";v=\"138\"");
        push_header(&mut hs, "sec-ch-ua-mobile", "?0");
        push_header(&mut hs, "sec-ch-ua-platform", "\"Linux\"");
        push_header(&mut hs, "Sec-Fetch-Dest", "document");
        push_header(&mut hs, "Sec-Fetch-Mode", "navigate");
        push_header(&mut hs, "Sec-Fetch-Site", "same-origin");
        push_header(&mut hs, "Sec-Fetch-User", "?1");
        let ghost fixed = hs.deep_view();
        if cookies.len() > 0 {
            let joined = join_cookies(cookies);
            push_header(&mut hs, "Cookie", joined.as_str());
        }
        assert(hs.deep_view() =~= login_headers(login_url@, self.base_url@, cookies.deep_view()));
        hs
    }

    /// The CSRF token and the `next` field of the login page; no token is an error.
    pub fn extract_login_form_data(&self, html: &str) -> (res: Result<(String, Option<String>), LastFmError>)
        ensures
            match first_value(html@, "input[name=\"csrfmiddlewaretoken\"]"@) {
                Some(t) => res matches Ok((token, next)) && token@ == t
                    && next.deep_view() == first_value(html@, "input[name=\"next\"]"@),
                None => res matches Err(LastFmError::CsrfNotFound),
            },
    {
        let token = match first_value_of(html, "input[name=\"csrfmiddlewaretoken\"]") {
            Some(t) => t,
            None => return Err(LastFmError::CsrfNotFound),
        };
        let next = first_value_of(html, "input[name=\"next\"]");
        Ok((token, next))
    }

    /// The message of a failed login page.
    pub fn parse_login_error(&self, html: &str) -> (res: String)
        ensures
            res@ == login_error_text(html@),
    {
        let found = select_all(html, ".alert-danger, .form-error, .error-message");
        let ghost fv = found.deep_view();
        let mut msgs: Vec<String> = Vec::new();
        let mut i: usize = 0;
        while i < found.len()
            invariant
                i <= found@.len(),
                fv == found.deep_view(),
                msgs.deep_view() == error_texts(fv.take(i as int)),
            decreases found.len() - i,
        {
            assert(fv.take(i + 1).drop_last() =~= fv.take(i as int));
            assert(fv.take(i + 1).last().0 == found@[i as int].0@);
            let t = trim_string(found[i].0.as_str());
            if !t.as_str().is_empty() {
                let ghost before = msgs.deep_view();
                msgs.push(t);
                assert(msgs.deep_view() =~= before.push(t@));
            }
            i = i + 1;
        }
        assert(fv.take(i as int) =~= fv);
        if msgs.len() == 0 {
            String::from_str("Login failed - please check your credentials")
        } else {
            let mut m = String::from_str("Login failed: ");
            m.append(join_cookies(&msgs).as_str());
            m
        }
    }

    /// Whether a page shows the login form.
    pub fn check_for_login_form(&self, html: &str) -> (res: bool)
        ensures
            res == shows_login_form(html@),
    {
        select_all(html, "form[action*=\"login\"], input[name=\"username_or_email\"]").len() > 0
    }

    /// The session, when the response establishes one.
    pub fn check_session_success(&self, status: u16, username: &str, cookies: &Vec<String>, csrf_token: &str) -> (res: Option<LastFmEditSession>)
        ensures
            session_established(status, cookies.deep_view()) <==> res is Some,
            res matches Some(s) ==> s.username@ == username@ && s.cookies.deep_view() == cookies.deep_view()
                && s.csrf_token.deep_view() == Some(csrf_token@) && s.base_url@ == self.base_url@,
    {
        let mut has_real = false;
        let mut i: usize = 0;
        while i < cookies.len()
            invariant
                i <= cookies@.len(),
                has_real == exists|j: int| 0 <= j < i && is_real_session_cookie(#[trigger] cookies.deep_view()[j]),
            decreases cookies.len() - i,
        {
            let c = cookies[i].as_str();
            if str_starts_with(c, "sessionid=.") && c.len() > 50 {
                assert(is_real_session_cookie(cookies.deep_view()[i as int]));
                has_real = true;
            }
            i = i + 1;
        }
        if has_real && (status == 302 || status == 200) {
            Some(LastFmEditSession::new(
                String::from_str(username),
                clone_strings(cookies),
                Some(String::from_str(csrf_token)),
                self.base_url.clone(),
            ))
        } else {
            None
        }
    }

    /// The outcome of a login: a 403 is refused with the page's message; a response that
    /// establishes a session, or a 200 page without the login form, gives the session; anything
    /// else is refused with the page's message.
    pub fn validate_login_response(
        &self,
        status: u16,
        html: &str,
        username: &str,
        cookies: Vec<String>,
        csrf_token: String,
    ) -> (res: Result<LastFmEditSession, LastFmError>)
        ensures
            login_succeeds(status, html@, cookies.deep_view()) ==> (res matches Ok(s) && s.username@ == username@
                && s.cookies.deep_view() == cookies.deep_view() && s.csrf_token.deep_view() == Some(csrf_token@)
                && s.base_url@ == self.base_url@),
            !login_succeeds(status, html@, cookies.deep_view()) ==> (res matches Err(LastFmError::Auth(m))
                && m@ == login_error_text(html@)),
    {
        if status == 403 {
            return Err(LastFmError::Auth(self.parse_login_error(html)));
        }
        match self.check_session_success(status, username, &cookies, csrf_token.as_str()) {
            Some(s) => return Ok(s),
            None => {},
        }
        let has_login_form = self.check_for_login_form(html);
        if !has_login_form && status == 200 {
            Ok(LastFmEditSession::new(String::from_str(username), cookies, Some(csrf_token), self.base_url.clone()))
        } else {
            Err(LastFmError::Auth(self.parse_login_error(html)))
        }
    }
}

/// A copy of a list of strings.
pub fn clone_strings(v: &Vec<String>) -> (res: Vec<String>)
    ensures
        res.deep_view() == v.deep_view(),
{
    let mut out: Vec<String> = Vec::new();
    let mut i: usize = 0;
    while i < v.len()
        invariant
            i <= v@.len(),
            out.deep_view() == v.deep_view().take(i as int),
        decreases v.len() - i,
    {
        let ghost before = out.deep_view();
        out.push(v[i].clone());
        assert(out.deep_view() =~= before.push(v.deep_view()[i as int]));
        assert(out.deep_view() =~= v.deep_view().take(i + 1));
        i = i + 1;
    }
    assert(v.deep_view().take(i as int) =~= v.deep_view());
    out
}

} // verus!
