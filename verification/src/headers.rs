//! The browser-like headers sent with each request, as name and value lists.

use vstd::prelude::*;
use crate::vcr::join_spec;
use crate::login::join_cookies;

verus! {

broadcast use vstd::string::group_string_axioms;

fn push_header(hs: &mut Vec<(String, String)>, name: &str, value: &str)
    ensures
        final(hs).deep_view() == old(hs).deep_view().push((name@, value@)),
{
    hs.push((String::from_str(name), String::from_str(value)));
    assert(final(hs).deep_view() =~= old(hs).deep_view().push((name@, value@)));
}

/// The headers every request carries.
pub open spec fn common_headers() -> Seq<(Seq<char>, Seq<char>)> {
    seq![
        ("User-Agent"@, "Mozilla/5.0 (X11; Linux x86_64) AppleWebKit/537.36 (KHTML, like Gecko) Chrome/138.0.0.0 Safari/537.36"@),
        ("Accept-Language"@, "en-US,en;q=0.9"@),
        ("Accept-Encoding"@, "gzip, deflate, br"@),
        ("DNT"@, "1"@),
        ("Connection"@, "keep-alive"@),
        ("sec-ch-ua"@, "\"Not)A;Brand\";v=\"8\", \"Chromium\";v=\"138\", \"Google Chrome\";v=\"138\""@),
        ("sec-ch-ua-mobile"@, "?0"@),
        ("sec-ch-ua-platform"@, "\"Linux\""@),
    ]
}

/// Adds the headers every request carries.
pub fn add_common_headers(headers: &mut Vec<(String, String)>)
    ensures
        final(headers).deep_view() == old(headers).deep_view() + common_headers(),
{
    let ghost before = headers.deep_view();
    push_header(headers, "User-Agent", "Mozilla/5.0 (X11; Linux x86_64) AppleWebKit/537.36 (KHTML, like Gecko) Chrome/138.0.0.0 Safari/537.36");
    push_header(headers, "Accept-Language", "en-US,en;q=0.9");
    push_header(headers, "Accept-Encoding", "gzip, deflate, br");
    push_header(headers, "DNT", "1");
    push_header(headers, "Connection", "keep-alive");
    push_header(headers, "sec-ch-ua", "\"Not)A;Brand\";v=\"8\", \"Chromium\";v=\"138\", \"Google Chrome\";v=\"138\"");
    push_header(headers, "sec-ch-ua-mobile", "?0");
    push_header(headers, "sec-ch-ua-platform", "\"Linux\"");
    assert(headers.deep_view() =~= before + common_headers());
}

/// The headers of a form submission from the page at `referer`.
pub open spec fn edit_headers(referer: Seq<char>) -> Seq<(Seq<char>, Seq<char>)> {
    common_headers() + seq![
        ("Accept"@, "*/*"@),
        ("Content-Type"@, "application/x-www-form-urlencoded;charset=UTF-8"@),
        ("Priority"@, "u=1, i"@),
        ("X-Requested-With"@, "XMLHttpRequest"@),
        ("Sec-Fetch-Dest"@, "empty"@),
        ("Sec-Fetch-Mode"@, "cors"@),
        ("Sec-Fetch-Site"@, "same-origin"@),
        ("Referer"@, referer),
    ]
}

/// Adds the headers of a form submission from the page at `referer_url`.
pub fn add_edit_headers(headers: &mut Vec<(String, String)>, referer_url: &str)
    ensures
        final(headers).deep_view() == old(headers).deep_view() + edit_headers(referer_url@),
{
    let ghost before = headers.deep_view();
    add_common_headers(headers);
    push_header(headers, "Accept", "*/*");
    push_header(headers, "Content-Type", "application/x-www-form-urlencoded;charset=UTF-8");
    push_header(headers, "Priority", "u=1, i");
    push_header(headers, "X-Requested-With", "XMLHttpRequest");
    push_header(headers, "Sec-Fetch-Dest", "empty");
    push_header(headers, "Sec-Fetch-Mode", "cors");
    push_header(headers, "Sec-Fetch-Site", "same-origin");
    push_header(headers, "Referer", referer_url);
    assert(headers.deep_view() =~= before + edit_headers(referer_url@));
}

/// The headers of a page fetch: for an AJAX fetch a plain accept and the AJAX marker, otherwise
/// a browser's accept; the referer when there is one.
pub open spec fn get_headers(is_ajax: bool, referer: Option<Seq<char>>) -> Seq<(Seq<char>, Seq<char>)> {
    common_headers() + (if is_ajax {
        seq![("Accept"@, "*/*"@), ("X-Requested-With"@, "XMLHttpRequest"@)]
    } else {
        seq![
            ("Accept"@, "text/html,application/xhtml+xml,application/xml;q=0.9,image/avif,image/webp,image/apng,*/*;q=0.8,application/signed-exchange;v=b3;q=0.7"@),
            ("Upgrade-Insecure-Requests"@, "1"@),
        ]
    }) + match referer {
        Some(r) => seq![("Referer"@, r)],
        None => Seq::empty(),
    }
}

/// Adds the headers of a page fetch.
pub fn add_get_headers(headers: &mut Vec<(String, String)>, is_ajax: bool, referer_url: Option<&str>)
    ensures
        final(headers).deep_view() == old(headers).deep_view() + get_headers(is_ajax, match referer_url {
            Some(r) => Some(r@),
            None => None,
        }),
{
    let ghost before = headers.deep_view();
    add_common_headers(headers);
    if is_ajax {
        push_header(headers, "Accept", "*/*");
        push_header(headers, "X-Requested-With", "XMLHttpRequest");
    } else {
        push_header(headers, "Accept", "text/html,application/xhtml+xml,application/xml;q=0.9,image/avif,image/webp,image/apng,*/*;q=0.8,application/signed-exchange;v=b3;q=0.7");
        push_header(headers, "Upgrade-Insecure-Requests", "1");
    }
    match referer_url {
        Some(r) => push_header(headers, "Referer", r),
        None => {},
    }
    assert(headers.deep_view() =~= before + get_headers(is_ajax, match referer_url {
        Some(r) => Some(r@),
        None => None,
    }));
}

/// Adds the `Cookie` header, the cookies joined by `; `, when there are cookies.
pub fn add_cookies(headers: &mut Vec<(String, String)>, cookies: &Vec<String>)
    ensures
        final(headers).deep_view() == old(headers).deep_view() + if cookies@.len() > 0 {
            seq![("Cookie"@, join_spec(cookies.deep_view(), "; "@))]
        } else {
            Seq::empty()
        },
{
    let ghost before = headers.deep_view();
    if cookies.len() > 0 {
        let joined = join_cookies(cookies);
        push_header(headers, "Cookie", joined.as_str());
    }
    assert(headers.deep_view() =~= before + if cookies@.len() > 0 {
        seq![("Cookie"@, join_spec(cookies.deep_view(), "; "@))]
    } else {
        Seq::empty()
    });
}

} // verus!
