//! Recording and replaying HTTP traffic in tests: matching requests, and masking secrets in
//! form bodies and cookies.

use vstd::prelude::*;
use crate::text::{
    chars_of, str_contains, str_starts_with, contains_seq, starts_with_seq, to_lowercase, lowercase,
    split_chars, split_spec, split_once_chars, split_once_spec, trim_string, trim_spec, find_char,
    slice_chars, string_of, index_of_char, lemma_index_of_char, lemma_split_no_sep, lemma_split_concat,
};
use crate::encoding::{url_decode, url_decoded, url_encode, url_encoded, lemma_url_encoded_has_no_separators, lemma_url_decode_round_trip};

verus! {

broadcast use vstd::string::group_string_axioms;

// ------------------------------------------------------------------------------------------------
// Form data
// ------------------------------------------------------------------------------------------------

/// The position of the first pair with key `k`.
pub open spec fn key_index(l: Seq<(Seq<char>, Seq<char>)>, k: Seq<char>) -> Option<nat>
    decreases l.len(),
{
    if l.len() == 0 {
        None
    } else if l[0].0 == k {
        Some(0)
    } else {
        match key_index(l.drop_first(), k) {
            Some(i) => Some(i + 1),
            None => None,
        }
    }
}

pub proof fn lemma_key_index_bound(l: Seq<(Seq<char>, Seq<char>)>, k: Seq<char>)
    ensures
        key_index(l, k) matches Some(i) ==> i < l.len() && l[i as int].0 == k,
        key_index(l, k) is None ==> forall|j: int| 0 <= j < l.len() ==> (#[trigger] l[j]).0 != k,
    decreases l.len(),
{
    if l.len() > 0 {
        lemma_key_index_bound(l.drop_first(), k);
        if l[0].0 != k {
            assert forall|j: int| 0 <= j < l.len() && key_index(l, k) is None implies (#[trigger] l[j]).0 != k by {
                if j > 0 {
                    assert(l.drop_first()[j - 1] == l[j]);
                }
            }
        }
    }
}

/// A map given as a list of pairs, with `k` set to `v`: in place when present, else at the end.
pub open spec fn assoc_insert(l: Seq<(Seq<char>, Seq<char>)>, k: Seq<char>, v: Seq<char>) -> Seq<(Seq<char>, Seq<char>)> {
    match key_index(l, k) {
        Some(i) => l.update(i as int, (k, v)),
        None => l.push((k, v)),
    }
}

/// The index of the first pair with key `k`.
pub fn find_key(l: &Vec<(String, String)>, k: &str) -> (res: Option<usize>)
    ensures
        match key_index(l.deep_view(), k@) {
            Some(i) => res == Some(i as usize),
            None => res is None,
        },
{
    let ghost lv = l.deep_view();
    let target = String::from_str(k);
    let mut i: usize = 0;
    assert(lv.skip(0) =~= lv);
    while i < l.len()
        invariant
            i <= l@.len(),
            lv == l.deep_view(),
            target@ == k@,
            match key_index(lv.skip(i as int), k@) {
                Some(j) => key_index(lv, k@) == Some((j + i) as nat),
                None => key_index(lv, k@) is None,
            },
        decreases l.len() - i,
    {
        assert(lv.skip(i as int)[0] == lv[i as int]);
        if l[i].0.eq(&target) {
            return Some(i);
        }
        assert(lv.skip(i as int).drop_first() =~= lv.skip(i + 1));
        i = i + 1;
    }
    None
}

/// Sets `k` to `v` in a map given as a list of pairs.
pub fn form_insert(l: &mut Vec<(String, String)>, k: String, v: String)
    ensures
        final(l).deep_view() == assoc_insert(old(l).deep_view(), k@, v@),
{
    let ghost before = l.deep_view();
    proof {
        lemma_key_index_bound(before, k@);
    }
    let found = find_key(l, k.as_str());
    match found {
        Some(i) => {
            assert(key_index(before, k@) is Some);
            let ghost j = key_index(before, k@)->0;
            assert(j < before.len());
            assert(before.len() == l.len());
            assert(i == j as usize);
            assert(i == j);
            l.set(i, (k, v));
            assert(l.deep_view() =~= before.update(i as int, (k@, v@)));
        },
        None => {
            l.push((k, v));
            assert(l.deep_view() =~= before.push((k@, v@)));
        },
    }
}

/// A component percent-decoded, or left as it is when that fails.
pub open spec fn decoded_or_same(s: Seq<char>) -> Seq<char> {
    match url_decoded(s) {
        Some(d) => d,
        None => s,
    }
}

fn decode_or_same(s: &str) -> (res: String)
    ensures
        res@ == decoded_or_same(s@),
        decodes_back(s@),
{
    proof {
        assert forall|t: Seq<char>| #[trigger] url_encoded(t) == s@ implies decoded_or_same(s@) == t by {
            lemma_url_decode_round_trip(t);
        }
    }
    match url_decode(s) {
        Some(d) => d,
        None => String::from_str(s),
    }
}

/// Decoding `k` gives back the text whose encoding `k` is.
pub open spec fn decodes_back(k: Seq<char>) -> bool {
    forall|t: Seq<char>| #[trigger] url_encoded(t) == k ==> decoded_or_same(k) == t
}

/// Both halves of a `key=value` piece decode back.
pub open spec fn piece_decodes(piece: Seq<char>) -> bool {
    match split_once_spec(piece, '=') {
        Some((k, v)) => decodes_back(k) && decodes_back(v),
        None => true,
    }
}

/// No key occurs twice.
pub open spec fn distinct_keys(p: Seq<(Seq<char>, Seq<char>)>) -> bool {
    forall|i: int, j: int| 0 <= i < j < p.len() ==> (#[trigger] p[i]).0 != (#[trigger] p[j]).0
}

/// The fields of a form body: each `&`-separated piece with a `=` sets its decoded key to its
/// decoded value; a later piece overrides an earlier one.
pub open spec fn form_fields(pieces: Seq<Seq<char>>) -> Seq<(Seq<char>, Seq<char>)>
    decreases pieces.len(),
{
    if pieces.len() == 0 {
        Seq::empty()
    } else {
        let prev = form_fields(pieces.drop_last());
        match split_once_spec(pieces.last(), '=') {
            Some((k, v)) => assoc_insert(prev, decoded_or_same(k), decoded_or_same(v)),
            None => prev,
        }
    }
}

/// Reads a form body into its fields, each key once.
pub fn parse_form_data(data: &str) -> (res: Vec<(String, String)>)
    ensures
        res.deep_view() == form_fields(split_spec(data@, '&')),
        forall|p: Seq<(Seq<char>, Seq<char>)>| #[trigger] encoded_form(p) == data@ && distinct_keys(p) ==> res.deep_view() == p,
{
    let cs = chars_of(data);
    let pieces = split_chars(&cs, '&');
    let ghost pv = pieces.deep_view();
    let mut params: Vec<(String, String)> = Vec::new();
    let mut i: usize = 0;
    while i < pieces.len()
        invariant
            i <= pieces@.len(),
            pv == pieces.deep_view(),
            params.deep_view() == form_fields(pv.take(i as int)),
            forall|j: int| 0 <= j < i ==> piece_decodes(#[trigger] pv[j]),
        decreases pieces.len() - i,
    {
        assert(pv.take(i + 1).drop_last() =~= pv.take(i as int));
        assert(pv.take(i + 1).last() == pieces@[i as int]@);
        let pc = chars_of(pieces[i].as_str());
        match split_once_chars(&pc, '=') {
            Some((k, v)) => {
                let ks = decode_or_same(string_of(&k).as_str());
                let vs = decode_or_same(string_of(&v).as_str());
                form_insert(&mut params, ks, vs);
            },
            None => {},
        }
        assert(piece_decodes(pv[i as int]));
        i = i + 1;
    }
    assert(pv.take(i as int) =~= pv);
    proof {
        assert forall|p: Seq<(Seq<char>, Seq<char>)>| #[trigger] encoded_form(p) == data@ && distinct_keys(p) implies params.deep_view() == p by {
            let parts = p.map_values(|q: (Seq<char>, Seq<char>)| encoded_field(q));
            if p.len() == 0 {
                assert(parts.len() == 0);
                assert(data@ =~= Seq::<char>::empty());
                assert(pv =~= seq![Seq::<char>::empty()]);
                assert(!Seq::<char>::empty().contains('='));
                assert(split_once_spec(pv.last(), '=') is None);
                assert(pv.drop_last() =~= Seq::<Seq<char>>::empty());
                assert(form_fields(pv.drop_last()) =~= Seq::<(Seq<char>, Seq<char>)>::empty());
                assert(form_fields(pv) == form_fields(pv.drop_last()));
                assert(params.deep_view() =~= p);
            } else {
                assert forall|j: int| 0 <= j < parts.len() implies !(#[trigger] parts[j]).contains('&') by {
                    lemma_field_has_no_amp(p[j]);
                }
                lemma_join_split(parts);
                assert forall|j: int| 0 <= j < p.len() implies decodes_back(url_encoded((#[trigger] p[j]).0)) && decodes_back(url_encoded(p[j].1)) by {
                    lemma_split_field(p[j]);
                    assert(pv[j] == encoded_field(p[j]));
                    assert(piece_decodes(pv[j]));
                }
                lemma_form_fields_round_trip(p);
            }
        }
    }
    params
}

/// `parts` joined with `sep` between them.
pub open spec fn join_spec(parts: Seq<Seq<char>>, sep: Seq<char>) -> Seq<char>
    decreases parts.len(),
{
    if parts.len() == 0 {
        Seq::empty()
    } else if parts.len() == 1 {
        parts[0]
    } else {
        join_spec(parts.drop_last(), sep) + sep + parts.last()
    }
}

/// The `key=value` form of a field, both percent-encoded.
pub open spec fn encoded_field(p: (Seq<char>, Seq<char>)) -> Seq<char> {
    url_encoded(p.0) + "="@ + url_encoded(p.1)
}

/// A form body: the encoded fields in order, separated by `&`.
pub open spec fn encoded_form(params: Seq<(Seq<char>, Seq<char>)>) -> Seq<char> {
    join_spec(params.map_values(|p: (Seq<char>, Seq<char>)| encoded_field(p)), "&"@)
}

/// Writes fields as a form body.
pub fn encode_form_data(params: &Vec<(String, String)>) -> (res: String)
    ensures
        res@ == encoded_form(params.deep_view()),
{
    let ghost pv = params.deep_view();
    let mut out = String::new();
    let mut i: usize = 0;
    while i < params.len()
        invariant
            i <= params@.len(),
            pv == params.deep_view(),
            out@ == join_spec(pv.take(i as int).map_values(|p: (Seq<char>, Seq<char>)| encoded_field(p)), "&"@),
        decreases params.len() - i,
    {
        let ghost parts = pv.take(i + 1).map_values(|p: (Seq<char>, Seq<char>)| encoded_field(p));
        assert(parts.drop_last() =~= pv.take(i as int).map_values(|p: (Seq<char>, Seq<char>)| encoded_field(p)));
        if i > 0 {
            out.append("&");
        }
        out.append(url_encode(params[i].0.as_str()).as_str());
        out.append("=");
        out.append(url_encode(params[i].1.as_str()).as_str());
        assert(parts.last() == encoded_field(pv[i as int]));
        assert(out@ =~= join_spec(parts, "&"@));
        i = i + 1;
    }
    assert(pv.take(i as int) =~= pv);
    out
}

/// Splitting a text joined with `&` gives back its parts, when none holds `&`.
pub proof fn lemma_join_split(parts: Seq<Seq<char>>)
    requires
        parts.len() >= 1,
        forall|i: int| 0 <= i < parts.len() ==> !(#[trigger] parts[i]).contains('&'),
    ensures
        split_spec(join_spec(parts, "&"@), '&') == parts,
    decreases parts.len(),
{
    reveal_strlit("&");
    if parts.len() == 1 {
        lemma_split_no_sep(parts[0], '&');
        assert(seq![parts[0]] =~= parts);
    } else {
        let p = parts.drop_last();
        assert forall|i: int| 0 <= i < p.len() implies !(#[trigger] p[i]).contains('&') by {
            assert(p[i] == parts[i]);
        }
        lemma_join_split(p);
        assert(parts[parts.len() - 1] == parts.last());
        lemma_split_no_sep(parts.last(), '&');
        lemma_split_concat(join_spec(p, "&"@), parts.last(), '&');
        assert("&"@ =~= seq!['&']);
        assert(join_spec(parts, "&"@) =~= join_spec(p, "&"@) + seq!['&'] + parts.last());
        assert(p + seq![parts.last()] =~= parts);
    }
}

/// An encoded field holds no `&`.
proof fn lemma_field_has_no_amp(q: (Seq<char>, Seq<char>))
    ensures
        !encoded_field(q).contains('&'),
{
    reveal_strlit("=");
    lemma_url_encoded_has_no_separators(q.0);
    lemma_url_encoded_has_no_separators(q.1);
    let k = url_encoded(q.0);
    let v = url_encoded(q.1);
    let f = encoded_field(q);
    assert("="@ =~= seq!['=']);
    assert(f =~= k + seq!['='] + v);
    if f.contains('&') {
        let x = choose|x: int| 0 <= x < f.len() && f[x] == '&';
        if x < k.len() {
            assert(f[x] == k[x]);
        } else if x == k.len() {
            assert(f[x] == '=');
        } else {
            assert(f[x] == v[x - k.len() - 1]);
        }
    }
}

/// An encoded field splits at its first `=` into the encoded key and the encoded value.
proof fn lemma_split_field(q: (Seq<char>, Seq<char>))
    ensures
        split_once_spec(encoded_field(q), '=') == Some((url_encoded(q.0), url_encoded(q.1))),
{
    reveal_strlit("=");
    lemma_url_encoded_has_no_separators(q.0);
    let k = url_encoded(q.0);
    let f = encoded_field(q);
    assert("="@ =~= seq!['=']);
    assert(f =~= k + seq!['='] + url_encoded(q.1));
    assert(f[k.len() as int] == '=');
    assert forall|j: int| 0 <= j < k.len() implies f[j] != '=' by {
        assert(f[j] == k[j]);
    }
    lemma_index_of_char(f, '=', k.len() as int);
    assert(f.take(k.len() as int) =~= k);
    assert(f.skip(k.len() as int + 1) =~= url_encoded(q.1));
}

/// Reading the encoded fields of distinct keys gives back the fields, when each encoding decodes
/// back.
proof fn lemma_form_fields_round_trip(p: Seq<(Seq<char>, Seq<char>)>)
    requires
        distinct_keys(p),
        forall|j: int| 0 <= j < p.len() ==> decodes_back(url_encoded((#[trigger] p[j]).0)) && decodes_back(url_encoded(p[j].1)),
    ensures
        form_fields(p.map_values(|q: (Seq<char>, Seq<char>)| encoded_field(q))) == p,
    decreases p.len(),
{
    let pieces = p.map_values(|q: (Seq<char>, Seq<char>)| encoded_field(q));
    if p.len() == 0 {
        assert(form_fields(pieces) =~= p);
    } else {
        let pp = p.drop_last();
        assert forall|i: int, j: int| 0 <= i < j < pp.len() implies (#[trigger] pp[i]).0 != (#[trigger] pp[j]).0 by {
            assert(pp[i] == p[i]);
            assert(pp[j] == p[j]);
        }
        assert forall|j: int| 0 <= j < pp.len() implies decodes_back(url_encoded((#[trigger] pp[j]).0)) && decodes_back(url_encoded(pp[j].1)) by {
            assert(pp[j] == p[j]);
        }
        lemma_form_fields_round_trip(pp);
        assert(pieces.drop_last() =~= pp.map_values(|q: (Seq<char>, Seq<char>)| encoded_field(q)));
        let q = p.last();
        assert(p[p.len() - 1] == q);
        assert(pieces.last() == encoded_field(q));
        lemma_split_field(q);
        assert(decodes_back(url_encoded(q.0)));
        assert(decoded_or_same(url_encoded(q.0)) == q.0);
        assert(decoded_or_same(url_encoded(q.1)) == q.1);
        lemma_key_index_bound(pp, q.0);
        if key_index(pp, q.0) is Some {
            let i = key_index(pp, q.0)->0;
            assert(pp[i as int] == p[i as int]);
            assert(p[i as int].0 != p[p.len() - 1].0);
        }
        assert(pp.push(q) =~= p);
    }
}

// ------------------------------------------------------------------------------------------------
// Request matching
// ------------------------------------------------------------------------------------------------

/// Headers whose values change from one run to the next.
pub open spec fn unstable_header_names() -> Seq<Seq<char>> {
    seq![
        "cookie"@,
        "set-cookie"@,
        "authorization"@,
        "x-csrf-token"@,
        "csrf-token"@,
        "sessionid"@,
        "session"@,
        "x-session-id"@,
        "x-auth-token"@,
        "auth-token"@,
    ]
}

/// A header is unstable when its lower-cased name contains one of the unstable names.
pub open spec fn is_unstable_header(name: Seq<char>) -> bool {
    exists|k: int| 0 <= k < 10 && contains_seq(lowercase(name), #[trigger] unstable_header_names()[k])
}

fn unstable_names() -> (res: Vec<String>)
    ensures
        res.deep_view() == unstable_header_names(),
{
    let mut v: Vec<String> = Vec::new();
    v.push(String::from_str("cookie"));
    v.push(String::from_str("set-cookie"));
    v.push(String::from_str("authorization"));
    v.push(String::from_str("x-csrf-token"));
    v.push(String::from_str("csrf-token"));
    v.push(String::from_str("sessionid"));
    v.push(String::from_str("session"));
    v.push(String::from_str("x-session-id"));
    v.push(String::from_str("x-auth-token"));
    v.push(String::from_str("auth-token"));
    assert(v.deep_view() =~= unstable_header_names());
    v
}

fn header_is_unstable(name: &str) -> (res: bool)
    ensures
        res == is_unstable_header(name@),
{
    let lower = to_lowercase(name);
    let names = unstable_names();
    assert(names@.len() == names.deep_view().len());
    let mut k: usize = 0;
    while k < 10
        invariant
            k <= 10,
            names@.len() == 10,
            names.deep_view() == unstable_header_names(),
            lower@ == lowercase(name@),
            forall|j: int| 0 <= j < k ==> !contains_seq(lowercase(name@), #[trigger] unstable_header_names()[j]),
        decreases 10 - k,
    {
        assert(names@[k as int]@ == unstable_header_names()[k as int]);
        if str_contains(lower.as_str(), names[k].as_str()) {
            return true;
        }
        k = k + 1;
    }
    false
}

/// The values of the first header named exactly `name`.
pub open spec fn header_lookup(hs: Seq<(Seq<char>, Seq<Seq<char>>)>, name: Seq<char>) -> Option<Seq<Seq<char>>>
    decreases hs.len(),
{
    if hs.len() == 0 {
        None
    } else if hs[0].0 == name {
        Some(hs[0].1)
    } else {
        header_lookup(hs.drop_first(), name)
    }
}

/// A recorded header is matched: it is unstable, or the request has it with the same values,
/// or it is a content type that a GET request lacks.
pub open spec fn header_matches(
    method: Seq<char>,
    headers: Seq<(Seq<char>, Seq<Seq<char>>)>,
    name: Seq<char>,
    values: Seq<Seq<char>>,
) -> bool {
    is_unstable_header(name) || match header_lookup(headers, name) {
        Some(vs) => vs == values,
        None => lowercase(name) == "content-type"@ && method == "GET"@,
    }
}

/// Matches requests with recorded ones by method, URL and stable headers.
#[derive(Debug, Clone, Copy)]
pub struct LastFmEditVcrMatcher {
    pub match_method: bool,
    pub match_url: bool,
    pub match_body: bool,
}

fn lookup_header<'a>(hs: &'a Vec<(String, Vec<String>)>, name: &str) -> (res: Option<&'a Vec<String>>)
    ensures
        match header_lookup(hs.deep_view(), name@) {
            Some(vs) => res matches Some(r) && r.deep_view() == vs,
            None => res is None,
        },
{
    let ghost hv = hs.deep_view();
    let target = String::from_str(name);
    let mut i: usize = 0;
    assert(hv.skip(0) =~= hv);
    while i < hs.len()
        invariant
            i <= hs@.len(),
            hv == hs.deep_view(),
            target@ == name@,
            header_lookup(hv.skip(i as int), name@) == header_lookup(hv, name@),
        decreases hs.len() - i,
    {
        assert(hv.skip(i as int)[0] == hv[i as int]);
        if hs[i].0.eq(&target) {
            return Some(&hs[i].1);
        }
        assert(hv.skip(i as int).drop_first() =~= hv.skip(i + 1));
        i = i + 1;
    }
    None
}

fn same_strings(a: &Vec<String>, b: &Vec<String>) -> (res: bool)
    ensures
        res == (a.deep_view() == b.deep_view()),
{
    if a.len() != b.len() {
        assert(a.deep_view().len() != b.deep_view().len());
        return false;
    }
    let mut i: usize = 0;
    while i < a.len()
        invariant
            i <= a@.len(),
            a@.len() == b@.len(),
            forall|j: int| 0 <= j < i ==> a.deep_view()[j] == b.deep_view()[j],
        decreases a.len() - i,
    {
        if !a[i].eq(&b[i]) {
            assert(a.deep_view()[i as int] != b.deep_view()[i as int]);
            return false;
        }
        i = i + 1;
    }
    assert(a.deep_view() =~= b.deep_view());
    true
}

impl LastFmEditVcrMatcher {
    /// Matches by method and URL, not by body.
    pub fn new() -> (res: Self)
        ensures
            res.match_method && res.match_url && !res.match_body,
    {
        LastFmEditVcrMatcher { match_method: true, match_url: true, match_body: false }
    }

    /// Sets whether bodies are matched; nothing else changes.
    pub fn with_body(self, match_body: bool) -> (res: Self)
        ensures
            res.match_method == self.match_method,
            res.match_url == self.match_url,
            res.match_body == match_body,
    {
        LastFmEditVcrMatcher { match_body, ..self }
    }

    /// Whether a request matches a recorded one: the same method and URL where those are
    /// matched, and every stable recorded header present in the request with the same values.
    pub fn matches_serializable(
        &self,
        method: &str,
        url: &str,
        headers: &Vec<(String, Vec<String>)>,
        recorded_method: &str,
        recorded_url: &str,
        recorded_headers: &Vec<(String, Vec<String>)>,
    ) -> (res: bool)
        ensures
            res == ((!self.match_method || method@ == recorded_method@) && (!self.match_url || url@ == recorded_url@)
                && forall|i: int| 0 <= i < recorded_headers@.len() ==> header_matches(
                    method@,
                    headers.deep_view(),
                    #[trigger] recorded_headers.deep_view()[i].0,
                    recorded_headers.deep_view()[i].1,
                )),
    {
        if self.match_method && !String::from_str(method).eq(&String::from_str(recorded_method)) {
            return false;
        }
        if self.match_url && !String::from_str(url).eq(&String::from_str(recorded_url)) {
            return false;
        }
        let ghost rv = recorded_headers.deep_view();
        let mut i: usize = 0;
        while i < recorded_headers.len()
            invariant
                i <= recorded_headers@.len(),
                rv == recorded_headers.deep_view(),
                !self.match_method || method@ == recorded_method@,
                !self.match_url || url@ == recorded_url@,
                forall|j: int| 0 <= j < i ==> header_matches(method@, headers.deep_view(), #[trigger] rv[j].0, rv[j].1),
            decreases recorded_headers.len() - i,
        {
            let name = recorded_headers[i].0.as_str();
            let values = &recorded_headers[i].1;
            assert(rv[i as int] == (name@, values.deep_view()));
            if !header_is_unstable(name) {
                match lookup_header(headers, name) {
                    Some(req_values) => {
                        if !same_strings(req_values, values) {
                            assert(!header_matches(method@, headers.deep_view(), rv[i as int].0, rv[i as int].1));
                            return false;
                        }
                    },
                    None => {
                        let lower = to_lowercase(name);
                        if !(lower.eq(&String::from_str("content-type")) && String::from_str(method).eq(&String::from_str("GET"))) {
                            assert(!header_matches(method@, headers.deep_view(), rv[i as int].0, rv[i as int].1));
                            return false;
                        }
                    },
                }
            }
            i = i + 1;
        }
        true
    }
}

// ------------------------------------------------------------------------------------------------
// Masking secrets
// ------------------------------------------------------------------------------------------------

/// The cookie that stands for any session cookie.
pub open spec fn test_session_cookie() -> Seq<char> {
    "sessionid=test_session_id"@
}

/// A cookie with a session cookie's value masked.
pub open spec fn masked_cookie(c: Seq<char>) -> Seq<char> {
    if starts_with_seq(trim_spec(c), "sessionid="@) { test_session_cookie() } else { trim_spec(c) }
}

/// A `Cookie` header with each session cookie masked, the cookies trimmed and joined by `; `.
pub open spec fn masked_cookie_header(h: Seq<char>) -> Seq<char> {
    join_spec(split_spec(h, ';').map_values(|c: Seq<char>| masked_cookie(c)), "; "@)
}

/// A `Set-Cookie` header with the value of a session cookie masked and its attributes kept.
pub open spec fn masked_set_cookie(h: Seq<char>) -> Seq<char> {
    if starts_with_seq(h, "sessionid="@) {
        if h.contains(';') {
            test_session_cookie() + h.skip(index_of_char(h, ';'))
        } else {
            test_session_cookie()
        }
    } else {
        h
    }
}

/// A form body with its password field, if any, set to a fixed test value.
pub open spec fn masked_form_body(body: Seq<char>) -> Seq<char> {
    if body.contains('=') && (body.contains('&') || !body.contains(' ')) {
        let params = form_fields(split_spec(body, '&'));
        if key_index(params, "password"@) is Some {
            encoded_form(assoc_insert(params, "password"@, "test_password"@))
        } else {
            body
        }
    } else {
        body
    }
}

/// Masks passwords in recorded request bodies and session cookies in recorded headers.
#[derive(Debug, Clone, Copy)]
pub struct LastFmPasswordOnlyFilter;

impl LastFmPasswordOnlyFilter {
    /// Masks the session cookies of a `Cookie` header.
    pub fn filter_session_cookies(&self, cookie_header: &str) -> (res: String)
        ensures
            res@ == masked_cookie_header(cookie_header@),
    {
        let cs = chars_of(cookie_header);
        let parts = split_chars(&cs, ';');
        let ghost pv = parts.deep_view();
        let ghost mapped = pv.map_values(|c: Seq<char>| masked_cookie(c));
        let mut out = String::new();
        let mut i: usize = 0;
        while i < parts.len()
            invariant
                i <= parts@.len(),
                pv == parts.deep_view(),
                mapped == pv.map_values(|c: Seq<char>| masked_cookie(c)),
                out@ == join_spec(mapped.take(i as int), "; "@),
            decreases parts.len() - i,
        {
            assert(mapped.take(i + 1).drop_last() =~= mapped.take(i as int));
            let cookie = trim_string(parts[i].as_str());
            let piece = if str_starts_with(cookie.as_str(), "sessionid=") {
                String::from_str("sessionid=test_session_id")
            } else {
                cookie
            };
            assert(piece@ == mapped[i as int]);
            if i > 0 {
                out.append("; ");
            }
            out.append(piece.as_str());
            assert(out@ =~= join_spec(mapped.take(i + 1), "; "@));
            i = i + 1;
        }
        assert(mapped.take(i as int) =~= mapped);
        out
    }

    /// Masks the session cookie of a `Set-Cookie` header.
    pub fn filter_set_cookie_session(&self, set_cookie_header: &str) -> (res: String)
        ensures
            res@ == masked_set_cookie(set_cookie_header@),
    {
        if str_starts_with(set_cookie_header, "sessionid=") {
            let cs = chars_of(set_cookie_header);
            match find_char(&cs, ';') {
                Some(p) => {
                    proof {
                        lemma_index_of_char(cs@, ';', p as int);
                    }
                    let attrs = slice_chars(&cs, p, cs.len());
                    assert(attrs@ =~= cs@.skip(p as int));
                    let mut out = String::from_str("sessionid=test_session_id");
                    out.append(string_of(&attrs).as_str());
                    out
                },
                None => String::from_str("sessionid=test_session_id"),
            }
        } else {
            String::from_str(set_cookie_header)
        }
    }

    /// Masks the password of a form body; other bodies are kept as they are.
    pub fn filter_request_body(&self, body: &str) -> (res: String)
        ensures
            res@ == masked_form_body(body@),
    {
        let cs = chars_of(body);
        let has_eq = find_char(&cs, '=').is_some();
        let has_amp = find_char(&cs, '&').is_some();
        let has_space = find_char(&cs, ' ').is_some();
        if has_eq && (has_amp || !has_space) {
            let mut params = parse_form_data(body);
            proof {
                lemma_key_index_bound(params.deep_view(), "password"@);
            }
            if find_key(&params, "password").is_some() {
                form_insert(&mut params, String::from_str("password"), String::from_str("test_password"));
                encode_form_data(&params)
            } else {
                String::from_str(body)
            }
        } else {
            String::from_str(body)
        }
    }

    /// Masks the session cookies of each value of a `Cookie` header.
    pub fn filter_cookie_values(&self, values: &Vec<String>) -> (res: Vec<String>)
        ensures
            res@.len() == values@.len(),
            forall|i: int| 0 <= i < values@.len() ==> (#[trigger] res@[i])@ == masked_cookie_header(values@[i]@),
    {
        let mut out: Vec<String> = Vec::new();
        let mut i: usize = 0;
        while i < values.len()
            invariant
                i <= values@.len(),
                out@.len() == i,
                forall|j: int| 0 <= j < i ==> (#[trigger] out@[j])@ == masked_cookie_header(values@[j]@),
            decreases values.len() - i,
        {
            out.push(self.filter_session_cookies(values[i].as_str()));
            i = i + 1;
        }
        out
    }

    /// Masks the session cookie of each value of a `Set-Cookie` header that holds one.
    pub fn filter_set_cookie_values(&self, values: &Vec<String>) -> (res: Vec<String>)
        ensures
            res@.len() == values@.len(),
            forall|i: int| 0 <= i < values@.len() ==> (#[trigger] res@[i])@ == (if contains_seq(values@[i]@, "sessionid="@) {
                masked_set_cookie(values@[i]@)
            } else {
                values@[i]@
            }),
    {
        let mut out: Vec<String> = Vec::new();
        let mut i: usize = 0;
        while i < values.len()
            invariant
                i <= values@.len(),
                out@.len() == i,
                forall|j: int| 0 <= j < i ==> (#[trigger] out@[j])@ == (if contains_seq(values@[j]@, "sessionid="@) {
                    masked_set_cookie(values@[j]@)
                } else {
                    values@[j]@
                }),
            decreases values.len() - i,
        {
            let v = values[i].as_str();
            if str_contains(v, "sessionid=") {
                out.push(self.filter_set_cookie_session(v));
            } else {
                out.push(values[i].clone());
            }
            i = i + 1;
        }
        out
    }
}

} // verus!
