//! Character-level string utilities with exact specifications.

use vstd::prelude::*;
use vstd::std_specs::iter::IteratorSpec;

verus! {

broadcast use vstd::string::group_string_axioms;

/// Appends one character to a string.
#[verifier::external_body]
pub fn push_char(s: &mut String, c: char)
    ensures
        final(s)@ == old(s)@.push(c),
{
    s.push(c)
}

/// The characters of `s`, in order.
pub fn chars_of(s: &str) -> (res: Vec<char>)
    ensures
        res@ == s@,
{
    let mut it = s.chars();
    let mut v: Vec<char> = Vec::new();
    loop
        invariant
            v@ + it.remaining() == s@,
            it.obeys_prophetic_iter_laws(),
            it.decrease() is Some,
        decreases it.decrease()->0,
    {
        let ghost before = it.remaining();
        match it.next() {
            Some(c) => {
                v.push(c);
                assert(v@ + it.remaining() =~= s@);
            },
            None => {
                assert(v@ =~= s@);
                return v;
            },
        }
    }
}


// ------------------------------------------------------------------------------------------------
// Decimal numbers
// ------------------------------------------------------------------------------------------------

pub open spec fn is_ascii_digit(c: char) -> bool {
    '0' <= c && c <= '9'
}

pub open spec fn digit_value(c: char) -> nat {
    (c as int - '0' as int) as nat
}

pub open spec fn all_digits(s: Seq<char>) -> bool {
    forall|i: int| 0 <= i < s.len() ==> is_ascii_digit(#[trigger] s[i])
}

/// The number that a string of decimal digits denotes.
pub open spec fn decimal_value(s: Seq<char>) -> nat
    decreases s.len(),
{
    if s.len() == 0 {
        0
    } else {
        decimal_value(s.drop_last()) * 10 + digit_value(s.last())
    }
}

/// The digits of an unsigned number as `str::parse` reads them: one optional leading `+`.
pub open spec fn unsigned_digits(s: Seq<char>) -> Seq<char> {
    if s.len() > 0 && s[0] == '+' {
        s.drop_first()
    } else {
        s
    }
}

/// What `str::parse` returns for an unsigned integer type whose largest value is `max`:
/// an optional `+`, then at least one ASCII digit and nothing else, of value at most `max`.
pub open spec fn parse_unsigned(s: Seq<char>, max: nat) -> Option<nat> {
    let d = unsigned_digits(s);
    if d.len() > 0 && all_digits(d) && decimal_value(d) <= max {
        Some(decimal_value(d))
    } else {
        None
    }
}

pub open spec fn parse_u64_spec(s: Seq<char>) -> Option<u64> {
    match parse_unsigned(s, u64::MAX as nat) {
        Some(v) => Some(v as u64),
        None => None,
    }
}

pub open spec fn parse_u32_spec(s: Seq<char>) -> Option<u32> {
    match parse_unsigned(s, u32::MAX as nat) {
        Some(v) => Some(v as u32),
        None => None,
    }
}

pub proof fn lemma_decimal_value_prefix(s: Seq<char>, k: int)
    requires
        0 <= k < s.len(),
    ensures
        decimal_value(s.take(k + 1)) == decimal_value(s.take(k)) * 10 + digit_value(s[k]),
{
    assert(s.take(k + 1).drop_last() =~= s.take(k));
}

pub proof fn lemma_decimal_value_monotone(s: Seq<char>, k: int)
    requires
        0 <= k <= s.len(),
    ensures
        decimal_value(s.take(k)) <= decimal_value(s),
    decreases s.len() - k,
{
    if k < s.len() {
        lemma_decimal_value_prefix(s, k);
        lemma_decimal_value_monotone(s, k + 1);
    } else {
        assert(s.take(k) =~= s);
    }
}

/// Parses an unsigned decimal number no larger than `max`, as `str::parse` does.
pub fn parse_unsigned_bounded(s: &str, max: u64) -> (res: Option<u64>)
    ensures
        match parse_unsigned(s@, max as nat) {
            Some(v) => res == Some(v as u64),
            None => res is None,
        },
{
    let cs = chars_of(s);
    let n = cs.len();
    let start: usize = if n > 0 && cs[0] == '+' { 1 } else { 0 };
    let ghost d = unsigned_digits(s@);
    assert(d =~= cs@.subrange(start as int, n as int));
    if start == n {
        return None;
    }
    let mut acc: u64 = 0;
    let mut i: usize = start;
    while i < n
        invariant
            start <= i <= n,
            n == cs@.len(),
            cs@ == s@,
            d == cs@.subrange(start as int, n as int),
            d == unsigned_digits(s@),
            d.len() > 0,
            all_digits(d.take(i - start)),
            acc == decimal_value(d.take(i - start)),
            acc <= max,
        decreases n - i,
    {
        let c = cs[i];
        if !('0' <= c && c <= '9') {
            assert(d[i - start] == cs@[i as int]);
            assert(!is_ascii_digit(d[i - start]));
            assert(!all_digits(d));
            return None;
        }
        let dv: u64 = (c as u64) - ('0' as u64);
        proof {
            lemma_decimal_value_prefix(d, i - start);
            assert(d[i - start] == cs@[i as int]);
            assert(dv == digit_value(d[i - start]));
        }
        if dv > max || acc > (max - dv) / 10 {
            proof {
                assert(acc * 10 + dv > max) by (nonlinear_arith)
                    requires
                        dv > max || acc > (max - dv) / 10,
                        dv <= 9,
                ;
                lemma_decimal_value_monotone(d, i - start + 1);
                assert(decimal_value(d) > max);
            }
            return None;
        }
        assert(acc * 10 + dv <= max) by (nonlinear_arith)
            requires
                dv <= max,
                acc <= (max - dv) / 10,
        ;
        acc = acc * 10 + dv;
        assert(all_digits(d.take(i + 1 - start))) by {
            assert forall|j: int| 0 <= j < d.take(i + 1 - start).len() implies is_ascii_digit(
                #[trigger] d.take(i + 1 - start)[j],
            ) by {
                if j < i - start {
                    assert(d.take(i + 1 - start)[j] == d.take(i - start)[j]);
                }
            }
        }
        i = i + 1;
    }
    assert(d.take(n - start) =~= d);
    Some(acc)
}

pub fn parse_u64(s: &str) -> (res: Option<u64>)
    ensures
        res == parse_u64_spec(s@),
{
    parse_unsigned_bounded(s, u64::MAX)
}

pub fn parse_u32(s: &str) -> (res: Option<u32>)
    ensures
        res == parse_u32_spec(s@),
{
    match parse_unsigned_bounded(s, u32::MAX as u64) {
        Some(v) => Some(v as u32),
        None => None,
    }
}

pub open spec fn digit_char(d: nat) -> char {
    if d == 0 { '0' }
    else if d == 1 { '1' }
    else if d == 2 { '2' }
    else if d == 3 { '3' }
    else if d == 4 { '4' }
    else if d == 5 { '5' }
    else if d == 6 { '6' }
    else if d == 7 { '7' }
    else if d == 8 { '8' }
    else { '9' }
}

/// The decimal representation of `n`, without sign or leading zeros, as `to_string` writes it.
pub open spec fn decimal_digits(n: nat) -> Seq<char>
    decreases n,
{
    if n < 10 {
        seq![digit_char(n)]
    } else {
        decimal_digits(n / 10).push(digit_char(n % 10))
    }
}

fn digit_to_char(d: u64) -> (c: char)
    requires
        d < 10,
    ensures
        c == digit_char(d as nat),
{
    if d == 0 { '0' }
    else if d == 1 { '1' }
    else if d == 2 { '2' }
    else if d == 3 { '3' }
    else if d == 4 { '4' }
    else if d == 5 { '5' }
    else if d == 6 { '6' }
    else if d == 7 { '7' }
    else if d == 8 { '8' }
    else { '9' }
}

/// Formats `n` in decimal.
pub fn u64_to_string(n: u64) -> (res: String)
    ensures
        res@ == decimal_digits(n as nat),
    decreases n,
{
    if n < 10 {
        let mut s = String::new();
        push_char(&mut s, digit_to_char(n));
        s
    } else {
        let mut s = u64_to_string(n / 10);
        push_char(&mut s, digit_to_char(n % 10));
        s
    }
}

pub proof fn lemma_digit_char_value(d: nat)
    requires
        d < 10,
    ensures
        is_ascii_digit(digit_char(d)),
        digit_value(digit_char(d)) == d,
        digit_char(d) != '+',
{
}

pub proof fn lemma_decimal_digits_props(n: nat)
    ensures
        forall|i: int| 0 <= i < decimal_digits(n).len() ==> #[trigger] decimal_digits(n)[i] != '+',
        decimal_digits(n).len() > 0,
        all_digits(decimal_digits(n)),
        decimal_value(decimal_digits(n)) == n,
        decimal_digits(n)[0] != '+',
    decreases n,
{
    lemma_digit_char_value(n % 10);
    if n < 10 {
        assert(decimal_digits(n).drop_last() =~= Seq::<char>::empty());
        assert(n % 10 == n);
        assert(decimal_value(Seq::<char>::empty()) == 0);
        assert(decimal_digits(n).last() == digit_char(n));
        assert(decimal_value(decimal_digits(n)) == decimal_value(decimal_digits(n).drop_last()) * 10
            + digit_value(decimal_digits(n).last()));
    } else {
        lemma_decimal_digits_props(n / 10);
        let s = decimal_digits(n);
        assert(s.last() == digit_char(n % 10));
        assert(n == (n / 10) * 10 + n % 10) by (nonlinear_arith);
        assert(decimal_value(s) == decimal_value(s.drop_last()) * 10 + digit_value(s.last()));
        assert(s.drop_last() =~= decimal_digits(n / 10));
        assert(s[0] == decimal_digits(n / 10)[0]);
        assert forall|i: int| 0 <= i < s.len() implies #[trigger] s[i] != '+' by {
            if i < s.len() - 1 {
                assert(s[i] == decimal_digits(n / 10)[i]);
            }
        }
    }
}

/// Reading back what `u64_to_string` wrote gives the number again.
pub proof fn lemma_parse_decimal_digits(n: nat, max: nat)
    requires
        n <= max,
    ensures
        parse_unsigned(decimal_digits(n), max) == Some(n),
{
    lemma_decimal_digits_props(n);
}


// ------------------------------------------------------------------------------------------------
// Searching
// ------------------------------------------------------------------------------------------------

/// `n` occurs in `h` starting at position `i`.
pub open spec fn occurs_at(h: Seq<char>, n: Seq<char>, i: int) -> bool {
    0 <= i && i + n.len() <= h.len() && h.subrange(i, i + n.len()) == n
}

/// `str::contains` with a string pattern.
pub open spec fn contains_seq(h: Seq<char>, n: Seq<char>) -> bool {
    exists|i: int| occurs_at(h, n, i)
}

/// `str::starts_with` with a string pattern.
pub open spec fn starts_with_seq(h: Seq<char>, n: Seq<char>) -> bool {
    occurs_at(h, n, 0)
}

/// `i` is the first position of `c` in `s`.
pub open spec fn first_index_of(s: Seq<char>, c: char, i: int) -> bool {
    0 <= i < s.len() && s[i] == c && forall|j: int| 0 <= j < i ==> s[j] != c
}

pub fn chars_occur_at(h: &Vec<char>, n: &Vec<char>, i: usize) -> (res: bool)
    ensures
        res == occurs_at(h@, n@, i as int),
{
    if i > h.len() || n.len() > h.len() - i {
        return false;
    }
    let mut k: usize = 0;
    while k < n.len()
        invariant
            i + n@.len() <= h@.len(),
            i + n@.len() <= h.len(),
            k <= n@.len(),
            forall|j: int| 0 <= j < k ==> h@[i + j] == n@[j],
        decreases n.len() - k,
    {
        if h[i + k] != n[k] {
            assert(h@.subrange(i as int, i + n@.len())[k as int] != n@[k as int]);
            return false;
        }
        k = k + 1;
    }
    assert(h@.subrange(i as int, i + n@.len()) =~= n@);
    true
}

pub fn chars_contain(h: &Vec<char>, n: &Vec<char>) -> (res: bool)
    ensures
        res == contains_seq(h@, n@),
{
    if n.len() > h.len() {
        return false;
    }
    let last = h.len() - n.len();
    let mut i: usize = 0;
    loop
        invariant
            last == h@.len() - n@.len(),
            i <= last,
            forall|j: int| 0 <= j < i ==> !occurs_at(h@, n@, j),
        decreases last - i,
    {
        if chars_occur_at(h, n, i) {
            return true;
        }
        if i == last {
            assert forall|j: int| !occurs_at(h@, n@, j) by {
                if 0 <= j && j + n@.len() <= h@.len() {
                    assert(j <= last);
                }
            }
            return false;
        }
        i = i + 1;
    }
}

/// Whether `n` occurs in `h`.
pub fn str_contains(h: &str, n: &str) -> (res: bool)
    ensures
        res == contains_seq(h@, n@),
{
    let hc = chars_of(h);
    let nc = chars_of(n);
    chars_contain(&hc, &nc)
}

/// Whether `h` begins with `n`.
pub fn str_starts_with(h: &str, n: &str) -> (res: bool)
    ensures
        res == starts_with_seq(h@, n@),
{
    let hc = chars_of(h);
    let nc = chars_of(n);
    chars_occur_at(&hc, &nc, 0)
}

/// The first position of `c` in `s`.
pub fn find_char(s: &Vec<char>, c: char) -> (res: Option<usize>)
    ensures
        match res {
            Some(i) => first_index_of(s@, c, i as int),
            None => !s@.contains(c),
        },
{
    let mut i: usize = 0;
    while i < s.len()
        invariant
            i <= s@.len(),
            forall|j: int| 0 <= j < i ==> s@[j] != c,
        decreases s.len() - i,
    {
        if s[i] == c {
            return Some(i);
        }
        i = i + 1;
    }
    None
}

/// The first position of `c` in `s`, when `s` contains `c`.
pub open spec fn index_of_char(s: Seq<char>, c: char) -> int {
    choose|i: int| first_index_of(s, c, i)
}

pub proof fn lemma_index_of_char(s: Seq<char>, c: char, i: int)
    requires
        first_index_of(s, c, i),
    ensures
        index_of_char(s, c) == i,
{
    let k = index_of_char(s, c);
    assert(first_index_of(s, c, k));
    if k < i {
        assert(s[k] != c);
    } else if i < k {
        assert(s[i] != c);
    }
}

/// The part of `s` before the first `c`, and the part after it, when `s` contains `c`.
pub open spec fn split_once_spec(s: Seq<char>, c: char) -> Option<(Seq<char>, Seq<char>)> {
    if s.contains(c) {
        Some((s.take(index_of_char(s, c)), s.skip(index_of_char(s, c) + 1)))
    } else {
        None
    }
}

/// `str::split_once` with a character: the parts before and after the first `c`.
pub fn split_once_chars(s: &Vec<char>, c: char) -> (res: Option<(Vec<char>, Vec<char>)>)
    ensures
        match split_once_spec(s@, c) {
            Some((a, b)) => res matches Some(r) && r.0@ == a && r.1@ == b,
            None => res is None,
        },
{
    match find_char(s, c) {
        Some(i) => {
            proof {
                lemma_index_of_char(s@, c, i as int);
            }
            assert(i < s.len());
            let a = slice_chars(s, 0, i);
            let b = slice_chars(s, i + 1, s.len());
            assert(a@ =~= s@.take(i as int));
            assert(b@ =~= s@.skip(i + 1));
            Some((a, b))
        },
        None => None,
    }
}

/// The characters of `s` from position `a` up to, not including, `b`.
pub fn slice_chars(s: &Vec<char>, a: usize, b: usize) -> (res: Vec<char>)
    requires
        a <= b <= s@.len(),
    ensures
        res@ == s@.subrange(a as int, b as int),
{
    let mut out: Vec<char> = Vec::new();
    let mut i = a;
    while i < b
        invariant
            a <= i <= b,
            b <= s@.len(),
            out@ == s@.subrange(a as int, i as int),
        decreases b - i,
    {
        out.push(s[i]);
        assert(out@ =~= s@.subrange(a as int, i + 1));
        i = i + 1;
    }
    out
}

/// `str::split` with a character separator: the pieces between the separators, in order.
/// There is always at least one piece.
pub open spec fn split_spec(s: Seq<char>, c: char) -> Seq<Seq<char>>
    decreases s.len(),
{
    if s.len() == 0 {
        seq![Seq::<char>::empty()]
    } else {
        let prev = split_spec(s.drop_last(), c);
        if s.last() == c {
            prev.push(Seq::<char>::empty())
        } else {
            prev.update(prev.len() - 1, prev.last().push(s.last()))
        }
    }
}

pub proof fn lemma_split_nonempty(s: Seq<char>, c: char)
    ensures
        split_spec(s, c).len() >= 1,
    decreases s.len(),
{
    if s.len() > 0 {
        lemma_split_nonempty(s.drop_last(), c);
    }
}

/// A text without the separator is one piece.
pub proof fn lemma_split_no_sep(s: Seq<char>, c: char)
    requires
        !s.contains(c),
    ensures
        split_spec(s, c) == seq![s],
    decreases s.len(),
{
    if s.len() == 0 {
        assert(s =~= Seq::<char>::empty());
    } else {
        let p = s.drop_last();
        assert(!p.contains(c)) by {
            if p.contains(c) {
                let k = choose|k: int| 0 <= k < p.len() && p[k] == c;
                assert(s[k] == c);
            }
        }
        lemma_split_no_sep(p, c);
        assert(s.last() != c) by {
            assert(s[s.len() - 1] == s.last());
        }
        assert(p.push(s.last()) =~= s);
        assert(seq![p].update(0, p.push(s.last())) =~= seq![s]);
    }
}

/// Splitting at a separator between two texts gives the pieces of each, in order.
pub proof fn lemma_split_concat(x: Seq<char>, y: Seq<char>, c: char)
    ensures
        split_spec(x + seq![c] + y, c) == split_spec(x, c) + split_spec(y, c),
    decreases y.len(),
{
    let xy = x + seq![c] + y;
    lemma_split_nonempty(x, c);
    if y.len() == 0 {
        assert(xy.drop_last() =~= x);
        assert(xy.last() == c);
        assert(split_spec(x, c).push(Seq::<char>::empty()) =~= split_spec(x, c) + seq![Seq::<char>::empty()]);
    } else {
        let yp = y.drop_last();
        lemma_split_concat(x, yp, c);
        lemma_split_nonempty(yp, c);
        assert(xy.drop_last() =~= x + seq![c] + yp);
        assert(xy.last() == y.last());
        let a = split_spec(x, c);
        let b = split_spec(yp, c);
        if y.last() == c {
            assert((a + b).push(Seq::<char>::empty()) =~= a + b.push(Seq::<char>::empty()));
        } else {
            let ab = a + b;
            assert(ab.last() == b.last());
            assert(ab.update(ab.len() - 1, ab.last().push(y.last())) =~= a + b.update(b.len() - 1, b.last().push(y.last())));
        }
    }
}

/// The pieces of `s` between the separators `c`.
pub fn split_chars(s: &Vec<char>, c: char) -> (res: Vec<String>)
    ensures
        res.deep_view() == split_spec(s@, c),
{
    let mut done: Vec<String> = Vec::new();
    let mut cur: String = String::new();
    let mut i: usize = 0;
    assert(s@.take(0) =~= Seq::<char>::empty());
    assert(done.deep_view().push(cur@) =~= seq![Seq::<char>::empty()]);
    while i < s.len()
        invariant
            i <= s@.len(),
            done.deep_view().push(cur@) == split_spec(s@.take(i as int), c),
        decreases s.len() - i,
    {
        let ghost t = s@.take(i + 1);
        assert(t.drop_last() =~= s@.take(i as int));
        proof {
            lemma_split_nonempty(s@.take(i as int), c);
        }
        let ghost prev = split_spec(s@.take(i as int), c);
        let ghost dv0 = done.deep_view();
        let ghost cur0 = cur@;
        assert(prev.last() == cur0);
        if s[i] == c {
            let piece = cur;
            done.push(piece);
            cur = String::new();
            assert(done.deep_view() =~= dv0.push(cur0));
            assert(done.deep_view().push(cur@) =~= split_spec(t, c));
        } else {
            push_char(&mut cur, s[i]);
            assert(t.last() == s@[i as int]);
            assert(dv0.push(cur@) =~= prev.update(prev.len() - 1, prev.last().push(t.last())));
            assert(done.deep_view().push(cur@) =~= split_spec(t, c));
        }
        i = i + 1;
    }
    assert(s@.take(i as int) =~= s@);
    let ghost dv1 = done.deep_view();
    let ghost cur1 = cur@;
    done.push(cur);
    assert(done.deep_view() =~= dv1.push(cur1));
    done
}

/// The first position at which `n` occurs in `h`, as `str::find` with a string pattern gives it.
pub open spec fn find_seq_spec(h: Seq<char>, n: Seq<char>) -> Option<nat>
    decreases h.len(),
{
    if occurs_at(h, n, 0) {
        Some(0)
    } else if h.len() == 0 {
        None
    } else {
        match find_seq_spec(h.drop_first(), n) {
            Some(k) => Some(k + 1),
            None => None,
        }
    }
}

pub proof fn lemma_occurs_at_skip(h: Seq<char>, n: Seq<char>, i: int, k: int)
    requires
        0 <= i <= h.len(),
        0 <= k,
    ensures
        occurs_at(h.skip(i), n, k) == occurs_at(h, n, i + k),
{
    if k + n.len() <= h.len() - i {
        assert(h.skip(i).subrange(k, k + n.len()) =~= h.subrange(i + k, i + k + n.len()));
    }
}

/// The first position of `n` in `h`.
pub fn find_chars(h: &Vec<char>, n: &Vec<char>) -> (res: Option<usize>)
    ensures
        match find_seq_spec(h@, n@) {
            Some(k) => res == Some(k as usize),
            None => res is None,
        },
{
    let mut i: usize = 0;
    assert(h@.skip(0) =~= h@);
    while i <= h.len()
        invariant
            i <= h@.len() + 1,
            i <= h@.len() ==> match find_seq_spec(h@.skip(i as int), n@) {
                Some(k) => find_seq_spec(h@, n@) == Some((k + i) as nat),
                None => find_seq_spec(h@, n@) is None,
            },
            i > h@.len() ==> find_seq_spec(h@, n@) is None,
        decreases h@.len() + 1 - i,
    {
        proof {
            lemma_occurs_at_skip(h@, n@, i as int, 0);
        }
        if chars_occur_at(h, n, i) {
            return Some(i);
        }
        if i == h.len() {
            assert(h@.skip(i as int).len() == 0);
            return None;
        }
        proof {
            assert(h@.skip(i as int).drop_first() =~= h@.skip(i + 1));
        }
        i = i + 1;
    }
    None
}

/// The first position of a character that is not an ASCII digit.
pub open spec fn first_non_digit(s: Seq<char>) -> Option<nat>
    decreases s.len(),
{
    if s.len() == 0 {
        None
    } else if !is_ascii_digit(s[0]) {
        Some(0)
    } else {
        match first_non_digit(s.drop_first()) {
            Some(k) => Some(k + 1),
            None => None,
        }
    }
}

/// The first position of a character that is not an ASCII digit.
pub fn find_non_digit(s: &Vec<char>) -> (res: Option<usize>)
    ensures
        match first_non_digit(s@) {
            Some(k) => res == Some(k as usize),
            None => res is None,
        },
{
    let mut i: usize = 0;
    assert(s@.skip(0) =~= s@);
    while i < s.len()
        invariant
            i <= s@.len(),
            match first_non_digit(s@.skip(i as int)) {
                Some(k) => first_non_digit(s@) == Some((k + i) as nat),
                None => first_non_digit(s@) is None,
            },
        decreases s.len() - i,
    {
        let c = s[i];
        if !('0' <= c && c <= '9') {
            return Some(i);
        }
        assert(s@.skip(i as int).drop_first() =~= s@.skip(i + 1));
        i = i + 1;
    }
    None
}

/// `s` without the characters `c`.
pub open spec fn remove_char_spec(s: Seq<char>, c: char) -> Seq<char>
    decreases s.len(),
{
    if s.len() == 0 {
        s
    } else if s.last() == c {
        remove_char_spec(s.drop_last(), c)
    } else {
        remove_char_spec(s.drop_last(), c).push(s.last())
    }
}

/// `s.replace(c, "")`.
pub fn remove_char(s: &str, c: char) -> (res: String)
    ensures
        res@ == remove_char_spec(s@, c),
{
    let cs = chars_of(s);
    let mut out = String::new();
    let mut i: usize = 0;
    while i < cs.len()
        invariant
            i <= cs@.len(),
            cs@ == s@,
            out@ == remove_char_spec(cs@.take(i as int), c),
        decreases cs.len() - i,
    {
        assert(cs@.take(i + 1).drop_last() =~= cs@.take(i as int));
        if cs[i] != c {
            push_char(&mut out, cs[i]);
        }
        i = i + 1;
    }
    assert(cs@.take(i as int) =~= cs@);
    out
}

// ------------------------------------------------------------------------------------------------
// Whitespace
// ------------------------------------------------------------------------------------------------

/// `char::is_whitespace`: the characters with the Unicode `White_Space` property.
pub open spec fn is_whitespace(c: char) -> bool {
    ||| ('\t' <= c && c <= '\r')
    ||| c == ' '
    ||| c == '\u{85}'
    ||| c == '\u{a0}'
    ||| c == '\u{1680}'
    ||| ('\u{2000}' <= c && c <= '\u{200a}')
    ||| c == '\u{2028}'
    ||| c == '\u{2029}'
    ||| c == '\u{202f}'
    ||| c == '\u{205f}'
    ||| c == '\u{3000}'
}

pub fn char_is_whitespace(c: char) -> (res: bool)
    ensures
        res == is_whitespace(c),
{
    ('\t' <= c && c <= '\r') || c == ' ' || c == '\u{85}' || c == '\u{a0}' || c == '\u{1680}'
        || ('\u{2000}' <= c && c <= '\u{200a}') || c == '\u{2028}' || c == '\u{2029}' || c
        == '\u{202f}' || c == '\u{205f}' || c == '\u{3000}'
}

pub open spec fn trim_start_spec(s: Seq<char>) -> Seq<char>
    decreases s.len(),
{
    if s.len() > 0 && is_whitespace(s[0]) {
        trim_start_spec(s.drop_first())
    } else {
        s
    }
}

pub open spec fn trim_end_spec(s: Seq<char>) -> Seq<char>
    decreases s.len(),
{
    if s.len() > 0 && is_whitespace(s.last()) {
        trim_end_spec(s.drop_last())
    } else {
        s
    }
}

/// `str::trim`: without leading and trailing whitespace.
pub open spec fn trim_spec(s: Seq<char>) -> Seq<char> {
    trim_end_spec(trim_start_spec(s))
}

/// The leading run of non-whitespace characters.
pub open spec fn leading_word(s: Seq<char>) -> Seq<char>
    decreases s.len(),
{
    if s.len() > 0 && !is_whitespace(s[0]) {
        seq![s[0]] + leading_word(s.drop_first())
    } else {
        Seq::empty()
    }
}

/// `s.split_whitespace().next()`.
pub open spec fn first_word_spec(s: Seq<char>) -> Option<Seq<char>> {
    let t = trim_start_spec(s);
    if t.len() == 0 {
        None
    } else {
        Some(leading_word(t))
    }
}

fn trim_bounds(s: &Vec<char>) -> (res: (usize, usize))
    ensures
        res.0 <= res.1 <= s@.len(),
        trim_start_spec(s@) == s@.subrange(res.0 as int, s@.len() as int),
        trim_spec(s@) == s@.subrange(res.0 as int, res.1 as int),
{
    let n = s.len();
    let mut a: usize = 0;
    assert(s@.subrange(0, n as int) =~= s@);
    while a < n && char_is_whitespace(s[a])
        invariant
            a <= n,
            n == s@.len(),
            trim_start_spec(s@) == trim_start_spec(s@.subrange(a as int, n as int)),
        decreases n - a,
    {
        assert(s@.subrange(a as int, n as int).drop_first() =~= s@.subrange(a + 1, n as int));
        a = a + 1;
    }
    let ghost t = s@.subrange(a as int, n as int);
    assert(trim_start_spec(t) == t);
    let mut b: usize = n;
    assert(t.subrange(0, (b - a) as int) =~= t);
    while b > a && char_is_whitespace(s[b - 1])
        invariant
            a <= b <= n,
            n == s@.len(),
            t == s@.subrange(a as int, n as int),
            trim_end_spec(t) == trim_end_spec(s@.subrange(a as int, b as int)),
        decreases b,
    {
        assert(s@.subrange(a as int, b as int).drop_last() =~= s@.subrange(a as int, b - 1));
        b = b - 1;
    }
    (a, b)
}

/// `str::trim`.
pub fn trim_chars(s: &Vec<char>) -> (res: Vec<char>)
    ensures
        res@ == trim_spec(s@),
{
    let (a, b) = trim_bounds(s);
    let mut out: Vec<char> = Vec::new();
    let mut i = a;
    while i < b
        invariant
            a <= i <= b <= s@.len(),
            out@ == s@.subrange(a as int, i as int),
        decreases b - i,
    {
        out.push(s[i]);
        assert(out@ =~= s@.subrange(a as int, i + 1));
        i = i + 1;
    }
    out
}

/// `s.trim().to_string()`.
pub fn trim_string(s: &str) -> (res: String)
    ensures
        res@ == trim_spec(s@),
{
    let cs = chars_of(s);
    let t = trim_chars(&cs);
    string_of(&t)
}

/// `s.split_whitespace().next()`.
pub fn first_word(s: &Vec<char>) -> (res: Option<Vec<char>>)
    ensures
        match first_word_spec(s@) {
            Some(w) => res matches Some(r) && r@ == w,
            None => res is None,
        },
{
    let (a, _b) = trim_bounds(s);
    let n = s.len();
    if a == n {
        return None;
    }
    let ghost t = s@.subrange(a as int, n as int);
    let mut out: Vec<char> = Vec::new();
    let mut i = a;
    while i < n && !char_is_whitespace(s[i])
        invariant
            a <= i <= n,
            n == s@.len(),
            t == s@.subrange(a as int, n as int),
            out@ + leading_word(s@.subrange(i as int, n as int)) == leading_word(t),
        decreases n - i,
    {
        let ghost rest = s@.subrange(i as int, n as int);
        assert(rest.drop_first() =~= s@.subrange(i + 1, n as int));
        out.push(s[i]);
        assert(out@ + leading_word(s@.subrange(i + 1, n as int)) =~= leading_word(t));
        i = i + 1;
    }
    assert(leading_word(s@.subrange(i as int, n as int)) =~= Seq::<char>::empty());
    assert(out@ =~= leading_word(t));
    Some(out)
}

/// The string whose characters are `v`.
pub fn string_of(v: &Vec<char>) -> (res: String)
    ensures
        res@ == v@,
{
    let mut s = String::new();
    let mut i: usize = 0;
    while i < v.len()
        invariant
            i <= v@.len(),
            s@ == v@.take(i as int),
        decreases v.len() - i,
    {
        push_char(&mut s, v[i]);
        assert(s@ =~= v@.take(i + 1));
        i = i + 1;
    }
    assert(v@.take(v@.len() as int) =~= v@);
    s
}

// ------------------------------------------------------------------------------------------------
// Case
// ------------------------------------------------------------------------------------------------

/// What `str::to_lowercase` returns for a string (Unicode lowercase mapping).
pub uninterp spec fn lowercase(s: Seq<char>) -> Seq<char>;

/// Calls `str::to_lowercase`, which applies the Unicode lowercase mapping.
#[verifier::external_body]
pub fn to_lowercase(s: &str) -> (res: String)
    ensures
        res@ == lowercase(s@),
{
    s.to_lowercase()
}

} // verus!
