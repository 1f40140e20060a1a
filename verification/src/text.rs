//! Small verified string utilities over the character view of `str`.
use vstd::prelude::*;
use vstd::std_specs::iter::IteratorSpec;

verus! {

broadcast use vstd::string::group_string_axioms;

/// The characters of `s`, in order.
pub fn chars_of(s: &str) -> (v: Vec<char>)
    ensures
        v@ == s@,
{
    let mut it = s.chars();
    let mut v: Vec<char> = Vec::new();
    loop
        invariant
            v@ + it.remaining() == s@,
            it.decrease() is Some,
        ensures
            v@ == s@,
        decreases it.decrease()->0,
    {
        let ghost before = it.remaining();
        match it.next() {
            Some(c) => {
                assert(before.len() > 0);
                v.push(c);
                assert(v@ + it.remaining() =~= s@) by {
                    assert(before =~= seq![c] + it.remaining());
                }
            },
            None => {
                assert(before.len() == 0);
                assert(v@ =~= s@);
                break;
            },
        }
    }
    v
}

/// Whether two character sequences are equal, compared element by element.
pub fn chars_equal(a: &Vec<char>, b: &Vec<char>) -> (r: bool)
    ensures
        r == (a@ == b@),
{
    if a.len() != b.len() {
        return false;
    }
    let mut i: usize = 0;
    while i < a.len()
        invariant
            a@.len() == b@.len(),
            i <= a@.len(),
            forall|j: int| 0 <= j < i ==> a@[j] == b@[j],
        decreases a@.len() - i,
    {
        if a[i] != b[i] {
            return false;
        }
        i = i + 1;
    }
    assert(a@ =~= b@);
    true
}

/// Whether `s` equals `t`.
pub fn str_equals(s: &str, t: &str) -> (r: bool)
    ensures
        r == (s@ == t@),
{
    let a = chars_of(s);
    let b = chars_of(t);
    chars_equal(&a, &b)
}

/// `needle` occurs in `hay` starting at position `at`.
pub open spec fn occurs_at(hay: Seq<char>, needle: Seq<char>, at: int) -> bool {
    0 <= at && at + needle.len() <= hay.len() && hay.subrange(at, at + needle.len()) == needle
}

/// `needle` occurs somewhere in `hay`.
pub open spec fn contains_seq(hay: Seq<char>, needle: Seq<char>) -> bool {
    exists|at: int| occurs_at(hay, needle, at)
}

/// Whether `needle` occurs in `hay` starting at `at`, as characters.
fn chars_occur_at(hay: &Vec<char>, needle: &Vec<char>, at: usize) -> (r: bool)
    requires
        at + needle@.len() <= hay@.len(),
    ensures
        r == occurs_at(hay@, needle@, at as int),
{
    let hay_len = hay.len();
    let mut j: usize = 0;
    while j < needle.len()
        invariant
            at + needle@.len() <= hay@.len(),
            hay@.len() <= usize::MAX,
            j <= needle@.len(),
            forall|k: int| 0 <= k < j ==> hay@[at + k] == needle@[k],
        decreases needle@.len() - j,
    {
        if hay[at + j] != needle[j] {
            assert(hay@.subrange(at as int, at + needle@.len())[j as int] != needle@[j as int]);
            return false;
        }
        j = j + 1;
    }
    assert(hay@.subrange(at as int, at + needle@.len()) =~= needle@);
    true
}

/// Whether `needle` occurs anywhere in `hay`.
pub fn str_contains(hay: &str, needle: &str) -> (r: bool)
    ensures
        r == contains_seq(hay@, needle@),
{
    let h = chars_of(hay);
    let n = chars_of(needle);
    if n.len() > h.len() {
        assert forall|at: int| !occurs_at(hay@, needle@, at) by {}
        return false;
    }
    let last = h.len() - n.len();
    let mut at: usize = 0;
    while at < last
        invariant
            h@ == hay@,
            n@ == needle@,
            last == h@.len() - n@.len(),
            at <= last,
            forall|k: int| 0 <= k < at ==> !occurs_at(hay@, needle@, k),
        decreases last - at,
    {
        if chars_occur_at(&h, &n, at) {
            return true;
        }
        at = at + 1;
    }
    if chars_occur_at(&h, &n, last) {
        return true;
    }
    assert forall|k: int| !occurs_at(hay@, needle@, k) by {
        if 0 <= k < at {
        }
    }
    false
}

/// Whether `s` begins with `prefix`.
pub fn str_starts_with(s: &str, prefix: &str) -> (r: bool)
    ensures
        r == prefix@.is_prefix_of(s@),
{
    let h = chars_of(s);
    let n = chars_of(prefix);
    if n.len() > h.len() {
        return false;
    }
    let r = chars_occur_at(&h, &n, 0);
    assert(r == prefix@.is_prefix_of(s@)) by {
        if r {
            assert forall|i: int| 0 <= i < prefix@.len() implies prefix@[i] == s@[i] by {
                assert(s@.subrange(0, prefix@.len() as int)[i] == s@[i]);
            }
        } else {
            if prefix@.is_prefix_of(s@) {
                assert(s@.subrange(0, prefix@.len() as int) =~= prefix@);
            }
        }
    }
    r
}

} // verus!

verus! {

/// The decimal digit character for `d < 10`.
pub open spec fn digit_char(d: nat) -> char {
    if d == 0 { '0' }
    else if d == 1 { '1' }
    else if d == 2 { '2' }
    else if d == 3 { '3' }
    else if d == 4 { '4' }
    else if d == 5 { '5' }
    else if d == 6 { '6' }
    else if d == 7 { '7' }
    else if d == 8 { '8' }
    else { '9' }
}

/// The decimal representation of `n`, without leading zeros.
pub open spec fn decimal(n: nat) -> Seq<char>
    decreases n,
{
    if n < 10 {
        seq![digit_char(n)]
    } else {
        decimal(n / 10) + seq![digit_char(n % 10)]
    }
}

/// The one-character string of digit `d`.
fn digit_str(d: u64) -> (r: &'static str)
    requires
        d < 10,
    ensures
        r@ == seq![digit_char(d as nat)],
{
    proof {
        reveal_strlit("0");
        reveal_strlit("1");
        reveal_strlit("2");
        reveal_strlit("3");
        reveal_strlit("4");
        reveal_strlit("5");
        reveal_strlit("6");
        reveal_strlit("7");
        reveal_strlit("8");
        reveal_strlit("9");
    }
    let r = if d == 0 { "0" }
    else if d == 1 { "1" }
    else if d == 2 { "2" }
    else if d == 3 { "3" }
    else if d == 4 { "4" }
    else if d == 5 { "5" }
    else if d == 6 { "6" }
    else if d == 7 { "7" }
    else if d == 8 { "8" }
    else { "9" };
    assert(r@ =~= seq![digit_char(d as nat)]);
    r
}

/// `n` written in decimal.
pub fn to_decimal(n: u64) -> (s: String)
    ensures
        s@ == decimal(n as nat),
    decreases n,
{
    if n < 10 {
        String::from_str(digit_str(n))
    } else {
        let mut s = to_decimal(n / 10);
        s.append(digit_str(n % 10));
        s
    }
}

/// A string with the same characters as `s`.
pub fn copy_string(s: &String) -> (r: String)
    ensures
        r@ == s@,
{
    String::from_str(s.as_str())
}

/// The character views of a list of key/value pairs.
pub open spec fn pairs_view(v: Seq<(String, String)>) -> Seq<(Seq<char>, Seq<char>)> {
    v.map_values(|p: (String, String)| (p.0@, p.1@))
}

/// Whether some pair has key `key`.
pub open spec fn has_key(v: Seq<(Seq<char>, Seq<char>)>, key: Seq<char>) -> bool {
    exists|i: int| 0 <= i < v.len() && (#[trigger] v[i]).0 == key
}

/// `v` with `(key, value)` appended when no pair has `key` yet.
pub open spec fn with_default(v: Seq<(Seq<char>, Seq<char>)>, key: Seq<char>, value: Seq<char>) -> Seq<(Seq<char>, Seq<char>)> {
    if has_key(v, key) { v } else { v.push((key, value)) }
}

/// Whether some pair of `options` has key `key`.
pub fn options_contain_key(options: &Vec<(String, String)>, key: &str) -> (r: bool)
    ensures
        r == has_key(pairs_view(options@), key@),
{
    let mut i: usize = 0;
    while i < options.len()
        invariant
            i <= options@.len(),
            forall|j: int| 0 <= j < i ==> (#[trigger] pairs_view(options@)[j]).0 != key@,
        decreases options@.len() - i,
    {
        if str_equals(options[i].0.as_str(), key) {
            assert(pairs_view(options@)[i as int].0 == key@);
            return true;
        }
        assert(pairs_view(options@)[i as int].0 != key@);
        i = i + 1;
    }
    false
}

/// Appends `(key, value)` unless a pair with `key` is already there.
pub fn insert_if_absent(options: &mut Vec<(String, String)>, key: &str, value: &str)
    ensures
        pairs_view(final(options)@) == with_default(pairs_view(old(options)@), key@, value@),
{
    if !options_contain_key(options, key) {
        options.push((String::from_str(key), String::from_str(value)));
        assert(pairs_view(final(options)@) =~= pairs_view(old(options)@).push((key@, value@)));
    }
}

/// Appends `(key, value)` unless a pair with `key` is already there; the
/// value is given as an owned string.
pub fn insert_string_if_absent(options: &mut Vec<(String, String)>, key: &str, value: String)
    ensures
        pairs_view(final(options)@) == with_default(pairs_view(old(options)@), key@, value@),
{
    if !options_contain_key(options, key) {
        options.push((String::from_str(key), value));
        assert(pairs_view(final(options)@) =~= pairs_view(old(options)@).push((key@, value@)));
    }
}

} // verus!

verus! {

/// Index of the first `c` in `s`, if any.
pub open spec fn first_index_of(s: Seq<char>, c: char) -> Option<int>
    decreases s.len(),
{
    if s.len() == 0 {
        None
    } else if s[0] == c {
        Some(0)
    } else {
        match first_index_of(s.drop_first(), c) {
            Some(i) => Some(i + 1),
            None => None,
        }
    }
}

proof fn lemma_first_index_of(s: Seq<char>, c: char)
    ensures
        match first_index_of(s, c) {
            Some(i) => 0 <= i < s.len() && s[i] == c && forall|j: int| 0 <= j < i ==> s[j] != c,
            None => forall|j: int| 0 <= j < s.len() ==> s[j] != c,
        },
    decreases s.len(),
{
    if s.len() > 0 && s[0] != c {
        lemma_first_index_of(s.drop_first(), c);
        match first_index_of(s.drop_first(), c) {
            Some(i) => {
                assert forall|j: int| 0 <= j < i + 1 implies s[j] != c by {
                    if j > 0 {
                        assert(s[j] == s.drop_first()[j - 1]);
                    }
                }
            },
            None => {
                assert forall|j: int| 0 <= j < s.len() implies s[j] != c by {
                    if j > 0 {
                        assert(s[j] == s.drop_first()[j - 1]);
                    }
                }
            },
        }
    }
}

/// Index of the first `c` in `s`.
pub fn find_char(s: &Vec<char>, c: char) -> (r: Option<usize>)
    ensures
        match r {
            Some(i) => first_index_of(s@, c) == Some(i as int) && i < s@.len() && s@[i as int] == c,
            None => first_index_of(s@, c) is None,
        },
{
    proof {
        lemma_first_index_of(s@, c);
    }
    let mut i: usize = 0;
    while i < s.len()
        invariant
            i <= s@.len(),
            forall|j: int| 0 <= j < i ==> s@[j] != c,
        decreases s@.len() - i,
    {
        if s[i] == c {
            proof {
                lemma_first_index_of(s@, c);
                match first_index_of(s@, c) {
                    Some(k) => {
                        assert(k == i) by {
                            if k < i {
                            } else if k > i {
                            }
                        }
                    },
                    None => {},
                }
            }
            return Some(i);
        }
        i = i + 1;
    }
    proof {
        lemma_first_index_of(s@, c);
        if first_index_of(s@, c) is Some {
            let k = first_index_of(s@, c)->0;
            assert(s@[k] == c);
        }
    }
    None
}

/// The characters after the first `c`, like the second piece of a split
/// into at most two at `c`; `None` without a `c`.
pub open spec fn after_first(s: Seq<char>, c: char) -> Option<Seq<char>> {
    match first_index_of(s, c) {
        Some(i) => Some(s.skip(i + 1)),
        None => None,
    }
}

/// The characters before the first `c`, or all of `s` without a `c`: the
/// first piece of a split at `c`.
pub open spec fn before_first(s: Seq<char>, c: char) -> Seq<char> {
    match first_index_of(s, c) {
        Some(i) => s.take(i),
        None => s,
    }
}

/// The characters of `s` from index `from` to `to`, as a string.
pub fn substring(s: &str, from: usize, to: usize) -> (r: String)
    requires
        from <= to <= s@.len(),
    ensures
        r@ == s@.subrange(from as int, to as int),
{
    let piece = s.substring_char(from, to);
    String::from_str(piece)
}

/// Whether `c` is white space in Unicode's sense.
pub open spec fn is_white_space(c: char) -> bool {
    ||| c == '\t' || c == '\n' || c == '\u{0B}' || c == '\u{0C}' || c == '\r' || c == ' '
    ||| c == '\u{85}' || c == '\u{A0}' || c == '\u{1680}'
    ||| ('\u{2000}' <= c && c <= '\u{200A}')
    ||| c == '\u{2028}' || c == '\u{2029}' || c == '\u{202F}' || c == '\u{205F}' || c == '\u{3000}'
}

/// Whether `c` is white space in Unicode's sense.
pub fn char_is_white_space(c: char) -> (r: bool)
    ensures
        r == is_white_space(c),
{
    c == '\t' || c == '\n' || c == '\u{0B}' || c == '\u{0C}' || c == '\r' || c == ' '
        || c == '\u{85}' || c == '\u{A0}' || c == '\u{1680}'
        || ('\u{2000}' <= c && c <= '\u{200A}')
        || c == '\u{2028}' || c == '\u{2029}' || c == '\u{202F}' || c == '\u{205F}' || c == '\u{3000}'
}

/// Number of white-space characters at the start of `s`.
pub open spec fn leading_ws(s: Seq<char>) -> nat
    decreases s.len(),
{
    if s.len() > 0 && is_white_space(s[0]) { 1 + leading_ws(s.drop_first()) } else { 0 }
}

/// Number of white-space characters at the end of `s`.
pub open spec fn trailing_ws(s: Seq<char>) -> nat
    decreases s.len(),
{
    if s.len() > 0 && is_white_space(s.last()) { 1 + trailing_ws(s.drop_last()) } else { 0 }
}

/// `s` without white space at either end.
pub open spec fn trimmed(s: Seq<char>) -> Seq<char> {
    let t = s.skip(leading_ws(s) as int);
    t.take(t.len() - trailing_ws(t))
}

proof fn lemma_leading_ws(s: Seq<char>)
    ensures
        leading_ws(s) <= s.len(),
        forall|j: int| 0 <= j < leading_ws(s) ==> is_white_space(#[trigger] s[j]),
        leading_ws(s) < s.len() ==> !is_white_space(s[leading_ws(s) as int]),
    decreases s.len(),
{
    if s.len() > 0 && is_white_space(s[0]) {
        lemma_leading_ws(s.drop_first());
        assert forall|j: int| 0 <= j < leading_ws(s) implies is_white_space(#[trigger] s[j]) by {
            if j > 0 {
                assert(s[j] == s.drop_first()[j - 1]);
            }
        }
    }
}

proof fn lemma_trailing_ws(s: Seq<char>)
    ensures
        trailing_ws(s) <= s.len(),
        forall|j: int| s.len() - trailing_ws(s) <= j < s.len() ==> is_white_space(#[trigger] s[j]),
        trailing_ws(s) < s.len() ==> !is_white_space(s[s.len() - trailing_ws(s) - 1]),
    decreases s.len(),
{
    if s.len() > 0 && is_white_space(s.last()) {
        lemma_trailing_ws(s.drop_last());
        assert forall|j: int| s.len() - trailing_ws(s) <= j < s.len() implies is_white_space(#[trigger] s[j]) by {
            if j < s.len() - 1 {
                assert(s[j] == s.drop_last()[j]);
            }
        }
    }
}

/// The bounds `[a, b)` of `s` without white space at either end.
pub fn trim_bounds(s: &Vec<char>) -> (r: (usize, usize))
    ensures
        r.0 <= r.1 <= s@.len(),
        s@.subrange(r.0 as int, r.1 as int) == trimmed(s@),
{
    proof {
        lemma_leading_ws(s@);
    }
    let mut a: usize = 0;
    while a < s.len() && char_is_white_space(s[a])
        invariant
            a <= leading_ws(s@),
            leading_ws(s@) <= s@.len(),
            forall|j: int| 0 <= j < leading_ws(s@) ==> is_white_space(#[trigger] s@[j]),
            leading_ws(s@) < s@.len() ==> !is_white_space(s@[leading_ws(s@) as int]),
        decreases s@.len() - a,
    {
        a = a + 1;
    }
    assert(a == leading_ws(s@));
    let ghost t = s@.skip(a as int);
    proof {
        lemma_trailing_ws(t);
    }
    let mut b: usize = s.len();
    while b > a && char_is_white_space(s[b - 1])
        invariant
            a <= b <= s@.len(),
            t == s@.skip(a as int),
            s@.len() - b <= trailing_ws(t),
            trailing_ws(t) <= t.len(),
            forall|j: int| t.len() - trailing_ws(t) <= j < t.len() ==> is_white_space(#[trigger] t[j]),
            trailing_ws(t) < t.len() ==> !is_white_space(t[t.len() - trailing_ws(t) - 1]),
        decreases b - a,
    {
        assert(t[b - 1 - a] == s@[b - 1]);
        b = b - 1;
    }
    proof {
        if b > a {
            assert(t[b - 1 - a] == s@[b - 1]);
        }
        assert(s@.len() - b == trailing_ws(t));
        assert(s@.subrange(a as int, b as int) =~= trimmed(s@));
    }
    (a, b)
}

/// The decimal value of an all-digit sequence.
pub open spec fn digits_value(d: Seq<char>) -> nat
    decreases d.len(),
{
    if d.len() == 0 {
        0
    } else {
        digits_value(d.drop_last()) * 10 + ((d.last() as nat) - ('0' as nat)) as nat
    }
}

/// Whether `c` is an ASCII digit.
pub open spec fn is_digit(c: char) -> bool {
    '0' <= c && c <= '9'
}

/// An unsigned number as the standard parser reads it: an optional `+`,
/// then at least one ASCII digit and nothing else.
pub open spec fn parsed_unsigned(s: Seq<char>) -> Option<nat> {
    let d = unsigned_digits(s);
    if d.len() > 0 && all_digits(d) {
        Some(digits_value(d))
    } else {
        None
    }
}

/// `s` without a leading `+`.
pub open spec fn unsigned_digits(s: Seq<char>) -> Seq<char> {
    if s.len() > 0 && s[0] == '+' { s.drop_first() } else { s }
}

/// Whether every character of `d` is an ASCII digit.
pub open spec fn all_digits(d: Seq<char>) -> bool {
    forall|i: int| 0 <= i < d.len() ==> is_digit(#[trigger] d[i])
}

proof fn lemma_digits_value_grows(d: Seq<char>, i: int, k: int)
    requires
        0 <= i <= k <= d.len(),
        forall|j: int| 0 <= j < d.len() ==> is_digit(#[trigger] d[j]),
    ensures
        digits_value(d.take(i)) <= digits_value(d.take(k)),
    decreases k - i,
{
    if i < k {
        lemma_digits_value_grows(d, i, k - 1);
        assert(d.take(k).drop_last() =~= d.take(k - 1));
    }
}

/// Parses an unsigned number no larger than `max` the way the standard
/// library's integer parser does; `None` for anything else.
pub fn parse_unsigned(s: &str, max: u64) -> (r: Option<u64>)
    ensures
        r == (match parsed_unsigned(s@) {
            Some(v) => if v <= max { Some(v as u64) } else { None },
            None => None,
        }),
{
    let chars = chars_of(s);
    let start: usize = if chars.len() > 0 && chars[0] == '+' { 1 } else { 0 };
    let ghost d = unsigned_digits(s@);
    assert(d =~= s@.skip(start as int));
    if start >= chars.len() {
        return None;
    }
    let mut acc: u64 = 0;
    let mut i: usize = start;
    let mut too_big = false;
    while i < chars.len()
        invariant
            chars@ == s@,
            d == s@.skip(start as int),
            d == unsigned_digits(s@),
            start <= i <= chars@.len(),
            forall|j: int| 0 <= j < i - start ==> is_digit(#[trigger] d[j]),
            !too_big ==> acc == digits_value(d.take(i - start)) && acc <= max,
            too_big ==> digits_value(d.take(i - start)) > max,
        decreases chars@.len() - i,
    {
        let c = chars[i];
        assert(d[i - start] == chars@[i as int]);
        if !('0' <= c && c <= '9') {
            assert(!is_digit(d[i - start]));
            assert(!all_digits(d));
            assert(unsigned_digits(s@) == d);
            assert(parsed_unsigned(s@) is None);
            return None;
        }
        let ghost prefix = d.take(i - start);
        assert(d.take(i - start + 1).drop_last() =~= prefix);
        let digit = (c as u32 - '0' as u32) as u64;
        if !too_big {
            let next: u128 = acc as u128 * 10 + digit as u128;
            assert(digits_value(d.take(i - start + 1)) == acc * 10 + digit);
            if next > max as u128 {
                too_big = true;
            } else {
                acc = next as u64;
            }
        } else {
            assert(digits_value(d.take(i - start + 1)) >= digits_value(prefix)) by {
                assert(digits_value(d.take(i - start + 1)) == digits_value(prefix) * 10 + digit);
            }
        }
        i = i + 1;
    }
    assert(d.take(i - start) =~= d);
    if too_big {
        None
    } else {
        Some(acc)
    }
}

} // verus!

verus! {

/// Where the first `c` of `s` lies, when there is one.
pub proof fn lemma_first_index_of_bounds(s: Seq<char>, c: char)
    ensures
        first_index_of(s, c) matches Some(i) ==> 0 <= i < s.len() && s[i] == c,
{
    lemma_first_index_of(s, c);
}

} // verus!
