//! Text as a sequence of characters: searching, trimming, numerals.

use vstd::prelude::*;

verus! {

broadcast use vstd::string::group_string_axioms;

/// `String::push` appends the given character to the end of the string.
pub assume_specification[ String::push ](s: &mut String, c: char)
    ensures
        final(s)@ == old(s)@.push(c),
;

/// Why bytes are no text.
#[verifier::external_type_specification]
#[verifier::external_body]
pub struct ExFromUtf8Error(std::string::FromUtf8Error);

/// `String::from_utf8` takes bytes that are UTF-8 for the text they encode, and refuses all
/// others.
pub assume_specification[ String::from_utf8 ](bytes: Vec<u8>) -> (s: Result<
    String,
    std::string::FromUtf8Error,
>)
    ensures
        match s {
            Ok(t) => vstd::utf8::valid_utf8(bytes@) && t@ == vstd::utf8::decode_utf8(bytes@),
            Err(_) => !vstd::utf8::valid_utf8(bytes@),
        },
;

/// The texts held by a sequence of strings.
pub open spec fn texts(strings: Seq<String>) -> Seq<Seq<char>> {
    strings.map_values(|s: String| s@)
}

/// The texts held by a sequence of key/value strings.
pub open spec fn pairs(strings: Seq<(String, String)>) -> Seq<(Seq<char>, Seq<char>)> {
    strings.map_values(|kv: (String, String)| (kv.0@, kv.1@))
}

/// The text held by an optional string.
pub open spec fn opt_text(s: Option<String>) -> Option<Seq<char>> {
    match s {
        Some(t) => Some(t@),
        None => None,
    }
}

/// The text held by an optional borrowed string.
pub open spec fn opt_str(s: Option<&str>) -> Option<Seq<char>> {
    match s {
        Some(t) => Some(t@),
        None => None,
    }
}

/// Whether two strings hold the same text.
pub fn same_text(a: &str, b: &str) -> (same: bool)
    ensures
        same == (a@ == b@),
{
    let x = a.as_bytes();
    let y = b.as_bytes();
    proof {
        vstd::utf8::encode_utf8_decode_utf8(a@);
        vstd::utf8::encode_utf8_decode_utf8(b@);
    }
    if x.len() != y.len() {
        return false;
    }
    for i in 0..x.len()
        invariant
            x@ == vstd::utf8::encode_utf8(a@),
            y@ == vstd::utf8::encode_utf8(b@),
            x@.len() == y@.len(),
            forall|j: int| 0 <= j < i ==> x@[j] == y@[j],
    {
        if x[i] != y[i] {
            return false;
        }
    }
    assert(x@ =~= y@);
    true
}

/// The characters of a string.
pub fn chars_of(s: &str) -> (chars: Vec<char>)
    ensures
        chars@ == s@,
{
    let mut out: Vec<char> = Vec::new();
    for c in it: s.chars()
        invariant
            it.seq() == s@,
            out@ == s@.take(it.index() as int),
    {
        out.push(c);
        assert(s@.take(it.index() + 1) =~= s@.take(it.index() as int).push(c));
    }
    assert(s@.take(s@.len() as int) =~= s@);
    out
}

/// A copy of each string.
pub fn copied(strings: &[String]) -> (copy: Vec<String>)
    ensures
        copy@ == strings@,
{
    let mut out: Vec<String> = Vec::new();
    for i in 0..strings.len()
        invariant
            out@ == strings@.take(i as int),
    {
        out.push(strings[i].clone());
        assert(strings@.take(i + 1) =~= strings@.take(i as int).push(strings@[i as int]));
    }
    assert(strings@.take(strings@.len() as int) =~= strings@);
    out
}

/// A copy of each pair of strings.
pub fn copied_pairs(strings: &[(String, String)]) -> (copy: Vec<(String, String)>)
    ensures
        copy@ == strings@,
{
    let mut out: Vec<(String, String)> = Vec::new();
    for i in 0..strings.len()
        invariant
            out@ == strings@.take(i as int),
    {
        out.push((strings[i].0.clone(), strings[i].1.clone()));
        assert(strings@.take(i + 1) =~= strings@.take(i as int).push(strings@[i as int]));
    }
    assert(strings@.take(strings@.len() as int) =~= strings@);
    out
}

/// The place of the first `c` in `s`, or the length of `s` where there is none.
pub open spec fn first_at(s: Seq<char>, c: char) -> int
    decreases s.len(),
{
    if s.len() == 0 {
        0
    } else if s[0] == c {
        0
    } else {
        1 + first_at(s.drop_first(), c)
    }
}

/// The place of the last `c` in `s`, or -1 where there is none.
pub open spec fn last_at(s: Seq<char>, c: char) -> int
    decreases s.len(),
{
    if s.len() == 0 {
        -1
    } else if s.last() == c {
        s.len() - 1
    } else {
        last_at(s.drop_last(), c)
    }
}

/// The place that `first_at` gives is the only one with the two properties that its name says.
pub proof fn first_at_is(s: Seq<char>, c: char, at: int)
    requires
        0 <= at <= s.len(),
        forall|j: int| 0 <= j < at ==> s[j] != c,
        at < s.len() ==> s[at] == c,
    ensures
        first_at(s, c) == at,
    decreases s.len(),
{
    if s.len() > 0 && s[0] != c {
        assert forall|j: int| 0 <= j < at - 1 implies s.drop_first()[j] != c by {
            assert(s.drop_first()[j] == s[j + 1]);
        }
        first_at_is(s.drop_first(), c, at - 1);
    }
}

/// What holds of the place that `first_at` gives.
pub proof fn first_at_finds(s: Seq<char>, c: char)
    ensures
        0 <= first_at(s, c) <= s.len(),
        forall|j: int| 0 <= j < first_at(s, c) ==> s[j] != c,
        first_at(s, c) < s.len() ==> s[first_at(s, c)] == c,
    decreases s.len(),
{
    if s.len() > 0 && s[0] != c {
        first_at_finds(s.drop_first(), c);
        assert forall|j: int| 0 <= j < first_at(s, c) implies s[j] != c by {
            if j > 0 {
                assert(s.drop_first()[j - 1] == s[j]);
            }
        }
    }
}

/// The place that `last_at` gives is the only one with the two properties that its name says.
pub proof fn last_at_is(s: Seq<char>, c: char, at: int)
    requires
        -1 <= at < s.len(),
        forall|j: int| at < j < s.len() ==> s[j] != c,
        at >= 0 ==> s[at] == c,
    ensures
        last_at(s, c) == at,
    decreases s.len(),
{
    if s.len() > 0 && s.last() != c {
        last_at_is(s.drop_last(), c, at);
    }
}

/// What holds of the place that `last_at` gives.
pub proof fn last_at_finds(s: Seq<char>, c: char)
    ensures
        -1 <= last_at(s, c) < s.len(),
        forall|j: int| last_at(s, c) < j < s.len() ==> s[j] != c,
        last_at(s, c) >= 0 ==> s[last_at(s, c)] == c,
    decreases s.len(),
{
    if s.len() > 0 && s.last() != c {
        last_at_finds(s.drop_last(), c);
        assert forall|j: int| last_at(s, c) < j < s.len() implies s[j] != c by {
            if j < s.len() - 1 {
                assert(s.drop_last()[j] == s[j]);
            }
        }
    }
}

/// Finds the first `c`.
pub fn find_first(chars: &[char], c: char) -> (at: Option<usize>)
    ensures
        match at {
            Some(i) => i < chars@.len() && i == first_at(chars@, c) && chars@[i as int] == c,
            None => first_at(chars@, c) == chars@.len() && !chars@.contains(c),
        },
{
    for i in 0..chars.len()
        invariant
            forall|j: int| 0 <= j < i ==> chars@[j] != c,
    {
        if chars[i] == c {
            proof {
                first_at_is(chars@, c, i as int);
            }
            return Some(i);
        }
    }
    proof {
        first_at_is(chars@, c, chars@.len() as int);
    }
    None
}

/// Finds the last `c`.
pub fn find_last(chars: &[char], c: char) -> (at: Option<usize>)
    ensures
        match at {
            Some(i) => i < chars@.len() && i == last_at(chars@, c),
            None => last_at(chars@, c) == -1,
        },
{
    let mut i: usize = chars.len();
    while i > 0
        invariant
            i <= chars@.len(),
            forall|j: int| i <= j < chars@.len() ==> chars@[j] != c,
        decreases i,
    {
        i = i - 1;
        if chars[i] == c {
            proof {
                last_at_is(chars@, c, i as int);
            }
            return Some(i);
        }
    }
    proof {
        last_at_is(chars@, c, -1);
    }
    None
}

/// Whether `s` begins with `prefix`.
pub fn starts_with(s: &str, prefix: &str) -> (yes: bool)
    ensures
        yes == prefix@.is_prefix_of(s@),
{
    let whole = chars_of(s);
    let part = chars_of(prefix);
    if part.len() > whole.len() {
        return false;
    }
    for i in 0..part.len()
        invariant
            whole@ == s@,
            part@ == prefix@,
            part@.len() <= whole@.len(),
            forall|j: int| 0 <= j < i ==> part@[j] == whole@[j],
    {
        if part[i] != whole[i] {
            assert(part@[i as int] != s@.subrange(0, prefix@.len() as int)[i as int]);
            return false;
        }
    }
    assert(prefix@ =~= s@.subrange(0, prefix@.len() as int));
    true
}

/// Splits at the first `c`: what stands before it and what stands behind it.
pub open spec fn cut_at(s: Seq<char>, c: char) -> Option<(Seq<char>, Seq<char>)> {
    if s.contains(c) {
        Some((s.take(first_at(s, c)), s.skip(first_at(s, c) + 1)))
    } else {
        None
    }
}

/// The text before the first `c` and the text behind it, where there is a `c`.
pub fn split_once(s: &str, c: char) -> (parts: Option<(String, String)>)
    ensures
        match parts {
            Some(p) => cut_at(s@, c) == Some((p.0@, p.1@)),
            None => cut_at(s@, c) is None,
        },
{
    let chars = chars_of(s);
    match find_first(chars.as_slice(), c) {
        Some(i) => {
            let before = s.substring_char(0, i);
            let behind = s.substring_char(i + 1, chars.len());
            assert(before@ =~= s@.take(i as int));
            assert(behind@ =~= s@.skip(i + 1));
            Some((before.to_owned(), behind.to_owned()))
        },
        None => None,
    }
}

/// The characters with the Unicode property White_Space.
pub open spec fn white_space(c: char) -> bool {
    let u = c as u32;
    ||| 0x9 <= u <= 0xd
    ||| u == 0x20
    ||| u == 0x85
    ||| u == 0xa0
    ||| u == 0x1680
    ||| 0x2000 <= u <= 0x200a
    ||| u == 0x2028
    ||| u == 0x2029
    ||| u == 0x202f
    ||| u == 0x205f
    ||| u == 0x3000
}

/// Whether a character has the Unicode property White_Space.
pub fn is_white_space(c: char) -> (yes: bool)
    ensures
        yes == white_space(c),
{
    let u: u32 = c as u32;
    (0x9 <= u && u <= 0xd) || u == 0x20 || u == 0x85 || u == 0xa0 || u == 0x1680 || (0x2000 <= u
        && u <= 0x200a) || u == 0x2028 || u == 0x2029 || u == 0x202f || u == 0x205f || u == 0x3000
}

/// `s` without the white space at its end.
pub open spec fn trim_end(s: Seq<char>) -> Seq<char>
    decreases s.len(),
{
    if s.len() > 0 && white_space(s.last()) {
        trim_end(s.drop_last())
    } else {
        s
    }
}

/// `s` without the white space at its beginning.
pub open spec fn trim_start(s: Seq<char>) -> Seq<char>
    decreases s.len(),
{
    if s.len() > 0 && white_space(s[0]) {
        trim_start(s.drop_first())
    } else {
        s
    }
}

/// `s` without the white space at its two ends.
pub open spec fn trim(s: Seq<char>) -> Seq<char> {
    trim_start(trim_end(s))
}

/// The string without the white space at its end.
pub fn trimmed_end(s: &str) -> (t: &str)
    ensures
        t@ == trim_end(s@),
{
    let chars = chars_of(s);
    let mut hi: usize = chars.len();
    assert(s@.take(hi as int) =~= s@);
    while hi > 0 && is_white_space(chars[hi - 1])
        invariant
            chars@ == s@,
            hi <= s@.len(),
            trim_end(s@.take(hi as int)) == trim_end(s@),
        decreases hi,
    {
        assert(s@.take(hi as int).drop_last() =~= s@.take(hi - 1));
        hi = hi - 1;
    }
    assert(s@.subrange(0, hi as int) =~= s@.take(hi as int));
    s.substring_char(0, hi)
}

/// The string without the white space at its two ends.
pub fn trimmed(s: &str) -> (t: &str)
    ensures
        t@ == trim(s@),
{
    let s = trimmed_end(s);
    let chars = chars_of(s);
    let mut lo: usize = 0;
    assert(s@.skip(0) =~= s@);
    while lo < chars.len() && is_white_space(chars[lo])
        invariant
            chars@ == s@,
            lo <= s@.len(),
            trim_start(s@.skip(lo as int)) == trim_start(s@),
        decreases chars.len() - lo,
    {
        assert(s@.skip(lo as int).drop_first() =~= s@.skip(lo + 1));
        lo = lo + 1;
    }
    assert(s@.subrange(lo as int, s@.len() as int) =~= s@.skip(lo as int));
    s.substring_char(lo, chars.len())
}

/// The value of the first pair with the given key.
pub open spec fn value_at(kvs: Seq<(Seq<char>, Seq<char>)>, key: Seq<char>) -> Option<Seq<char>>
    decreases kvs.len(),
{
    if kvs.len() == 0 {
        None
    } else if kvs[0].0 == key {
        Some(kvs[0].1)
    } else {
        value_at(kvs.drop_first(), key)
    }
}

/// The value of the first pair with the given key.
pub fn lookup<'a>(kvs: &'a [(String, String)], key: &str) -> (value: Option<&'a str>)
    ensures
        opt_str(value) == value_at(pairs(kvs@), key@),
{
    let ghost all = pairs(kvs@);
    assert(all.skip(0) =~= all);
    for i in 0..kvs.len()
        invariant
            all == pairs(kvs@),
            value_at(all.skip(i as int), key@) == value_at(all, key@),
    {
        let kv = &kvs[i];
        assert(all.skip(i as int)[0] == (kv.0@, kv.1@));
        if same_text(kv.0.as_str(), key) {
            return Some(kv.1.as_str());
        }
        assert(all.skip(i as int).drop_first() =~= all.skip(i + 1));
    }
    assert(all.skip(kvs@.len() as int) =~= Seq::empty());
    None
}

/// White space is the characters that separate words and lines, and no others.
pub proof fn white_space_is(c: char)
    ensures
        white_space(c) <==> (c == ' ' || c == '\t' || c == '\n' || c == '\u{b}' || c == '\u{c}' || c
            == '\r' || c == '\u{85}' || c == '\u{a0}' || c == '\u{1680}' || '\u{2000}' <= c
            <= '\u{200a}' || c == '\u{2028}' || c == '\u{2029}' || c == '\u{202f}' || c
            == '\u{205f}' || c == '\u{3000}'),
{
}

/// White space behind a text that ends in none is trimmed, and nothing else.
pub proof fn end_is_trimmed(s: Seq<char>, behind: Seq<char>)
    requires
        s.len() == 0 || !white_space(s.last()),
        forall|i: int| 0 <= i < behind.len() ==> white_space(#[trigger] behind[i]),
    ensures
        trim_end(s + behind) == s,
    decreases behind.len(),
{
    let all = s + behind;
    if behind.len() == 0 {
        assert(all =~= s);
    } else {
        let fewer = behind.drop_last();
        assert forall|i: int| 0 <= i < fewer.len() implies white_space(#[trigger] fewer[i]) by {
            assert(white_space(behind[i]));
        }
        end_is_trimmed(s, fewer);
        assert(all.drop_last() =~= s + fewer);
        assert(all.last() == behind[behind.len() - 1]);
    }
}

/// White space before a text that begins with none is trimmed, and nothing else.
pub proof fn start_is_trimmed(before: Seq<char>, s: Seq<char>)
    requires
        s.len() == 0 || !white_space(s[0]),
        forall|i: int| 0 <= i < before.len() ==> white_space(#[trigger] before[i]),
    ensures
        trim_start(before + s) == s,
    decreases before.len(),
{
    let all = before + s;
    if before.len() == 0 {
        assert(all =~= s);
    } else {
        let fewer = before.drop_first();
        assert forall|i: int| 0 <= i < fewer.len() implies white_space(#[trigger] fewer[i]) by {
            assert(white_space(before[i + 1]));
        }
        start_is_trimmed(fewer, s);
        assert(all.drop_first() =~= fewer + s);
        assert(all[0] == before[0]);
    }
}

/// White space at both ends of a text is trimmed, and nothing within it.
pub proof fn ends_are_trimmed(before: Seq<char>, s: Seq<char>, behind: Seq<char>)
    requires
        s.len() > 0,
        !white_space(s[0]),
        !white_space(s.last()),
        forall|i: int| 0 <= i < before.len() ==> white_space(#[trigger] before[i]),
        forall|i: int| 0 <= i < behind.len() ==> white_space(#[trigger] behind[i]),
    ensures
        trim(before + s + behind) == s,
{
    assert((before + s).last() == s.last());
    end_is_trimmed(before + s, behind);
    start_is_trimmed(before, s);
}

/// A text of white space alone is trimmed to nothing.
pub proof fn blanks_are_trimmed(s: Seq<char>)
    requires
        forall|i: int| 0 <= i < s.len() ==> white_space(#[trigger] s[i]),
    ensures
        trim(s).len() == 0,
{
    end_is_trimmed(Seq::empty(), s);
    assert(Seq::<char>::empty() + s =~= s);
}

/// Whether no two pairs have one key.
pub open spec fn distinct_keys(kvs: Seq<(Seq<char>, Seq<char>)>) -> bool {
    forall|i: int, j: int|
        0 <= i < j < kvs.len() ==> (#[trigger] kvs[i]).0 != (#[trigger] kvs[j]).0
}

/// A key is looked up wherever it stands: the value is that of the first pair with it.
pub proof fn value_is_found(kvs: Seq<(Seq<char>, Seq<char>)>, at: int)
    requires
        0 <= at < kvs.len(),
        forall|i: int| 0 <= i < at ==> (#[trigger] kvs[i]).0 != kvs[at].0,
    ensures
        value_at(kvs, kvs[at].0) == Some(kvs[at].1),
    decreases kvs.len(),
{
    if at > 0 {
        let rest = kvs.drop_first();
        assert(kvs[0].0 != kvs[at].0);
        assert forall|i: int| 0 <= i < at - 1 implies (#[trigger] rest[i]).0 != rest[at - 1].0 by {
            assert(kvs[i + 1].0 != kvs[at].0);
        }
        value_is_found(rest, at - 1);
    }
}

/// Nothing is found under a key that no pair has.
pub proof fn value_is_missing(kvs: Seq<(Seq<char>, Seq<char>)>, key: Seq<char>)
    requires
        forall|i: int| 0 <= i < kvs.len() ==> (#[trigger] kvs[i]).0 != key,
    ensures
        value_at(kvs, key) is None,
    decreases kvs.len(),
{
    if kvs.len() > 0 {
        let rest = kvs.drop_first();
        assert(kvs[0].0 != key);
        assert forall|i: int| 0 <= i < rest.len() implies (#[trigger] rest[i]).0 != key by {
            assert(kvs[i + 1].0 != key);
        }
        value_is_missing(rest, key);
    }
}

/// A text is cut at the first of its separators, which goes; one without a separator is not
/// cut.
pub proof fn text_is_cut(a: Seq<char>, c: char, b: Seq<char>)
    requires
        !a.contains(c),
    ensures
        cut_at(a + seq![c] + b, c) == Some((a, b)),
        cut_at(a, c) is None,
{
    let whole = a + seq![c] + b;
    assert(whole[a.len() as int] == c);
    first_at_is(whole, c, a.len() as int);
    assert(whole.take(a.len() as int) =~= a);
    assert(whole.skip(a.len() as int + 1) =~= b);
}

/// The texts of strings, of pairs and of optional strings are theirs, one for one.
pub proof fn texts_are_one_for_one(
    strings: Seq<String>,
    kvs: Seq<(String, String)>,
    some: String,
    s: &str,
)
    ensures
        texts(strings).len() == strings.len(),
        forall|i: int| 0 <= i < strings.len() ==> texts(strings)[i] == (#[trigger] strings[i])@,
        pairs(kvs).len() == kvs.len(),
        forall|i: int|
            0 <= i < kvs.len() ==> pairs(kvs)[i] == ((#[trigger] kvs[i]).0@, kvs[i].1@),
        opt_text(Some(some)) == Some(some@),
        opt_text(None) is None,
        opt_str(Some(s)) == Some(s@),
        opt_str(None) is None,
{
}

}
