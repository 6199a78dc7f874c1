//! Text as sequences of characters: whitespace, trimming, UTF-8 lengths, and
//! the string functions of the standard library that the gateway calls.
use vstd::prelude::*;
use vstd::utf8::*;

verus! {

/// The characters that carry the Unicode property `White_Space`.
pub open spec fn is_white_space(c: char) -> bool {
    let v = c as u32;
    ||| 0x09 <= v <= 0x0d
    ||| v == 0x20
    ||| v == 0x85
    ||| v == 0xa0
    ||| v == 0x1680
    ||| 0x2000 <= v <= 0x200a
    ||| v == 0x2028
    ||| v == 0x2029
    ||| v == 0x202f
    ||| v == 0x205f
    ||| v == 0x3000
}

/// `s` without its leading whitespace.
pub open spec fn trim_start(s: Seq<char>) -> Seq<char>
    decreases s.len(),
{
    if s.len() > 0 && is_white_space(s[0]) {
        trim_start(s.drop_first())
    } else {
        s
    }
}

/// `s` without its trailing whitespace.
pub open spec fn trim_end(s: Seq<char>) -> Seq<char>
    decreases s.len(),
{
    if s.len() > 0 && is_white_space(s.last()) {
        trim_end(s.drop_last())
    } else {
        s
    }
}

/// `s` without its leading and trailing whitespace.
pub open spec fn trim(s: Seq<char>) -> Seq<char> {
    trim_end(trim_start(s))
}

/// No whitespace stands at either end of `s`.
pub open spec fn is_trimmed(s: Seq<char>) -> bool {
    s.len() > 0 ==> !is_white_space(s[0]) && !is_white_space(s.last())
}

/// `s` holds nothing but whitespace.
pub open spec fn is_blank(s: Seq<char>) -> bool {
    forall|i: int| 0 <= i < s.len() ==> is_white_space(#[trigger] s[i])
}

/// The characters of `s` that are not whitespace, in order.
pub open spec fn ink(s: Seq<char>) -> Seq<char> {
    s.filter(|c: char| !is_white_space(c))
}

/// The number of bytes that `c` takes in UTF-8.
pub open spec fn char_width(c: char) -> nat {
    let v = c as u32;
    if v <= 0x7f {
        1
    } else if v <= 0x7ff {
        2
    } else if v <= 0xffff {
        3
    } else {
        4
    }
}

/// The number of bytes that `s` takes in UTF-8.
pub open spec fn byte_len(s: Seq<char>) -> nat {
    encode_utf8(s).len()
}

/// How many characters of `s` fit into `max` bytes, counted from its start.
pub open spec fn fitting(s: Seq<char>, max: int) -> nat
    decreases s.len(),
{
    if s.len() == 0 || char_width(s[0]) > max {
        0
    } else {
        1 + fitting(s.drop_first(), max - char_width(s[0]))
    }
}

/// Where `c` occurs last in `s`.
pub open spec fn last_index(s: Seq<char>, c: char) -> Option<int>
    decreases s.len(),
{
    if s.len() == 0 {
        None
    } else if s.last() == c {
        Some(s.len() - 1)
    } else {
        last_index(s.drop_last(), c)
    }
}

/// `pattern` occurs in `s`.
pub open spec fn occurs_in(pattern: Seq<char>, s: Seq<char>) -> bool {
    exists|i: int|
        0 <= i <= s.len() - pattern.len() && #[trigger] s.subrange(i, i + pattern.len()) == pattern
}

/// `s` with the occurrences of `pattern` taken out, as they are met from the
/// left.
pub open spec fn without(s: Seq<char>, pattern: Seq<char>) -> Seq<char>
    decreases s.len(),
{
    if s.len() == 0 || pattern.len() == 0 {
        s
    } else if pattern.is_prefix_of(s) {
        without(s.skip(pattern.len() as int), pattern)
    } else {
        seq![s[0]] + without(s.drop_first(), pattern)
    }
}

/// The digits of `n` in base ten.
pub open spec fn decimal(n: nat) -> Seq<char>
    decreases n,
{
    if n < 10 {
        seq![('0' as u32 + n) as char]
    } else {
        decimal(n / 10).push(('0' as u32 + n % 10) as char)
    }
}

/// `c` with the letters `A` to `Z` turned to lower case.
pub open spec fn ascii_lower(c: char) -> char {
    if 'A' <= c <= 'Z' {
        (c as u32 + 32) as char
    } else {
        c
    }
}

/// `s` with the letters `A` to `Z` turned to lower case.
pub open spec fn lowercase(s: Seq<char>) -> Seq<char> {
    s.map_values(|c: char| ascii_lower(c))
}

/// `str::trim` returns the text without its leading and trailing whitespace;
/// whitespace is what has the Unicode property `White_Space`.
pub assume_specification[ str::trim ](s: &str) -> (r: &str)
    ensures
        r@ == trim(s@),
;

/// `str::to_ascii_lowercase` maps the ASCII letters `A` to `Z` to `a` to `z`
/// and leaves every other character as it is.
pub assume_specification[ str::to_ascii_lowercase ](s: &str) -> (r: String)
    ensures
        r@ == lowercase(s@),
;

/// Calls `str::rfind` for one character: the byte index at which the last
/// occurrence of `c` starts, or `None` where `c` does not occur.
#[verifier::external_body]
pub(crate) fn rfind(s: &str, c: char) -> (r: Option<usize>)
    ensures
        match last_index(s@, c) {
            Some(k) => r matches Some(i) && i == byte_len(s@.take(k)),
            None => r is None,
        },
{
    s.rfind(c)
}

/// Calls `str::contains` for a string: whether `pattern` is a sub-slice of `s`.
#[verifier::external_body]
pub(crate) fn contains(s: &str, pattern: &str) -> (r: bool)
    ensures
        r == occurs_in(pattern@, s@),
{
    s.contains(pattern)
}

/// Calls `str::replace` with an empty replacement: every occurrence of
/// `pattern`, met from the left and not overlapping an earlier one, is taken
/// out.
#[verifier::external_body]
pub(crate) fn remove_all(s: &str, pattern: &str) -> (r: String)
    requires
        pattern@.len() > 0,
    ensures
        r@ == without(s@, pattern@),
{
    s.replace(pattern, "")
}

/// Calls `u64::to_string`: the number in base ten, without leading zeros.
#[verifier::external_body]
pub(crate) fn u64_to_string(n: u64) -> (r: String)
    ensures
        r@ == decimal(n as nat),
{
    n.to_string()
}

/// A character takes one to four bytes.
pub proof fn lemma_char_width(c: char)
    ensures
        encode_scalar(c as u32).len() == char_width(c),
        1 <= char_width(c) <= 4,
{
    char_is_scalar(c);
}

/// The bytes of a text are those of its first character and of the rest.
pub proof fn lemma_byte_len_first(s: Seq<char>)
    requires
        s.len() > 0,
    ensures
        byte_len(s) == char_width(s[0]) + byte_len(s.drop_first()),
{
    lemma_char_width(s[0]);
}

/// Two texts one after the other are encoded as one after the other.
pub proof fn lemma_encode_concat(a: Seq<char>, b: Seq<char>)
    ensures
        encode_utf8(a + b) == encode_utf8(a) + encode_utf8(b),
    decreases a.len(),
{
    if a.len() == 0 {
        assert(a + b =~= b);
        assert(encode_utf8(a) + encode_utf8(b) =~= encode_utf8(b));
    } else {
        assert((a + b).drop_first() =~= a.drop_first() + b);
        lemma_encode_concat(a.drop_first(), b);
        assert(encode_utf8(a + b) =~= encode_utf8(a) + encode_utf8(b));
    }
}

/// Different texts have different encodings.
pub proof fn lemma_encode_injective(a: Seq<char>, b: Seq<char>)
    requires
        encode_utf8(a) == encode_utf8(b),
    ensures
        a == b,
{
    encode_utf8_decode_utf8(a);
    encode_utf8_decode_utf8(b);
}

/// A prefix and the rest of a text are encoded as the two parts of its encoding.
pub proof fn lemma_encode_split(s: Seq<char>, k: int)
    requires
        0 <= k <= s.len(),
    ensures
        encode_utf8(s) == encode_utf8(s.take(k)) + encode_utf8(s.skip(k)),
        byte_len(s) == byte_len(s.take(k)) + byte_len(s.skip(k)),
{
    assert(s.take(k) + s.skip(k) =~= s);
    lemma_encode_concat(s.take(k), s.skip(k));
}

/// A text takes at least one byte for each of its characters.
pub proof fn lemma_byte_len_at_least(s: Seq<char>)
    ensures
        byte_len(s) >= s.len(),
    decreases s.len(),
{
    if s.len() > 0 {
        lemma_byte_len_first(s);
        lemma_char_width(s[0]);
        lemma_byte_len_at_least(s.drop_first());
    }
}

/// A longer prefix takes more bytes.
pub proof fn lemma_take_grows(s: Seq<char>, j: int, k: int)
    requires
        0 <= j <= k <= s.len(),
    ensures
        byte_len(s.take(j)) + (k - j) <= byte_len(s.take(k)),
{
    let p = s.take(k);
    assert(p.take(j) =~= s.take(j));
    lemma_encode_split(p, j);
    lemma_byte_len_at_least(p.skip(j));
}

/// The character boundaries of a text are the lengths of its prefixes.
pub proof fn lemma_boundary_of_prefix(s: Seq<char>, k: int)
    requires
        0 <= k <= s.len(),
    ensures
        is_char_boundary(encode_utf8(s), byte_len(s.take(k)) as int),
    decreases s.len(),
{
    encode_utf8_valid_utf8(s);
    if k == 0 {
        assert(s.take(0).len() == 0);
    } else {
        let rest = s.drop_first();
        let p = s.take(k);
        encode_utf8_first_scalar(s);
        assert(pop_first_scalar(encode_utf8(s)) =~= encode_utf8(rest));
        assert(p.drop_first() =~= rest.take(k - 1));
        lemma_byte_len_first(p);
        lemma_byte_len_first(s);
        lemma_char_width(s[0]);
        lemma_encode_split(s, k);
        lemma_boundary_of_prefix(rest, k - 1);
    }
}

/// Every character boundary of a text is the length of one of its prefixes.
pub proof fn lemma_prefix_of_boundary(s: Seq<char>, i: int) -> (k: int)
    requires
        is_char_boundary(encode_utf8(s), i),
    ensures
        0 <= k <= s.len(),
        i == byte_len(s.take(k)),
    decreases s.len(),
{
    encode_utf8_valid_utf8(s);
    if i == 0 {
        assert(s.take(0).len() == 0);
        0
    } else {
        let rest = s.drop_first();
        encode_utf8_first_scalar(s);
        assert(pop_first_scalar(encode_utf8(s)) =~= encode_utf8(rest));
        lemma_char_width(s[0]);
        let k = lemma_prefix_of_boundary(rest, i - char_width(s[0]));
        let p = s.take(k + 1);
        assert(p.drop_first() =~= rest.take(k));
        lemma_byte_len_first(p);
        k + 1
    }
}

/// `fitting` counts the longest prefix that takes no more than `max` bytes.
pub proof fn lemma_fitting(s: Seq<char>, max: int, k: int)
    requires
        0 <= k <= s.len(),
        0 <= max,
    ensures
        fitting(s, max) <= s.len(),
        byte_len(s.take(k)) <= max <==> k <= fitting(s, max),
    decreases s.len(),
{
    if s.len() == 0 {
        assert(s.take(0).len() == 0);
    } else {
        lemma_char_width(s[0]);
        let rest = s.drop_first();
        let w = char_width(s[0]);
        if k == 0 {
            assert(s.take(0).len() == 0);
            if w <= max {
                lemma_fitting(rest, max - w, 0);
            }
        } else {
            let p = s.take(k);
            assert(p.drop_first() =~= rest.take(k - 1));
            lemma_byte_len_first(p);
            if w <= max {
                lemma_fitting(rest, max - w, k - 1);
            }
        }
    }
}

/// The last index of `c` holds `c`, and nothing after it does.
pub proof fn lemma_last_index(s: Seq<char>, c: char)
    ensures
        match last_index(s, c) {
            Some(k) => 0 <= k < s.len() && s[k] == c && (forall|j: int|
                k < j < s.len() ==> s[j] != c),
            None => !s.contains(c),
        },
    decreases s.len(),
{
    if s.len() > 0 && s.last() != c {
        let init = s.drop_last();
        lemma_last_index(init, c);
        let from: int = match last_index(s, c) {
            Some(k) => k + 1,
            None => 0,
        };
        assert forall|j: int| from <= j < s.len() implies s[j] != c by {
            if j < s.len() - 1 {
                assert(init[j] == s[j]);
            }
        }
    }
}

/// Splits `s` behind its first `k` characters.
pub(crate) fn split<'a>(s: &'a str, mid: usize, Ghost(k): Ghost<int>) -> (r: (&'a str, &'a str))
    requires
        0 <= k <= s@.len(),
        mid == byte_len(s@.take(k)),
    ensures
        r.0@ == s@.take(k),
        r.1@ == s@.skip(k),
{
    proof {
        lemma_boundary_of_prefix(s@, k);
        lemma_encode_split(s@, k);
    }
    let r = s.split_at(mid);
    proof {
        assert(encode_utf8(r.0@) =~= encode_utf8(s@.take(k)));
        assert(encode_utf8(r.1@) =~= encode_utf8(s@.skip(k)));
        lemma_encode_injective(r.0@, s@.take(k));
        lemma_encode_injective(r.1@, s@.skip(k));
    }
    r
}

/// What `trim_start` drops is whitespace, and what it keeps starts with none.
pub proof fn lemma_trim_start(s: Seq<char>)
    ensures
        trim_start(s).len() <= s.len(),
        trim_start(s) == s.skip(s.len() - trim_start(s).len()),
        trim_start(s).len() > 0 ==> !is_white_space(trim_start(s)[0]),
        forall|i: int| 0 <= i < s.len() - trim_start(s).len() ==> is_white_space(#[trigger] s[i]),
    decreases s.len(),
{
    if s.len() > 0 && is_white_space(s[0]) {
        let rest = s.drop_first();
        lemma_trim_start(rest);
        let n = s.len() - trim_start(s).len();
        assert(rest.skip(n - 1) =~= s.skip(n));
        assert forall|i: int| 0 <= i < n implies is_white_space(#[trigger] s[i]) by {
            if i > 0 {
                assert(rest[i - 1] == s[i]);
            }
        }
    } else {
        assert(s.skip(0) =~= s);
    }
}

/// What `trim_end` drops is whitespace, and what it keeps ends with none.
pub proof fn lemma_trim_end(s: Seq<char>)
    ensures
        trim_end(s).len() <= s.len(),
        trim_end(s) == s.take(trim_end(s).len() as int),
        trim_end(s).len() > 0 ==> !is_white_space(trim_end(s).last()),
        forall|i: int| trim_end(s).len() <= i < s.len() ==> is_white_space(#[trigger] s[i]),
    decreases s.len(),
{
    if s.len() > 0 && is_white_space(s.last()) {
        let rest = s.drop_last();
        lemma_trim_end(rest);
        let n = trim_end(s).len() as int;
        assert(rest.take(n) =~= s.take(n));
        assert forall|i: int| n <= i < s.len() implies is_white_space(#[trigger] s[i]) by {
            if i < s.len() - 1 {
                assert(rest[i] == s[i]);
            }
        }
    } else {
        assert(s.take(s.len() as int) =~= s);
    }
}

/// Whitespace is dropped from each of two texts by itself.
pub proof fn lemma_ink_concat(a: Seq<char>, b: Seq<char>)
    ensures
        ink(a + b) == ink(a) + ink(b),
{
    Seq::filter_distributes_over_add(a, b, |c: char| !is_white_space(c));
}

/// Nothing of a blank text is left without its whitespace.
pub proof fn lemma_ink_blank(s: Seq<char>)
    requires
        is_blank(s),
    ensures
        ink(s) == Seq::<char>::empty(),
{
    let pred = |c: char| !is_white_space(c);
    assert(s.all(|c: char| !pred(c)));
    s.lemma_all_neg_filter_empty(pred);
}

/// What `trim` returns: the part of the text between its leading and its
/// trailing whitespace.
pub proof fn lemma_trim(s: Seq<char>) -> (bounds: (int, int))
    ensures
        0 <= bounds.0 <= bounds.1 <= s.len(),
        trim(s) == s.subrange(bounds.0, bounds.1),
        is_trimmed(trim(s)),
        ink(trim(s)) == ink(s),
        byte_len(trim(s)) <= byte_len(s),
        forall|i: int| 0 <= i < bounds.0 ==> is_white_space(#[trigger] s[i]),
        forall|i: int| bounds.1 <= i < s.len() ==> is_white_space(#[trigger] s[i]),
        s.len() > 0 && !is_white_space(s[0]) ==> bounds.0 == 0 && bounds.1 > 0,
        is_trimmed(s) ==> trim(s) == s,
{
    let t = trim_start(s);
    lemma_trim_start(s);
    lemma_trim_end(t);
    let a = s.len() - t.len();
    let b = a + trim(s).len();
    assert(trim(s) =~= s.subrange(a, b));
    assert forall|i: int| b <= i < s.len() implies is_white_space(#[trigger] s[i]) by {
        assert(t[i - a] == s[i]);
    }
    if trim(s).len() > 0 {
        assert(trim(s)[0] == t[0]);
    }
    let left = s.take(a);
    let right = s.skip(b);
    assert(s =~= left + trim(s) + right);
    lemma_ink_blank(left);
    lemma_ink_blank(right);
    lemma_ink_concat(left + trim(s), right);
    lemma_ink_concat(left, trim(s));
    assert(ink(s) =~= ink(trim(s)));
    lemma_encode_concat(left + trim(s), right);
    lemma_encode_concat(left, trim(s));
    if s.len() > 0 && !is_white_space(s[0]) {
        assert(a == 0);
        assert(t =~= s);
        assert(b > 0) by {
            if b == 0 {
                assert(is_white_space(s[0]));
            }
        }
    }
    if is_trimmed(s) {
        if s.len() > 0 {
            assert(b == s.len()) by {
                if b < s.len() {
                    assert(is_white_space(s[s.len() - 1]));
                }
            }
        }
        assert(trim(s) =~= s);
    }
    (a, b)
}

/// Taking out what does not occur changes nothing.
pub proof fn lemma_without_absent(s: Seq<char>, pattern: Seq<char>)
    requires
        !occurs_in(pattern, s),
    ensures
        without(s, pattern) == s,
    decreases s.len(),
{
    if s.len() > 0 && pattern.len() > 0 {
        let rest = s.drop_first();
        if pattern.is_prefix_of(s) {
            assert(s.subrange(0int, 0int + pattern.len()) == pattern);
        }
        assert(!occurs_in(pattern, rest)) by {
            if occurs_in(pattern, rest) {
                let i = choose|i: int|
                    0 <= i <= rest.len() - pattern.len() && #[trigger] rest.subrange(
                        i,
                        i + pattern.len(),
                    ) == pattern;
                assert(s.subrange(i + 1, i + 1 + pattern.len()) =~= rest.subrange(
                    i,
                    i + pattern.len(),
                ));
            }
        }
        lemma_without_absent(rest, pattern);
        assert(seq![s[0]] + rest =~= s);
    }
}

/// A text in which no occurrence of a pattern starts stays before the rest.
pub proof fn lemma_without_after(a: Seq<char>, b: Seq<char>, pattern: Seq<char>)
    requires
        pattern.len() > 0,
        forall|i: int| 0 <= i < a.len() ==> !pattern.is_prefix_of(#[trigger] (a + b).skip(i)),
    ensures
        without(a + b, pattern) == a + without(b, pattern),
    decreases a.len(),
{
    let s = a + b;
    if a.len() == 0 {
        assert(s =~= b);
        assert(a + without(b, pattern) =~= without(b, pattern));
    } else {
        let rest = a.drop_first();
        assert(s.skip(0) =~= s);
        assert(s.drop_first() =~= rest + b);
        assert forall|i: int| 0 <= i < rest.len() implies !pattern.is_prefix_of(
            #[trigger] (rest + b).skip(i),
        ) by {
            assert((rest + b).skip(i) =~= s.skip(i + 1));
        }
        lemma_without_after(rest, b, pattern);
        assert(seq![a[0]] + (rest + without(b, pattern)) =~= a + without(b, pattern));
    }
}

/// A number in base ten is written with at least one digit, and with digits only.
pub proof fn lemma_decimal(n: nat)
    ensures
        decimal(n).len() > 0,
        forall|i: int| 0 <= i < decimal(n).len() ==> '0' <= #[trigger] decimal(n)[i] <= '9',
    decreases n,
{
    if n >= 10 {
        lemma_decimal(n / 10);
    }
}

/// The length of `s` in bytes.
pub fn str_len(s: &str) -> (r: usize)
    ensures
        r == byte_len(s@),
{
    s.as_bytes().len()
}

/// Whether `a` and `b` hold the same characters.
pub fn same_text(a: &str, b: &str) -> (r: bool)
    ensures
        r == (a@ == b@),
{
    a.to_owned() == b.to_owned()
}

/// `before`, then `middle`, then `after`.
pub(crate) fn concat3(before: &str, middle: &str, after: &str) -> (r: String)
    ensures
        r@ == before@ + middle@ + after@,
{
    let mut r = before.to_owned();
    r.append(middle);
    r.append(after);
    r
}

} // verus!
