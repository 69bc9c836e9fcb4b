//! Text primitives shared by the prompt, routing and code-generation modules.
//!
//! Strings are modelled by their character sequences (`s@`).  Byte lengths
//! follow UTF-8: `byte_len` is the length of the UTF-8 encoding.
use vstd::prelude::*;
use vstd::utf8::*;

verus! {

// ---------------------------------------------------------------------------
// Specifications
// ---------------------------------------------------------------------------

/// Number of bytes in the UTF-8 encoding of one character.
pub open spec fn char_width(c: char) -> nat {
    if (c as u32) < 0x80 {
        1
    } else if (c as u32) < 0x800 {
        2
    } else if (c as u32) < 0x10000 {
        3
    } else {
        4
    }
}

/// Number of bytes in the UTF-8 encoding of a character sequence.
pub open spec fn byte_len(s: Seq<char>) -> nat
    decreases s.len(),
{
    if s.len() == 0 {
        0
    } else {
        byte_len(s.drop_last()) + char_width(s.last())
    }
}

/// `needle` occurs in `hay` starting at character position `i`.
pub open spec fn occurs_at(hay: Seq<char>, needle: Seq<char>, i: int) -> bool {
    &&& 0 <= i
    &&& i + needle.len() <= hay.len()
    &&& hay.subrange(i, i + needle.len()) == needle
}

/// `needle` is a substring of `hay` (the empty string is a substring of every string).
pub open spec fn contains(hay: Seq<char>, needle: Seq<char>) -> bool {
    exists|i: int| occurs_at(hay, needle, i)
}

/// Position of the first occurrence of `needle` in `hay` at or after `from`.
pub open spec fn find_from(hay: Seq<char>, needle: Seq<char>, from: int) -> Option<int>
    decreases hay.len() + 1 - from,
{
    if from < 0 || from + needle.len() > hay.len() {
        None
    } else if occurs_at(hay, needle, from) {
        Some(from)
    } else {
        find_from(hay, needle, from + 1)
    }
}

/// Position of the first occurrence of `needle` in `hay` (`str::find`).
pub open spec fn find(hay: Seq<char>, needle: Seq<char>) -> Option<int> {
    find_from(hay, needle, 0)
}

/// Position of the last occurrence of `needle` in `hay` starting at or before `i`.
pub open spec fn rfind_upto(hay: Seq<char>, needle: Seq<char>, i: int) -> Option<int>
    decreases i + 1,
{
    if i < 0 {
        None
    } else if occurs_at(hay, needle, i) {
        Some(i)
    } else {
        rfind_upto(hay, needle, i - 1)
    }
}

/// Position of the last occurrence of `needle` in `hay` (`str::rfind`).
pub open spec fn rfind(hay: Seq<char>, needle: Seq<char>) -> Option<int> {
    rfind_upto(hay, needle, hay.len() - needle.len())
}

/// `s` begins with `p`.
pub open spec fn starts_with(s: Seq<char>, p: Seq<char>) -> bool {
    p.len() <= s.len() && s.subrange(0, p.len() as int) == p
}

/// `s` ends with `p`.
pub open spec fn ends_with(s: Seq<char>, p: Seq<char>) -> bool {
    p.len() <= s.len() && s.subrange(s.len() - p.len(), s.len() as int) == p
}

/// Unicode `White_Space` characters.
pub open spec fn is_ws(c: char) -> bool {
    let u = c as u32;
    ||| 0x09 <= u <= 0x0D
    ||| u == 0x20
    ||| u == 0x85
    ||| u == 0xA0
    ||| u == 0x1680
    ||| 0x2000 <= u <= 0x200A
    ||| u == 0x2028
    ||| u == 0x2029
    ||| u == 0x202F
    ||| u == 0x205F
    ||| u == 0x3000
}

/// `s` with its trailing whitespace removed.
pub open spec fn trim_end(s: Seq<char>) -> Seq<char>
    decreases s.len(),
{
    if s.len() > 0 && is_ws(s.last()) {
        trim_end(s.drop_last())
    } else {
        s
    }
}

/// `s` with its leading whitespace removed.
pub open spec fn trim_start(s: Seq<char>) -> Seq<char>
    decreases s.len(),
{
    if s.len() > 0 && is_ws(s[0]) {
        trim_start(s.drop_first())
    } else {
        s
    }
}

/// `s` with whitespace removed at both ends.
pub open spec fn trim(s: Seq<char>) -> Seq<char> {
    trim_start(trim_end(s))
}

/// The decimal digit character for `d < 10`.
pub open spec fn digit_char(d: nat) -> char {
    ((48 + d) as u8) as char
}

/// The decimal rendering of `n`, without sign or leading zeros.
pub open spec fn decimal(n: nat) -> Seq<char>
    decreases n,
{
    if n < 10 {
        seq![digit_char(n)]
    } else {
        decimal(n / 10).push(digit_char(n % 10))
    }
}

/// The rendering of a signed integer: a minus sign before the magnitude when negative.
pub open spec fn signed_decimal(n: int) -> Seq<char> {
    if n < 0 {
        seq!['-'] + decimal((-n) as nat)
    } else {
        decimal(n as nat)
    }
}

/// The lowercase hexadecimal digit character for `d < 16`.
pub open spec fn hex_char(d: nat) -> char {
    if d < 10 {
        ((48 + d) as u8) as char
    } else {
        ((87 + d) as u8) as char
    }
}

/// Two lowercase hexadecimal digits per byte, most significant digit first.
pub open spec fn hex_bytes(b: Seq<u8>) -> Seq<char>
    decreases b.len(),
{
    if b.len() == 0 {
        seq![]
    } else {
        hex_bytes(b.drop_last()).push(hex_char((b.last() / 16) as nat)).push(
            hex_char((b.last() % 16) as nat),
        )
    }
}

/// Each byte gives two hexadecimal digits.
pub proof fn lemma_hex_bytes_len(b: Seq<u8>)
    ensures
        hex_bytes(b).len() == 2 * b.len(),
    decreases b.len(),
{
    if b.len() > 0 {
        lemma_hex_bytes_len(b.drop_last());
    }
}

/// The concatenation of `parts`, with `sep` between neighbours.
pub open spec fn join(parts: Seq<Seq<char>>, sep: Seq<char>) -> Seq<char>
    decreases parts.len(),
{
    if parts.len() == 0 {
        seq![]
    } else if parts.len() == 1 {
        parts[0]
    } else {
        join(parts.drop_last(), sep) + sep + parts.last()
    }
}

/// The concatenation of `parts`.
pub open spec fn concat_all(parts: Seq<Seq<char>>) -> Seq<char>
    decreases parts.len(),
{
    if parts.len() == 0 {
        seq![]
    } else {
        concat_all(parts.drop_last()) + parts.last()
    }
}

/// Byte offset `b` falls between two characters of `s` (or at either end).
pub open spec fn is_boundary(s: Seq<char>, b: int) -> bool {
    exists|k: int| 0 <= k <= s.len() && byte_len(s.take(k)) == b
}

/// The character index at byte offset `b`, when `b` is a boundary.
pub open spec fn boundary_index(s: Seq<char>, b: int) -> int {
    choose|k: int| 0 <= k <= s.len() && byte_len(s.take(k)) == b
}

/// The characters before byte offset `b` (`&s[..b]`).
pub open spec fn byte_prefix(s: Seq<char>, b: int) -> Seq<char> {
    s.take(boundary_index(s, b))
}

/// The characters from byte offset `b` on (`&s[b..]`).
pub open spec fn byte_suffix(s: Seq<char>, b: int) -> Seq<char> {
    s.skip(boundary_index(s, b))
}

/// Pieces of `s` between newline characters; there is always at least one piece.
pub open spec fn split_newlines(s: Seq<char>) -> Seq<Seq<char>>
    decreases s.len(),
{
    if s.len() == 0 {
        seq![Seq::<char>::empty()]
    } else {
        let p = split_newlines(s.drop_last());
        if s.last() == '\n' {
            p.push(Seq::<char>::empty())
        } else {
            p.update(p.len() - 1, p.last().push(s.last()))
        }
    }
}

/// A line without the carriage return that preceded its newline.
pub open spec fn strip_cr(l: Seq<char>) -> Seq<char> {
    if l.len() > 0 && l.last() == '\r' {
        l.drop_last()
    } else {
        l
    }
}

/// The lines of `s` (`str::lines`): pieces between newlines, a `\r` before a
/// newline dropped, and no final empty piece after a trailing newline.
pub open spec fn lines(s: Seq<char>) -> Seq<Seq<char>> {
    let p = split_newlines(s);
    let n = if p.last().len() == 0 {
        p.len() - 1
    } else {
        p.len() as int
    };
    Seq::new(
        n as nat,
        |k: int|
            if k < p.len() - 1 {
                strip_cr(p[k])
            } else {
                p[k]
            },
    )
}

/// Maximal runs of non-whitespace characters (`str::split_whitespace`).
pub open spec fn words(s: Seq<char>) -> Seq<Seq<char>>
    decreases s.len(),
{
    if s.len() == 0 {
        seq![]
    } else {
        let p = words(s.drop_last());
        let c = s.last();
        if is_ws(c) {
            p
        } else if s.len() >= 2 && !is_ws(s[s.len() - 2]) {
            p.update(p.len() - 1, p.last().push(c))
        } else {
            p.push(seq![c])
        }
    }
}

/// The character sequences held by a sequence of character vectors.
pub open spec fn char_vecs(v: Seq<Vec<char>>) -> Seq<Seq<char>> {
    Seq::new(v.len(), |i: int| v[i]@)
}

/// The result of the outside lowercase conversion (Unicode case mapping).
pub uninterp spec fn lowercase(s: Seq<char>) -> Seq<char>;

/// The result of the outside uppercase conversion (Unicode case mapping).
pub uninterp spec fn uppercase(s: Seq<char>) -> Seq<char>;

/// Whether the outside character classification calls `c` alphanumeric.
pub uninterp spec fn alphanumeric(c: char) -> bool;

// ---------------------------------------------------------------------------
// Lemmas
// ---------------------------------------------------------------------------

/// The encoding of one character has `char_width` bytes.
pub proof fn lemma_encode_scalar_len(c: char)
    ensures
        encode_scalar(c as u32).len() == char_width(c),
{
    broadcast use char_is_scalar;

    assert(is_scalar(c as u32));
}

/// UTF-8 encoding distributes over concatenation.
pub proof fn lemma_encode_concat(a: Seq<char>, b: Seq<char>)
    ensures
        encode_utf8(a + b) == encode_utf8(a) + encode_utf8(b),
    decreases a.len(),
{
    if a.len() == 0 {
        assert(a + b =~= b);
        assert(encode_utf8(a) =~= Seq::<u8>::empty());
        assert(encode_utf8(a) + encode_utf8(b) =~= encode_utf8(b));
    } else {
        lemma_encode_concat(a.drop_first(), b);
        assert((a + b).drop_first() =~= a.drop_first() + b);
        assert((a + b)[0] == a[0]);
        assert(encode_utf8(a + b) == encode_scalar(a[0] as u32) + encode_utf8(a.drop_first() + b));
        assert(encode_utf8(a + b) =~= encode_utf8(a) + encode_utf8(b));
    }
}

/// `byte_len` is the length of the UTF-8 encoding, so it agrees with `str::len`.
pub proof fn lemma_byte_len_encode(s: Seq<char>)
    ensures
        encode_utf8(s).len() == byte_len(s),
    decreases s.len(),
{
    if s.len() > 0 {
        lemma_byte_len_encode(s.drop_last());
        assert(s =~= s.drop_last() + seq![s.last()]);
        lemma_encode_concat(s.drop_last(), seq![s.last()]);
        let one = seq![s.last()];
        assert(one.drop_first() =~= Seq::<char>::empty());
        assert(encode_utf8(one) == encode_scalar(s.last() as u32) + encode_utf8(
            Seq::<char>::empty(),
        ));
        lemma_encode_scalar_len(s.last());
        assert(encode_utf8(one).len() == char_width(s.last()));
    }
}

/// `byte_len` is additive.
pub proof fn lemma_byte_len_concat(a: Seq<char>, b: Seq<char>)
    ensures
        byte_len(a + b) == byte_len(a) + byte_len(b),
{
    lemma_encode_concat(a, b);
    lemma_byte_len_encode(a);
    lemma_byte_len_encode(b);
    lemma_byte_len_encode(a + b);
}

/// Prefixes of a sequence are no longer in bytes than the whole.
pub proof fn lemma_byte_len_take(s: Seq<char>, k: int)
    requires
        0 <= k <= s.len(),
    ensures
        byte_len(s.take(k)) <= byte_len(s),
        byte_len(s.take(k)) + byte_len(s.skip(k)) == byte_len(s),
{
    assert(s =~= s.take(k) + s.skip(k));
    lemma_byte_len_concat(s.take(k), s.skip(k));
}

/// A sequence has at least as many bytes as characters.
pub proof fn lemma_byte_len_ge_len(s: Seq<char>)
    ensures
        byte_len(s) >= s.len(),
        byte_len(s) <= 4 * s.len(),
    decreases s.len(),
{
    if s.len() > 0 {
        lemma_byte_len_ge_len(s.drop_last());
    }
}

/// Every proper extension at a larger index keeps the earlier prefix inside the later one.
pub proof fn lemma_byte_len_take_mono(s: Seq<char>, j: int, k: int)
    requires
        0 <= j <= k <= s.len(),
    ensures
        byte_len(s.take(j)) <= byte_len(s.take(k)),
        j < k ==> byte_len(s.take(j)) < byte_len(s.take(k)),
{
    assert(s.take(k).take(j) =~= s.take(j));
    lemma_byte_len_take(s.take(k), j);
    lemma_byte_len_ge_len(s.take(k).skip(j));
}

/// Trailing-whitespace removal yields a prefix.
pub proof fn lemma_trim_end_prefix(s: Seq<char>)
    ensures
        trim_end(s).len() <= s.len(),
        trim_end(s) == s.take(trim_end(s).len() as int),
        trim_end(s).len() == 0 || !is_ws(trim_end(s).last()),
    decreases s.len(),
{
    if s.len() > 0 && is_ws(s.last()) {
        lemma_trim_end_prefix(s.drop_last());
        assert(s.drop_last().take(trim_end(s).len() as int) =~= s.take(trim_end(s).len() as int));
    } else {
        assert(s.take(s.len() as int) =~= s);
    }
}

/// There is always at least one newline-separated piece.
pub proof fn lemma_split_newlines_len(s: Seq<char>)
    ensures
        split_newlines(s).len() >= 1,
    decreases s.len(),
{
    if s.len() > 0 {
        lemma_split_newlines_len(s.drop_last());
    }
}

/// Distinct prefixes have distinct byte lengths.
pub proof fn lemma_boundary_unique(s: Seq<char>, k: int)
    requires
        0 <= k <= s.len(),
    ensures
        is_boundary(s, byte_len(s.take(k)) as int),
        boundary_index(s, byte_len(s.take(k)) as int) == k,
{
    let b = byte_len(s.take(k)) as int;
    assert(0 <= k <= s.len() && byte_len(s.take(k)) == b);
    let j = boundary_index(s, b);
    if j < k {
        lemma_byte_len_take_mono(s, j, k);
    } else if k < j {
        lemma_byte_len_take_mono(s, k, j);
    }
}

/// A string ending in a non-whitespace character has at least one word.
pub proof fn lemma_words_nonempty(s: Seq<char>)
    requires
        s.len() > 0,
        !is_ws(s.last()),
    ensures
        words(s).len() > 0,
    decreases s.len(),
{
    if s.len() >= 2 && !is_ws(s[s.len() - 2]) {
        assert(s.drop_last().last() == s[s.len() - 2]);
        lemma_words_nonempty(s.drop_last());
    }
}

/// The decimal rendering is non-empty and starts with a digit.
pub proof fn lemma_decimal_nonempty(n: nat)
    ensures
        decimal(n).len() >= 1,
    decreases n,
{
    if n >= 10 {
        lemma_decimal_nonempty(n / 10);
    }
}

// ---------------------------------------------------------------------------
// Executable operations
// ---------------------------------------------------------------------------

/// The characters of `s`, in order.
pub fn chars_of(s: &str) -> (r: Vec<char>)
    ensures
        r@ == s@,
{
    let mut v: Vec<char> = Vec::new();
    for c in it: s.chars()
        invariant
            v@ == it.seq().take(it.index()),
    {
        v.push(c);
    }
    v
}

/// Appends one character (`String::push`).
#[verifier::external_body]
pub(crate) fn push_char(s: &mut String, c: char)
    ensures
        final(s)@ == old(s)@.push(c),
{
    s.push(c);
}

/// Appends a string slice.
pub fn push_str(s: &mut String, t: &str)
    ensures
        final(s)@ == old(s)@ + t@,
{
    s.append(t);
}

/// A new string holding the characters `v[lo..hi]`.
pub fn string_from_range(v: &[char], lo: usize, hi: usize) -> (r: String)
    requires
        lo <= hi <= v@.len(),
    ensures
        r@ == v@.subrange(lo as int, hi as int),
{
    let mut s = String::new();
    let mut i: usize = lo;
    while i < hi
        invariant
            lo <= i <= hi <= v@.len(),
            s@ == v@.subrange(lo as int, i as int),
        decreases hi - i,
    {
        push_char(&mut s, v[i]);
        i = i + 1;
        assert(s@ =~= v@.subrange(lo as int, i as int));
    }
    s
}

/// A new string holding the given characters.
pub fn string_from_chars(v: &[char]) -> (r: String)
    ensures
        r@ == v@,
{
    let r = string_from_range(v, 0, v.len());
    assert(v@.subrange(0, v@.len() as int) =~= v@);
    r
}

/// A copy of a string slice.
pub fn to_owned(s: &str) -> (r: String)
    ensures
        r@ == s@,
{
    s.to_owned()
}

/// Byte length of a string slice.
pub fn str_byte_len(s: &str) -> (n: usize)
    ensures
        n == byte_len(s@),
{
    proof {
        lemma_byte_len_encode(s@);
    }
    s.as_bytes().len()
}

/// The lowercase form of a string (`str::to_lowercase`).
#[verifier::external_body]
pub(crate) fn to_lowercase(s: &str) -> (r: String)
    ensures
        r@ == lowercase(s@),
{
    s.to_lowercase()
}

/// The uppercase form of a string (`str::to_uppercase`).
#[verifier::external_body]
pub(crate) fn to_uppercase(s: &str) -> (r: String)
    ensures
        r@ == uppercase(s@),
{
    s.to_uppercase()
}

/// Whether a character is alphanumeric (`char::is_alphanumeric`).
#[verifier::external_body]
pub(crate) fn is_alphanumeric(c: char) -> (r: bool)
    ensures
        r == alphanumeric(c),
{
    c.is_alphanumeric()
}

/// Whether `c` is Unicode whitespace.
pub fn is_whitespace(c: char) -> (r: bool)
    ensures
        r == is_ws(c),
{
    let u = c as u32;
    (0x09 <= u && u <= 0x0D) || u == 0x20 || u == 0x85 || u == 0xA0 || u == 0x1680 || (0x2000
        <= u && u <= 0x200A) || u == 0x2028 || u == 0x2029 || u == 0x202F || u == 0x205F || u
        == 0x3000
}

/// Whether `needle` occurs in `hay` at position `i`.
pub fn occurs_at_exec(hay: &[char], needle: &[char], i: usize) -> (r: bool)
    ensures
        r == occurs_at(hay@, needle@, i as int),
{
    if i > hay.len() || needle.len() > hay.len() - i {
        return false;
    }
    let mut j: usize = 0;
    while j < needle.len()
        invariant
            i + needle.len() <= hay.len(),
            0 <= j <= needle.len(),
            forall|k: int| 0 <= k < j ==> hay@[i + k] == needle@[k],
        decreases needle.len() - j,
    {
        if hay[i + j] != needle[j] {
            assert(hay@.subrange(i as int, i + needle.len())[j as int] != needle@[j as int]);
            return false;
        }
        j = j + 1;
    }
    assert(hay@.subrange(i as int, i + needle.len()) =~= needle@);
    true
}

/// Whether `needle` is a substring of `hay`.
pub fn contains_chars(hay: &[char], needle: &[char]) -> (r: bool)
    ensures
        r == contains(hay@, needle@),
{
    if needle.len() > hay.len() {
        assert(forall|i: int| !occurs_at(hay@, needle@, i));
        return false;
    }
    let last = hay.len() - needle.len();
    let mut i: usize = 0;
    while i <= last
        invariant_except_break
            0 <= i <= last,
            forall|k: int| 0 <= k < i ==> !occurs_at(hay@, needle@, k),
        invariant
            last == hay.len() - needle.len(),
        ensures
            forall|k: int| 0 <= k <= last ==> !occurs_at(hay@, needle@, k),
        decreases last + 1 - i,
    {
        if occurs_at_exec(hay, needle, i) {
            return true;
        }
        if i == last {
            break;
        }
        i = i + 1;
    }
    assert forall|k: int| !occurs_at(hay@, needle@, k) by {
        if 0 <= k && k <= last {
        } else {
        }
    }
    false
}

/// Position of the first occurrence of `needle` in `hay` at or after `from`.
pub fn find_chars(hay: &[char], needle: &[char], from: usize) -> (r: Option<usize>)
    ensures
        match r {
            Some(i) => find_from(hay@, needle@, from as int) == Some(i as int),
            None => find_from(hay@, needle@, from as int) is None,
        },
{
    let mut i = from;
    while i <= hay.len() && needle.len() <= hay.len() - i
        invariant
            from <= i,
            find_from(hay@, needle@, i as int) == find_from(hay@, needle@, from as int),
        decreases hay.len() + 1 - i,
    {
        if occurs_at_exec(hay, needle, i) {
            return Some(i);
        }
        if i == hay.len() {
            assert(find_from(hay@, needle@, i + 1) is None);
            return None;
        }
        i = i + 1;
    }
    None
}

/// Position of the last occurrence of `needle` in `hay`.
pub fn rfind_chars(hay: &[char], needle: &[char]) -> (r: Option<usize>)
    ensures
        match r {
            Some(i) => rfind(hay@, needle@) == Some(i as int),
            None => rfind(hay@, needle@) is None,
        },
{
    if needle.len() > hay.len() {
        return None;
    }
    let mut i = hay.len() - needle.len();
    loop
        invariant
            i + needle.len() <= hay.len(),
            rfind_upto(hay@, needle@, i as int) == rfind(hay@, needle@),
        decreases i,
    {
        if occurs_at_exec(hay, needle, i) {
            return Some(i);
        }
        if i == 0 {
            assert(rfind_upto(hay@, needle@, -1) is None);
            return None;
        }
        i = i - 1;
    }
}

/// A new string holding `v[lo..hi]` without surrounding whitespace.
pub fn trimmed_range(v: &[char], lo: usize, hi: usize) -> (r: String)
    requires
        lo <= hi <= v@.len(),
    ensures
        r@ == trim(v@.subrange(lo as int, hi as int)),
{
    let s = string_from_range(v, lo, hi);
    trim_string(s.as_str())
}

/// Whether `needle` is a substring of `hay` (`str::contains`).
pub fn str_contains(hay: &str, needle: &str) -> (r: bool)
    ensures
        r == contains(hay@, needle@),
{
    let h = chars_of(hay);
    let n = chars_of(needle);
    contains_chars(h.as_slice(), n.as_slice())
}

/// Whether `s` begins with `p`.
pub fn starts_with_chars(s: &[char], p: &[char]) -> (r: bool)
    ensures
        r == starts_with(s@, p@),
{
    let r = occurs_at_exec(s, p, 0);
    assert(r == starts_with(s@, p@));
    r
}

/// Whether `s` begins with `p` (`str::starts_with`).
pub fn str_starts_with(s: &str, p: &str) -> (r: bool)
    ensures
        r == starts_with(s@, p@),
{
    let a = chars_of(s);
    let b = chars_of(p);
    starts_with_chars(a.as_slice(), b.as_slice())
}

/// Whether `s` ends with `p`.
pub fn ends_with_chars(s: &[char], p: &[char]) -> (r: bool)
    ensures
        r == ends_with(s@, p@),
{
    if p.len() > s.len() {
        return false;
    }
    occurs_at_exec(s, p, s.len() - p.len())
}

/// Whether `s` ends with `p` (`str::ends_with`).
pub fn str_ends_with(s: &str, p: &str) -> (r: bool)
    ensures
        r == ends_with(s@, p@),
{
    let a = chars_of(s);
    let b = chars_of(p);
    ends_with_chars(a.as_slice(), b.as_slice())
}

/// `s` without trailing whitespace (`str::trim_end`).
pub fn trim_end_string(s: &str) -> (r: String)
    ensures
        r@ == trim_end(s@),
{
    let v = chars_of(s);
    let mut n = v.len();
    proof {
        assert(v@.take(n as int) =~= v@);
    }
    while n > 0 && is_whitespace(v[n - 1])
        invariant
            0 <= n <= v@.len(),
            trim_end(v@.take(n as int)) == trim_end(v@),
        decreases n,
    {
        proof {
            assert(v@.take(n as int).drop_last() =~= v@.take(n - 1));
        }
        n = n - 1;
    }
    proof {
        if n > 0 {
            assert(v@.take(n as int).last() == v@[n - 1]);
        }
        assert(trim_end(v@.take(n as int)) == v@.take(n as int));
    }
    let r = string_from_range(v.as_slice(), 0, n);
    assert(v@.subrange(0, n as int) =~= v@.take(n as int));
    r
}

/// `s` without surrounding whitespace (`str::trim`).
pub fn trim_string(s: &str) -> (r: String)
    ensures
        r@ == trim(s@),
{
    let e = trim_end_string(s);
    let v = chars_of(e.as_str());
    let mut k: usize = 0;
    proof {
        assert(v@.skip(0) =~= v@);
    }
    while k < v.len() && is_whitespace(v[k])
        invariant
            0 <= k <= v@.len(),
            trim_start(v@.skip(k as int)) == trim_start(v@),
        decreases v.len() - k,
    {
        proof {
            assert(v@.skip(k as int).drop_first() =~= v@.skip(k + 1));
        }
        k = k + 1;
    }
    proof {
        if k < v.len() {
            assert(v@.skip(k as int)[0] == v@[k as int]);
        }
        assert(trim_start(v@.skip(k as int)) == v@.skip(k as int));
        assert(v@.skip(k as int) =~= v@.subrange(k as int, v.len() as int));
    }
    string_from_range(v.as_slice(), k, v.len())
}

/// Bytes in the UTF-8 encoding of `c`.
pub fn char_width_exec(c: char) -> (r: usize)
    ensures
        r == char_width(c),
{
    let u = c as u32;
    if u < 0x80 {
        1
    } else if u < 0x800 {
        2
    } else if u < 0x10000 {
        3
    } else {
        4
    }
}

/// The character index at byte offset `b`, or `None` when `b` is not a boundary.
pub fn char_index_at_byte(v: &[char], b: usize) -> (r: Option<usize>)
    ensures
        r matches Some(k) ==> k <= v@.len() && boundary_index(v@, b as int) == k && is_boundary(
            v@,
            b as int,
        ),
        r is None ==> !is_boundary(v@, b as int),
{
    let mut k: usize = 0;
    let mut acc: usize = 0;
    proof {
        assert(v@.take(0) =~= Seq::<char>::empty());
    }
    while k < v.len() && acc < b
        invariant
            0 <= k <= v@.len(),
            acc == byte_len(v@.take(k as int)),
            acc <= b || k == 0,
            forall|j: int| 0 <= j < k ==> byte_len(v@.take(j)) < b,
        decreases v.len() - k,
    {
        let w = char_width_exec(v[k]);
        proof {
            assert(v@.take(k + 1).drop_last() =~= v@.take(k as int));
        }
        if w > b - acc {
            proof {
                assert forall|j: int| 0 <= j <= v@.len() implies byte_len(v@.take(j)) != b by {
                    if j <= k {
                        lemma_byte_len_take_mono(v@, j, k as int);
                    } else {
                        lemma_byte_len_take_mono(v@, k + 1, j);
                    }
                }
            }
            return None;
        }
        acc = acc + w;
        k = k + 1;
    }
    if acc == b {
        proof {
            lemma_boundary_unique(v@, k as int);
        }
        Some(k)
    } else {
        proof {
            assert forall|j: int| 0 <= j <= v@.len() implies byte_len(v@.take(j)) != b by {
                if j < k {
                } else if j == k {
                } else {
                    lemma_byte_len_take_mono(v@, k as int, j);
                }
            }
        }
        None
    }
}

/// The lines of a string slice (`str::lines`).
pub fn split_lines(s: &str) -> (r: Vec<Vec<char>>)
    ensures
        char_vecs(r@) == lines(s@),
{
    let v = chars_of(s);
    let mut done: Vec<Vec<char>> = Vec::new();
    let mut cur: Vec<char> = Vec::new();
    let mut i: usize = 0;
    proof {
        assert(v@.take(0) =~= Seq::<char>::empty());
        assert(char_vecs(done@).push(cur@) =~= split_newlines(v@.take(0)));
    }
    while i < v.len()
        invariant
            0 <= i <= v@.len(),
            char_vecs(done@).push(cur@) == split_newlines(v@.take(i as int)),
        decreases v.len() - i,
    {
        let c = v[i];
        let ghost prev = v@.take(i as int);
        proof {
            assert(v@.take(i + 1).drop_last() =~= prev);
            assert(v@.take(i + 1).last() == c);
        }
        if c == '\n' {
            let old_cur = cur;
            let ghost old_done = done@;
            done.push(old_cur);
            proof {
                assert(done@ =~= old_done.push(old_cur));
                assert(char_vecs(done@) =~= char_vecs(old_done).push(old_cur@));
            }
            cur = Vec::new();
            proof {
                assert(char_vecs(done@) =~= split_newlines(prev));
                assert(char_vecs(done@).push(cur@) =~= split_newlines(v@.take(i + 1)));
            }
        } else {
            let ghost before = cur@;
            cur.push(c);
            proof {
                let p = split_newlines(prev);
                assert(p.last() == before);
                assert(char_vecs(done@).push(cur@) =~= p.update(p.len() - 1, before.push(c)));
            }
        }
        i = i + 1;
    }
    proof {
        assert(v@.take(v.len() as int) =~= v@);
    }
    let ghost p = split_newlines(v@);
    let mut out: Vec<Vec<char>> = Vec::new();
    let mut k: usize = 0;
    while k < done.len()
        invariant
            0 <= k <= done.len(),
            char_vecs(done@).push(cur@) == p,
            char_vecs(out@) == Seq::new(k as nat, |j: int| strip_cr(p[j])),
        decreases done.len() - k,
    {
        let line = &done[k];
        let n = line.len();
        let mut copy: Vec<char> = Vec::new();
        let stop = if n > 0 && line[n - 1] == '\r' {
            n - 1
        } else {
            n
        };
        let mut j: usize = 0;
        while j < stop
            invariant
                0 <= j <= stop <= n,
                n == line@.len(),
                copy@ == line@.take(j as int),
            decreases stop - j,
        {
            copy.push(line[j]);
            j = j + 1;
            assert(copy@ =~= line@.take(j as int));
        }
        proof {
            assert(p[k as int] == line@);
            assert(copy@ =~= strip_cr(line@));
        }
        let ghost old_out = out@;
        out.push(copy);
        proof {
            assert(out@ =~= old_out.push(copy));
            assert(char_vecs(out@) =~= char_vecs(old_out).push(copy@));
        }
        k = k + 1;
        proof {
            assert(char_vecs(out@) =~= Seq::new(k as nat, |j: int| strip_cr(p[j])));
        }
    }
    let ghost old_out = out@;
    let ghost last = cur@;
    if cur.len() > 0 {
        out.push(cur);
        proof {
            assert(out@ =~= old_out.push(cur));
            assert(char_vecs(out@) =~= char_vecs(old_out).push(last));
        }
    }
    proof {
        lemma_split_newlines_len(v@);
        assert(p.last() == last);
        assert(char_vecs(out@) =~= lines(s@));
    }
    out
}

/// The whitespace-separated words of a string slice (`str::split_whitespace`).
pub fn split_words(s: &str) -> (r: Vec<Vec<char>>)
    ensures
        char_vecs(r@) == words(s@),
{
    let v = chars_of(s);
    let mut done: Vec<Vec<char>> = Vec::new();
    let mut cur: Vec<char> = Vec::new();
    let mut i: usize = 0;
    proof {
        assert(v@.take(0) =~= Seq::<char>::empty());
    }
    while i < v.len()
        invariant
            0 <= i <= v@.len(),
            cur@.len() == 0 ==> char_vecs(done@) == words(v@.take(i as int)),
            cur@.len() > 0 ==> char_vecs(done@).push(cur@) == words(v@.take(i as int)),
            cur@.len() > 0 ==> i > 0 && !is_ws(v@[i - 1]),
            cur@.len() == 0 ==> i == 0 || is_ws(v@[i - 1]),
        decreases v.len() - i,
    {
        let c = v[i];
        let ghost prev = v@.take(i as int);
        proof {
            assert(v@.take(i + 1).drop_last() =~= prev);
            assert(v@.take(i + 1).last() == c);
            if i >= 1 {
                assert(v@.take(i + 1)[i - 1] == v@[i - 1]);
            }
        }
        if is_whitespace(c) {
            if cur.len() > 0 {
                let w = cur;
                let ghost old_done = done@;
                done.push(w);
                cur = Vec::new();
                proof {
                    assert(done@ =~= old_done.push(w));
                    assert(char_vecs(done@) =~= char_vecs(old_done).push(w@));
                }
            }
        } else {
            if cur.len() > 0 {
                let ghost before = cur@;
                cur.push(c);
                proof {
                    let p = words(prev);
                    assert(p.last() == before);
                    assert(char_vecs(done@).push(cur@) =~= p.update(p.len() - 1, before.push(c)));
                }
            } else {
                let ghost empty = cur@;
                cur.push(c);
                proof {
                    assert(cur@ =~= seq![c]);
                    assert(char_vecs(done@) == words(prev));
                    assert(words(v@.take(i + 1)) == words(prev).push(seq![c]));
                    assert(char_vecs(done@).push(cur@) =~= words(prev).push(seq![c]));
                }
            }
        }
        i = i + 1;
    }
    proof {
        assert(v@.take(v.len() as int) =~= v@);
    }
    if cur.len() > 0 {
        let ghost old_done = done@;
        let ghost last = cur@;
        done.push(cur);
        proof {
            assert(done@ =~= old_done.push(done@.last()));
            assert(char_vecs(done@) =~= char_vecs(old_done).push(last));
        }
    }
    done
}

/// Whether two string slices hold the same characters.
pub fn str_eq(a: &str, b: &str) -> (r: bool)
    ensures
        r == (a@ == b@),
{
    let x = chars_of(a);
    let y = chars_of(b);
    chars_eq(x.as_slice(), y.as_slice())
}

/// Whether two character slices are equal.
pub fn chars_eq(x: &[char], y: &[char]) -> (r: bool)
    ensures
        r == (x@ == y@),
{
    if x.len() != y.len() {
        return false;
    }
    let r = occurs_at_exec(x, y, 0);
    proof {
        if r {
            assert(x@ =~= x@.subrange(0, y@.len() as int));
        } else {
            if x@ == y@ {
                assert(x@.subrange(0, y@.len() as int) =~= x@);
            }
        }
    }
    r
}

/// Appends the decimal rendering of `n`.
pub fn push_decimal(out: &mut String, n: u64)
    ensures
        final(out)@ == old(out)@ + decimal(n as nat),
    decreases n,
{
    if n >= 10 {
        push_decimal(out, n / 10);
    }
    let d = (n % 10) as u8;
    push_char(out, (48u8 + d) as char);
    proof {
        if n >= 10 {
            assert(decimal(n as nat) == decimal((n / 10) as nat).push(digit_char((n % 10) as nat)));
        }
    }
    assert(final(out)@ =~= old(out)@ + decimal(n as nat));
}

/// The decimal rendering of `n` (`u64::to_string`).
pub fn u64_to_string(n: u64) -> (r: String)
    ensures
        r@ == decimal(n as nat),
{
    let mut s = String::new();
    push_decimal(&mut s, n);
    assert(s@ =~= decimal(n as nat));
    s
}

/// Appends the decimal rendering of a signed integer.
pub fn push_signed_decimal(out: &mut String, n: i64)
    ensures
        final(out)@ == old(out)@ + signed_decimal(n as int),
{
    if n < 0 {
        push_char(out, '-');
        let m: u64 = if n == i64::MIN {
            9223372036854775808u64
        } else {
            (-n) as u64
        };
        push_decimal(out, m);
        assert(final(out)@ =~= old(out)@ + signed_decimal(n as int));
    } else {
        push_decimal(out, n as u64);
    }
}

/// Appends two lowercase hexadecimal digits per byte.
pub fn push_hex_bytes(out: &mut String, b: &[u8])
    ensures
        final(out)@ == old(out)@ + hex_bytes(b@),
{
    let ghost start = out@;
    let mut i: usize = 0;
    while i < b.len()
        invariant
            0 <= i <= b.len(),
            out@ == start + hex_bytes(b@.take(i as int)),
        decreases b.len() - i,
    {
        let x = b[i];
        let hi = x / 16;
        let lo = x % 16;
        let chi = if hi < 10 {
            (48u8 + hi) as char
        } else {
            (87u8 + hi) as char
        };
        let clo = if lo < 10 {
            (48u8 + lo) as char
        } else {
            (87u8 + lo) as char
        };
        push_char(out, chi);
        push_char(out, clo);
        proof {
            assert(b@.take(i + 1).drop_last() =~= b@.take(i as int));
            assert(b@.take(i + 1).last() == x);
        }
        i = i + 1;
        assert(out@ =~= start + hex_bytes(b@.take(i as int)));
    }
    assert(b@.take(b.len() as int) =~= b@);
}

/// The characters of each string.
pub open spec fn views_of(v: Seq<String>) -> Seq<Seq<char>> {
    Seq::new(v.len(), |i: int| v[i]@)
}

/// The characters of the string, when there is one.
pub open spec fn opt_view(o: Option<String>) -> Option<Seq<char>> {
    match o {
        Some(s) => Some(s@),
        None => None,
    }
}

/// Appends the strings with `sep` between neighbours (`[String]::join`).
pub fn push_joined(out: &mut String, items: &Vec<String>, sep: &str)
    ensures
        final(out)@ == old(out)@ + join(views_of(items@), sep@),
{
    let ghost start = out@;
    let ghost parts = views_of(items@);
    let mut i: usize = 0;
    proof {
        assert(parts.take(0) =~= Seq::<Seq<char>>::empty());
        assert(out@ =~= start + join(parts.take(0), sep@));
    }
    while i < items.len()
        invariant
            0 <= i <= items@.len(),
            parts == views_of(items@),
            out@ == start + join(parts.take(i as int), sep@),
        decreases items.len() - i,
    {
        if i > 0 {
            push_str(out, sep);
        }
        push_str(out, items[i].as_str());
        proof {
            assert(parts.take(i + 1).drop_last() =~= parts.take(i as int));
            if i == 0 {
                assert(parts.take(1)[0] == items@[0]@);
            }
            assert(out@ =~= start + join(parts.take(i + 1), sep@));
        }
        i = i + 1;
    }
    proof {
        assert(parts.take(items@.len() as int) =~= parts);
    }
}

} // verus!
