//! Small text operations the clients need, with their meaning stated over `Seq<char>`.
use vstd::prelude::*;
use vstd::utf8::*;

verus! {

/// `String::push` appends one character.
pub assume_specification[ String::push ](s: &mut String, ch: char)
    ensures
        final(s)@ == old(s)@.push(ch),
;

/// The decimal digit `d` (below ten) as a character.
pub open spec fn digit_char(d: nat) -> char {
    ((48 + d) as u8) as char
}

/// The decimal representation of `n`, without sign or leading zeros.
pub open spec fn decimal(n: nat) -> Seq<char>
    decreases n,
{
    if n < 10 {
        seq![digit_char(n)]
    } else {
        decimal(n / 10).push(digit_char(n % 10))
    }
}

/// Appends the decimal representation of `n` to `s`.
pub fn push_decimal(s: &mut String, n: u64)
    ensures
        final(s)@ == old(s)@ + decimal(n as nat),
    decreases n,
{
    if n >= 10 {
        push_decimal(s, n / 10);
    }
    let d: u8 = (n % 10) as u8;
    let c: char = (48u8 + d) as char;
    s.push(c);
}

/// Whether two byte slices hold the same bytes.
pub fn bytes_eq(a: &[u8], b: &[u8]) -> (r: bool)
    ensures
        r == (a@ == b@),
{
    if a.len() != b.len() {
        return false;
    }
    let mut i: usize = 0;
    while i < a.len()
        invariant
            a@.len() == b@.len(),
            i <= a@.len(),
            forall|j: int| 0 <= j < i ==> a@[j] == b@[j],
        decreases a@.len() - i,
    {
        if a[i] != b[i] {
            return false;
        }
        i = i + 1;
    }
    assert(a@ =~= b@);
    true
}

/// Whether two strings hold the same characters.
pub fn str_eq(a: &str, b: &str) -> (r: bool)
    ensures
        r == (a@ == b@),
{
    let r = bytes_eq(a.as_bytes(), b.as_bytes());
    proof {
        encode_utf8_decode_utf8(a@);
        encode_utf8_decode_utf8(b@);
    }
    r
}

/// The UTF-8 encoding of `s` begins with that of `prefix`.
pub open spec fn has_byte_prefix(s: Seq<char>, prefix: Seq<char>) -> bool {
    encode_utf8(prefix).len() <= encode_utf8(s).len()
        && encode_utf8(s).take(encode_utf8(prefix).len() as int) == encode_utf8(prefix)
}

/// The UTF-8 encoding of two texts one after the other is the encoding of the first followed
/// by that of the second.
pub proof fn encode_utf8_concat(a: Seq<char>, b: Seq<char>)
    ensures
        encode_utf8(a + b) == encode_utf8(a) + encode_utf8(b),
    decreases a.len(),
{
    if a.len() == 0 {
        assert(a + b =~= b);
        assert(encode_utf8(a) + encode_utf8(b) =~= encode_utf8(b));
    } else {
        encode_utf8_concat(a.drop_first(), b);
        assert((a + b).drop_first() =~= a.drop_first() + b);
        assert((a + b)[0] == a[0]);
        assert(encode_utf8(a + b) =~= encode_utf8(a) + encode_utf8(b));
    }
}

/// A text that begins with the characters of `prefix` begins with its UTF-8 bytes.
pub proof fn char_prefix_is_byte_prefix(s: Seq<char>, prefix: Seq<char>)
    requires
        prefix.len() <= s.len(),
        s.take(prefix.len() as int) == prefix,
    ensures
        has_byte_prefix(s, prefix),
{
    let rest = s.skip(prefix.len() as int);
    assert(s =~= prefix + rest);
    encode_utf8_concat(prefix, rest);
    assert(encode_utf8(s).take(encode_utf8(prefix).len() as int) =~= encode_utf8(prefix));
}

/// Whether `s` starts with `prefix`, comparing their UTF-8 bytes as `str::starts_with` does.
pub fn str_starts_with(s: &str, prefix: &str) -> (r: bool)
    ensures
        r == has_byte_prefix(s@, prefix@),
{
    let sb = s.as_bytes();
    let pb = prefix.as_bytes();
    if pb.len() > sb.len() {
        return false;
    }
    let mut i: usize = 0;
    while i < pb.len()
        invariant
            sb@ == encode_utf8(s@),
            pb@ == encode_utf8(prefix@),
            pb@.len() <= sb@.len(),
            i <= pb@.len(),
            forall|j: int| 0 <= j < i ==> sb@[j] == pb@[j],
        decreases pb@.len() - i,
    {
        if sb[i] != pb[i] {
            return false;
        }
        i = i + 1;
    }
    assert(sb@.take(pb@.len() as int) =~= pb@);
    true
}

/// What `{:?}` prints for an optional string, given the string's characters.
pub uninterp spec fn debug_text_of_optional_string(s: Option<Seq<char>>) -> Seq<char>;

/// Formats an optional string with `{:?}` (the `Debug` impl of `Option<String>` from std):
/// `None` prints as `None`; of `Some`, nothing more is stated than that the text is a
/// function of the string.
#[verifier::external_body]
pub fn debug_optional_string(s: &Option<String>) -> (r: String)
    ensures
        r@ == debug_text_of_optional_string(s.deep_view()),
        s is None ==> r@ == "None"@,
{
    format!("{:?}", s)
}

/// Whether `c` has the Unicode `White_Space` property, the test of `char::is_whitespace`:
/// tab, line feed, vertical tab, form feed, carriage return, space, next line, no-break
/// space, Ogham space mark, the spaces from en quad to hair space, line and paragraph
/// separators, narrow no-break space, medium mathematical space, ideographic space.
pub open spec fn char_is_whitespace(c: char) -> bool {
    let u = c as u32;
    ||| 0x09 <= u <= 0x0d
    ||| u == 0x20
    ||| u == 0x85
    ||| u == 0xa0
    ||| u == 0x1680
    ||| 0x2000 <= u <= 0x200a
    ||| u == 0x2028
    ||| u == 0x2029
    ||| u == 0x202f
    ||| u == 0x205f
    ||| u == 0x3000
}

/// Whether `c` is whitespace, as `char::is_whitespace` decides it.
pub fn is_whitespace(c: char) -> (r: bool)
    ensures
        r == char_is_whitespace(c),
{
    let u = c as u32;
    (0x09 <= u && u <= 0x0d) || u == 0x20 || u == 0x85 || u == 0xa0 || u == 0x1680 || (0x2000
        <= u && u <= 0x200a) || u == 0x2028 || u == 0x2029 || u == 0x202f || u == 0x205f || u
        == 0x3000
}

/// Every character of `s` is whitespace (so `s` trims to the empty string).
pub open spec fn is_blank(s: Seq<char>) -> bool {
    forall|i: int| 0 <= i < s.len() ==> char_is_whitespace(#[trigger] s[i])
}

/// A text is blank exactly when every one of its characters is whitespace: a single
/// character that is not whitespace, wherever it stands, makes it not blank.
pub proof fn blank_iff_every_char_whitespace(s: Seq<char>)
    ensures
        is_blank(s) <==> (forall|i: int| 0 <= i < s.len() ==> char_is_whitespace(s[i])),
        forall|i: int| 0 <= i < s.len() && !char_is_whitespace(s[i]) ==> !is_blank(s),
        s.len() == 0 ==> is_blank(s),
{
}

/// Whether `s` holds nothing but whitespace.
pub fn str_is_blank(s: &str) -> (r: bool)
    ensures
        r == is_blank(s@),
{
    broadcast use vstd::string::group_string_axioms;
    for c in it: s.chars()
        invariant
            it.seq() == s@,
            forall|j: int| 0 <= j < it.index() ==> char_is_whitespace(#[trigger] s@[j]),
    {
        if !is_whitespace(c) {
            return false;
        }
    }
    true
}

} // verus!
