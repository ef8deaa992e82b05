//! Hexadecimal payload text: decoding it into bytes, and writing bytes as
//! digits.
//!
//! A hex payload is typed by an operator, so the decoder is lenient about
//! layout and strict about content: surrounding whitespace is trimmed, one
//! leading `0x` or `0X` is removed, whitespace between digits is ignored, and
//! what remains must be an even number of hexadecimal digits. Anything else
//! does not decode.

use crate::text::push_char;
use vstd::prelude::*;
use vstd::string::StringExecFns;

verus! {

/// Whether `c` has the Unicode `White_Space` property.
pub open spec fn is_whitespace(c: char) -> bool {
    let u = c as u32;
    ||| 0x09 <= u <= 0x0D
    ||| u == 0x20
    ||| u == 0x85
    ||| u == 0xA0
    ||| u == 0x1680
    ||| 0x2000 <= u <= 0x200A
    ||| u == 0x2028
    ||| u == 0x2029
    ||| u == 0x202F
    ||| u == 0x205F
    ||| u == 0x3000
}

/// The value of the hexadecimal digit `c`, or `None` if `c` is not one.
pub open spec fn hex_value(c: char) -> Option<u8> {
    let u = c as u32;
    if 0x30 <= u <= 0x39 {
        Some((u - 0x30) as u8)
    } else if 0x41 <= u <= 0x46 {
        Some((u - 0x41 + 10) as u8)
    } else if 0x61 <= u <= 0x66 {
        Some((u - 0x61 + 10) as u8)
    } else {
        None
    }
}

/// `s` without its leading whitespace.
pub open spec fn trim_start(s: Seq<char>) -> Seq<char>
    decreases s.len(),
{
    if s.len() > 0 && is_whitespace(s[0]) {
        trim_start(s.drop_first())
    } else {
        s
    }
}

/// `s` without its trailing whitespace.
pub open spec fn trim_end(s: Seq<char>) -> Seq<char>
    decreases s.len(),
{
    if s.len() > 0 && is_whitespace(s.last()) {
        trim_end(s.drop_last())
    } else {
        s
    }
}

/// Whether `s` starts with the prefix of a hex payload, `0x` or `0X`.
pub open spec fn has_hex_prefix(s: Seq<char>) -> bool {
    s.len() >= 2 && s[0] == '0' && (s[1] == 'x' || s[1] == 'X')
}

/// `s` without the one prefix in front, or `s` itself where it has none.
/// What follows a prefix is not looked at again: a second prefix stays.
pub open spec fn strip_prefix(s: Seq<char>) -> Seq<char> {
    if has_hex_prefix(s) {
        s.skip(2)
    } else {
        s
    }
}

/// `s` without its whitespace characters, the others in their order.
pub open spec fn without_whitespace(s: Seq<char>) -> Seq<char> {
    s.filter(|c: char| !is_whitespace(c))
}

/// The characters that are read as digits: `s` trimmed on both sides, without
/// one leading `0x` or `0X`, then without any whitespace.
pub open spec fn hex_digits(s: Seq<char>) -> Seq<char> {
    without_whitespace(strip_prefix(trim_end(trim_start(s))))
}

/// Whether every character of `d` is a hexadecimal digit.
pub open spec fn all_hex(d: Seq<char>) -> bool {
    forall|i: int| 0 <= i < d.len() ==> (#[trigger] hex_value(d[i])) is Some
}

/// The byte written by the digit pair `hi`, `lo`.
pub open spec fn pair_value(hi: char, lo: char) -> u8
    recommends
        hex_value(hi) is Some,
        hex_value(lo) is Some,
{
    (hex_value(hi).unwrap() * 16 + hex_value(lo).unwrap()) as u8
}

/// The bytes written by the digits `d`, two digits to a byte, high digit first.
pub open spec fn bytes_of_digits(d: Seq<char>) -> Seq<u8>
    recommends
        all_hex(d),
        d.len() % 2 == 0,
{
    Seq::new(d.len() / 2, |i: int| pair_value(d[2 * i], d[2 * i + 1]))
}

/// What a hex payload decodes to: the bytes of its digits where they are an
/// even number of hexadecimal digits, and nothing otherwise.
pub open spec fn hex_decoded(s: Seq<char>) -> Option<Seq<u8>> {
    let d = hex_digits(s);
    if d.len() % 2 == 0 && all_hex(d) {
        Some(bytes_of_digits(d))
    } else {
        None
    }
}

/// Executable test for [`is_whitespace`].
pub fn is_whitespace_char(c: char) -> (r: bool)
    ensures
        r == is_whitespace(c),
{
    let u: u32 = c as u32;
    (0x09 <= u && u <= 0x0D) || u == 0x20 || u == 0x85 || u == 0xA0 || u == 0x1680 || (0x2000 <= u
        && u <= 0x200A) || u == 0x2028 || u == 0x2029 || u == 0x202F || u == 0x205F || u == 0x3000
}

/// The value of one hexadecimal digit.
pub fn hex_digit_value(c: char) -> (r: Option<u8>)
    ensures
        r == hex_value(c),
        r is Some ==> r.unwrap() < 16,
{
    let u: u32 = c as u32;
    if 0x30 <= u && u <= 0x39 {
        Some((u - 0x30) as u8)
    } else if 0x41 <= u && u <= 0x46 {
        Some((u - 0x41 + 10) as u8)
    } else if 0x61 <= u && u <= 0x66 {
        Some((u - 0x61 + 10) as u8)
    } else {
        None
    }
}

/// The characters of `s`, in order.
pub fn chars_of(s: &str) -> (v: Vec<char>)
    ensures
        v@ == s@,
{
    let mut v: Vec<char> = Vec::new();
    for c in it: s.chars()
        invariant
            it.seq() == s@,
            v@ == it.seq().take(it.index() as int),
    {
        v.push(c);
    }
    v
}

/// What `without_whitespace` does with one more character at the end.
proof fn lemma_without_whitespace_push(s: Seq<char>, c: char)
    ensures
        without_whitespace(s.push(c)) == if is_whitespace(c) {
            without_whitespace(s)
        } else {
            without_whitespace(s).push(c)
        },
{
    reveal(Seq::filter);
    assert(s.push(c).drop_last() =~= s);
}

/// The bounds of `chars` without its leading and trailing whitespace.
fn trim_bounds(chars: &Vec<char>) -> (r: (usize, usize))
    ensures
        r.0 <= r.1 <= chars.len(),
        trim_end(trim_start(chars@)) == chars@.subrange(r.0 as int, r.1 as int),
{
    let ghost s = chars@;
    let mut start: usize = 0;
    assert(s.skip(0) =~= s);
    while start < chars.len() && is_whitespace_char(chars[start])
        invariant
            s == chars@,
            start <= chars.len(),
            trim_start(s) == trim_start(s.skip(start as int)),
        decreases chars.len() - start,
    {
        assert(s.skip(start as int).drop_first() =~= s.skip(start as int + 1));
        start = start + 1;
    }
    assert(trim_start(s) == s.skip(start as int));
    assert(s.skip(start as int) =~= s.subrange(start as int, s.len() as int));
    let mut end: usize = chars.len();
    while end > start && is_whitespace_char(chars[end - 1])
        invariant
            s == chars@,
            start <= end <= chars.len(),
            trim_end(trim_start(s)) == trim_end(s.subrange(start as int, end as int)),
        decreases end,
    {
        assert(s.subrange(start as int, end as int).drop_last() =~= s.subrange(
            start as int,
            end as int - 1,
        ));
        end = end - 1;
    }
    (start, end)
}

/// Where `chars[start..end]` begins once its one prefix is removed.
fn skip_prefix(chars: &Vec<char>, start: usize, end: usize) -> (r: usize)
    requires
        start <= end <= chars.len(),
    ensures
        start <= r <= end,
        strip_prefix(chars@.subrange(start as int, end as int)) == chars@.subrange(
            r as int,
            end as int,
        ),
{
    let ghost body = chars@.subrange(start as int, end as int);
    if end - start >= 2 && chars[start] == '0' && (chars[start + 1] == 'x' || chars[start + 1]
        == 'X') {
        assert(has_hex_prefix(body));
        assert(body.skip(2) =~= chars@.subrange(start as int + 2, end as int));
        start + 2
    } else {
        assert(!has_hex_prefix(body));
        start
    }
}

/// Reads `chars[start..end]` as digit pairs, ignoring whitespace.
fn decode_digits(chars: &Vec<char>, start: usize, end: usize) -> (r: Option<Vec<u8>>)
    requires
        start <= end <= chars.len(),
    ensures
        ({
            let d = without_whitespace(chars@.subrange(start as int, end as int));
            match r {
                Some(bytes) => d.len() % 2 == 0 && all_hex(d) && bytes@ == bytes_of_digits(d),
                None => !(d.len() % 2 == 0 && all_hex(d)),
            }
        }),
{
    let ghost body = chars@.subrange(start as int, end as int);
    let mut out: Vec<u8> = Vec::new();
    let mut high: Option<u8> = None;
    let mut i: usize = start;
    proof {
        reveal(Seq::filter);
        assert(body.take(0) =~= Seq::<char>::empty());
    }
    while i < end
        invariant
            start <= i <= end <= chars.len(),
            body == chars@.subrange(start as int, end as int),
            all_hex(without_whitespace(body.take(i - start))),
            out@.len() == without_whitespace(body.take(i - start)).len() / 2,
            forall|k: int|
                0 <= k < out@.len() ==> out@[k] == pair_value(
                    #[trigger] without_whitespace(body.take(i - start))[2 * k],
                    without_whitespace(body.take(i - start))[2 * k + 1],
                ),
            high is Some <==> without_whitespace(body.take(i - start)).len() % 2 == 1,
            high is Some ==> hex_value(without_whitespace(body.take(i - start)).last()) == high,
        decreases end - i,
    {
        let c = chars[i];
        let ghost seen = body.take(i - start);
        let ghost d = without_whitespace(seen);
        proof {
            assert(body.take(i - start + 1) =~= seen.push(c));
            lemma_without_whitespace_push(seen, c);
        }
        if !is_whitespace_char(c) {
            match hex_digit_value(c) {
                None => {
                    proof {
                        let rest = body.skip(i - start + 1);
                        assert(body =~= seen.push(c) + rest);
                        Seq::filter_distributes_over_add(
                            seen.push(c),
                            rest,
                            |c: char| !is_whitespace(c),
                        );
                        let full = without_whitespace(body);
                        assert(full[d.len() as int] == c);
                        assert(hex_value(full[d.len() as int]) is None);
                    }
                    return None;
                },
                Some(v) => {
                    match high {
                        None => {
                            high = Some(v);
                        },
                        Some(h) => {
                            out.push(h * 16 + v);
                            high = None;
                        },
                    }
                },
            }
        }
        i = i + 1;
    }
    proof {
        assert(body.take(end - start) =~= body);
    }
    match high {
        Some(_) => None,
        None => {
            assert(out@ =~= bytes_of_digits(without_whitespace(body)));
            Some(out)
        },
    }
}

/// Decodes a hex payload.
///
/// Surrounding whitespace, one leading `0x` or `0X` and all whitespace
/// between digits are ignored. The result is `None` where what remains has an
/// odd number of characters or holds a character that is no hexadecimal
/// digit, a second prefix among them; otherwise each pair of digits gives one
/// byte, high digit first. An input without digits decodes to no bytes.
pub fn hex_decode(hex_str: &str) -> (r: Option<Vec<u8>>)
    ensures
        match r {
            Some(bytes) => hex_decoded(hex_str@) == Some(bytes@),
            None => hex_decoded(hex_str@) is None,
        },
{
    let chars = chars_of(hex_str);
    let (start, end) = trim_bounds(&chars);
    let start = skip_prefix(&chars, start, end);
    decode_digits(&chars, start, end)
}

/// The character of the hexadecimal digit with the value `v`, in lowercase.
pub open spec fn digit_char(v: int) -> char
    recommends
        0 <= v < 16,
{
    if v < 10 {
        ((0x30 + v) as u8) as char
    } else {
        ((0x61 + v - 10) as u8) as char
    }
}

/// The bytes `data` written as hexadecimal digits: two lowercase digits to a
/// byte, high digit first, nothing between them.
pub open spec fn hex_text(data: Seq<u8>) -> Seq<char> {
    Seq::new(
        2 * data.len(),
        |i: int|
            if i % 2 == 0 {
                digit_char(data[i / 2] as int / 16)
            } else {
                digit_char(data[i / 2] as int % 16)
            },
    )
}

/// The character of one hexadecimal digit.
fn digit_of(v: u8) -> (c: char)
    requires
        v < 16,
    ensures
        c == digit_char(v as int),
{
    if v < 10 {
        (0x30 + v) as char
    } else {
        (0x61 + v - 10) as char
    }
}

/// Writes bytes as hexadecimal digits.
pub fn hex_encode(data: &[u8]) -> (text: String)
    ensures
        text@ == hex_text(data@),
{
    let mut text = String::from_str("");
    proof {
        reveal_strlit("");
    }
    let mut i: usize = 0;
    while i < data.len()
        invariant
            i <= data@.len(),
            text@.len() == 2 * i,
            forall|k: int| 0 <= k < 2 * i ==> text@[k] == hex_text(data@)[k],
        decreases data.len() - i,
    {
        let byte = data[i];
        push_char(&mut text, digit_of(byte / 16));
        push_char(&mut text, digit_of(byte % 16));
        i = i + 1;
    }
    assert(text@ =~= hex_text(data@));
    text
}

/// A hexadecimal digit in lowercase is a digit with its value, and neither
/// whitespace nor a letter of a prefix.
proof fn lemma_digit_char(v: int)
    requires
        0 <= v < 16,
    ensures
        hex_value(digit_char(v)) == Some(v as u8),
        !is_whitespace(digit_char(v)),
        digit_char(v) != 'x',
        digit_char(v) != 'X',
{
}

/// Text without whitespace is left as it is when whitespace is taken out.
proof fn lemma_without_whitespace_none(s: Seq<char>)
    requires
        forall|i: int| 0 <= i < s.len() ==> !is_whitespace(s[i]),
    ensures
        without_whitespace(s) == s,
    decreases s.len(),
{
    reveal(Seq::filter);
    if s.len() > 0 {
        lemma_without_whitespace_none(s.drop_last());
        assert(s.drop_last().push(s.last()) =~= s);
    }
}

/// Decoding undoes encoding: the hexadecimal digits written for any bytes
/// decode to those bytes.
pub proof fn lemma_hex_round_trip(data: Seq<u8>)
    ensures
        hex_decoded(hex_text(data)) == Some(data),
{
    let t = hex_text(data);
    assert forall|i: int| 0 <= i < t.len() implies (#[trigger] hex_value(t[i])) is Some
        && !is_whitespace(t[i]) && t[i] != 'x' && t[i] != 'X' by {
        let byte = data[i / 2] as int;
        if i % 2 == 0 {
            lemma_digit_char(byte / 16);
        } else {
            lemma_digit_char(byte % 16);
        }
    }
    assert(trim_start(t) == t) by {
        if t.len() > 0 {
            assert(hex_value(t[0]) is Some);
        }
    }
    assert(trim_end(t) == t) by {
        if t.len() > 0 {
            assert(hex_value(t[t.len() - 1]) is Some);
        }
    }
    assert(strip_prefix(t) == t) by {
        if t.len() >= 2 {
            assert(hex_value(t[1]) is Some);
        }
    }
    lemma_without_whitespace_none(t);
    assert(hex_digits(t) == t);
    assert(all_hex(t));
    assert(bytes_of_digits(t) =~= data) by {
        assert forall|k: int| 0 <= k < data.len() implies bytes_of_digits(t)[k] == data[k] by {
            let byte = data[k] as int;
            lemma_digit_char(byte / 16);
            lemma_digit_char(byte % 16);
            assert(t[2 * k] == digit_char(byte / 16));
            assert(t[2 * k + 1] == digit_char(byte % 16));
        }
    }
}

} // verus!
