//! Text and bytes: the small vocabulary that the rest of the crate is specified in.

use vstd::prelude::*;
use vstd::utf8::*;

verus! {

/// The characters of an optional string.
pub open spec fn opt_text(text: Option<String>) -> Option<Seq<char>> {
    match text {
        Some(s) => Some(s@),
        None => None,
    }
}

/// The characters of an optional borrowed string.
pub open spec fn opt_ref_text(text: Option<&String>) -> Option<Seq<char>> {
    match text {
        Some(s) => Some(s@),
        None => None,
    }
}

/// The host's answer to something that it was to do, by the characters of its reason where it
/// failed.
pub open spec fn done_view(done: Result<(), String>) -> Result<(), Seq<char>> {
    match done {
        Ok(_) => Ok(()),
        Err(reason) => Err(reason@),
    }
}

/// The host's answer to something that it was to give as text, by its characters.
pub open spec fn given_view(given: Result<String, String>) -> Result<Seq<char>, Seq<char>> {
    match given {
        Ok(text) => Ok(text@),
        Err(reason) => Err(reason@),
    }
}

/// Whether two strings hold the same characters.
pub fn same_text(a: &str, b: &str) -> (r: bool)
    ensures
        r == (a@ == b@),
{
    a.to_owned() == b.to_owned()
}

/// The lower-case digit that stands for `value` in a base of up to sixteen.
pub open spec fn digit(value: nat) -> char {
    if value < 10 {
        (value + 48) as char
    } else {
        (value + 87) as char
    }
}

/// `n` written in decimal, without leading zeros.
pub open spec fn decimal(n: nat) -> Seq<char>
    decreases n,
{
    if n < 10 {
        seq![digit(n)]
    } else {
        decimal(n / 10).push(digit(n % 10))
    }
}

/// Bytes written as two lower-case hexadecimal digits each, high digit first.
pub open spec fn hex(bytes: Seq<u8>) -> Seq<char>
    decreases bytes.len(),
{
    if bytes.len() == 0 {
        Seq::empty()
    } else {
        hex(bytes.drop_last()).push(digit((bytes.last() / 16) as nat)).push(
            digit((bytes.last() % 16) as nat),
        )
    }
}

/// The one-character string for a digit value.
fn digit_text(value: u8) -> (r: &'static str)
    requires
        value < 16,
    ensures
        r@ == seq![digit(value as nat)],
{
    proof {
        reveal_strlit("0");
        reveal_strlit("1");
        reveal_strlit("2");
        reveal_strlit("3");
        reveal_strlit("4");
        reveal_strlit("5");
        reveal_strlit("6");
        reveal_strlit("7");
        reveal_strlit("8");
        reveal_strlit("9");
        reveal_strlit("a");
        reveal_strlit("b");
        reveal_strlit("c");
        reveal_strlit("d");
        reveal_strlit("e");
        reveal_strlit("f");
    }
    let r: &'static str = match value {
        0 => "0",
        1 => "1",
        2 => "2",
        3 => "3",
        4 => "4",
        5 => "5",
        6 => "6",
        7 => "7",
        8 => "8",
        9 => "9",
        10 => "a",
        11 => "b",
        12 => "c",
        13 => "d",
        14 => "e",
        _ => "f",
    };
    assert(r@ =~= seq![digit(value as nat)]);
    r
}

/// Writes a number in decimal.
pub fn decimal_text(n: u64) -> (r: String)
    ensures
        r@ == decimal(n as nat),
    decreases n,
{
    if n < 10 {
        digit_text(n as u8).to_owned()
    } else {
        let mut r = decimal_text(n / 10);
        r.append(digit_text((n % 10) as u8));
        assert(r@ =~= decimal(n as nat));
        r
    }
}

/// Writes bytes in lower-case hexadecimal.
pub fn hex_text(bytes: &[u8]) -> (r: String)
    ensures
        r@ == hex(bytes@),
{
    let mut r = String::new();
    for i in 0..bytes.len()
        invariant
            r@ == hex(bytes@.take(i as int)),
    {
        let byte: u8 = bytes[i];
        r.append(digit_text(byte / 16));
        r.append(digit_text(byte % 16));
        proof {
            let upto = bytes@.take(i + 1);
            assert(upto.drop_last() =~= bytes@.take(i as int));
            assert(upto.last() == byte);
            assert(r@ =~= hex(upto));
        }
    }
    assert(bytes@.take(bytes.len() as int) =~= bytes@);
    r
}

/// The characters that Unicode gives the property `White_Space`.
pub open spec fn is_white_space(c: char) -> bool {
    ||| '\u{9}' <= c <= '\u{d}'
    ||| c == '\u{20}'
    ||| c == '\u{85}'
    ||| c == '\u{a0}'
    ||| c == '\u{1680}'
    ||| '\u{2000}' <= c <= '\u{200a}'
    ||| c == '\u{2028}'
    ||| c == '\u{2029}'
    ||| c == '\u{202f}'
    ||| c == '\u{205f}'
    ||| c == '\u{3000}'
}

/// Text without its leading white space.
pub open spec fn trimmed_start(text: Seq<char>) -> Seq<char>
    decreases text.len(),
{
    if text.len() > 0 && is_white_space(text.first()) {
        trimmed_start(text.drop_first())
    } else {
        text
    }
}

/// Text without its trailing white space.
pub open spec fn trimmed_end(text: Seq<char>) -> Seq<char>
    decreases text.len(),
{
    if text.len() > 0 && is_white_space(text.last()) {
        trimmed_end(text.drop_last())
    } else {
        text
    }
}

/// Text without leading and trailing white space.
pub open spec fn trimmed(text: Seq<char>) -> Seq<char> {
    trimmed_end(trimmed_start(text))
}

/// `str::trim` drops the leading and trailing characters that have the Unicode property
/// `White_Space` and keeps everything between them.
pub assume_specification[ str::trim ](s: &str) -> (r: &str)
    ensures
        r@ == trimmed(s@),
;

/// What `String::from_utf8_lossy` makes of a byte string that is not valid UTF-8.
pub uninterp spec fn utf8_lossy(bytes: Seq<u8>) -> Seq<char>;

/// The text of a byte string: the characters that it encodes, or, where it is not valid UTF-8,
/// the text with replacement characters that `String::from_utf8_lossy` gives.
pub open spec fn bytes_text(bytes: Seq<u8>) -> Seq<char> {
    if valid_utf8(bytes) {
        decode_utf8(bytes)
    } else {
        utf8_lossy(bytes)
    }
}

/// `String::from_utf8_lossy`: valid UTF-8 gives exactly the characters that it encodes. Of
/// invalid bytes the result is only named: which replacement characters stand for which bytes
/// is left unsaid.
#[verifier::external_body]
fn string_from_utf8_lossy(bytes: &[u8]) -> (r: String)
    ensures
        valid_utf8(bytes@) ==> r@ == decode_utf8(bytes@),
        !valid_utf8(bytes@) ==> r@ == utf8_lossy(bytes@),
{
    String::from_utf8_lossy(bytes).into_owned()
}

/// The text of a byte string, with replacement characters for what is not UTF-8.
pub fn lossy_text(bytes: &[u8]) -> (r: String)
    ensures
        r@ == bytes_text(bytes@),
{
    string_from_utf8_lossy(bytes)
}

/// Whether a character is a decimal digit.
pub open spec fn is_decimal_digit(c: char) -> bool {
    '0' <= c <= '9'
}

/// The number that a string of decimal digits stands for.
pub open spec fn decimal_value(digits: Seq<char>) -> nat
    decreases digits.len(),
{
    if digits.len() == 0 {
        0
    } else {
        10 * decimal_value(digits.drop_last()) + (digits.last() as nat - '0' as nat) as nat
    }
}

/// The number that a text of decimal digits stands for, if there are any and nothing else.
pub open spec fn unsigned_decimal(text: Seq<char>) -> Option<int> {
    if text.len() > 0 && (forall|i: int| 0 <= i < text.len() ==> is_decimal_digit(#[trigger] text[i])) {
        Some(decimal_value(text) as int)
    } else {
        None
    }
}

/// The number that a text stands for: an optional sign, then decimal digits and nothing else.
pub open spec fn signed_decimal(text: Seq<char>) -> Option<int> {
    if text.len() > 0 && text[0] == '-' {
        match unsigned_decimal(text.drop_first()) {
            Some(n) => Some(-n),
            None => None,
        }
    } else if text.len() > 0 && text[0] == '+' {
        unsigned_decimal(text.drop_first())
    } else {
        unsigned_decimal(text)
    }
}

/// The number that a text stands for, if it fits in an `i64`.
pub open spec fn parsed_i64(text: Seq<char>) -> Option<i64> {
    match signed_decimal(text) {
        Some(n) => if i64::MIN <= n <= i64::MAX {
            Some(n as i64)
        } else {
            None
        },
        None => None,
    }
}

/// How std words the reason why a text is no `i64`.
pub uninterp spec fn i64_error_text(text: Seq<char>) -> Seq<char>;

/// `str::parse::<i64>`: succeeds on an optional sign followed by decimal digits alone whose
/// value fits, and gives that value. Otherwise it gives the wording of the error, which is only
/// named.
#[verifier::external_body]
pub(crate) fn parse_i64(text: &str) -> (r: Result<i64, String>)
    ensures
        r is Ok <==> parsed_i64(text@) is Some,
        r matches Ok(n) ==> parsed_i64(text@) == Some(n),
        r matches Err(e) ==> e@ == i64_error_text(text@),
{
    text.parse::<i64>().map_err(|e| e.to_string())
}

/// The characters of a string, one by one.
fn characters(text: &str) -> (r: Vec<char>)
    ensures
        r@ == text@,
{
    let mut r: Vec<char> = Vec::new();
    for c in it: text.chars()
        invariant
            it.seq() == text@,
            r@ == text@.take(it.index() as int),
    {
        r.push(c);
        assert(r@ =~= text@.take(it.index() + 1));
    }
    assert(r@ =~= text@);
    r
}

/// Whether `part` stands in `text` from position `at` on.
pub open spec fn occurs_at(text: Seq<char>, part: Seq<char>, at: int) -> bool {
    0 <= at && at + part.len() <= text.len() && text.subrange(at, at + part.len()) == part
}

/// Whether `part` stands somewhere in `text`.
pub open spec fn occurs_in(text: Seq<char>, part: Seq<char>) -> bool {
    exists|at: int| occurs_at(text, part, at)
}

/// Looks for a piece of text in another.
pub fn contains_text(text: &str, part: &str) -> (r: bool)
    ensures
        r == occurs_in(text@, part@),
{
    let whole = characters(text);
    let wanted = characters(part);
    let mut at: usize = 0;
    while at <= whole.len() && wanted.len() <= whole.len() - at
        invariant
            whole@ == text@,
            wanted@ == part@,
            at <= whole.len() + 1,
            at > 0 ==> wanted.len() > 0,
            forall|k: int| 0 <= k < at ==> !occurs_at(text@, part@, k),
        decreases whole.len() + 1 - at,
    {
        let mut same: usize = 0;
        while same < wanted.len() && whole[at + same] == wanted[same]
            invariant
                at + wanted.len() <= whole.len(),
                same <= wanted.len(),
                forall|k: int| 0 <= k < same ==> whole@[at + k] == wanted@[k],
            decreases wanted.len() - same,
        {
            same += 1;
        }
        if same == wanted.len() {
            assert(text@.subrange(at as int, at + part@.len()) =~= part@);
            assert(occurs_at(text@, part@, at as int));
            return true;
        }
        assert(!occurs_at(text@, part@, at as int)) by {
            if occurs_at(text@, part@, at as int) {
                assert(text@.subrange(at as int, at + part@.len())[same as int] == part@[same as int]);
            }
        }
        at += 1;
    }
    false
}

/// Reading a number back from its decimal text gives the number.
pub proof fn law_decimal_reads_back(n: nat)
    ensures
        decimal_value(decimal(n)) == n,
        unsigned_decimal(decimal(n)) == Some(n as int),
    decreases n,
{
    reveal_with_fuel(decimal_value, 2);
    if n < 10 {
        assert(decimal(n).drop_last() =~= Seq::empty());
    } else {
        law_decimal_reads_back(n / 10);
        assert(decimal(n).drop_last() =~= decimal(n / 10));
        assert forall|i: int| 0 <= i < decimal(n).len() implies is_decimal_digit(
            #[trigger] decimal(n)[i],
        ) by {
            if i < decimal(n / 10).len() {
                assert(decimal(n)[i] == decimal(n / 10)[i]);
            }
        }
    }
}

/// Whether a character is a lower-case hexadecimal digit.
pub open spec fn is_hex_digit(c: char) -> bool {
    '0' <= c <= '9' || 'a' <= c <= 'f'
}

/// Bytes in hexadecimal are hexadecimal digits, two for each byte.
pub proof fn law_hex_is_hex_digits(bytes: Seq<u8>)
    ensures
        hex(bytes).len() == 2 * bytes.len(),
        forall|i: int| 0 <= i < hex(bytes).len() ==> is_hex_digit(#[trigger] hex(bytes)[i]),
    decreases bytes.len(),
{
    if bytes.len() > 0 {
        let shorter = bytes.drop_last();
        law_hex_is_hex_digits(shorter);
        assert forall|i: int| 0 <= i < hex(bytes).len() implies is_hex_digit(
            #[trigger] hex(bytes)[i],
        ) by {
            if i < hex(shorter).len() {
                assert(hex(bytes)[i] == hex(shorter)[i]);
            }
        }
    }
}

/// A number is written without leading zeros: the first digit is `0` only where it is the whole
/// text, and that is the text of zero.
pub proof fn law_decimal_has_no_leading_zeros(n: nat)
    ensures
        decimal(n).len() > 0,
        decimal(n)[0] == '0' ==> n == 0 && decimal(n).len() == 1,
    decreases n,
{
    if n >= 10 {
        law_decimal_has_no_leading_zeros(n / 10);
        assert(decimal(n)[0] == decimal(n / 10)[0]);
    }
}

/// What a lower-case hexadecimal digit stands for.
pub open spec fn hex_digit_value(c: char) -> int {
    if '0' <= c <= '9' {
        c as int - '0' as int
    } else {
        c as int - 'a' as int + 10
    }
}

/// The two digits of a byte tell the byte, the high one first, at the byte's own place.
pub proof fn law_hex_tells_the_bytes(bytes: Seq<u8>, i: int)
    requires
        0 <= i < bytes.len(),
    ensures
        hex(bytes).len() == 2 * bytes.len(),
        bytes[i] == 16 * hex_digit_value(hex(bytes)[2 * i]) + hex_digit_value(
            hex(bytes)[2 * i + 1],
        ),
        is_hex_digit(hex(bytes)[2 * i]),
        is_hex_digit(hex(bytes)[2 * i + 1]),
    decreases bytes.len(),
{
    law_hex_is_hex_digits(bytes);
    law_hex_is_hex_digits(bytes.drop_last());
    if i < bytes.len() - 1 {
        law_hex_tells_the_bytes(bytes.drop_last(), i);
    }
}

/// The part of a text from `from` up to `to` is all but the white space around it.
pub open spec fn is_core(text: Seq<char>, from: int, to: int) -> bool {
    &&& 0 <= from <= to <= text.len()
    &&& forall|i: int| 0 <= i < from ==> is_white_space(#[trigger] text[i])
    &&& forall|i: int| to <= i < text.len() ==> is_white_space(#[trigger] text[i])
    &&& from < to ==> !is_white_space(text[from]) && !is_white_space(text[to - 1])
}

proof fn lemma_trimmed_start(text: Seq<char>) -> (from: int)
    ensures
        0 <= from <= text.len(),
        trimmed_start(text) == text.skip(from),
        forall|i: int| 0 <= i < from ==> is_white_space(#[trigger] text[i]),
        from < text.len() ==> !is_white_space(text[from]),
    decreases text.len(),
{
    if text.len() > 0 && is_white_space(text.first()) {
        let later = lemma_trimmed_start(text.drop_first());
        assert(text.drop_first().skip(later) =~= text.skip(later + 1));
        assert forall|i: int| 0 <= i < later + 1 implies is_white_space(#[trigger] text[i]) by {
            if i > 0 {
                assert(text.drop_first()[i - 1] == text[i]);
            }
        }
        later + 1
    } else {
        assert(text.skip(0) =~= text);
        0
    }
}

proof fn lemma_trimmed_end(text: Seq<char>) -> (to: int)
    ensures
        0 <= to <= text.len(),
        trimmed_end(text) == text.take(to),
        forall|i: int| to <= i < text.len() ==> is_white_space(#[trigger] text[i]),
        to > 0 ==> !is_white_space(text[to - 1]),
    decreases text.len(),
{
    if text.len() > 0 && is_white_space(text.last()) {
        let to = lemma_trimmed_end(text.drop_last());
        assert(text.drop_last().take(to) =~= text.take(to));
        assert forall|i: int| to <= i < text.len() implies is_white_space(#[trigger] text[i]) by {
            if i < text.len() - 1 {
                assert(text.drop_last()[i] == text[i]);
            }
        }
        to
    } else {
        assert(text.take(text.len() as int) =~= text);
        text.len() as int
    }
}

/// Trimming takes the white space around a text away and nothing else, and leaves none of it.
pub proof fn law_trimming_takes_only_white_space(text: Seq<char>)
    ensures
        exists|from: int, to: int| #[trigger]
            is_core(text, from, to) && trimmed(text) == text.subrange(from, to),
{
    let from = lemma_trimmed_start(text);
    let rest = text.skip(from);
    let to = from + lemma_trimmed_end(rest);
    assert(rest.take(to - from) =~= text.subrange(from, to));
    assert forall|i: int| to <= i < text.len() implies is_white_space(#[trigger] text[i]) by {
        assert(rest[i - from] == text[i]);
    }
    if from < to {
        assert(rest[to - from - 1] == text[to - 1]);
    }
    assert(is_core(text, from, to));
}

/// The line breaks and blanks that programs print around their output are white space; digits,
/// letters and slashes are not.
pub proof fn law_white_space_is_blank(c: char)
    ensures
        c == '\n' || c == '\r' || c == '\t' || c == ' ' ==> is_white_space(c),
        '!' <= c <= '~' ==> !is_white_space(c),
{
}

/// A piece stands in a text exactly where the text is something, then the piece, then something.
pub proof fn law_occurring_is_standing_between(text: Seq<char>, part: Seq<char>)
    ensures
        occurs_in(text, part) <==> exists|before: Seq<char>, after: Seq<char>|
            text == #[trigger] (before + part + after),
{
    if occurs_in(text, part) {
        let at = choose|at: int| occurs_at(text, part, at);
        let before = text.take(at);
        let after = text.skip(at + part.len());
        assert(text =~= before + part + after);
    }
    if exists|before: Seq<char>, after: Seq<char>| text == #[trigger] (before + part + after) {
        let (before, after) = choose|before: Seq<char>, after: Seq<char>|
            text == #[trigger] (before + part + after);
        let at = before.len() as int;
        assert(text.subrange(at, at + part.len()) =~= part);
        assert(occurs_at(text, part, at));
    }
}

/// The views of optional texts and of the host's answers keep everything.
pub proof fn law_views_keep_texts(
    text: Option<String>,
    done: Result<(), String>,
    given: Result<String, String>,
)
    ensures
        text is Some <==> opt_text(text) is Some,
        text matches Some(s) ==> opt_text(text) == Some(s@),
        done is Ok <==> done_view(done) is Ok,
        done matches Err(reason) ==> done_view(done) == Err::<(), Seq<char>>(reason@),
        given matches Ok(s) ==> given_view(given) == Ok::<Seq<char>, Seq<char>>(s@),
        given matches Err(reason) ==> given_view(given) == Err::<Seq<char>, Seq<char>>(reason@),
{
}

/// The view of an optional borrowed text keeps it.
pub proof fn law_view_keeps_borrowed_text(text: Option<&String>)
    ensures
        text is Some <==> opt_ref_text(text) is Some,
        text matches Some(s) ==> opt_ref_text(text) == Some(s@),
{
}

} // verus!
