use vstd::prelude::*;
use vstd::string::*;

verus! {

broadcast use vstd::string::group_string_axioms;

/// Whether `c` is one of the 128 ASCII characters.
pub open spec fn is_ascii(c: char) -> bool {
    (c as u32) < 128
}

/// Whether `c` is one of the 52 ASCII letters.
pub open spec fn is_ascii_letter(c: char) -> bool {
    ('a' <= c && c <= 'z') || ('A' <= c && c <= 'Z')
}

/// True exactly for the ten ASCII decimal digits.
pub open spec fn is_digit(c: char) -> bool {
    '0' <= c && c <= '9'
}

/// Whether a character beyond ASCII has the Unicode `Alphabetic` property.
pub uninterp spec fn alphabetic_beyond_ascii(c: char) -> bool;

/// Whether a character beyond ASCII is alphabetic or has one of the
/// Unicode categories for numbers.
pub uninterp spec fn alphanumeric_beyond_ascii(c: char) -> bool;

/// Whether `c` has the Unicode `Alphabetic` property: of the ASCII
/// characters the letters have it.
pub open spec fn is_alphabetic(c: char) -> bool {
    if is_ascii(c) {
        is_ascii_letter(c)
    } else {
        alphabetic_beyond_ascii(c)
    }
}

/// Whether `c` is alphabetic or has one of the Unicode categories for
/// numbers: of the ASCII characters the letters and the digits are so.
pub open spec fn is_alphanumeric(c: char) -> bool {
    if is_ascii(c) {
        is_ascii_letter(c) || is_digit(c)
    } else {
        alphanumeric_beyond_ascii(c)
    }
}

/// Whether `c` has the Unicode `White_Space` property, which 25 characters
/// have: tab to carriage return, the space, the next-line control, the
/// no-break space, the ogham space mark, en quad to hair space, the line
/// and paragraph separators, the narrow no-break space, the medium
/// mathematical space and the ideographic space.
pub open spec fn is_whitespace(c: char) -> bool {
    let code = c as u32;
    (0x09 <= code && code <= 0x0D) || code == 0x20 || code == 0x85 || code == 0xA0 || code
        == 0x1680 || (0x2000 <= code && code <= 0x200A) || code == 0x2028 || code == 0x2029
        || code == 0x202F || code == 0x205F || code == 0x3000
}

/// Calls `char::is_alphabetic`, which tells whether the character has the
/// Unicode `Alphabetic` property. Of the ASCII characters exactly the
/// letters have it; for the others the answer is what
/// [`alphabetic_beyond_ascii`] names.
#[verifier::external_body]
pub(crate) fn char_is_alphabetic(c: char) -> (b: bool)
    ensures
        b == is_alphabetic(c),
        !is_ascii(c) ==> b == alphabetic_beyond_ascii(c),
{
    c.is_alphabetic()
}

/// Calls `char::is_alphanumeric`, which tells whether the character is
/// alphabetic or numeric. Of the ASCII characters exactly the letters and
/// the digits are; for the others the answer is what
/// [`alphanumeric_beyond_ascii`] names.
#[verifier::external_body]
pub(crate) fn char_is_alphanumeric(c: char) -> (b: bool)
    ensures
        b == is_alphanumeric(c),
        !is_ascii(c) ==> b == alphanumeric_beyond_ascii(c),
{
    c.is_alphanumeric()
}

/// Decides whether `c` is whitespace, as `char::is_whitespace` does.
pub fn char_is_whitespace(c: char) -> (b: bool)
    ensures
        b == is_whitespace(c),
{
    let code = c as u32;
    (0x09 <= code && code <= 0x0D) || code == 0x20 || code == 0x85 || code == 0xA0 || code
        == 0x1680 || (0x2000 <= code && code <= 0x200A) || code == 0x2028 || code == 0x2029
        || code == 0x202F || code == 0x205F || code == 0x3000
}

/// Decides whether `c` is an ASCII letter.
pub fn char_is_ascii_letter(c: char) -> (b: bool)
    ensures
        b == is_ascii_letter(c),
{
    ('a' <= c && c <= 'z') || ('A' <= c && c <= 'Z')
}

/// The text that `Debug` formatting writes for a string: the string in
/// quotes, with its special characters escaped.
pub uninterp spec fn string_debug(text: Seq<char>) -> Seq<char>;

/// Formats the string with `{:?}`, that is through the `Debug` impl of
/// `str`; the text depends on the string's characters alone.
#[verifier::external_body]
pub(crate) fn debug_string(text: &String) -> (s: String)
    ensures
        s@ == string_debug(text@),
{
    format!("{:?}", text)
}

/// `String::push` appends one character to the end of the string.
pub assume_specification[ String::push ](s: &mut String, c: char)
    ensures
        final(s)@ == old(s)@.push(c),
;

/// Decides whether `c` is an ASCII decimal digit.
pub fn char_is_digit(c: char) -> (b: bool)
    ensures
        b == is_digit(c),
{
    '0' <= c && c <= '9'
}

/// The characters of `s`, in order.
pub fn chars_of(s: &str) -> (v: Vec<char>)
    ensures
        v@ == s@,
{
    let mut v: Vec<char> = Vec::new();
    for c in it: s.chars()
        invariant
            it.seq() == s@,
            v@ == s@.take(it.index() as int),
    {
        v.push(c);
    }
    v
}

/// A string holding the characters `v[from..to]`.
pub fn string_from_chars(v: &Vec<char>, from: usize, to: usize) -> (s: String)
    requires
        from <= to <= v.len(),
    ensures
        s@ == v@.subrange(from as int, to as int),
{
    let mut s = String::new();
    let mut i: usize = from;
    while i < to
        invariant
            from <= i <= to <= v.len(),
            s@ == v@.subrange(from as int, i as int),
        decreases to - i,
    {
        s.push(v[i]);
        i += 1;
    }
    s
}

/// Decides whether `v[from..to]` spells `word`.
pub fn spells(v: &Vec<char>, from: usize, to: usize, word: &str) -> (b: bool)
    requires
        from <= to <= v.len(),
    ensures
        b == (v@.subrange(from as int, to as int) == word@),
{
    let n = word.unicode_len();
    if to - from != n {
        return false;
    }
    let mut i: usize = 0;
    while i < n
        invariant
            from <= to <= v.len(),
            to - from == n,
            n == word@.len(),
            i <= n,
            forall|j: int| 0 <= j < i ==> v@[from + j] == word@[j],
        decreases n - i,
    {
        if v[from + i] != word.get_char(i) {
            return false;
        }
        i += 1;
    }
    assert(v@.subrange(from as int, to as int) =~= word@);
    true
}


/// The number that a sequence of decimal digits writes, most significant
/// digit first.
pub open spec fn digits_value(digits: Seq<char>) -> nat
    decreases digits.len(),
{
    if digits.len() == 0 {
        0
    } else {
        (digits_value(digits.drop_last()) * 10 + (digits.last() as u32 - '0' as u32)) as nat
    }
}

/// Appending a digit to a number multiplies it by ten and adds the digit.
pub proof fn lemma_digits_value_push(digits: Seq<char>, c: char)
    requires
        is_digit(c),
    ensures
        digits_value(digits.push(c)) == digits_value(digits) * 10 + (c as u32 - '0' as u32),
{
    assert(digits.push(c).drop_last() =~= digits);
}

/// Whether every character of `text` is a decimal digit.
pub open spec fn all_digits(text: Seq<char>) -> bool {
    forall|i: int| 0 <= i < text.len() ==> is_digit(#[trigger] text[i])
}

/// The value of the digits `v[start..end]`, if it fits in 64 bits.
pub fn digits_to_u64(v: &Vec<char>, start: usize, end: usize) -> (value: Option<u64>)
    requires
        start <= end <= v.len(),
        all_digits(v@.subrange(start as int, end as int)),
    ensures
        value == (if digits_value(v@.subrange(start as int, end as int)) <= u64::MAX {
            Some(digits_value(v@.subrange(start as int, end as int)) as u64)
        } else {
            None::<u64>
        }),
{
    let mut acc: u64 = 0;
    let mut overflow = false;
    let mut i: usize = start;
    while i < end
        invariant
            start <= i <= end <= v.len(),
            all_digits(v@.subrange(start as int, end as int)),
            !overflow ==> acc == digits_value(v@.subrange(start as int, i as int)),
            overflow ==> digits_value(v@.subrange(start as int, i as int)) > u64::MAX,
        decreases end - i,
    {
        let c = v[i];
        assert(is_digit(c)) by {
            assert(v@.subrange(start as int, end as int)[i - start] == c);
        }
        let digit: u64 = (c as u32 - '0' as u32) as u64;
        proof {
            lemma_digits_value_push(v@.subrange(start as int, i as int), c);
            assert(v@.subrange(start as int, i + 1) =~= v@.subrange(start as int, i as int).push(
                c,
            ));
        }
        if !overflow {
            match acc.checked_mul(10) {
                Some(m) => match m.checked_add(digit) {
                    Some(a) => {
                        acc = a;
                    },
                    None => {
                        overflow = true;
                    },
                },
                None => {
                    overflow = true;
                },
            }
        }
        i += 1;
    }
    if overflow {
        None
    } else {
        Some(acc)
    }
}

/// The integer that `text` writes in decimal, with a sign at will, if it
/// writes one that fits in 64 signed bits.
pub open spec fn integer_of(text: Seq<char>) -> Option<i64> {
    let negative = text.len() > 0 && text[0] == '-';
    let digits = if text.len() > 0 && (text[0] == '-' || text[0] == '+') {
        text.subrange(1, text.len() as int)
    } else {
        text
    };
    let value = if negative {
        -(digits_value(digits) as int)
    } else {
        digits_value(digits) as int
    };
    if digits.len() == 0 || !all_digits(digits) || value < i64::MIN || value > i64::MAX {
        None
    } else {
        Some(value as i64)
    }
}

/// Reads a decimal integer, as `str::parse::<i64>` does.
#[verifier::loop_isolation(false)]
pub fn parse_integer(text: &str) -> (value: Option<i64>)
    ensures
        value == integer_of(text@),
{
    let v = chars_of(text);
    let n = v.len();
    let negative = n > 0 && v[0] == '-';
    let start: usize = if n > 0 && (v[0] == '-' || v[0] == '+') {
        1
    } else {
        0
    };
    if start == n {
        return None;
    }
    let mut i: usize = start;
    while i < n
        invariant
            start <= i <= n == v.len(),
            forall|j: int| start <= j < i ==> is_digit(#[trigger] v@[j]),
        decreases n - i,
    {
        if !char_is_digit(v[i]) {
            assert(!is_digit(v@.subrange(start as int, n as int)[i - start]));
            return None;
        }
        i += 1;
    }
    assert(v@.subrange(0, n as int) =~= v@);
    match digits_to_u64(&v, start, n) {
        Some(magnitude) => {
            if negative {
                if magnitude <= i64::MAX as u64 {
                    Some(-(magnitude as i64))
                } else if magnitude == i64::MAX as u64 + 1 {
                    Some(i64::MIN)
                } else {
                    None
                }
            } else if magnitude <= i64::MAX as u64 {
                Some(magnitude as i64)
            } else {
                None
            }
        },
        None => None,
    }
}

/// The character that writes the digit `d`.
pub open spec fn digit_char(d: nat) -> char {
    if d == 0 {
        '0'
    } else if d == 1 {
        '1'
    } else if d == 2 {
        '2'
    } else if d == 3 {
        '3'
    } else if d == 4 {
        '4'
    } else if d == 5 {
        '5'
    } else if d == 6 {
        '6'
    } else if d == 7 {
        '7'
    } else if d == 8 {
        '8'
    } else {
        '9'
    }
}

/// The decimal digits of `n`, most significant first.
pub open spec fn digits_of(n: nat) -> Seq<char>
    decreases n,
{
    if n < 10 {
        seq![digit_char(n)]
    } else {
        digits_of(n / 10).push(digit_char(n % 10))
    }
}

/// The decimal text of an integer: a minus sign for a negative one, then
/// its digits.
pub open spec fn integer_text(n: int) -> Seq<char> {
    if n < 0 {
        seq!['-'] + digits_of((-n) as nat)
    } else {
        digits_of(n as nat)
    }
}

/// The character that writes the digit `d`.
fn digit(d: u64) -> (c: char)
    requires
        d < 10,
    ensures
        c == digit_char(d as nat),
{
    if d == 0 {
        '0'
    } else if d == 1 {
        '1'
    } else if d == 2 {
        '2'
    } else if d == 3 {
        '3'
    } else if d == 4 {
        '4'
    } else if d == 5 {
        '5'
    } else if d == 6 {
        '6'
    } else if d == 7 {
        '7'
    } else if d == 8 {
        '8'
    } else {
        '9'
    }
}

/// Appends the decimal digits of `n` to `out`.
fn push_digits(out: &mut String, n: u64)
    ensures
        final(out)@ == old(out)@ + digits_of(n as nat),
    decreases n,
{
    if n < 10 {
        out.push(digit(n));
    } else {
        push_digits(out, n / 10);
        out.push(digit(n % 10));
    }
}

/// The decimal text of `n`.
pub fn unsigned_to_string(n: u64) -> (s: String)
    ensures
        s@ == integer_text(n as int),
{
    let mut s = String::new();
    push_digits(&mut s, n);
    s
}

/// The decimal text of `n`.
pub fn integer_to_string(n: i64) -> (s: String)
    ensures
        s@ == integer_text(n as int),
{
    let mut s = String::new();
    if n < 0 {
        s.push('-');
        let magnitude: u64 = ((-(n + 1)) as u64) + 1;
        push_digits(&mut s, magnitude);
    } else {
        push_digits(&mut s, n as u64);
    }
    s
}

/// The first position from `from` on that holds no whitespace, or the end.
pub open spec fn blank_prefix_end(text: Seq<char>, from: int) -> int
    decreases text.len() - from,
{
    if 0 <= from < text.len() && is_whitespace(text[from]) {
        blank_prefix_end(text, from + 1)
    } else {
        from
    }
}

/// The position after the last character before `to` that is no
/// whitespace, and not before `from`.
pub open spec fn blank_suffix_start(text: Seq<char>, from: int, to: int) -> int
    decreases to - from,
{
    if from < to <= text.len() && is_whitespace(text[to - 1]) {
        blank_suffix_start(text, from, to - 1)
    } else {
        to
    }
}

/// `text` without the whitespace at its start and at its end.
pub open spec fn trimmed(text: Seq<char>) -> Seq<char> {
    let start = blank_prefix_end(text, 0);
    text.subrange(start, blank_suffix_start(text, start, text.len() as int))
}

/// The text without the whitespace at its start and at its end, as
/// `str::trim` gives it.
pub fn trim(text: &str) -> (s: String)
    ensures
        s@ == trimmed(text@),
{
    let v = chars_of(text);
    let mut start: usize = 0;
    while start < v.len() && char_is_whitespace(v[start])
        invariant
            start <= v.len(),
            blank_prefix_end(v@, start as int) == blank_prefix_end(v@, 0),
        decreases v.len() - start,
    {
        start += 1;
    }
    let mut end: usize = v.len();
    while start < end && char_is_whitespace(v[end - 1])
        invariant
            start <= end <= v.len(),
            blank_suffix_start(v@, start as int, end as int) == blank_suffix_start(
                v@,
                start as int,
                v.len() as int,
            ),
        decreases end - start,
    {
        end -= 1;
    }
    string_from_chars(&v, start, end)
}

} // verus!
