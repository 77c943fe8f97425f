//! Character classes and small text functions shared by the validators and
//! the token estimator.

use vstd::prelude::*;

verus! {

/// Whether `c` has Unicode's general category of control codes: the code
/// points U+0000 to U+001F and U+007F to U+009F.
pub open spec fn unicode_control(c: char) -> bool {
    let code = c as u32;
    code <= 0x1f || (0x7f <= code && code <= 0x9f)
}

/// Whether `c` has Unicode's `White_Space` property: the tabulators, line
/// and page breaks U+0009 to U+000D, the space, U+0085, U+00A0, U+1680, the
/// spaces U+2000 to U+200A, U+2028, U+2029, U+202F, U+205F and U+3000.
pub open spec fn unicode_whitespace(c: char) -> bool {
    let code = c as u32;
    (0x09 <= code && code <= 0x0d) || code == 0x20 || code == 0x85 || code == 0xa0 || code
        == 0x1680 || (0x2000 <= code && code <= 0x200a) || code == 0x2028 || code == 0x2029
        || code == 0x202f || code == 0x205f || code == 0x3000
}

/// `char::is_control` of std: `true` exactly for the characters of the
/// general category of control codes.
pub assume_specification[ char::is_control ](c: char) -> (b: bool)
    ensures
        b == unicode_control(c),
;

/// `char::is_whitespace` of std: `true` exactly for the characters with the
/// `White_Space` property.
pub assume_specification[ char::is_whitespace ](c: char) -> (b: bool)
    ensures
        b == unicode_whitespace(c),
;

/// `String::from_iter` of std over the characters of a vector: the string
/// made of those characters, in order.
#[verifier::external_body]
pub(crate) fn string_from_chars(chars: &Vec<char>) -> (s: String)
    ensures
        s@ == chars@,
{
    chars.iter().collect()
}

/// Whether two texts hold the same characters.
pub fn same_text(a: &str, b: &str) -> (same: bool)
    ensures
        same == (a@ == b@),
{
    let left = a.to_owned();
    let right = b.to_owned();
    left == right
}

/// Every character is white space; true of the empty text.
pub open spec fn is_blank(s: Seq<char>) -> bool {
    forall|i: int| 0 <= i < s.len() ==> unicode_whitespace(#[trigger] s[i])
}

/// A control character that is not white space.
pub open spec fn forbidden_control(c: char) -> bool {
    unicode_control(c) && !unicode_whitespace(c)
}

/// Some character is a control character other than white space.
pub open spec fn has_forbidden_control(s: Seq<char>) -> bool {
    exists|i: int| 0 <= i < s.len() && forbidden_control(#[trigger] s[i])
}

/// Number of words in `s`: maximal runs of characters that are not white
/// space. A word is counted at its first character: one that is not white
/// space and is the first of the text or follows white space.
pub open spec fn word_count(s: Seq<char>) -> nat
    decreases s.len(),
{
    if s.len() == 0 {
        0
    } else {
        let rest = word_count(s.drop_last());
        if unicode_whitespace(s.last()) {
            rest
        } else if s.len() >= 2 && !unicode_whitespace(s[s.len() - 2]) {
            rest
        } else {
            rest + 1
        }
    }
}

/// Number of leading white space characters of `s`.
pub open spec fn leading_blank(s: Seq<char>) -> nat
    decreases s.len(),
{
    if s.len() > 0 && unicode_whitespace(s[0]) {
        1 + leading_blank(s.drop_first())
    } else {
        0
    }
}

/// Number of trailing white space characters of `s`.
pub open spec fn trailing_blank(s: Seq<char>) -> nat
    decreases s.len(),
{
    if s.len() > 0 && unicode_whitespace(s.last()) {
        1 + trailing_blank(s.drop_last())
    } else {
        0
    }
}

/// `s` without its leading and trailing white space.
pub open spec fn trimmed(s: Seq<char>) -> Seq<char> {
    let rest = s.skip(leading_blank(s) as int);
    rest.take(rest.len() - trailing_blank(rest))
}

/// The leading blanks of a text are blanks, and what follows them is none.
pub proof fn lemma_leading_blank_bounds(s: Seq<char>)
    ensures
        leading_blank(s) <= s.len(),
        forall|i: int| 0 <= i < leading_blank(s) ==> unicode_whitespace(#[trigger] s[i]),
        leading_blank(s) < s.len() ==> !unicode_whitespace(s[leading_blank(s) as int]),
    decreases s.len(),
{
    if s.len() > 0 && unicode_whitespace(s[0]) {
        let t = s.drop_first();
        lemma_leading_blank_bounds(t);
        assert forall|i: int| 0 <= i < leading_blank(s) implies unicode_whitespace(
            #[trigger] s[i],
        ) by {
            if i > 0 {
                assert(s[i] == t[i - 1]);
            }
        }
        if leading_blank(s) < s.len() {
            assert(s[leading_blank(s) as int] == t[leading_blank(t) as int]);
        }
    }
}

/// The trailing blanks of a text are blanks, and what stands before them
/// is none.
pub proof fn lemma_trailing_blank_bounds(s: Seq<char>)
    ensures
        trailing_blank(s) <= s.len(),
        forall|i: int|
            s.len() - trailing_blank(s) <= i < s.len() ==> unicode_whitespace(#[trigger] s[i]),
        trailing_blank(s) < s.len() ==> !unicode_whitespace(s[s.len() - trailing_blank(s) - 1]),
    decreases s.len(),
{
    if s.len() > 0 && unicode_whitespace(s.last()) {
        let t = s.drop_last();
        lemma_trailing_blank_bounds(t);
        assert forall|i: int| s.len() - trailing_blank(s) <= i < s.len() implies unicode_whitespace(
            #[trigger] s[i],
        ) by {
            if i < s.len() - 1 {
                assert(s[i] == t[i]);
            }
        }
        if trailing_blank(s) < s.len() {
            assert(s[s.len() - trailing_blank(s) - 1] == t[t.len() - trailing_blank(t) - 1]);
        }
    }
}

/// The leading run of white space is the only prefix of white space that
/// stops at a character that is not.
pub proof fn lemma_leading_blank_unique(s: Seq<char>, n: int)
    requires
        0 <= n <= s.len(),
        forall|i: int| 0 <= i < n ==> unicode_whitespace(#[trigger] s[i]),
        n < s.len() ==> !unicode_whitespace(s[n]),
    ensures
        leading_blank(s) == n,
{
    lemma_leading_blank_bounds(s);
    let m = leading_blank(s) as int;
    if m < n {
        assert(unicode_whitespace(s[m]));
    } else if n < m {
        assert(unicode_whitespace(s[n]));
    }
}

/// The trailing run of white space is the only suffix of white space that
/// starts after a character that is not.
pub proof fn lemma_trailing_blank_unique(s: Seq<char>, n: int)
    requires
        0 <= n <= s.len(),
        forall|i: int| s.len() - n <= i < s.len() ==> unicode_whitespace(#[trigger] s[i]),
        n < s.len() ==> !unicode_whitespace(s[s.len() - n - 1]),
    ensures
        trailing_blank(s) == n,
{
    lemma_trailing_blank_bounds(s);
    let m = trailing_blank(s) as int;
    if m < n {
        assert(unicode_whitespace(s[s.len() - m - 1]));
    } else if n < m {
        assert(unicode_whitespace(s[s.len() - n - 1]));
    }
}

/// Length of `text` in bytes of UTF-8.
pub fn byte_len(text: &str) -> (n: usize)
    ensures
        n == vstd::utf8::encode_utf8(text@).len(),
{
    text.as_bytes().len()
}

/// Whether `text` begins with `prefix`.
pub fn starts_with(text: &str, prefix: &str) -> (found: bool)
    ensures
        found == prefix@.is_prefix_of(text@),
{
    let chars = chars_of(text);
    let wanted = chars_of(prefix);
    if wanted.len() > chars.len() {
        return false;
    }
    let mut i: usize = 0;
    while i < wanted.len()
        invariant
            i <= wanted.len() <= chars.len(),
            chars@ == text@,
            wanted@ == prefix@,
            forall|j: int| 0 <= j < i ==> chars@[j] == wanted@[j],
        decreases wanted.len() - i,
    {
        if chars[i] != wanted[i] {
            assert(text@.subrange(0, prefix@.len() as int)[i as int] != prefix@[i as int]);
            return false;
        }
        i = i + 1;
    }
    assert(text@.subrange(0, prefix@.len() as int) =~= prefix@);
    true
}

/// The characters of `text`, in order.
pub fn chars_of(text: &str) -> (chars: Vec<char>)
    ensures
        chars@ == text@,
{
    broadcast use vstd::string::axiom_spec_iter;

    let mut chars: Vec<char> = Vec::new();
    for c in it: text.chars()
        invariant
            it.seq() == text@,
            chars@ == text@.take(it.index()),
    {
        chars.push(c);
        assert(chars@ =~= text@.take(it.index() + 1));
    }
    assert(text@.take(text@.len() as int) =~= text@);
    chars
}

/// The character of a decimal digit.
pub open spec fn digit_char(digit: nat) -> char {
    if digit == 0 {
        '0'
    } else if digit == 1 {
        '1'
    } else if digit == 2 {
        '2'
    } else if digit == 3 {
        '3'
    } else if digit == 4 {
        '4'
    } else if digit == 5 {
        '5'
    } else if digit == 6 {
        '6'
    } else if digit == 7 {
        '7'
    } else if digit == 8 {
        '8'
    } else {
        '9'
    }
}

/// The decimal digits of a number, the first of them not zero unless the
/// number is.
pub open spec fn digits(n: nat) -> Seq<char>
    decreases n,
{
    if n < 10 {
        seq![digit_char(n)]
    } else {
        digits(n / 10).push(digit_char(n % 10))
    }
}

/// The text of an integer in decimal digits, with a minus sign where it is
/// negative.
pub open spec fn decimal_text(number: i64) -> Seq<char> {
    if number < 0 {
        seq!['-'] + digits((-number) as nat)
    } else {
        digits(number as nat)
    }
}

fn digit(value: u64) -> (c: char)
    requires
        value < 10,
    ensures
        c == digit_char(value as nat),
{
    if value == 0 {
        '0'
    } else if value == 1 {
        '1'
    } else if value == 2 {
        '2'
    } else if value == 3 {
        '3'
    } else if value == 4 {
        '4'
    } else if value == 5 {
        '5'
    } else if value == 6 {
        '6'
    } else if value == 7 {
        '7'
    } else if value == 8 {
        '8'
    } else {
        '9'
    }
}

/// The text of an integer in decimal.
pub fn decimal(number: i64) -> (text: String)
    ensures
        text@ == decimal_text(number),
{
    let magnitude: u64 = if number < 0 {
        (-(number as i128)) as u64
    } else {
        number as u64
    };
    let mut chars: Vec<char> = Vec::new();
    chars.push(digit(magnitude % 10));
    let mut rest: u64 = magnitude / 10;
    proof {
        assert(chars@ =~= seq![digit_char((magnitude % 10) as nat)]);
        if rest > 0 {
            assert(digits(magnitude as nat) =~= digits(rest as nat) + chars@);
        } else {
            assert(digits(magnitude as nat) =~= chars@);
        }
    }
    while rest > 0
        invariant
            digits(magnitude as nat) == if rest > 0 {
                digits(rest as nat) + chars@
            } else {
                chars@
            },
        decreases rest,
    {
        let ghost before = chars@;
        chars.insert(0, digit(rest % 10));
        proof {
            let d = digit_char((rest % 10) as nat);
            assert(chars@ =~= seq![d] + before);
            if rest >= 10 {
                assert(digits(rest as nat) + before =~= digits((rest / 10) as nat) + chars@);
            } else {
                assert(digits(rest as nat) + before =~= chars@);
            }
        }
        rest = rest / 10;
    }
    if number < 0 {
        let ghost unsigned = chars@;
        chars.insert(0, '-');
        assert(chars@ =~= seq!['-'] + unsigned);
    }
    string_from_chars(&chars)
}

} // verus!
