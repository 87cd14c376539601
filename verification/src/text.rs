//! Strings: comparison, search and decimal numbers, stated over sequences of
//! characters.

use vstd::prelude::*;

verus! {

broadcast use vstd::string::group_string_axioms;

/// Whether two byte strings are equal.
pub fn bytes_eq(a: &[u8], b: &[u8]) -> (r: bool)
    ensures
        r == (a@ == b@),
{
    if a.len() != b.len() {
        return false;
    }
    let mut i: usize = 0;
    while i < a.len()
        invariant
            i <= a.len(),
            a@.len() == b@.len(),
            forall|j: int| 0 <= j < i ==> a@[j] == b@[j],
        decreases a.len() - i,
    {
        if a[i] != b[i] {
            assert(a@[i as int] != b@[i as int]);
            return false;
        }
        i += 1;
    }
    assert(a@ =~= b@);
    true
}

/// Two texts with the same encoding are the same text.
pub proof fn lemma_encode_utf8_injective(a: Seq<char>, b: Seq<char>)
    requires
        vstd::utf8::encode_utf8(a) == vstd::utf8::encode_utf8(b),
    ensures
        a == b,
{
    vstd::utf8::encode_utf8_decode_utf8(a);
    vstd::utf8::encode_utf8_decode_utf8(b);
}

/// Whether two texts are equal.
pub fn str_eq(a: &str, b: &str) -> (r: bool)
    ensures
        r == (a@ == b@),
{
    let same = bytes_eq(a.as_bytes(), b.as_bytes());
    proof {
        if same {
            lemma_encode_utf8_injective(a@, b@);
        }
    }
    same
}

/// A copy of a list of texts.
pub fn clone_texts(v: &Vec<String>) -> (r: Vec<String>)
    ensures
        r@ == v@,
{
    let mut out: Vec<String> = Vec::new();
    let mut i: usize = 0;
    while i < v.len()
        invariant
            i <= v@.len(),
            out@ == v@.take(i as int),
        decreases v@.len() - i,
    {
        out.push(v[i].clone());
        assert(out@ =~= v@.take(i as int + 1));
        i += 1;
    }
    assert(v@.take(v@.len() as int) =~= v@);
    out
}

/// A copy of an optional text.
pub fn clone_text(s: &Option<String>) -> (r: Option<String>)
    ensures
        r == *s,
{
    match s {
        Some(t) => Some(t.clone()),
        None => None,
    }
}

/// The text of the error with which `String::from_utf8` refuses bytes that are no
/// UTF-8.
pub uninterp spec fn utf8_error(bytes: Seq<u8>) -> Seq<char>;

/// `String::from_utf8`: the text that the bytes encode, or the text of the error where
/// they are no UTF-8.
#[verifier::external_body]
pub(crate) fn string_from_utf8(bytes: Vec<u8>) -> (r: Result<String, String>)
    ensures
        match r {
            Ok(s) => vstd::utf8::valid_utf8(bytes@) && s@ == vstd::utf8::decode_utf8(bytes@),
            Err(e) => !vstd::utf8::valid_utf8(bytes@) && e@ == utf8_error(bytes@),
        },
{
    String::from_utf8(bytes).map_err(|e| e.to_string())
}

/// A text as `{:?}` writes it: in double quotes, with escapes.
pub uninterp spec fn quoted(s: Seq<char>) -> Seq<char>;

/// `format!` with `{:?}` on a text.
#[verifier::external_body]
pub(crate) fn quote(s: &str) -> (r: String)
    ensures
        r@ == quoted(s@),
{
    format!("{:?}", s)
}

/// The decimal numbers of a byte string, with commas between them.
pub open spec fn byte_items(bytes: Seq<u8>) -> Seq<char>
    decreases bytes.len(),
{
    if bytes.len() == 0 {
        seq![]
    } else if bytes.len() == 1 {
        decimal(bytes[0] as nat)
    } else {
        byte_items(bytes.drop_last()) + ", "@ + decimal(bytes.last() as nat)
    }
}

/// A byte string as a list of decimal numbers in brackets.
pub open spec fn byte_list(bytes: Seq<u8>) -> Seq<char> {
    "["@ + byte_items(bytes) + "]"@
}

/// Appends a byte string as a list of decimal numbers in brackets.
pub fn push_byte_list(s: &mut String, bytes: &[u8])
    ensures
        final(s)@ == old(s)@ + byte_list(bytes@),
{
    let ghost start = s@;
    s.append("[");
    let mut i: usize = 0;
    assert(bytes@.take(0) =~= seq![]);
    assert(s@ =~= start + "["@ + byte_items(bytes@.take(0)));
    while i < bytes.len()
        invariant
            i <= bytes@.len(),
            s@ == start + "["@ + byte_items(bytes@.take(i as int)),
        decreases bytes@.len() - i,
    {
        let ghost next = bytes@.take(i as int + 1);
        assert(next.drop_last() =~= bytes@.take(i as int));
        if i > 0 {
            s.append(", ");
        }
        push_decimal(s, bytes[i] as u64);
        assert(s@ =~= start + "["@ + byte_items(next));
        i += 1;
    }
    assert(bytes@.take(bytes@.len() as int) =~= bytes@);
    s.append("]");
    assert(s@ =~= start + byte_list(bytes@));
}

/// Whether `part` stands in `whole` at position `at`.
pub open spec fn occurs_at(whole: Seq<char>, part: Seq<char>, at: int) -> bool {
    0 <= at && at + part.len() <= whole.len() && whole.subrange(at, at + part.len()) == part
}

/// Whether `part` stands anywhere in `whole`.
pub open spec fn contains(whole: Seq<char>, part: Seq<char>) -> bool {
    exists|at: int| occurs_at(whole, part, at)
}

/// Whether `whole` ends with `part`.
pub open spec fn ends_with(whole: Seq<char>, part: Seq<char>) -> bool {
    occurs_at(whole, part, whole.len() - part.len())
}

/// The characters of a text.
pub fn chars_of(s: &str) -> (r: Vec<char>)
    ensures
        r@ == s@,
{
    let mut v: Vec<char> = Vec::new();
    for c in it: s.chars()
        invariant
            v@ == s@.subrange(0, it.index() as int),
            it.seq() == s@,
    {
        v.push(c);
    }
    v
}

fn chars_at(whole: &Vec<char>, part: &Vec<char>, at: usize) -> (r: bool)
    requires
        at + part@.len() <= whole@.len(),
    ensures
        r == occurs_at(whole@, part@, at as int),
{
    let total: usize = whole.len();
    let mut i: usize = 0;
    while i < part.len()
        invariant
            i <= part@.len(),
            at + part@.len() <= whole@.len() == total,
            forall|j: int| 0 <= j < i ==> whole@[at + j] == part@[j],
        decreases part@.len() - i,
    {
        if whole[at + i] != part[i] {
            assert(whole@.subrange(at as int, at + part@.len())[i as int] != part@[i as int]);
            return false;
        }
        i += 1;
    }
    assert(whole@.subrange(at as int, at + part@.len()) =~= part@);
    true
}

/// Whether the text `part` stands in the text `whole`.
pub fn str_contains(whole: &str, part: &str) -> (r: bool)
    ensures
        r == contains(whole@, part@),
{
    let w = chars_of(whole);
    let p = chars_of(part);
    if p.len() > w.len() {
        return false;
    }
    let last: usize = w.len() - p.len();
    let mut at: usize = 0;
    loop
        invariant
            w@ == whole@,
            p@ == part@,
            last + p@.len() == w@.len(),
            at <= last,
            forall|k: int| 0 <= k < at ==> !occurs_at(w@, p@, k),
        decreases last - at,
    {
        if chars_at(&w, &p, at) {
            return true;
        }
        if at == last {
            assert(forall|k: int| !occurs_at(w@, p@, k));
            return false;
        }
        at += 1;
    }
}

/// Whether the text `whole` ends with the text `part`.
pub fn str_ends_with(whole: &str, part: &str) -> (r: bool)
    ensures
        r == ends_with(whole@, part@),
{
    let w = chars_of(whole);
    let p = chars_of(part);
    p.len() <= w.len() && chars_at(&w, &p, w.len() - p.len())
}

/// The decimal digit for a number below ten.
pub open spec fn digit_char(d: nat) -> char {
    if d == 0 {
        '0'
    } else if d == 1 {
        '1'
    } else if d == 2 {
        '2'
    } else if d == 3 {
        '3'
    } else if d == 4 {
        '4'
    } else if d == 5 {
        '5'
    } else if d == 6 {
        '6'
    } else if d == 7 {
        '7'
    } else if d == 8 {
        '8'
    } else {
        '9'
    }
}

/// The decimal digits of a number, with no leading zero.
pub open spec fn decimal(n: nat) -> Seq<char>
    decreases n,
{
    if n < 10 {
        seq![digit_char(n)]
    } else {
        decimal(n / 10).push(digit_char(n % 10))
    }
}

/// The decimal form of an integer, with a minus sign below zero.
pub open spec fn signed_decimal(n: int) -> Seq<char> {
    if n < 0 {
        seq!['-'] + decimal((-n) as nat)
    } else {
        decimal(n as nat)
    }
}

fn digit_text(d: u64) -> (r: &'static str)
    requires
        d < 10,
    ensures
        r@ == seq![digit_char(d as nat)],
{
    proof {
        reveal_strlit("0");
        reveal_strlit("1");
        reveal_strlit("2");
        reveal_strlit("3");
        reveal_strlit("4");
        reveal_strlit("5");
        reveal_strlit("6");
        reveal_strlit("7");
        reveal_strlit("8");
        reveal_strlit("9");
    }
    let t = if d == 0 {
        "0"
    } else if d == 1 {
        "1"
    } else if d == 2 {
        "2"
    } else if d == 3 {
        "3"
    } else if d == 4 {
        "4"
    } else if d == 5 {
        "5"
    } else if d == 6 {
        "6"
    } else if d == 7 {
        "7"
    } else if d == 8 {
        "8"
    } else {
        "9"
    };
    assert(t@ =~= seq![digit_char(d as nat)]);
    t
}

/// Appends a number in decimal.
pub fn push_decimal(s: &mut String, n: u64)
    ensures
        final(s)@ == old(s)@ + decimal(n as nat),
    decreases n,
{
    if n >= 10 {
        push_decimal(s, n / 10);
    }
    let d: u64 = n % 10;
    s.append(digit_text(d));
    assert(s@ =~= old(s)@ + decimal(n as nat));
}

/// Appends an integer in decimal, with a minus sign below zero.
pub fn push_signed_decimal(s: &mut String, n: i64)
    ensures
        final(s)@ == old(s)@ + signed_decimal(n as int),
{
    if n < 0 {
        proof {
            reveal_strlit("-");
        }
        s.append("-");
        assert("-"@ =~= seq!['-']);
        let magnitude: u64 = if n == i64::MIN {
            0x8000_0000_0000_0000u64
        } else {
            (-n) as u64
        };
        push_decimal(s, magnitude);
        assert(s@ =~= old(s)@ + signed_decimal(n as int));
    } else {
        push_decimal(s, n as u64);
    }
}

/// The value of a decimal digit.
pub open spec fn digit_value(c: char) -> Option<nat> {
    if '0' <= c <= '9' {
        Some((c as u32 - '0' as u32) as nat)
    } else {
        None
    }
}

/// The number that digits stand for, if they are digits all of them.
pub open spec fn digits_value(s: Seq<char>) -> Option<nat>
    decreases s.len(),
{
    if s.len() == 0 {
        Some(0)
    } else {
        match (digits_value(s.drop_last()), digit_value(s.last())) {
            (Some(n), Some(d)) => Some(n * 10 + d),
            _ => None,
        }
    }
}

/// The number that a text stands for: decimal digits, at least one, perhaps behind a
/// plus sign.
pub open spec fn number_of(s: Seq<char>) -> Option<nat> {
    let digits = if s.len() > 0 && s[0] == '+' {
        s.skip(1)
    } else {
        s
    };
    if digits.len() == 0 {
        None
    } else {
        digits_value(digits)
    }
}

proof fn lemma_digits_prefix(s: Seq<char>, n: int)
    requires
        0 <= n <= s.len(),
    ensures
        digits_value(s.take(n)) is None ==> digits_value(s) is None,
        digits_value(s) matches Some(v) ==> digits_value(s.take(n))->0 <= v,
    decreases s.len(),
{
    if n == s.len() {
        assert(s.take(n) =~= s);
    } else {
        assert(s.drop_last().take(n) =~= s.take(n));
        lemma_digits_prefix(s.drop_last(), n);
    }
}

/// The 32-bit number that a text stands for.
pub fn parse_u32(s: &str) -> (r: Option<u32>)
    ensures
        r == match number_of(s@) {
            Some(n) => if n <= u32::MAX {
                Some(n as u32)
            } else {
                None
            },
            None => None,
        },
{
    let all = chars_of(s);
    let from: usize = if all.len() > 0 && all[0] == '+' {
        1
    } else {
        0
    };
    let ghost digits = all@.skip(from as int);
    assert(from == 0 ==> digits =~= s@);
    if all.len() == from {
        return None;
    }
    let mut value: u32 = 0;
    let mut i: usize = from;
    assert(digits.take(0) =~= seq![]);
    while i < all.len()
        invariant
            from <= i <= all@.len(),
            digits == all@.skip(from as int),
            digits_value(digits.take(i - from)) == Some(value as nat),
            number_of(s@) == digits_value(digits),
        decreases all@.len() - i,
    {
        let c = all[i];
        proof {
            let next = digits.take(i - from + 1);
            assert(next.drop_last() =~= digits.take(i - from));
            assert(next.last() == c);
            lemma_digits_prefix(digits, i - from + 1);
        }
        if !('0' <= c && c <= '9') {
            return None;
        }
        let d: u32 = c as u32 - '0' as u32;
        if value > (0xffff_ffff - d) / 10 {
            return None;
        }
        value = value * 10 + d;
        i += 1;
    }
    assert(digits.take(digits.len() as int) =~= digits);
    Some(value)
}

/// A text stands in another exactly where the other is some text, then it, then some
/// text.
pub proof fn law_contains(whole: Seq<char>, part: Seq<char>)
    ensures
        contains(whole, part) <==> exists|a: Seq<char>, b: Seq<char>| whole == #[trigger] (a + part
            + b),
{
    if contains(whole, part) {
        let at = choose|at: int| occurs_at(whole, part, at);
        let a = whole.take(at);
        let b = whole.skip(at + part.len());
        assert(whole.subrange(at, at + part.len()) == part);
        assert(whole =~= a + part + b);
    }
    if exists|a: Seq<char>, b: Seq<char>| whole == #[trigger] (a + part + b) {
        let (a, b) = choose|a: Seq<char>, b: Seq<char>| whole == #[trigger] (a + part + b);
        let at = a.len() as int;
        assert(whole.subrange(at, at + part.len()) =~= part);
        assert(occurs_at(whole, part, at));
    }
}

/// A text ends with another exactly where it is some text and then the other.
pub proof fn law_ends_with(whole: Seq<char>, part: Seq<char>)
    ensures
        ends_with(whole, part) <==> exists|a: Seq<char>| whole == #[trigger] (a + part),
{
    if ends_with(whole, part) {
        let a = whole.take(whole.len() - part.len());
        assert(whole.subrange(whole.len() - part.len(), whole.len() as int) == part);
        assert(whole =~= a + part);
    }
    if exists|a: Seq<char>| whole == #[trigger] (a + part) {
        let a = choose|a: Seq<char>| whole == #[trigger] (a + part);
        assert(whole.subrange(whole.len() - part.len(), whole.len() as int) =~= part);
    }
}

/// A number in decimal is read back as the number, has nothing but digits, and starts
/// with a zero only where it is zero.
pub proof fn law_decimal_reads_back(n: nat)
    ensures
        digits_value(decimal(n)) == Some(n),
        number_of(decimal(n)) == Some(n),
        decimal(n).len() > 0,
        forall|i: int| 0 <= i < decimal(n).len() ==> '0' <= #[trigger] decimal(n)[i] <= '9',
        decimal(n)[0] == '0' <==> n == 0,
    decreases n,
{
    reveal_with_fuel(digits_value, 2);
    if n < 10 {
        assert(decimal(n).drop_last() =~= seq![]);
    } else {
        law_decimal_reads_back(n / 10);
        assert(decimal(n).drop_last() =~= decimal(n / 10));
        assert(decimal(n)[0] == decimal(n / 10)[0]);
        assert forall|i: int| 0 <= i < decimal(n).len() implies '0' <= #[trigger] decimal(n)[i]
            <= '9' by {
            if i < decimal(n / 10).len() {
                assert(decimal(n)[i] == decimal(n / 10)[i]);
            }
        }
    }
}

/// Digits stand for numbers as usual: one more digit behind a number multiplies it by ten
/// and adds the digit. Anything but a digit makes it no number, and a plus sign in front
/// does not matter.
pub proof fn law_digits_count(s: Seq<char>, c: char)
    ensures
        digits_value(s.push(c)) == match digits_value(s) {
            Some(n) => if 48 <= c as u32 <= 57 {
                Some((10 * n + (c as u32 - 48)) as nat)
            } else {
                None
            },
            None => None,
        },
        s.len() > 0 && s[0] != '+' ==> number_of(seq!['+'] + s) == number_of(s),
        number_of(seq![]) is None,
        number_of(seq!['+']) is None,
{
    assert(s.push(c).drop_last() =~= s);
    assert((seq!['+'] + s).skip(1) =~= s);
    assert(seq!['+'].skip(1) =~= seq![]);
}

/// An integer in decimal is its magnitude, behind a minus sign exactly where it is
/// negative.
pub proof fn law_signed_decimal(n: int)
    ensures
        n >= 0 ==> signed_decimal(n) == decimal(n as nat),
        n < 0 ==> signed_decimal(n) == seq!['-'] + decimal((0 - n) as nat),
{
}

/// A list of bytes in brackets grows by a comma, a blank and the number of the next byte;
/// no comma stands before the first.
pub proof fn law_byte_list(bytes: Seq<u8>, b: u8)
    ensures
        byte_list(seq![]) == "["@ + "]"@,
        byte_list(seq![b]) == "["@ + decimal(b as nat) + "]"@,
        bytes.len() > 0 ==> byte_list(bytes.push(b)) == "["@ + (byte_items(bytes) + ", "@ + decimal(
            b as nat,
        )) + "]"@,
{
    assert("["@ + Seq::<char>::empty() + "]"@ =~= "["@ + "]"@);
    assert(bytes.push(b).drop_last() =~= bytes);
}

} // verus!
