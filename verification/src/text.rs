//! Text primitives: characters, trimming, decimal numbers and assembly.
//!
//! Everything here speaks of a string through its sequence of characters.

use vstd::prelude::*;
use vstd::string::*;
use vstd::utf8::*;

verus! {

/// `String::push` appends exactly one character.
pub assume_specification[ String::push ](s: &mut String, c: char)
    ensures
        final(s)@ == old(s)@.push(c),
;

/// The characters with the Unicode `White_Space` property.
pub open spec fn is_white_space_spec(c: char) -> bool {
    ||| 0x09 <= c as u32 <= 0x0d
    ||| c as u32 == 0x20
    ||| c as u32 == 0x85
    ||| c as u32 == 0xa0
    ||| c as u32 == 0x1680
    ||| 0x2000 <= c as u32 <= 0x200a
    ||| c as u32 == 0x2028
    ||| c as u32 == 0x2029
    ||| c as u32 == 0x202f
    ||| c as u32 == 0x205f
    ||| c as u32 == 0x3000
}

/// Tells whether a character has the Unicode `White_Space` property.
pub fn is_white_space(c: char) -> (b: bool)
    ensures
        b == is_white_space_spec(c),
{
    let u: u32 = c as u32;
    (0x09 <= u && u <= 0x0d) || u == 0x20 || u == 0x85 || u == 0xa0 || u == 0x1680 || (0x2000 <= u
        && u <= 0x200a) || u == 0x2028 || u == 0x2029 || u == 0x202f || u == 0x205f || u == 0x3000
}

/// The control characters, Unicode general category `Cc`.
pub open spec fn is_control_spec(c: char) -> bool {
    c as u32 <= 0x1f || 0x7f <= c as u32 <= 0x9f
}

/// Tells whether a character is a control character.
pub fn is_control(c: char) -> (b: bool)
    ensures
        b == is_control_spec(c),
{
    let u: u32 = c as u32;
    u <= 0x1f || (0x7f <= u && u <= 0x9f)
}

pub proof fn lemma_control(c: char)
    ensures
        is_control_spec(c) <==> c < ' ' || ('~' < c && c < '\u{a0}'),
{
}

/// The characters of a string, in order.
pub fn chars_of(s: &str) -> (v: Vec<char>)
    ensures
        v@ == s@,
{
    let mut v: Vec<char> = Vec::new();
    for c in it: s.chars()
        invariant
            it.seq() == s@,
            v@ == it.seq().take(it.index()),
    {
        v.push(c);
        proof {
            assert(v@ =~= it.seq().take(it.index() + 1));
        }
    }
    proof {
        assert(s@.take(s@.len() as int) =~= s@);
    }
    v
}

/// The string made of the characters `from..to` of a slice.
pub fn text_of(v: &Vec<char>, from: usize, to: usize) -> (s: String)
    requires
        from <= to <= v@.len(),
    ensures
        s@ == v@.subrange(from as int, to as int),
{
    let mut s: String = String::new();
    let mut i: usize = from;
    while i < to
        invariant
            from <= i <= to <= v@.len(),
            s@ == v@.subrange(from as int, i as int),
        decreases to - i,
    {
        s.push(v[i]);
        i = i + 1;
        proof {
            assert(s@ =~= v@.subrange(from as int, i as int));
        }
    }
    s
}

/// A text without its leading white space.
pub open spec fn trim_start(s: Seq<char>) -> Seq<char>
    decreases s.len(),
{
    if s.len() > 0 && is_white_space_spec(s[0]) {
        trim_start(s.drop_first())
    } else {
        s
    }
}

/// A text without its trailing white space.
pub open spec fn trim_end(s: Seq<char>) -> Seq<char>
    decreases s.len(),
{
    if s.len() > 0 && is_white_space_spec(s.last()) {
        trim_end(s.drop_last())
    } else {
        s
    }
}

/// A text without leading and trailing white space.
pub open spec fn trimmed(s: Seq<char>) -> Seq<char> {
    trim_end(trim_start(s))
}

/// Removes leading and trailing white space.
pub fn trim(s: &str) -> (t: String)
    ensures
        t@ == trimmed(s@),
{
    let v = chars_of(s);
    let mut from: usize = 0;
    proof {
        assert(v@.subrange(0, v@.len() as int) =~= s@);
    }
    while from < v.len() && is_white_space(v[from])
        invariant
            v@ == s@,
            from <= v@.len(),
            trim_start(s@) == trim_start(v@.subrange(from as int, v@.len() as int)),
        decreases v@.len() - from,
    {
        proof {
            let rest = v@.subrange(from as int, v@.len() as int);
            assert(rest.drop_first() =~= v@.subrange(from + 1, v@.len() as int));
        }
        from = from + 1;
    }
    let ghost start = v@.subrange(from as int, v@.len() as int);
    proof {
        assert(trim_start(s@) == start);
    }
    let mut to: usize = v.len();
    while to > from && is_white_space(v[to - 1])
        invariant
            from <= to <= v@.len(),
            start == v@.subrange(from as int, v@.len() as int),
            trim_end(start) == trim_end(v@.subrange(from as int, to as int)),
        decreases to,
    {
        proof {
            let rest = v@.subrange(from as int, to as int);
            assert(rest.drop_last() =~= v@.subrange(from as int, to - 1));
        }
        to = to - 1;
    }
    text_of(&v, from, to)
}

/// The decimal digit of a value below ten.
pub open spec fn digit_char(d: int) -> char {
    (d + 48) as char
}

pub open spec fn is_digit(c: char) -> bool {
    '0' <= c <= '9'
}

/// The shortest decimal notation of a natural number.
pub open spec fn decimal(n: nat) -> Seq<char>
    decreases n,
{
    if n < 10 {
        seq![digit_char(n as int)]
    } else {
        decimal(n / 10).push(digit_char((n % 10) as int))
    }
}

/// The value of a sequence of decimal digits.
pub open spec fn decimal_value(s: Seq<char>) -> nat
    decreases s.len(),
{
    if s.len() == 0 {
        0
    } else {
        decimal_value(s.drop_last()) * 10 + (s.last() as u32 - 48) as nat
    }
}

pub open spec fn all_digits(s: Seq<char>) -> bool {
    forall|i: int| 0 <= i < s.len() ==> is_digit(#[trigger] s[i])
}

/// A notation without its optional plus sign.
pub open spec fn without_plus(s: Seq<char>) -> Seq<char> {
    if s.len() > 0 && s[0] == '+' {
        s.drop_first()
    } else {
        s
    }
}

/// What an unsigned notation denotes: an optional plus sign followed by at least one
/// digit, with a value of at most `max`.
pub open spec fn unsigned_value(s: Seq<char>, max: nat) -> Option<nat> {
    let digits = without_plus(s);
    if digits.len() > 0 && all_digits(digits) && decimal_value(digits) <= max {
        Some(decimal_value(digits))
    } else {
        None
    }
}

/// What a signed 64-bit notation denotes: as for the unsigned one, with a minus sign
/// allowed in place of the plus sign.
pub open spec fn signed_value(s: Seq<char>) -> Option<int> {
    if s.len() > 0 && s[0] == '-' {
        let digits = s.drop_first();
        if digits.len() > 0 && all_digits(digits) && decimal_value(digits)
            <= 0x8000_0000_0000_0000 {
            Some(-(decimal_value(digits) as int))
        } else {
            None
        }
    } else {
        match unsigned_value(s, 0x7fff_ffff_ffff_ffff) {
            Some(n) => Some(n as int),
            None => None,
        }
    }
}

proof fn lemma_decimal_value_step(s: Seq<char>, i: int)
    requires
        0 <= i < s.len(),
    ensures
        decimal_value(s.subrange(0, i + 1)) == decimal_value(s.subrange(0, i)) * 10 + (s[i] as u32
            - 48) as nat,
{
    assert(s.subrange(0, i + 1).drop_last() =~= s.subrange(0, i));
}

proof fn lemma_decimal_value_grows(s: Seq<char>, i: int, j: int)
    requires
        0 <= i <= j <= s.len(),
        all_digits(s),
    ensures
        decimal_value(s.subrange(0, i)) <= decimal_value(s.subrange(0, j)),
    decreases j - i,
{
    if i < j {
        lemma_decimal_value_grows(s, i, j - 1);
        lemma_decimal_value_step(s, j - 1);
    }
}

/// Reads the digits from `from` on; `None` where they are no number of at most `max`.
fn parse_digits(v: &Vec<char>, from: usize, max: u64) -> (r: Option<u64>)
    requires
        from <= v@.len(),
    ensures
        ({
            let digits = v@.subrange(from as int, v@.len() as int);
            let ok = digits.len() > 0 && all_digits(digits) && decimal_value(digits) <= max;
            match r {
                Some(n) => ok && n == decimal_value(digits),
                None => !ok,
            }
        }),
{
    let ghost digits = v@.subrange(from as int, v@.len() as int);
    if from == v.len() {
        return None;
    }
    let mut i: usize = from;
    let mut value: u64 = 0;
    let mut fits: bool = true;
    while i < v.len()
        invariant
            from <= i <= v@.len(),
            digits == v@.subrange(from as int, v@.len() as int),
            forall|k: int| 0 <= k < i - from ==> is_digit(#[trigger] digits[k]),
            fits ==> value == decimal_value(digits.subrange(0, i - from)),
            fits ==> value <= max,
            !fits ==> decimal_value(digits.subrange(0, i - from)) > max,
        decreases v@.len() - i,
    {
        let c: char = v[i];
        assert(c == digits[i - from]);
        if !('0' <= c && c <= '9') {
            assert(!is_digit(digits[i - from]));
            return None;
        }
        let d: u64 = (c as u32 - 48) as u64;
        proof {
            lemma_decimal_value_step(digits, i - from);
        }
        if fits {
            if value > max / 10 || d > max || value * 10 > max - d {
                fits = false;
            } else {
                value = value * 10 + d;
            }
        }
        i = i + 1;
    }
    proof {
        assert(digits.subrange(0, digits.len() as int) =~= digits);
    }
    if fits {
        Some(value)
    } else {
        None
    }
}

/// Reads an unsigned decimal notation with a value of at most `max`.
pub fn parse_unsigned(s: &str, max: u64) -> (r: Option<u64>)
    ensures
        match r {
            Some(n) => unsigned_value(s@, max as nat) == Some(n as nat),
            None => unsigned_value(s@, max as nat) is None,
        },
{
    let v = chars_of(s);
    if v.len() > 0 && v[0] == '+' {
        proof {
            assert(v@.subrange(1, v@.len() as int) =~= s@.drop_first());
        }
        parse_digits(&v, 1, max)
    } else {
        proof {
            assert(v@.subrange(0, v@.len() as int) =~= s@);
        }
        parse_digits(&v, 0, max)
    }
}

/// Reads a signed 64-bit decimal notation.
pub fn parse_signed(s: &str) -> (r: Option<i64>)
    ensures
        match r {
            Some(n) => signed_value(s@) == Some(n as int),
            None => signed_value(s@) is None,
        },
{
    let v = chars_of(s);
    if v.len() > 0 && v[0] == '-' {
        proof {
            assert(v@.subrange(1, v@.len() as int) =~= s@.drop_first());
        }
        match parse_digits(&v, 1, 0x8000_0000_0000_0000) {
            Some(n) => {
                let wide: i128 = -(n as i128);
                Some(wide as i64)
            },
            None => None,
        }
    } else {
        match parse_unsigned(s, 0x7fff_ffff_ffff_ffff) {
            Some(n) => Some(n as i64),
            None => None,
        }
    }
}

/// Writes the decimal notation of a number.
pub fn decimal_text(n: u64) -> (s: String)
    ensures
        s@ == decimal(n as nat),
    decreases n,
{
    let d: u8 = (n % 10) as u8;
    let c: char = (48u8 + d) as char;
    assert(c == digit_char((n % 10) as int));
    if n < 10 {
        let mut s: String = String::new();
        s.push(c);
        proof {
            assert(s@ =~= decimal(n as nat));
        }
        s
    } else {
        let mut s = decimal_text(n / 10);
        s.push(c);
        s
    }
}

/// The decimal notation of an integer.
pub open spec fn signed_decimal(n: int) -> Seq<char> {
    if n < 0 {
        seq!['-'] + decimal((-n) as nat)
    } else {
        decimal(n as nat)
    }
}

/// Writes the decimal notation of a signed number.
pub fn signed_decimal_text(n: i64) -> (s: String)
    ensures
        s@ == signed_decimal(n as int),
{
    if n < 0 {
        let wide: i128 = -(n as i128);
        let mut s: String = String::new();
        s.push('-');
        s.append(decimal_text(wide as u64).as_str());
        proof {
            assert(s@ =~= signed_decimal(n as int));
        }
        s
    } else {
        decimal_text(n as u64)
    }
}

/// Reading a number back from its decimal notation gives the number.
pub proof fn law_decimal_round_trip(n: nat, max: nat)
    requires
        n <= max,
    ensures
        unsigned_value(decimal(n), max) == Some(n),
{
    lemma_decimal(n);
}

/// Reading a signed number back from its decimal notation gives the number.
pub proof fn law_signed_decimal_round_trip(n: i64)
    ensures
        signed_value(signed_decimal(n as int)) == Some(n as int),
{
    if n < 0 {
        lemma_decimal((-n) as nat);
        assert(signed_decimal(n as int).drop_first() =~= decimal((-n) as nat));
    } else {
        lemma_decimal(n as nat);
        assert(decimal(n as nat)[0] != '-');
    }
}

pub proof fn lemma_decimal(n: nat)
    ensures
        decimal(n).len() > 0,
        all_digits(decimal(n)),
        decimal_value(decimal(n)) == n,
        without_plus(decimal(n)) == decimal(n),
    decreases n,
{
    if n < 10 {
        assert(decimal(n).drop_last() =~= Seq::<char>::empty());
        assert(decimal_value(Seq::<char>::empty()) == 0);
    } else {
        lemma_decimal(n / 10);
        assert(decimal(n).drop_last() =~= decimal(n / 10));
    }
    assert(is_digit(decimal(n)[0]));
}

/// The text that `{:?}` shows for a string: in quotes, with escapes.
pub uninterp spec fn debug_quoted(text: Seq<char>) -> Seq<char>;

/// The `Debug` form of a string. Which characters it escapes is not described here, only
/// named.
#[verifier::external_body]
pub(crate) fn quoted(text: &str) -> (s: String)
    ensures
        s@ == debug_quoted(text@),
{
    format!("{text:?}")
}

/// Two texts are the same when their characters are.
pub fn same_text(a: &str, b: &str) -> (same: bool)
    ensures
        same == (a@ == b@),
{
    a.to_owned() == b.to_owned()
}

/// The position of the first occurrence of a character, or the length of the text.
pub open spec fn position_of(s: Seq<char>, c: char) -> int
    decreases s.len(),
{
    if s.len() == 0 || s[0] == c {
        0
    } else {
        1 + position_of(s.drop_first(), c)
    }
}

/// The position of the first occurrence of a character in `from..to`, or `to`.
pub fn find_char(v: &Vec<char>, from: usize, to: usize, c: char) -> (found: usize)
    requires
        from <= to <= v@.len(),
    ensures
        from <= found <= to,
        found - from == position_of(v@.subrange(from as int, to as int), c),
        found < to ==> v@[found as int] == c,
{
    let mut i: usize = from;
    while i < to && v[i] != c
        invariant
            from <= i <= to <= v@.len(),
            position_of(v@.subrange(from as int, to as int), c) == i - from + position_of(
                v@.subrange(i as int, to as int),
                c,
            ),
        decreases to - i,
    {
        proof {
            let rest = v@.subrange(i as int, to as int);
            assert(rest.drop_first() =~= v@.subrange(i + 1, to as int));
        }
        i = i + 1;
    }
    i
}

/// Whether a text stands somewhere in another one.
pub open spec fn holds_text(s: Seq<char>, part: Seq<char>) -> bool {
    exists|i: int| 0 <= i <= s.len() - part.len() && #[trigger] s.subrange(i, i + part.len()) == part
}

/// Tells whether a text stands somewhere in another one.
pub fn contains_text(s: &str, part: &str) -> (found: bool)
    ensures
        found == holds_text(s@, part@),
{
    let whole = chars_of(s);
    let wanted = chars_of(part);
    let n: usize = wanted.len();
    if n > whole.len() {
        return false;
    }
    let total: usize = whole.len();
    let last: usize = total - n;
    let mut i: usize = 0;
    while i <= last
        invariant
            whole@ == s@,
            wanted@ == part@,
            n == part@.len(),
            total == s@.len(),
            last + n == total,
            i <= last,
            forall|k: int| 0 <= k < i ==> #[trigger] s@.subrange(k, k + n) != part@,
        decreases last - i,
    {
        let mut j: usize = 0;
        while j < n && whole[i + j] == wanted[j]
            invariant
                whole@ == s@,
                wanted@ == part@,
                n == part@.len(),
                i + n <= total,
                total == s@.len(),
                j <= n,
                forall|k: int| 0 <= k < j ==> s@[i + k] == part@[k],
            decreases n - j,
        {
            j = j + 1;
        }
        if j == n {
            proof {
                assert(s@.subrange(i as int, i + n) =~= part@);
            }
            return true;
        }
        proof {
            assert(s@.subrange(i as int, i + n)[j as int] != part@[j as int]);
        }
        if i == last {
            return false;
        }
        i = i + 1;
    }
    false
}

/// The white space of ASCII is the space and the characters from tab to carriage return; no
/// letter, digit or punctuation mark is among it, nor is a zero-width character.
pub proof fn law_white_space_of_ascii(c: char, b: bool)
    requires
        call_ensures(is_white_space, (c,), b),
    ensures
        c == ' ' || c == '\t' || c == '\n' || c == '\r' ==> b,
        b && c < '\u{80}' ==> c == ' ' || '\t' <= c <= '\r',
        b ==> c <= '\u{3000}',
        c == '\u{a0}' || c == '\u{2003}' || c == '\u{3000}' ==> b,
        c == '\u{200b}' || c == '\u{feff}' ==> !b,
{
}

/// Control characters are those before the space, and those from delete up to the end of the
/// upper control block.
pub proof fn law_control_characters(c: char, b: bool)
    requires
        call_ensures(is_control, (c,), b),
    ensures
        b <==> c < ' ' || ('~' < c && c < '\u{a0}'),
{
}

proof fn lemma_trim_start(s: Seq<char>) -> (k: int)
    ensures
        0 <= k <= s.len(),
        trim_start(s) == s.subrange(k, s.len() as int),
        forall|i: int| 0 <= i < k ==> is_white_space_spec(#[trigger] s[i]),
        k < s.len() ==> !is_white_space_spec(s[k]),
    decreases s.len(),
{
    if s.len() > 0 && is_white_space_spec(s[0]) {
        let k = lemma_trim_start(s.drop_first());
        assert(s.drop_first().subrange(k, s.len() - 1) =~= s.subrange(k + 1, s.len() as int));
        assert forall|i: int| 0 <= i < k + 1 implies is_white_space_spec(#[trigger] s[i]) by {
            if i > 0 {
                assert(s.drop_first()[i - 1] == s[i]);
            }
        }
        k + 1
    } else {
        assert(s.subrange(0, s.len() as int) =~= s);
        0
    }
}

proof fn lemma_trim_end(s: Seq<char>) -> (n: int)
    ensures
        0 <= n <= s.len(),
        trim_end(s) == s.subrange(0, n),
        forall|i: int| n <= i < s.len() ==> is_white_space_spec(#[trigger] s[i]),
        n > 0 ==> !is_white_space_spec(s[n - 1]),
    decreases s.len(),
{
    if s.len() > 0 && is_white_space_spec(s.last()) {
        let n = lemma_trim_end(s.drop_last());
        assert(s.drop_last().subrange(0, n) =~= s.subrange(0, n));
        assert forall|i: int| n <= i < s.len() implies is_white_space_spec(#[trigger] s[i]) by {
            if i < s.len() - 1 {
                assert(s.drop_last()[i] == s[i]);
            }
        }
        n
    } else {
        assert(s.subrange(0, s.len() as int) =~= s);
        s.len() as int
    }
}

/// Trimming keeps one piece of a text: what goes is white space, and the piece neither starts
/// nor ends with any.
pub proof fn law_trimming_keeps_the_middle(s: &str, t: String)
    requires
        call_ensures(trim, (s,), t),
    ensures
        exists|from: int|
            0 <= from <= from + t@.len() <= s@.len() && t@ == #[trigger] s@.subrange(
                from,
                from + t@.len(),
            ) && forall|i: int|
                0 <= i < s@.len() && !(from <= i < from + t@.len()) ==> is_white_space_spec(
                    #[trigger] s@[i],
                ),
        t@.len() > 0 ==> !is_white_space_spec(t@[0]) && !is_white_space_spec(t@.last()),
{
    let k = lemma_trim_start(s@);
    let rest = trim_start(s@);
    let n = lemma_trim_end(rest);
    assert(rest.subrange(0, n) =~= s@.subrange(k, k + n));
    assert forall|i: int| 0 <= i < s@.len() && !(k <= i < k + n) implies is_white_space_spec(
        #[trigger] s@[i],
    ) by {
        if i >= k {
            assert(rest[i - k] == s@[i]);
        }
    }
}

pub proof fn lemma_trimmed_piece(s: Seq<char>) -> (from: int)
    ensures
        0 <= from <= from + trimmed(s).len() <= s.len(),
        trimmed(s) == s.subrange(from, from + trimmed(s).len()),
        forall|i: int| 0 <= i < from ==> is_white_space_spec(#[trigger] s[i]),
{
    let k = lemma_trim_start(s);
    let rest = trim_start(s);
    let n = lemma_trim_end(rest);
    assert(rest.subrange(0, n) =~= s.subrange(k, k + n));
    k
}

/// Nothing is left of a text exactly when it is white space throughout.
pub proof fn law_only_white_space_trims_to_nothing(s: Seq<char>)
    ensures
        trimmed(s).len() == 0 <==> forall|i: int|
            0 <= i < s.len() ==> is_white_space_spec(#[trigger] s[i]),
{
    let k = lemma_trim_start(s);
    let rest = trim_start(s);
    let n = lemma_trim_end(rest);
    if n == 0 {
        assert forall|i: int| 0 <= i < s.len() implies is_white_space_spec(#[trigger] s[i]) by {
            if i >= k {
                assert(rest[i - k] == s[i]);
            }
        }
    } else {
        assert(k < s.len());
    }
}

/// A number is written in digits, without a leading zero, and shorter numbers are smaller.
pub proof fn law_numbers_are_written_in_digits(n: u64, s: String)
    requires
        call_ensures(decimal_text, (n,), s),
    ensures
        forall|i: int| 0 <= i < s@.len() ==> '0' <= #[trigger] s@[i] && s@[i] <= '9',
        s@.len() > 0,
        n > 0 ==> s@[0] != '0',
        n < 10 <==> s@.len() == 1,
        s@.last() as u32 == 48 + n % 10,
{
    lemma_decimal(n as nat);
    lemma_no_leading_zero(n as nat);
    if n >= 10 {
        lemma_decimal(n as nat / 10);
    }
}

proof fn lemma_no_leading_zero(n: nat)
    ensures
        n > 0 ==> decimal(n)[0] != '0',
    decreases n,
{
    if n >= 10 {
        lemma_no_leading_zero(n / 10);
        lemma_decimal(n / 10);
    }
}

/// What is read as an unsigned number is digits after at most one plus sign and no more than
/// allowed; the plus sign changes nothing.
pub proof fn law_unsigned_numbers_are_read_in_full(s: &str, max: u64, r: Option<u64>)
    requires
        call_ensures(parse_unsigned, (s, max), r),
    ensures
        r matches Some(n) ==> n <= max && s@.len() > 0,
        r is Some ==> forall|i: int|
            0 <= i < s@.len() ==> '0' <= #[trigger] s@[i] && s@[i] <= '9' || i == 0 && s@[i] == '+',
        forall|n: u64| #[trigger] decimal(n as nat) == s@ && n <= max ==> r == Some(n),
        forall|n: u64|
            seq!['+'] + #[trigger] decimal(n as nat) == s@ && n <= max ==> r == Some(n),
        forall|n: u64| #[trigger] decimal(n as nat) == s@ && n > max ==> r is None,
{
    if r is Some {
        let digits = without_plus(s@);
        assert forall|i: int| 0 <= i < s@.len() implies '0' <= #[trigger] s@[i] && s@[i] <= '9' || i
            == 0 && s@[i] == '+' by {
            if s@[0] == '+' {
                if i > 0 {
                    assert(is_digit(digits[i - 1]));
                }
            } else {
                assert(is_digit(digits[i]));
            }
        }
    }
    assert forall|n: u64| #[trigger] decimal(n as nat) == s@ && n <= max implies r == Some(n) by {
        lemma_decimal(n as nat);
    }
    assert forall|n: u64| #[trigger] decimal(n as nat) == s@ && n > max implies r is None by {
        lemma_decimal(n as nat);
    }
    assert forall|n: u64| seq!['+'] + #[trigger] decimal(n as nat) == s@ && n <= max implies r
        == Some(n) by {
        lemma_decimal(n as nat);
        assert((seq!['+'] + decimal(n as nat)).drop_first() =~= decimal(n as nat));
    }
}

/// A signed number reads back from how it is written, and only a minus sign makes it negative.
pub proof fn law_signed_numbers_are_read_back(n: i64, s: String, text: &str, r: Option<i64>)
    requires
        call_ensures(signed_decimal_text, (n,), s),
        call_ensures(parse_signed, (text,), r),
        text@ == s@,
    ensures
        r == Some(n),
        s@.len() > 0,
        n < 0 <==> s@[0] == '-',
{
    law_signed_decimal_round_trip(n);
    if n < 0 {
        lemma_decimal((-n) as nat);
    } else {
        lemma_decimal(n as nat);
        assert(is_digit(decimal(n as nat)[0]));
    }
}

/// A search finds the first of the wanted characters, or the end if there is none.
pub proof fn law_search_finds_the_first(v: Vec<char>, from: usize, to: usize, c: char, found: usize)
    requires
        from <= to <= v@.len(),
        call_ensures(find_char, (&v, from, to, c), found),
    ensures
        from <= found <= to,
        found < to ==> v@[found as int] == c,
        forall|i: int| from <= i < found ==> #[trigger] v@[i] != c,
{
    lemma_position(v@.subrange(from as int, to as int), c);
    assert forall|i: int| from <= i < found implies #[trigger] v@[i] != c by {
        assert(v@.subrange(from as int, to as int)[i - from] == v@[i]);
    }
}

proof fn lemma_position(s: Seq<char>, c: char)
    ensures
        0 <= position_of(s, c) <= s.len(),
        forall|i: int| 0 <= i < position_of(s, c) ==> #[trigger] s[i] != c,
        position_of(s, c) < s.len() ==> s[position_of(s, c)] == c,
    decreases s.len(),
{
    if s.len() > 0 && s[0] != c {
        lemma_position(s.drop_first(), c);
        assert forall|i: int| 0 <= i < position_of(s, c) implies #[trigger] s[i] != c by {
            if i > 0 {
                assert(s.drop_first()[i - 1] == s[i]);
            }
        }
    }
}

/// A text is found in another exactly when the other is something before it, the text, and
/// something after it.
pub proof fn law_found_texts_stand_in_the_whole(s: &str, part: &str, found: bool)
    requires
        call_ensures(contains_text, (s, part), found),
    ensures
        forall|before: Seq<char>, after: Seq<char>|
            s@ == #[trigger] (before + part@ + after) ==> found,
        found ==> exists|before: Seq<char>, after: Seq<char>|
            s@ == #[trigger] (before + part@ + after),
{
    assert forall|before: Seq<char>, after: Seq<char>|
        s@ == #[trigger] (before + part@ + after) implies found by {
        lemma_holds_text(before, part@, after);
    }
    if found {
        let i = choose|i: int|
            0 <= i <= s@.len() - part@.len() && #[trigger] s@.subrange(i, i + part@.len()) == part@;
        let before = s@.subrange(0, i);
        let after = s@.subrange(i + part@.len(), s@.len() as int);
        assert(s@ =~= before + s@.subrange(i, i + part@.len()) + after);
        assert(s@ == before + part@ + after);
    }
}

pub proof fn lemma_holds_text(before: Seq<char>, part: Seq<char>, after: Seq<char>)
    ensures
        holds_text(before + part + after, part),
{
    let whole = before + part + after;
    let i = before.len() as int;
    assert(whole.subrange(i, i + part.len()) =~= part);
}

pub proof fn lemma_trimmed_ends(s: Seq<char>)
    ensures
        s.len() > 0 ==> (trimmed(s) == s <==> !is_white_space_spec(s[0]) && !is_white_space_spec(
            s.last(),
        )),
{
    let k = lemma_trim_start(s);
    let rest = trim_start(s);
    let n = lemma_trim_end(rest);
    if s.len() > 0 && !is_white_space_spec(s[0]) && !is_white_space_spec(s.last()) {
        assert(k == 0);
        assert(rest =~= s);
        assert(n == s.len());
        assert(trimmed(s) =~= s);
    }
    if s.len() > 0 && trimmed(s) == s {
        assert(n == s.len());
        assert(k == 0);
        assert(rest =~= s);
    }
}

pub proof fn lemma_holds_at_end(before: Seq<char>, a: Seq<char>, b: Seq<char>, c: Seq<char>)
    ensures
        holds_text(before + a + b + c, a + b + c),
{
    let whole = before + a + b + c;
    let part = a + b + c;
    let i = before.len() as int;
    assert(whole.subrange(i, i + part.len()) =~= part);
}

pub proof fn lemma_holds_longer(s: Seq<char>, part: Seq<char>, after: Seq<char>)
    requires
        holds_text(s, part),
    ensures
        holds_text(s + after, part),
{
    let i = choose|i: int|
        0 <= i <= s.len() - part.len() && #[trigger] s.subrange(i, i + part.len()) == part;
    assert((s + after).subrange(i, i + part.len()) =~= s.subrange(i, i + part.len()));
}

/// Texts one after the other.
pub open spec fn strung(parts: Seq<Seq<char>>) -> Seq<char>
    decreases parts.len(),
{
    if parts.len() == 0 {
        Seq::empty()
    } else {
        strung(parts.drop_last()) + parts.last()
    }
}

pub proof fn lemma_strung()
    ensures
        strung(Seq::empty()) == Seq::<char>::empty(),
        forall|parts: Seq<Seq<char>>, part: Seq<char>| #[trigger]
            strung(parts.push(part)) == strung(parts) + part,
        forall|part: Seq<char>| #[trigger] (Seq::<char>::empty() + part) == part,
{
    assert forall|parts: Seq<Seq<char>>, part: Seq<char>| #[trigger]
        strung(parts.push(part)) == strung(parts) + part by {
        assert(parts.push(part).drop_last() =~= parts);
    }
    assert forall|part: Seq<char>| #[trigger] (Seq::<char>::empty() + part) == part by {
        assert(Seq::<char>::empty() + part =~= part);
    }
}

/// Any three neighbours of texts one after the other stand in the whole.
pub proof fn lemma_neighbours(parts: Seq<Seq<char>>, i: int)
    requires
        0 <= i < parts.len() - 2,
    ensures
        holds_text(strung(parts), parts[i] + parts[i + 1] + parts[i + 2]),
    decreases parts.len(),
{
    let rest = parts.drop_last();
    assert(strung(parts) == strung(rest) + parts.last());
    if i < rest.len() - 2 {
        lemma_neighbours(rest, i);
        lemma_holds_longer(strung(rest), parts[i] + parts[i + 1] + parts[i + 2], parts.last());
    } else {
        let second = rest.drop_last();
        let third = second.drop_last();
        assert(strung(rest) == strung(second) + rest.last());
        assert(strung(second) == strung(third) + second.last());
        assert(rest.last() == parts[i + 1] && second.last() == parts[i]);
        lemma_holds_at_end(strung(third), parts[i], parts[i + 1], parts[i + 2]);
    }
}

/// A text ends in its last two parts.
pub proof fn lemma_holds_last(before: Seq<char>, a: Seq<char>, b: Seq<char>)
    ensures
        holds_text(before + a + b, a + b),
{
    let whole = before + a + b;
    let part = a + b;
    let i = before.len() as int;
    assert(whole.subrange(i, i + part.len()) =~= part);
}

/// The last two of texts one after the other stand in the whole.
pub proof fn lemma_end(parts: Seq<Seq<char>>)
    requires
        parts.len() >= 2,
    ensures
        holds_text(strung(parts), parts[parts.len() - 2] + parts.last()),
{
    let rest = parts.drop_last();
    let second = rest.drop_last();
    let a = parts[parts.len() - 2];
    assert(strung(parts) == strung(rest) + parts.last());
    assert(strung(rest) == strung(second) + rest.last());
    assert(rest.last() == a);
    lemma_holds_last(strung(second), a, parts.last());
}

} // verus!
