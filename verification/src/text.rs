//! Text helpers: comparison, concatenation and decimal numbers.

use vstd::prelude::*;

verus! {

/// `String::push` appends one character.
pub assume_specification[ String::push ](s: &mut String, c: char)
    ensures
        final(s)@ == old(s)@.push(c),
;

/// The characters of `s`, in order.
pub fn chars_of(s: &str) -> (r: Vec<char>)
    ensures
        r@ == s@,
{
    let mut out: Vec<char> = Vec::new();
    for c in it: s.chars()
        invariant
            it.seq() == s@,
            out@ == s@.take(it.index()),
    {
        out.push(c);
    }
    assert(s@.take(s@.len() as int) =~= s@);
    out
}

/// The string holding `chars`.
pub fn string_of(chars: &[char]) -> (r: String)
    ensures
        r@ == chars@,
{
    let mut out = String::new();
    let mut i: usize = 0;
    while i < chars.len()
        invariant
            i <= chars@.len(),
            out@ == chars@.take(i as int),
        decreases chars@.len() - i,
    {
        out.push(chars[i]);
        i += 1;
        assert(chars@.take(i as int) =~= chars@.take(i - 1).push(chars@[i - 1]));
    }
    assert(chars@.take(i as int) =~= chars@);
    out
}

/// Whether two strings hold the same characters.
pub fn same(a: &str, b: &str) -> (r: bool)
    ensures
        r == (a@ == b@),
{
    a.to_owned() == b.to_owned()
}

/// Whether `a` comes strictly before `b` in the order of their characters.
pub open spec fn precedes(a: Seq<char>, b: Seq<char>) -> bool
    decreases a.len(),
{
    if a.len() == 0 {
        b.len() > 0
    } else if b.len() == 0 {
        false
    } else if a[0] != b[0] {
        a[0] < b[0]
    } else {
        precedes(a.drop_first(), b.drop_first())
    }
}

/// No string comes before itself.
pub proof fn precedes_irreflexive(a: Seq<char>)
    ensures
        !precedes(a, a),
    decreases a.len(),
{
    if a.len() > 0 {
        precedes_irreflexive(a.drop_first());
    }
}

/// The order of strings is transitive.
pub proof fn precedes_transitive(a: Seq<char>, b: Seq<char>, c: Seq<char>)
    requires
        precedes(a, b),
        precedes(b, c),
    ensures
        precedes(a, c),
    decreases a.len(),
{
    if a.len() > 0 && b.len() > 0 && c.len() > 0 && a[0] == b[0] && b[0] == c[0] {
        precedes_transitive(a.drop_first(), b.drop_first(), c.drop_first());
    }
}

/// Two different strings are ordered one way or the other.
pub proof fn precedes_total(a: Seq<char>, b: Seq<char>)
    ensures
        a == b || precedes(a, b) || precedes(b, a),
    decreases a.len(),
{
    if a.len() == 0 || b.len() == 0 {
        if a.len() == 0 && b.len() == 0 {
            assert(a =~= b);
        }
    } else if a[0] == b[0] {
        precedes_total(a.drop_first(), b.drop_first());
        if a.drop_first() == b.drop_first() {
            assert(a =~= seq![a[0]] + a.drop_first());
            assert(b =~= seq![b[0]] + b.drop_first());
        }
    }
}

/// Whether `a` comes strictly before `b`.
pub fn comes_before(a: &str, b: &str) -> (r: bool)
    ensures
        r == precedes(a@, b@),
{
    let x = chars_of(a);
    let y = chars_of(b);
    let mut i: usize = 0;
    assert(a@.skip(0) =~= a@);
    assert(b@.skip(0) =~= b@);
    while i < x.len() && i < y.len() && x[i] == y[i]
        invariant
            x@ == a@,
            y@ == b@,
            i <= x@.len(),
            i <= y@.len(),
            precedes(a@, b@) == precedes(a@.skip(i as int), b@.skip(i as int)),
        decreases x@.len() - i,
    {
        assert(a@.skip(i as int).drop_first() =~= a@.skip(i + 1));
        assert(b@.skip(i as int).drop_first() =~= b@.skip(i + 1));
        i += 1;
    }
    if i >= x.len() {
        i < y.len()
    } else if i >= y.len() {
        false
    } else {
        x[i] < y[i]
    }
}

/// The decimal digit for a number below ten.
pub open spec fn digit(n: int) -> char {
    (('0' as int) + n) as char
}

/// A number in decimal, without leading zeroes.
pub open spec fn decimal(n: nat) -> Seq<char>
    decreases n,
{
    if n < 10 {
        seq![digit(n as int)]
    } else {
        decimal(n / 10).push(digit((n % 10) as int))
    }
}

/// `n` in decimal.
pub fn decimal_wide(n: u128) -> (r: String)
    ensures
        r@ == decimal(n as nat),
    decreases n,
{
    let mut out = if n < 10 {
        String::new()
    } else {
        decimal_wide(n / 10)
    };
    let d = (48u8 + (n % 10) as u8) as char;
    out.push(d);
    assert(out@ =~= decimal(n as nat));
    out
}

/// `n` in decimal.
pub fn decimal_of(n: u64) -> (r: String)
    ensures
        r@ == decimal(n as nat),
{
    decimal_wide(n as u128)
}

/// The hexadecimal digit for a number below sixteen.
pub open spec fn hex_digit(n: int) -> char {
    if n < 10 {
        digit(n)
    } else {
        (('a' as int) + n - 10) as char
    }
}

/// A byte in hexadecimal, as `0x` and two digits.
pub open spec fn hex_byte(b: u8) -> Seq<char> {
    seq!['0', 'x', hex_digit(b as int / 16), hex_digit(b as int % 16)]
}

fn hex_char(n: u8) -> (c: char)
    requires
        n < 16,
    ensures
        c == hex_digit(n as int),
{
    if n < 10 {
        (48u8 + n) as char
    } else {
        (87u8 + n) as char
    }
}

/// A byte in hexadecimal, as `0x` and two digits.
pub fn hex_of(b: u8) -> (r: String)
    ensures
        r@ == hex_byte(b),
{
    let mut out = String::new();
    out.push('0');
    out.push('x');
    out.push(hex_char(b / 16));
    out.push(hex_char(b % 16));
    assert(out@ =~= hex_byte(b));
    out
}

/// `text` followed by `n` copies of `c`.
pub fn push_copies(text: &mut String, c: char, n: usize)
    ensures
        final(text)@ == old(text)@ + Seq::new(n as nat, |i: int| c),
{
    let ghost start = text@;
    let mut i: usize = 0;
    while i < n
        invariant
            i <= n,
            text@ == start + Seq::new(i as nat, |k: int| c),
        decreases n - i,
    {
        text.push(c);
        i += 1;
        assert(text@ =~= start + Seq::new(i as nat, |k: int| c));
    }
}

/// `n` blanks.
pub open spec fn blanks(n: nat) -> Seq<char> {
    Seq::new(n, |i: int| ' ')
}

/// A text with blanks after it, at least `n` characters in all.
pub open spec fn padded_right(text: Seq<char>, n: nat) -> Seq<char> {
    if text.len() < n {
        text + blanks((n - text.len()) as nat)
    } else {
        text
    }
}

/// A text with blanks before it, at least `n` characters in all.
pub open spec fn padded_left(text: Seq<char>, n: nat) -> Seq<char> {
    if text.len() < n {
        blanks((n - text.len()) as nat) + text
    } else {
        text
    }
}

/// `n` blanks.
pub fn blank(n: usize) -> (r: String)
    ensures
        r@ == blanks(n as nat),
{
    let mut out = String::new();
    push_copies(&mut out, ' ', n);
    assert(out@ =~= blanks(n as nat));
    out
}

/// `text` with blanks after it, at least `n` characters in all.
pub fn pad_right(text: &str, n: usize) -> (r: String)
    ensures
        r@ == padded_right(text@, n as nat),
{
    let len: usize = text.unicode_len();
    if len < n {
        text.to_owned().concat(blank(n - len).as_str())
    } else {
        text.to_owned()
    }
}

/// `text` with blanks before it, at least `n` characters in all.
pub fn pad_left(text: &str, n: usize) -> (r: String)
    ensures
        r@ == padded_left(text@, n as nat),
{
    let len: usize = text.unicode_len();
    if len < n {
        blank(n - len).concat(text)
    } else {
        text.to_owned()
    }
}

/// Whether `part` stands in `whole` at position `at`.
pub open spec fn occurs_at(whole: Seq<char>, part: Seq<char>, at: int) -> bool {
    &&& 0 <= at
    &&& at + part.len() <= whole.len()
    &&& whole.subrange(at, at + part.len()) == part
}

/// Whether `part` stands anywhere in `whole`.
pub open spec fn occurs(whole: Seq<char>, part: Seq<char>) -> bool {
    exists|at: int| #[trigger] occurs_at(whole, part, at)
}

/// Whether `part` stands in `whole` at position `at`.
fn stands_at(whole: &Vec<char>, part: &Vec<char>, at: usize) -> (r: bool)
    ensures
        r == occurs_at(whole@, part@, at as int),
{
    if part.len() > whole.len() || at > whole.len() - part.len() {
        return false;
    }
    let mut i: usize = 0;
    while i < part.len()
        invariant
            i <= part@.len(),
            at + part@.len() <= whole.len(),
            forall|k: int| 0 <= k < i ==> whole@[at + k] == part@[k],
        decreases part@.len() - i,
    {
        if whole[at + i] != part[i] {
            assert(whole@.subrange(at as int, at + part@.len())[i as int] != part@[i as int]);
            return false;
        }
        i += 1;
    }
    assert(whole@.subrange(at as int, at + part@.len()) =~= part@);
    true
}

/// Whether `s` begins with `prefix`.
pub fn starts_with(s: &str, prefix: &str) -> (r: bool)
    ensures
        r == occurs_at(s@, prefix@, 0),
{
    stands_at(&chars_of(s), &chars_of(prefix), 0)
}

/// Whether `s` ends with `suffix`.
pub fn ends_with(s: &str, suffix: &str) -> (r: bool)
    ensures
        r == occurs_at(s@, suffix@, s@.len() - suffix@.len()),
{
    let whole = chars_of(s);
    let part = chars_of(suffix);
    part.len() <= whole.len() && stands_at(&whole, &part, whole.len() - part.len())
}

/// Whether `part` stands anywhere in `s`.
pub fn contains(s: &str, part: &str) -> (r: bool)
    ensures
        r == occurs(s@, part@),
{
    let whole = chars_of(s);
    let piece = chars_of(part);
    let mut at: usize = 0;
    while at < whole.len()
        invariant
            whole@ == s@,
            piece@ == part@,
            at <= whole@.len(),
            forall|k: int| 0 <= k < at ==> !#[trigger] occurs_at(s@, part@, k),
        decreases whole@.len() - at,
    {
        if stands_at(&whole, &piece, at) {
            assert(occurs_at(s@, part@, at as int));
            return true;
        }
        at += 1;
    }
    stands_at(&whole, &piece, at)
}

/// The lower-case form of an ASCII letter; any other character is itself.
pub open spec fn lower(c: char) -> char {
    if 'A' <= c && c <= 'Z' {
        (c as int + 32) as char
    } else {
        c
    }
}

/// The lower-case form of an ASCII letter; any other character is itself.
pub fn to_lower(c: char) -> (r: char)
    ensures
        r == lower(c),
{
    if 'A' <= c && c <= 'Z' {
        (c as u8 + 32) as char
    } else {
        c
    }
}

/// Whether two texts are the same but for the case of ASCII letters.
pub open spec fn same_ignoring_case(a: Seq<char>, b: Seq<char>) -> bool {
    &&& a.len() == b.len()
    &&& forall|i: int| 0 <= i < a.len() ==> lower(#[trigger] a[i]) == lower(b[i])
}

/// Whether two texts are the same but for the case of ASCII letters.
pub fn eq_ignoring_case(a: &str, b: &str) -> (r: bool)
    ensures
        r == same_ignoring_case(a@, b@),
{
    let x = chars_of(a);
    let y = chars_of(b);
    if x.len() != y.len() {
        return false;
    }
    let mut i: usize = 0;
    while i < x.len()
        invariant
            i <= x@.len(),
            x@ == a@,
            y@ == b@,
            x@.len() == y@.len(),
            forall|k: int| 0 <= k < i ==> lower(#[trigger] a@[k]) == lower(b@[k]),
        decreases x@.len() - i,
    {
        if to_lower(x[i]) != to_lower(y[i]) {
            assert(lower(a@[i as int]) != lower(b@[i as int]));
            return false;
        }
        i += 1;
    }
    true
}

/// Whether a character is a decimal digit.
pub open spec fn is_digit(c: char) -> bool {
    '0' <= c && c <= '9'
}

/// The number a row of decimal digits spells.
pub open spec fn number(s: Seq<char>) -> int
    decreases s.len(),
{
    if s.len() == 0 {
        0
    } else {
        number(s.drop_last()) * 10 + (s.last() as int - '0' as int)
    }
}

/// The digits of an unsigned number: what follows a leading plus sign, if there
/// is one.
pub open spec fn unsigned_digits(s: Seq<char>) -> Seq<char> {
    if s.len() > 1 && s[0] == '+' {
        s.drop_first()
    } else {
        s
    }
}

/// The unsigned number a text spells: one or more digits, perhaps after a plus
/// sign, of a value below two to the 64th.
pub open spec fn unsigned(s: Seq<char>) -> Option<int> {
    let digits = unsigned_digits(s);
    if digits.len() > 0 && (forall|i: int| 0 <= i < digits.len() ==> is_digit(#[trigger] digits[i]))
        && number(digits) <= u64::MAX {
        Some(number(digits))
    } else {
        None
    }
}

proof fn number_grows(s: Seq<char>, n: int)
    requires
        0 <= n <= s.len(),
        forall|i: int| 0 <= i < s.len() ==> is_digit(#[trigger] s[i]),
    ensures
        0 <= number(s.take(n)) <= number(s),
    decreases s.len(),
{
    if n < s.len() {
        assert(s.drop_last().take(n) =~= s.take(n));
        number_grows(s.drop_last(), n);
    } else {
        assert(s.take(n) =~= s);
        if s.len() > 0 {
            number_grows(s.drop_last(), n - 1);
        }
    }
}

/// The unsigned number a text spells, if it spells one.
pub fn parse_unsigned(s: &str) -> (r: Option<u64>)
    ensures
        r is Some <==> unsigned(s@) is Some,
        r is Some ==> r->0 == unsigned(s@)->0,
{
    let chars = chars_of(s);
    let first: usize = if chars.len() > 1 && chars[0] == '+' {
        1
    } else {
        0
    };
    let ghost digits = unsigned_digits(s@);
    assert(digits =~= chars@.skip(first as int));
    if first >= chars.len() {
        return None;
    }
    let mut value: u64 = 0;
    let mut i: usize = first;
    assert(digits.take(0) =~= Seq::empty());
    while i < chars.len()
        invariant
            chars@ == s@,
            first <= i <= chars@.len(),
            first < chars@.len(),
            digits == unsigned_digits(s@),
            digits == chars@.skip(first as int),
            forall|k: int| 0 <= k < i - first ==> is_digit(#[trigger] digits[k]),
            value == number(digits.take(i - first)),
        decreases chars@.len() - i,
    {
        let c = chars[i];
        assert(digits[i - first] == c);
        if c < '0' || c > '9' {
            return None;
        }
        let d: u64 = (c as u8 - 48) as u64;
        proof {
            let n = i - first;
            assert(digits.take(n + 1).drop_last() =~= digits.take(n));
            assert(digits.take(n + 1).last() == c);
            if value as int * 10 + d > u64::MAX && unsigned(s@) is Some {
                number_grows(digits, n + 1);
            }
        }
        if value > (u64::MAX - d) / 10 {
            return None;
        }
        value = value * 10 + d;
        i += 1;
    }
    assert(digits.take(i - first) =~= digits);
    Some(value)
}

/// One text comes before another exactly when the first place at which they
/// differ holds the smaller character, or the end, in it.
pub proof fn the_first_difference_decides(a: Seq<char>, b: Seq<char>)
    ensures
        precedes(a, b) <==> exists|k: int|
            {
                &&& 0 <= k <= a.len()
                &&& k < b.len()
                &&& #[trigger] a.take(k) == b.take(k)
                &&& k == a.len() || a[k] < b[k]
            },
    decreases a.len(),
{
    if a.len() == 0 || b.len() == 0 {
        if a.len() == 0 && b.len() > 0 {
            assert(a.take(0) =~= b.take(0));
        }
    } else if a[0] != b[0] {
        assert(a.take(0) =~= b.take(0));
        assert forall|k: int| 0 <= k <= a.len() && k < b.len() && #[trigger] a.take(k) == b.take(
            k,
        ) implies k == 0 by {
            if k > 0 {
                assert(a.take(k)[0] == b.take(k)[0]);
            }
        }
    } else {
        let (x, y) = (a.drop_first(), b.drop_first());
        the_first_difference_decides(x, y);
        if precedes(x, y) {
            let k = choose|k: int|
                {
                    &&& 0 <= k <= x.len()
                    &&& k < y.len()
                    &&& #[trigger] x.take(k) == y.take(k)
                    &&& k == x.len() || x[k] < y[k]
                };
            assert(a.take(k + 1) =~= seq![a[0]] + x.take(k));
            assert(b.take(k + 1) =~= seq![b[0]] + y.take(k));
        }
        if exists|k: int|
            {
                &&& 0 <= k <= a.len()
                &&& k < b.len()
                &&& #[trigger] a.take(k) == b.take(k)
                &&& k == a.len() || a[k] < b[k]
            } {
            let k = choose|k: int|
                {
                    &&& 0 <= k <= a.len()
                    &&& k < b.len()
                    &&& #[trigger] a.take(k) == b.take(k)
                    &&& k == a.len() || a[k] < b[k]
                };
            assert(k > 0);
            assert(a.take(k).drop_first() =~= x.take(k - 1));
            assert(b.take(k).drop_first() =~= y.take(k - 1));
            assert(x.take(k - 1) == y.take(k - 1));
        }
    }
}

/// A number in decimal spells that number, in digits alone and without leading
/// zeroes.
pub proof fn a_decimal_spells_its_number(n: nat)
    ensures
        number(decimal(n)) == n,
        decimal(n).len() > 0,
        forall|i: int| 0 <= i < decimal(n).len() ==> '0' <= #[trigger] decimal(n)[i] <= '9',
        n > 0 ==> decimal(n)[0] != '0',
    decreases n,
{
    if n < 10 {
        assert(decimal(n).drop_last() =~= Seq::empty());
        assert(number(Seq::<char>::empty()) == 0);
    } else {
        a_decimal_spells_its_number(n / 10);
        let rest = decimal(n / 10);
        assert(decimal(n).drop_last() =~= rest);
        assert(decimal(n)[0] == rest[0]);
        assert forall|i: int| 0 <= i < decimal(n).len() implies '0' <= #[trigger] decimal(n)[i]
            <= '9' by {
            if i < rest.len() {
                assert(decimal(n)[i] == rest[i]);
            }
        }
    }
}

/// A digit after a number makes it ten times as great, and the digit more.
pub proof fn digits_count_in_tens(s: Seq<char>, c: char)
    ensures
        number(Seq::empty()) == 0,
        number(s.push(c)) == 10 * number(s) + (c as int - 48),
{
    assert(s.push(c).drop_last() =~= s);
}

/// A text is a number exactly when it is digits alone, at least one, perhaps
/// after a plus sign, and their number is below two to the 64th.
pub proof fn a_number_is_its_digits(s: Seq<char>)
    ensures
        s.len() == 0 ==> unsigned(s) is None,
        s.len() > 0 && (forall|i: int| 0 <= i < s.len() ==> '0' <= #[trigger] s[i] <= '9')
            && number(s) <= 0xffff_ffff_ffff_ffff ==> unsigned(s) == Some(number(s)) && unsigned(
            seq!['+'] + s,
        ) == Some(number(s)),
        unsigned(s) is Some ==> 0 <= unsigned(s)->0 <= 0xffff_ffff_ffff_ffff && forall|i: int|
            0 <= i < s.len() ==> '0' <= #[trigger] s[i] <= '9' || i == 0 && s[i] == '+' && s.len()
                > 1,
{
    if s.len() > 0 && (forall|i: int| 0 <= i < s.len() ==> '0' <= #[trigger] s[i] <= '9')
        && number(s) <= 0xffff_ffff_ffff_ffff {
        assert((seq!['+'] + s).drop_first() =~= s);
        assert(forall|i: int| 0 <= i < s.len() ==> is_digit(#[trigger] s[i]));
        assert(s[0] != '+');
        assert(unsigned_digits(s) == s);
        assert(unsigned_digits(seq!['+'] + s) == s);
    }
    if unsigned(s) is Some {
        let digits = unsigned_digits(s);
        number_grows(digits, 0);
        assert forall|i: int| 0 <= i < s.len() implies '0' <= #[trigger] s[i] <= '9' || i == 0
            && s[i] == '+' && s.len() > 1 by {
            if s.len() > 1 && s[0] == '+' {
                if i > 0 {
                    assert(is_digit(digits[i - 1]));
                }
            } else {
                assert(is_digit(digits[i]));
            }
        }
    }
}

/// A byte in hexadecimal is `0x` and its two digits, the higher first.
pub proof fn a_byte_is_two_digits(b: u8)
    ensures
        hex_byte(b).len() == 4,
        hex_byte(b)[0] == '0',
        hex_byte(b)[1] == 'x',
        b as int == 16 * (if hex_byte(b)[2] <= '9' {
            hex_byte(b)[2] as int - 48
        } else {
            hex_byte(b)[2] as int - 87
        }) + (if hex_byte(b)[3] <= '9' {
            hex_byte(b)[3] as int - 48
        } else {
            hex_byte(b)[3] as int - 87
        }),
        forall|i: int|
            2 <= i < 4 ==> '0' <= #[trigger] hex_byte(b)[i] <= '9' || 'a' <= hex_byte(b)[i] <= 'f',
{
}

/// Padding leaves a text whole and only adds blanks, and only as many as bring
/// it to the width asked for: behind it or before it.
pub proof fn padding_only_adds_blanks(text: Seq<char>, n: nat)
    ensures
        text.len() >= n ==> padded_right(text, n) == text && padded_left(text, n) == text,
        text.len() < n ==> {
            let (right, left) = (padded_right(text, n), padded_left(text, n));
            let gap = n - text.len();
            &&& right.len() == n && left.len() == n
            &&& right.take(text.len() as int) == text && left.skip(gap) == text
            &&& forall|i: int| text.len() <= i < n ==> #[trigger] right[i] == ' '
            &&& forall|i: int| 0 <= i < gap ==> #[trigger] left[i] == ' '
        },
{
    if text.len() < n {
        assert(padded_right(text, n).take(text.len() as int) =~= text);
        assert(padded_left(text, n).skip(n - text.len()) =~= text);
    }
}

/// A text stands in another exactly where all its characters stand in a row.
pub proof fn a_text_stands_where_its_characters_stand(whole: Seq<char>, part: Seq<char>, at: int)
    ensures
        occurs_at(whole, part, at) <==> 0 <= at && at + part.len() <= whole.len() && (forall|i: int|
            0 <= i < part.len() ==> #[trigger] part[i] == whole[at + i]),
        occurs(whole, part) <==> exists|k: int| #[trigger] occurs_at(whole, part, k),
{
    if 0 <= at && at + part.len() <= whole.len() {
        let s = whole.subrange(at, at + part.len());
        if s == part {
            assert forall|i: int| 0 <= i < part.len() implies #[trigger] part[i] == whole[at
                + i] by {
                assert(s[i] == part[i]);
            }
        }
        if forall|i: int| 0 <= i < part.len() ==> #[trigger] part[i] == whole[at + i] {
            assert(s =~= part);
        }
    }
}

/// Only the case of the letters `a` to `z` is ignored.
pub proof fn only_the_case_of_letters_is_ignored(a: Seq<char>, b: Seq<char>)
    ensures
        same_ignoring_case(a, b) <==> a.len() == b.len() && forall|i: int|
            0 <= i < a.len() ==> {
                let (x, y) = (#[trigger] a[i], b[i]);
                ||| x == y
                ||| 'A' <= x <= 'Z' && y as int == x as int + 32
                ||| 'A' <= y <= 'Z' && x as int == y as int + 32
            },
{
    if same_ignoring_case(a, b) {
        assert forall|i: int| 0 <= i < a.len() implies {
            let (x, y) = (#[trigger] a[i], b[i]);
            ||| x == y
            ||| 'A' <= x <= 'Z' && y as int == x as int + 32
            ||| 'A' <= y <= 'Z' && x as int == y as int + 32
        } by {
            assert(lower(a[i]) == lower(b[i]));
        }
    }
}

} // verus!
