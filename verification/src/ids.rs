//! Identifiers: accounts, windows and polls.

use vstd::prelude::*;

verus! {

/// Provider identifier, e.g. `"openai"`. Small open set, no enum.
pub type ProviderId = String;

/// Stable, provider-derived account identifier (stable across daemon restarts).
#[derive(Debug, PartialEq, Eq, Hash, PartialOrd, Ord)]
pub struct AccountId(pub String);

/// Provider-defined quota window identifier, e.g. `"session_5h_opus"`.
#[derive(Debug, PartialEq, Eq, Hash, PartialOrd, Ord)]
pub struct WindowId(pub String);

impl View for AccountId {
    type V = Seq<char>;

    open spec fn view(&self) -> Seq<char> {
        self.0@
    }
}

impl View for WindowId {
    type V = Seq<char>;

    open spec fn view(&self) -> Seq<char> {
        self.0@
    }
}

impl Clone for AccountId {
    fn clone(&self) -> (r: Self)
        ensures
            r == *self,
    {
        AccountId(self.0.clone())
    }
}

impl Clone for WindowId {
    fn clone(&self) -> (r: Self)
        ensures
            r == *self,
    {
        WindowId(self.0.clone())
    }
}

impl AccountId {
    /// The account with this identifier.
    pub fn new(s: &str) -> (r: AccountId)
        ensures
            r@ == s@,
    {
        AccountId(s.to_owned())
    }

    /// The identifier's text.
    pub fn as_str(&self) -> (r: &str)
        ensures
            r@ == self@,
    {
        self.0.as_str()
    }

    /// Whether the two name the same account.
    pub fn same(&self, other: &AccountId) -> (r: bool)
        ensures
            r == (self@ == other@),
    {
        self.0 == other.0
    }
}

impl WindowId {
    /// The window with this identifier.
    pub fn new(s: &str) -> (r: WindowId)
        ensures
            r@ == s@,
    {
        WindowId(s.to_owned())
    }

    /// The identifier's text.
    pub fn as_str(&self) -> (r: &str)
        ensures
            r@ == self@,
    {
        self.0.as_str()
    }

    /// Whether the two name the same window.
    pub fn same(&self, other: &WindowId) -> (r: bool)
        ensures
            r == (self@ == other@),
    {
        self.0 == other.0
    }
}

impl vstd::std_specs::convert::FromSpecImpl<&str> for AccountId {
    open spec fn obeys_from_spec() -> bool {
        false
    }

    open spec fn from_spec(s: &str) -> AccountId {
        arbitrary()
    }
}

impl From<&str> for AccountId {
    fn from(s: &str) -> (r: Self)
        ensures
            r@ == s@,
    {
        AccountId(s.to_owned())
    }
}

impl vstd::std_specs::convert::FromSpecImpl<&str> for WindowId {
    open spec fn obeys_from_spec() -> bool {
        false
    }

    open spec fn from_spec(s: &str) -> WindowId {
        arbitrary()
    }
}

impl From<&str> for WindowId {
    fn from(s: &str) -> (r: Self)
        ensures
            r@ == s@,
    {
        WindowId(s.to_owned())
    }
}

/// Core-generated, sortable poll identifier: the 128 bits of a ULID.
#[derive(Debug, Clone, Copy, PartialEq, Eq, Hash, PartialOrd, Ord, Structural)]
pub struct PollId(pub u128);

/// Number of values of a poll identifier.
pub open spec fn poll_ids() -> int {
    u128::MAX + 1
}

/// The Crockford base-32 digit for a value below 32.
pub open spec fn base32_digit(d: int) -> char {
    if d < 10 {
        ('0' as int + d) as char
    } else if d < 18 {
        ('A' as int + d - 10) as char
    } else if d < 20 {
        ('J' as int + d - 18) as char
    } else if d < 22 {
        ('M' as int + d - 20) as char
    } else if d < 27 {
        ('P' as int + d - 22) as char
    } else {
        ('V' as int + d - 27) as char
    }
}

/// The value of a Crockford base-32 digit of either case, or `-1` for any
/// other character.
pub open spec fn base32_value(c: char) -> int {
    let u = if 'a' <= c && c <= 'z' {
        c as int - 32
    } else {
        c as int
    };
    if '0' <= c && c <= '9' {
        u - '0' as int
    } else if 'A' as int <= u <= 'H' as int {
        u - 'A' as int + 10
    } else if 'J' as int <= u <= 'K' as int {
        u - 'J' as int + 18
    } else if 'M' as int <= u <= 'N' as int {
        u - 'M' as int + 20
    } else if 'P' as int <= u <= 'T' as int {
        u - 'P' as int + 22
    } else if 'V' as int <= u <= 'Z' as int {
        u - 'V' as int + 27
    } else {
        -1
    }
}

/// The last `k` base-32 digits of `n`.
pub open spec fn base32_text(n: int, k: nat) -> Seq<char>
    decreases k,
{
    if k == 0 {
        Seq::empty()
    } else {
        base32_text(n / 32, (k - 1) as nat).push(base32_digit(n % 32))
    }
}

/// The number a row of base-32 digits spells.
pub open spec fn base32_number(s: Seq<char>) -> int
    decreases s.len(),
{
    if s.len() == 0 {
        0
    } else {
        base32_number(s.drop_last()) * 32 + base32_value(s.last())
    }
}

/// The text of a poll identifier: 26 base-32 digits.
pub open spec fn poll_id_text(id: u128) -> Seq<char> {
    base32_text(id as int, 26)
}

/// The poll identifier some text spells, if it spells one: 26 base-32 digits,
/// of which the highest bits past the 128th are dropped.
pub open spec fn poll_id_parsed(s: Seq<char>) -> Option<int> {
    if s.len() == 26 && forall|i: int| 0 <= i < 26 ==> base32_value(#[trigger] s[i]) >= 0 {
        Some(base32_number(s) % poll_ids())
    } else {
        None
    }
}

/// What is wrong with a text that spells no poll identifier.
pub open spec fn poll_id_fault(s: Seq<char>) -> Seq<char> {
    if vstd::utf8::encode_utf8(s).len() != 26 {
        "invalid length"@
    } else {
        "invalid character"@
    }
}

/// A fresh identifier from `ulid::Ulid::new`: the current time in its high
/// bits, random bits below. Nothing is claimed of it.
#[verifier::external_body]
fn fresh_ulid() -> (r: u128) {
    ulid::Ulid::new().0
}

/// `ulid::Ulid::to_string` writes the number in 26 Crockford base-32 digits,
/// most significant first.
#[verifier::external_body]
fn ulid_to_string(id: u128) -> (r: String)
    ensures
        r@ == poll_id_text(id),
{
    ulid::Ulid(id).to_string()
}

/// `ulid::Ulid::from_string` reads exactly 26 Crockford base-32 digits of
/// either case, shifting each into a 128-bit number; any other text is an
/// error, which says whether its length in bytes is to blame or a character.
#[verifier::external_body]
fn ulid_from_string(s: &str) -> (r: Result<u128, String>)
    ensures
        r is Ok <==> poll_id_parsed(s@) is Some,
        r matches Ok(id) ==> id == poll_id_parsed(s@)->0,
        r matches Err(e) ==> e@ == poll_id_fault(s@),
{
    ulid::Ulid::from_string(s).map(|id| id.0).map_err(|e| e.to_string())
}

impl PollId {
    /// Generate a fresh, time-ordered id.
    pub fn generate() -> (r: Self) {
        PollId(fresh_ulid())
    }

    /// The zero id — sorts before every generated id. Useful as an
    /// `AwaitUpdate { since }` starting point.
    pub fn zero() -> (r: Self)
        ensures
            r.0 == 0,
    {
        PollId(0)
    }

    /// The id's text.
    pub fn text(self) -> (r: String)
        ensures
            r@ == poll_id_text(self.0),
    {
        ulid_to_string(self.0)
    }

    /// The id that `s` spells, or what is wrong with it.
    pub fn parse(s: &str) -> (r: Result<PollId, String>)
        ensures
            r is Ok <==> poll_id_parsed(s@) is Some,
            r matches Ok(id) ==> id.0 == poll_id_parsed(s@)->0,
            r matches Err(e) ==> e@ == poll_id_fault(s@),
    {
        match ulid_from_string(s) {
            Ok(id) => Ok(PollId(id)),
            Err(e) => Err(e),
        }
    }
}

spec fn power32(k: nat) -> int
    decreases k,
{
    if k == 0 {
        1
    } else {
        32 * power32((k - 1) as nat)
    }
}

proof fn base32_round_trip(n: int, k: nat)
    requires
        0 <= n < power32(k),
    ensures
        base32_text(n, k).len() == k,
        base32_number(base32_text(n, k)) == n,
        forall|i: int| 0 <= i < k ==> base32_value(#[trigger] base32_text(n, k)[i]) >= 0,
    decreases k,
{
    if k > 0 {
        let p = power32((k - 1) as nat);
        base32_round_trip(n / 32, (k - 1) as nat);
        let rest = base32_text(n / 32, (k - 1) as nat);
        assert(base32_text(n, k).drop_last() =~= rest);
        assert(base32_value(base32_digit(n % 32)) == n % 32);
        assert forall|i: int| 0 <= i < k implies base32_value(
            #[trigger] base32_text(n, k)[i],
        ) >= 0 by {
            if i < k - 1 {
                assert(base32_text(n, k)[i] == rest[i]);
            }
        }
    }
}

/// Every poll identifier reads back from its own text.
pub proof fn poll_id_round_trips(id: u128)
    ensures
        poll_id_parsed(poll_id_text(id)) == Some(id as int),
{
    reveal_with_fuel(power32, 27);
    base32_round_trip(id as int, 26);
    vstd::arithmetic::div_mod::lemma_small_mod(id as nat, poll_ids() as nat);
}

/// The digits of a poll identifier, by value.
pub proof fn the_digits_of_an_identifier(d: int, c: char)
    requires
        0 <= d < 32,
    ensures
        base32_digit(d) == "0123456789ABCDEFGHJKMNPQRSTVWXYZ"@[d],
        base32_value(c) == d <==> c == base32_digit(d) || d >= 10 && c as int == base32_digit(
            d,
        ) as int + 32,
        base32_value(c) < 0 || 0 <= base32_value(c) < 32,
{
    reveal_strlit("0123456789ABCDEFGHJKMNPQRSTVWXYZ");
}

/// A poll identifier is a number in digits of thirty-two, the highest first, and
/// its text is twenty-six of them.
pub proof fn identifiers_count_in_thirty_twos(s: Seq<char>, c: char, id: u128)
    ensures
        base32_number(Seq::empty()) == 0,
        base32_number(s.push(c)) == 32 * base32_number(s) + base32_value(c),
        poll_id_text(id).len() == 26,
        base32_number(poll_id_text(id)) == id,
        forall|i: int|
            0 <= i < 26 ==> 0 <= base32_value(#[trigger] poll_id_text(id)[i]) && !('a'
                <= poll_id_text(id)[i] <= 'z'),
{
    assert(s.push(c).drop_last() =~= s);
    reveal_with_fuel(power32, 27);
    base32_round_trip(id as int, 26);
    base32_is_upper(id as int, 26);
}

proof fn base32_is_upper(n: int, k: nat)
    requires
        n >= 0,
    ensures
        base32_text(n, k).len() == k,
        forall|i: int| 0 <= i < k ==> !('a' <= #[trigger] base32_text(n, k)[i] <= 'z'),
    decreases k,
{
    if k > 0 {
        let rest = base32_text(n / 32, (k - 1) as nat);
        base32_is_upper(n / 32, (k - 1) as nat);
        assert forall|i: int| 0 <= i < k implies !('a' <= #[trigger] base32_text(n, k)[i]
            <= 'z') by {
            if i < k - 1 {
                assert(base32_text(n, k)[i] == rest[i]);
            }
        }
    }
}

/// A text is a poll identifier exactly when it is twenty-six digits; and what is
/// wrong with another is its length in bytes, or else a character.
pub proof fn an_identifier_is_twenty_six_digits(s: Seq<char>)
    ensures
        poll_id_parsed(s) is Some <==> s.len() == 26 && forall|i: int|
            0 <= i < 26 ==> base32_value(#[trigger] s[i]) >= 0,
        poll_id_parsed(s) is Some ==> 0 <= poll_id_parsed(s)->0
            < 0x1_0000_0000_0000_0000_0000_0000_0000_0000int,
        poll_id_parsed(s) is Some && base32_number(s)
            < 0x1_0000_0000_0000_0000_0000_0000_0000_0000int && base32_number(s) >= 0
            ==> poll_id_parsed(s) == Some(base32_number(s)),
        vstd::utf8::encode_utf8(s).len() == 26 ==> poll_id_fault(s) == "invalid character"@,
        vstd::utf8::encode_utf8(s).len() != 26 ==> poll_id_fault(s) == "invalid length"@,
{
    assert(poll_ids() == 0x1_0000_0000_0000_0000_0000_0000_0000_0000int);
    if 0 <= base32_number(s) < poll_ids() {
        vstd::arithmetic::div_mod::lemma_small_mod(base32_number(s) as nat, poll_ids() as nat);
    }
    vstd::arithmetic::div_mod::lemma_mod_bound(base32_number(s), poll_ids());
}

} // verus!
