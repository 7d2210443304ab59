use vstd::prelude::*;
use vstd::arithmetic::power::pow;
use crate::signal::{FormError, FormFieldSignal, commit_validates, view_opt};

verus! {

/// Digit `k` (from the most significant) of `v` written in base `base`
/// with `width` digits.
pub open spec fn digit_at(v: u128, base: int, width: int, k: int) -> int {
    (v as int / pow(base, (width - 1 - k) as nat)) % base
}

/// The lowercase hex digit of value `d`.
pub open spec fn lower_hex_digit(d: int) -> char {
    seq!['0', '1', '2', '3', '4', '5', '6', '7', '8', '9', 'a', 'b', 'c', 'd', 'e', 'f'][d]
}

/// Crockford's base-32 alphabet, as written by ulid.
pub open spec fn crockford_digit(d: int) -> char {
    seq![
        '0', '1', '2', '3', '4', '5', '6', '7', '8', '9', 'A', 'B', 'C', 'D', 'E', 'F',
        'G', 'H', 'J', 'K', 'M', 'N', 'P', 'Q', 'R', 'S', 'T', 'V', 'W', 'X', 'Y', 'Z',
    ][d]
}

/// The position among the 32 hex digits of character `p` of the hyphenated form.
pub open spec fn hyphenated_digit_index(p: int) -> int {
    if p < 8 {
        p
    } else if p < 13 {
        p - 1
    } else if p < 18 {
        p - 2
    } else if p < 23 {
        p - 3
    } else {
        p - 4
    }
}

/// The canonical text of a uuid: lowercase hex in groups of 8-4-4-4-12.
pub open spec fn uuid_text(bits: u128) -> Seq<char> {
    Seq::new(
        36,
        |p: int|
            if p == 8 || p == 13 || p == 18 || p == 23 {
                '-'
            } else {
                lower_hex_digit(digit_at(bits, 16, 32, hyphenated_digit_index(p)))
            },
    )
}

/// The canonical text of a ulid: 26 digits of Crockford's base 32.
pub open spec fn ulid_text(bits: u128) -> Seq<char> {
    Seq::new(26, |i: int| crockford_digit(digit_at(bits, 32, 26, i)))
}

/// The number that digit values spell in base `base`, most significant
/// first.
pub open spec fn digits_value(ds: Seq<int>, base: int) -> int
    decreases ds.len(),
{
    if ds.len() == 0 {
        0
    } else {
        digits_value(ds.drop_last(), base) * base + ds.last()
    }
}

/// The number of values of a `u128`.
pub open spec fn u128_modulus() -> int {
    0x1_0000_0000_0000_0000int * 0x1_0000_0000_0000_0000int
}

/// The value of a hex digit in either letter case.
pub open spec fn hex_value(c: char) -> Option<int> {
    let n = c as int;
    if 48 <= n <= 57 {
        Some(n - 48)
    } else if 97 <= n <= 102 {
        Some(n - 87)
    } else if 65 <= n <= 70 {
        Some(n - 55)
    } else {
        None
    }
}

/// The value of a digit of Crockford's base 32 in either letter case; `I`,
/// `L`, `O` and `U` are not digits.
pub open spec fn crockford_value(c: char) -> Option<int> {
    let n = if 97 <= c as int <= 122 { c as int - 32 } else { c as int };
    if 48 <= n <= 57 {
        Some(n - 48)
    } else if 65 <= n <= 72 {
        Some(n - 55)
    } else if 74 <= n <= 75 {
        Some(n - 56)
    } else if 77 <= n <= 78 {
        Some(n - 57)
    } else if 80 <= n <= 84 {
        Some(n - 58)
    } else if 86 <= n <= 90 {
        Some(n - 59)
    } else {
        None
    }
}

/// The position in the hyphenated form of hex digit `k`.
pub open spec fn hyphenated_position(k: int) -> int {
    if k < 8 {
        k
    } else if k < 12 {
        k + 1
    } else if k < 16 {
        k + 2
    } else if k < 20 {
        k + 3
    } else {
        k + 4
    }
}

/// The 32 hex digits of a 36-character hyphenated text, if its hyphens
/// stand where they belong.
pub open spec fn hyphenated_digits(s: Seq<char>) -> Option<Seq<char>> {
    if s.len() == 36 && s[8] == '-' && s[13] == '-' && s[18] == '-' && s[23] == '-' {
        Some(Seq::new(32, |k: int| s[hyphenated_position(k)]))
    } else {
        None
    }
}

/// Whether the first nine characters read `urn:uuid:`, in any letter case.
pub open spec fn has_urn_prefix(s: Seq<char>) -> bool {
    forall|i: int|
        0 <= i < 9 ==> s[i] == seq!['u', 'r', 'n', ':', 'u', 'u', 'i', 'd', ':'][i]
            || s[i] == seq!['U', 'R', 'N', ':', 'U', 'U', 'I', 'D', ':'][i]
}

/// The hex digits of a uuid text in one of the accepted forms: 32 digits;
/// the hyphenated form; the hyphenated form in braces; or the hyphenated
/// form after `urn:uuid:`.
pub open spec fn uuid_hex_digits(s: Seq<char>) -> Option<Seq<char>> {
    if s.len() == 32 {
        Some(s)
    } else if s.len() == 36 {
        hyphenated_digits(s)
    } else if s.len() == 38 && s[0] == '{' && s[37] == '}' {
        hyphenated_digits(s.subrange(1, 37))
    } else if s.len() == 45 && has_urn_prefix(s) {
        hyphenated_digits(s.subrange(9, 45))
    } else {
        None
    }
}

/// The 128 bits that a uuid text stands for, if it is one.
pub open spec fn uuid_decoded(s: Seq<char>) -> Option<int> {
    match uuid_hex_digits(s) {
        Some(h) => if forall|k: int| 0 <= k < h.len() ==> (#[trigger] hex_value(h[k])) is Some {
            Some(digits_value(h.map_values(|c: char| hex_value(c)->0), 16))
        } else {
            None
        },
        None => None,
    }
}

/// The number that a ulid text stands for, if it is 26 digits of
/// Crockford's base 32; bits past the 128th are dropped.
pub open spec fn ulid_decoded(s: Seq<char>) -> Option<int> {
    if s.len() == 26 && forall|k: int| 0 <= k < s.len() ==> (#[trigger] crockford_value(s[k])) is Some {
        Some(digits_value(s.map_values(|c: char| crockford_value(c)->0), 32) % u128_modulus())
    } else {
        None
    }
}

/// The first `n` of the `width` digits of `v` in base `base` spell `v`
/// with its last `width - n` digits cut off.
proof fn lemma_digits_prefix(v: u128, base: int, width: int, n: int)
    requires
        base > 1,
        0 <= n <= width,
        (v as int) < pow(base, width as nat),
    ensures
        digits_value(Seq::new(n as nat, |k: int| digit_at(v, base, width, k)), base)
            == v as int / pow(base, (width - n) as nat),
    decreases n,
{
    let s = Seq::new(n as nat, |k: int| digit_at(v, base, width, k));
    if n == 0 {
        vstd::arithmetic::div_mod::lemma_basic_div(v as int, pow(base, width as nat));
    } else {
        lemma_digits_prefix(v, base, width, n - 1);
        assert(s.drop_last() =~= Seq::new((n - 1) as nat, |k: int| digit_at(v, base, width, k)));
        let e = (width - n) as nat;
        let p = pow(base, e);
        vstd::arithmetic::power::lemma_pow_positive(base, e);
        assert(pow(base, e + 1) == base * p) by {
            reveal(pow);
        }
        assert((width - (n - 1)) as nat == e + 1);
        vstd::arithmetic::div_mod::lemma_div_denominator(v as int, p, base);
        assert(p * base == base * p) by (nonlinear_arith);
        let q = v as int / p;
        assert(s.last() == q % base);
        vstd::arithmetic::div_mod::lemma_fundamental_div_mod(q, base);
        assert((q / base) * base + q % base == q) by (nonlinear_arith)
            requires
                q == base * (q / base) + (q % base),
        ;
    }
}

/// All `width` digits of `v` spell `v`.
proof fn lemma_digits_value(v: u128, base: int, width: int)
    requires
        base > 1,
        0 <= width,
        (v as int) < pow(base, width as nat),
    ensures
        digits_value(Seq::new(width as nat, |k: int| digit_at(v, base, width, k)), base) == v as int,
{
    lemma_digits_prefix(v, base, width, width);
    vstd::arithmetic::power::lemma_pow0(base);
}

/// Each hex digit that a uuid text is written with reads back as itself.
proof fn lemma_lower_hex(d: int)
    requires
        0 <= d < 16,
    ensures
        hex_value(lower_hex_digit(d)) == Some(d),
{
}

/// Each digit that a ulid text is written with reads back as itself.
proof fn lemma_crockford(d: int)
    requires
        0 <= d < 32,
    ensures
        crockford_value(crockford_digit(d)) == Some(d),
{
}

proof fn lemma_pow_16_32()
    ensures
        pow(16, 32) == u128_modulus(),
{
    reveal_with_fuel(pow, 33);
}

proof fn lemma_pow_32_26()
    ensures
        pow(32, 26) == 4 * u128_modulus(),
{
    reveal_with_fuel(pow, 27);
}

/// The canonical text of a uuid reads back as its bits.
pub proof fn lemma_uuid_text_decodes(bits: u128)
    ensures
        uuid_decoded(uuid_text(bits)) == Some(bits as int),
{
    lemma_pow_16_32();
    let s = uuid_text(bits);
    let h = hyphenated_digits(s)->0;
    let ds = Seq::new(32, |k: int| digit_at(bits, 16, 32, k));
    assert forall|k: int| 0 <= k < 32 implies hex_value(h[k]) == Some(ds[k]) by {
        vstd::arithmetic::power::lemma_pow_positive(16, (32 - 1 - k) as nat);
        vstd::arithmetic::div_mod::lemma_div_pos_is_pos(bits as int, pow(16, (32 - 1 - k) as nat));
        lemma_lower_hex(ds[k]);
    }
    assert(h.map_values(|c: char| hex_value(c)->0) =~= ds);
    lemma_digits_value(bits, 16, 32);
}

/// The canonical text of a ulid reads back as its bits.
pub proof fn lemma_ulid_text_decodes(bits: u128)
    ensures
        ulid_decoded(ulid_text(bits)) == Some(bits as int),
{
    lemma_pow_32_26();
    let s = ulid_text(bits);
    let ds = Seq::new(26, |k: int| digit_at(bits, 32, 26, k));
    assert forall|k: int| 0 <= k < 26 implies crockford_value(s[k]) == Some(ds[k]) by {
        vstd::arithmetic::power::lemma_pow_positive(32, (26 - 1 - k) as nat);
        vstd::arithmetic::div_mod::lemma_div_pos_is_pos(bits as int, pow(32, (26 - 1 - k) as nat));
        lemma_crockford(ds[k]);
    }
    assert(s.map_values(|c: char| crockford_value(c)->0) =~= ds);
    lemma_digits_value(bits, 32, 26);
    vstd::arithmetic::div_mod::lemma_small_mod(bits as nat, u128_modulus() as nat);
}

/// Relies on uuid's `Display` for `Uuid`, which writes the lowercase
/// hyphenated form of the 128 bits, most significant first.
#[verifier::external_body]
fn uuid_to_text(bits: u128) -> (r: String)
    ensures
        r@ == uuid_text(bits),
{
    ::uuid::Uuid::from_u128(bits).to_string()
}

/// Relies on uuid's `FromStr` for `Uuid` (`Uuid::parse_str`), which reads
/// the simple, hyphenated, braced and urn forms, hex digits in either
/// letter case, most significant first; the error is kept as its `Display` text.
#[verifier::external_body]
fn parse_uuid(text: &str) -> (r: Result<u128, String>)
    ensures
        uuid_decoded(text@) is Some <==> r.is_ok(),
        r is Ok ==> uuid_decoded(text@) == Some(r->Ok_0 as int),
{
    <::uuid::Uuid as std::str::FromStr>::from_str(text).map(|u| u.as_u128()).map_err(|e| e.to_string())
}

/// Relies on ulid's `Display` for `Ulid`, which writes the 128 bits as 26
/// digits of Crockford's base 32, most significant first.
#[verifier::external_body]
fn ulid_to_text(bits: u128) -> (r: String)
    ensures
        r@ == ulid_text(bits),
{
    ::ulid::Ulid(bits).to_string()
}

/// Relies on ulid's `FromStr` for `Ulid` (`Ulid::from_string`), which decodes
/// 26 base-32 digits in either letter case, shifting each in from the low
/// end of a `u128`; the error is kept as its `Display` text.
#[verifier::external_body]
fn parse_ulid(text: &str) -> (r: Result<u128, String>)
    ensures
        ulid_decoded(text@) is Some <==> r.is_ok(),
        r is Ok ==> ulid_decoded(text@) == Some(r->Ok_0 as int),
{
    <::ulid::Ulid as std::str::FromStr>::from_str(text).map(|u| u.0).map_err(|e| e.to_string())
}

/// A 128-bit universally unique identifier.
#[derive(Clone, Copy, Debug, PartialEq, Eq, Structural)]
pub struct Uuid {
    pub bits: u128,
}

/// A 128-bit lexicographically sortable identifier.
#[derive(Clone, Copy, Debug, PartialEq, Eq, Structural)]
pub struct Ulid {
    pub bits: u128,
}

impl Uuid {
    /// The canonical text of this identifier.
    pub open spec fn text(self) -> Seq<char> {
        uuid_text(self.bits)
    }

    /// The identifier that the parser reads from `text`, if any.
    pub open spec fn parsed_from(text: Seq<char>) -> Option<Uuid> {
        match uuid_decoded(text) {
            Some(n) => Some(Uuid { bits: n as u128 }),
            None => None,
        }
    }

    /// The text of an identifier that may be absent.
    pub open spec fn text_of(o: Option<Uuid>) -> Option<Seq<char>> {
        match o {
            Some(v) => Some(v.text()),
            None => None,
        }
    }

    /// A field seeded from `initial`: its text, as current and baseline
    /// text, or the empty text where there is none.
    pub fn default_signal(config: &(), initial: Option<Uuid>) -> (r: FormFieldSignal)
        ensures
            r.value@ == match initial {
                Some(v) => v.text(),
                None => Seq::<char>::empty(),
            },
            view_opt(r.initial) == Uuid::text_of(initial),
            r.error is None,
    {
        let text = match initial {
            Some(v) => Some(uuid_to_text(v.bits)),
            None => None,
        };
        FormFieldSignal::new_with_default_value(text)
    }

    /// A field holding the text of `self`, with the text of `initial` as
    /// its baseline; the text parses back to `self`.
    pub fn into_signal(self, config: &(), initial: Option<Uuid>) -> (r: FormFieldSignal)
        ensures
            r.value@ == self.text(),
            Uuid::parsed_from(r.value@) == Some(self),
            view_opt(r.initial) == Uuid::text_of(initial),
            r.error is None,
    {
        let text = uuid_to_text(self.bits);
        proof {
            lemma_uuid_text_decodes(self.bits);
        }
        let baseline = match initial {
            Some(v) => Some(uuid_to_text(v.bits)),
            None => None,
        };
        FormFieldSignal::new(text, baseline)
    }

    /// Parses the field's current text.
    pub fn try_from_signal(signal: &FormFieldSignal, config: &()) -> (r: Result<Uuid, FormError>)
        ensures
            r.is_ok() == Uuid::parsed_from(signal.value@) is Some,
            r is Ok ==> Uuid::parsed_from(signal.value@) == Some(r->Ok_0),
    {
        match parse_uuid(signal.value.as_str()) {
            Ok(bits) => Ok(Uuid { bits }),
            Err(message) => Err(FormError::parse(message)),
        }
    }

    /// A commit event: validates the text, unless the field is optional and
    /// empty, and records the outcome in the error slot.
    pub fn commit(signal: &mut FormFieldSignal, config: &(), is_optional: bool)
        ensures
            final(signal).value == old(signal).value,
            final(signal).initial == old(signal).initial,
            !commit_validates(old(signal).value@, is_optional) ==> final(signal).error is None,
            commit_validates(old(signal).value@, is_optional) ==> (final(signal).error is None
                <==> Uuid::parsed_from(old(signal).value@) is Some),
    {
        let outcome = if signal.needs_validation(is_optional) {
            Some(Uuid::try_from_signal(signal, config))
        } else {
            None
        };
        signal.settle(outcome);
    }
}

impl Ulid {
    /// The canonical text of this identifier.
    pub open spec fn text(self) -> Seq<char> {
        ulid_text(self.bits)
    }

    /// The identifier that the parser reads from `text`, if any.
    pub open spec fn parsed_from(text: Seq<char>) -> Option<Ulid> {
        match ulid_decoded(text) {
            Some(n) => Some(Ulid { bits: n as u128 }),
            None => None,
        }
    }

    /// The text of an identifier that may be absent.
    pub open spec fn text_of(o: Option<Ulid>) -> Option<Seq<char>> {
        match o {
            Some(v) => Some(v.text()),
            None => None,
        }
    }

    /// A field seeded from `initial`: its text, as current and baseline
    /// text, or the empty text where there is none.
    pub fn default_signal(config: &(), initial: Option<Ulid>) -> (r: FormFieldSignal)
        ensures
            r.value@ == match initial {
                Some(v) => v.text(),
                None => Seq::<char>::empty(),
            },
            view_opt(r.initial) == Ulid::text_of(initial),
            r.error is None,
    {
        let text = match initial {
            Some(v) => Some(ulid_to_text(v.bits)),
            None => None,
        };
        FormFieldSignal::new_with_default_value(text)
    }

    /// A field holding the text of `self`, with the text of `initial` as
    /// its baseline; the text parses back to `self`.
    pub fn into_signal(self, config: &(), initial: Option<Ulid>) -> (r: FormFieldSignal)
        ensures
            r.value@ == self.text(),
            Ulid::parsed_from(r.value@) == Some(self),
            view_opt(r.initial) == Ulid::text_of(initial),
            r.error is None,
    {
        let text = ulid_to_text(self.bits);
        proof {
            lemma_ulid_text_decodes(self.bits);
        }
        let baseline = match initial {
            Some(v) => Some(ulid_to_text(v.bits)),
            None => None,
        };
        FormFieldSignal::new(text, baseline)
    }

    /// Parses the field's current text.
    pub fn try_from_signal(signal: &FormFieldSignal, config: &()) -> (r: Result<Ulid, FormError>)
        ensures
            r.is_ok() == Ulid::parsed_from(signal.value@) is Some,
            r is Ok ==> Ulid::parsed_from(signal.value@) == Some(r->Ok_0),
    {
        match parse_ulid(signal.value.as_str()) {
            Ok(bits) => Ok(Ulid { bits }),
            Err(message) => Err(FormError::parse(message)),
        }
    }

    /// A commit event: validates the text, unless the field is optional and
    /// empty, and records the outcome in the error slot.
    pub fn commit(signal: &mut FormFieldSignal, config: &(), is_optional: bool)
        ensures
            final(signal).value == old(signal).value,
            final(signal).initial == old(signal).initial,
            !commit_validates(old(signal).value@, is_optional) ==> final(signal).error is None,
            commit_validates(old(signal).value@, is_optional) ==> (final(signal).error is None
                <==> Ulid::parsed_from(old(signal).value@) is Some),
    {
        let outcome = if signal.needs_validation(is_optional) {
            Some(Ulid::try_from_signal(signal, config))
        } else {
            None
        };
        signal.settle(outcome);
    }
}

/// A uuid written into a field reads back from it unchanged.
pub proof fn uuid_round_trip(value: Uuid)
    ensures
        Uuid::parsed_from(value.text()) == Some(value),
{
    lemma_uuid_text_decodes(value.bits);
}

/// A ulid written into a field reads back from it unchanged.
pub proof fn ulid_round_trip(value: Ulid)
    ensures
        Ulid::parsed_from(value.text()) == Some(value),
{
    lemma_ulid_text_decodes(value.bits);
}

} // verus!
