//! Fresh identifiers and timestamps.

use vstd::prelude::*;

verus! {

/// Relies on `uuid::Uuid::new_v4`: a random identifier, as its 128-bit value.
#[verifier::external_body]
pub(crate) fn new_model_id() -> (r: u128) {
    uuid::Uuid::new_v4().as_u128()
}

/// Relies on `chrono::Utc::now`: the current time, as milliseconds since the
/// Unix epoch.
#[verifier::external_body]
pub(crate) fn now_millis() -> (r: i64) {
    chrono::Utc::now().timestamp_millis()
}

/// The lower-case hexadecimal digit for `n` (below 16).
pub open spec fn hex_char(n: u128) -> char {
    "0123456789abcdef"@[n as int]
}

/// Hexadecimal digit `k` of an identifier, counted from the most
/// significant of its 32.
pub open spec fn uuid_nibble(id: u128, k: int) -> u128 {
    (id >> ((124 - 4 * k) as u32)) & 0xfu128
}

/// Digits `from` to `to` (excluded) of an identifier.
pub open spec fn hex_digits(id: u128, from: int, to: int) -> Seq<char> {
    Seq::new((to - from) as nat, |i: int| hex_char(uuid_nibble(id, from + i)))
}

/// The hyphenated lower-case text of an identifier: its 32 hexadecimal
/// digits, most significant first, in groups of 8, 4, 4, 4 and 12.
pub open spec fn uuid_text(id: u128) -> Seq<char> {
    hex_digits(id, 0, 8) + seq!['-'] + hex_digits(id, 8, 12) + seq!['-'] + hex_digits(id, 12, 16)
        + seq!['-'] + hex_digits(id, 16, 20) + seq!['-'] + hex_digits(id, 20, 32)
}

fn nibble(id: u128, k: u32) -> (r: u128)
    requires
        k < 32,
    ensures
        r == uuid_nibble(id, k as int),
        r < 16,
{
    let shift: u32 = 124 - 4 * k;
    let shifted = id >> shift;
    let r = shifted & 0xfu128;
    assert(r < 16) by (bit_vector)
        requires
            r == shifted & 0xfu128,
    ;
    r
}

fn hex_str(n: u128) -> (r: &'static str)
    requires
        n < 16,
    ensures
        r@ == seq![hex_char(n)],
{
    let digits = "0123456789abcdef";
    proof {
        reveal_strlit("0123456789abcdef");
    }
    let r = digits.substring_char(n as usize, n as usize + 1);
    assert(r@ =~= seq![hex_char(n)]);
    r
}

fn push_hex_digits(s: &mut String, id: u128, from: u32, to: u32)
    requires
        from <= to <= 32,
    ensures
        final(s)@ == old(s)@ + hex_digits(id, from as int, to as int),
{
    let ghost s0 = s@;
    let mut k = from;
    assert(hex_digits(id, from as int, from as int) =~= Seq::<char>::empty());
    assert(s@ =~= s0 + hex_digits(id, from as int, from as int));
    while k < to
        invariant
            from <= k <= to <= 32,
            s@ == s0 + hex_digits(id, from as int, k as int),
        decreases to - k,
    {
        let d = hex_str(nibble(id, k));
        s.append(d);
        assert(hex_digits(id, from as int, k + 1) =~= hex_digits(id, from as int, k as int).push(
            hex_char(uuid_nibble(id, k as int)),
        ));
        k = k + 1;
        assert(s@ =~= s0 + hex_digits(id, from as int, k as int));
    }
}

/// The hyphenated lower-case text of an identifier, as `uuid` prints it.
pub(crate) fn uuid_string(id: u128) -> (r: String)
    ensures
        r@ == uuid_text(id),
{
    let mut s = String::new();
    proof {
        reveal_strlit("-");
        assert(s@ =~= Seq::<char>::empty());
    }
    push_hex_digits(&mut s, id, 0, 8);
    s.append("-");
    push_hex_digits(&mut s, id, 8, 12);
    s.append("-");
    push_hex_digits(&mut s, id, 12, 16);
    s.append("-");
    push_hex_digits(&mut s, id, 16, 20);
    s.append("-");
    push_hex_digits(&mut s, id, 20, 32);
    assert(s@ =~= uuid_text(id));
    s
}

} // verus!
