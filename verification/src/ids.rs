//! Record identifiers: 128-bit values, written in the hyphenated form of UUIDs.
use vstd::prelude::*;

verus! {

/// The lower-case hexadecimal digit of a value below 16.
pub open spec fn hex_digit(d: nat) -> char {
    "0123456789abcdef"@[d as int]
}

/// The `n` lowest hexadecimal digits of `v`, most significant first.
pub open spec fn hex_digits(v: nat, n: nat) -> Seq<char>
    decreases n,
{
    if n == 0 {
        Seq::empty()
    } else {
        hex_digits(v / 16, (n - 1) as nat).push(hex_digit(v % 16))
    }
}

/// The hyphenated lower-case text of an identifier (8-4-4-4-12 hexadecimal
/// digits), as `uuid::Uuid`'s `Display` writes it.
pub open spec fn uuid_text(id: u128) -> Seq<char> {
    hex_digits(id as nat / 0x1_0000_0000_0000_0000_0000_0000, 8) + "-"@
        + hex_digits((id as nat / 0x1_0000_0000_0000_0000_0000) % 0x1_0000, 4) + "-"@
        + hex_digits((id as nat / 0x1_0000_0000_0000_0000) % 0x1_0000, 4) + "-"@
        + hex_digits((id as nat / 0x1_0000_0000_0000) % 0x1_0000, 4) + "-"@
        + hex_digits(id as nat % 0x1_0000_0000_0000, 12)
}

/// The identifier `uuid::Uuid::parse_str` reads from a text, if any.
pub uninterp spec fn uuid_parse(text: Seq<char>) -> Option<u128>;

/// Calls `uuid::Uuid::new_v4`: a fresh random identifier. Nothing is stated of
/// its value.
#[verifier::external_body]
pub(crate) fn new_id() -> (id: u128) {
    uuid::Uuid::new_v4().as_u128()
}

/// Calls `uuid::Uuid::parse_str`, mapping its error to `None`. The crate reads
/// the hyphenated lower-case form back as the identifier it writes.
#[verifier::external_body]
pub(crate) fn parse_id(text: &str) -> (id: Option<u128>)
    ensures
        id == uuid_parse(text@),
        forall|n: u128| #[trigger] uuid_text(n) == text@ ==> id == Some(n),
{
    match uuid::Uuid::parse_str(text) {
        Ok(u) => Some(u.as_u128()),
        Err(_) => None,
    }
}

/// Appends the `n` lowest hexadecimal digits of `v`.
fn push_hex(s: &mut String, v: u128, n: usize)
    ensures
        final(s)@ == old(s)@ + hex_digits(v as nat, n as nat),
    decreases n,
{
    if n == 0 {
        assert(old(s)@ + hex_digits(v as nat, 0) =~= old(s)@);
        return;
    }
    push_hex(s, v / 16, n - 1);
    let d = (v % 16) as usize;
    proof {
        reveal_strlit("0123456789abcdef");
    }
    let digit = "0123456789abcdef".substring_char(d, d + 1);
    proof {
        assert(digit@ =~= seq![hex_digit(d as nat)]);
    }
    s.append(digit);
    proof {
        assert(s@ =~= old(s)@ + hex_digits(v as nat, n as nat));
    }
}

/// Writes an identifier in its hyphenated form.
pub fn id_text(id: u128) -> (text: String)
    ensures
        text@ == uuid_text(id),
{
    let mut s = String::new();
    push_hex(&mut s, id / 0x1_0000_0000_0000_0000_0000_0000, 8);
    s.append("-");
    push_hex(&mut s, (id / 0x1_0000_0000_0000_0000_0000) % 0x1_0000, 4);
    s.append("-");
    push_hex(&mut s, (id / 0x1_0000_0000_0000_0000) % 0x1_0000, 4);
    s.append("-");
    push_hex(&mut s, (id / 0x1_0000_0000_0000) % 0x1_0000, 4);
    s.append("-");
    push_hex(&mut s, id % 0x1_0000_0000_0000, 12);
    proof {
        assert(s@ =~= uuid_text(id));
    }
    s
}

} // verus!
