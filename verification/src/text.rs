//! Text of numbers, flags, addresses and byte lists, as the contracts print
//! them into their JSON answers.

use vstd::prelude::*;
use crate::word::{Address, U256};

verus! {

/// The character of a decimal digit.
pub open spec fn digit_char(d: int) -> char {
    if d == 0 {
        '0'
    } else if d == 1 {
        '1'
    } else if d == 2 {
        '2'
    } else if d == 3 {
        '3'
    } else if d == 4 {
        '4'
    } else if d == 5 {
        '5'
    } else if d == 6 {
        '6'
    } else if d == 7 {
        '7'
    } else if d == 8 {
        '8'
    } else {
        '9'
    }
}

/// The decimal digits of `n`, most significant first, without leading zeros.
pub open spec fn decimal(n: nat) -> Seq<char>
    decreases n,
{
    if n < 10 {
        seq![digit_char(n as int)]
    } else {
        decimal(n / 10).push(digit_char((n % 10) as int))
    }
}

/// The decimal text of `i`, with a leading `-` when negative.
pub open spec fn signed_decimal(i: int) -> Seq<char> {
    if i < 0 {
        seq!['-'] + decimal((-i) as nat)
    } else {
        decimal(i as nat)
    }
}

/// `true` or `false`.
pub open spec fn bool_text(b: bool) -> Seq<char> {
    if b {
        seq!['t', 'r', 'u', 'e']
    } else {
        seq!['f', 'a', 'l', 's', 'e']
    }
}

/// The numbers of a byte list, separated by `", "`.
pub open spec fn joined_bytes(b: Seq<u8>) -> Seq<char>
    decreases b.len(),
{
    if b.len() == 0 {
        Seq::empty()
    } else if b.len() == 1 {
        decimal(b[0] as nat)
    } else {
        joined_bytes(b.drop_last()) + seq![',', ' '] + decimal(b.last() as nat)
    }
}

/// A byte list as Rust's `Debug` prints a `Vec<u8>`: `[1, 2, 3]`.
pub open spec fn byte_list_text(b: Seq<u8>) -> Seq<char> {
    seq!['['] + joined_bytes(b) + seq![']']
}

fn digit_str(d: u64) -> (r: &'static str)
    requires
        d < 10,
    ensures
        r@ == seq![digit_char(d as int)],
{
    proof {
        reveal_strlit("0");
        reveal_strlit("1");
        reveal_strlit("2");
        reveal_strlit("3");
        reveal_strlit("4");
        reveal_strlit("5");
        reveal_strlit("6");
        reveal_strlit("7");
        reveal_strlit("8");
        reveal_strlit("9");
    }
    if d == 0 {
        "0"
    } else if d == 1 {
        "1"
    } else if d == 2 {
        "2"
    } else if d == 3 {
        "3"
    } else if d == 4 {
        "4"
    } else if d == 5 {
        "5"
    } else if d == 6 {
        "6"
    } else if d == 7 {
        "7"
    } else if d == 8 {
        "8"
    } else {
        "9"
    }
}

/// Appends the decimal digits of `n`.
pub fn push_decimal(s: &mut String, n: u64)
    ensures
        final(s)@ == old(s)@ + decimal(n as nat),
    decreases n,
{
    if n >= 10 {
        push_decimal(s, n / 10);
        s.append(digit_str(n % 10));
        assert(final(s)@ =~= old(s)@ + decimal(n as nat));
    } else {
        s.append(digit_str(n));
    }
}

/// Appends the decimal text of `i`.
pub fn push_signed(s: &mut String, i: i64)
    ensures
        final(s)@ == old(s)@ + signed_decimal(i as int),
{
    if i < 0 {
        proof {
            reveal_strlit("-");
        }
        s.append("-");
        let magnitude: u64 = (0i128 - (i as i128)) as u64;
        push_decimal(s, magnitude);
        assert(final(s)@ =~= old(s)@ + signed_decimal(i as int));
    } else {
        push_decimal(s, i as u64);
    }
}

/// Appends `true` or `false`.
pub fn push_bool(s: &mut String, b: bool)
    ensures
        final(s)@ == old(s)@ + bool_text(b),
{
    proof {
        reveal_strlit("true");
        reveal_strlit("false");
    }
    if b {
        s.append("true");
    } else {
        s.append("false");
    }
}

/// Appends a byte list as `Debug` prints it.
pub fn push_byte_list(s: &mut String, b: &Vec<u8>)
    ensures
        final(s)@ == old(s)@ + byte_list_text(b@),
{
    proof {
        reveal_strlit("[");
        reveal_strlit("]");
        reveal_strlit(", ");
    }
    s.append("[");
    let ghost start = s@;
    let mut i: usize = 0;
    while i < b.len()
        invariant
            i <= b@.len(),
            s@ == start + joined_bytes(b@.subrange(0, i as int)),
        decreases b@.len() - i,
    {
        if i > 0 {
            s.append(", ");
        }
        push_decimal(s, b[i] as u64);
        proof {
            reveal_strlit(", ");
            let next = b@.subrange(0, i + 1);
            assert(next.drop_last() =~= b@.subrange(0, i as int));
            assert(next.last() == b@[i as int]);
            assert(s@ =~= start + joined_bytes(next));
        }
        i = i + 1;
    }
    assert(b@.subrange(0, i as int) =~= b@);
    s.append("]");
    assert(s@ =~= old(s)@ + byte_list_text(b@));
}

/// The text that alloy prints for an address with `{}`: `0x` and the
/// address's 40 hex digits, cased by its EIP-55 checksum.
pub uninterp spec fn address_text(a: Address) -> Seq<char>;

/// The `Display` text of `alloy_primitives::Address` (its EIP-55 checksummed
/// hex form). What the text holds is left to the name `address_text`.
#[verifier::external_body]
pub(crate) fn address_to_string(a: Address) -> (r: String)
    ensures
        r@ == address_text(a),
{
    let mut b = [0u8; 20];
    b[0..4].copy_from_slice(&a.hi.to_be_bytes());
    b[4..12].copy_from_slice(&a.mid.to_be_bytes());
    b[12..20].copy_from_slice(&a.lo.to_be_bytes());
    alloy_primitives::Address::new(b).to_string()
}

/// The `Display` text of `alloy_primitives::U256`, which ruint prints in
/// decimal.
#[verifier::external_body]
pub(crate) fn u256_to_string(x: U256) -> (r: String)
    ensures
        r@ == decimal(x.value() as nat),
{
    alloy_primitives::U256::from_limbs([x.l0, x.l1, x.l2, x.l3]).to_string()
}

} // verus!
