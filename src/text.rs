use vstd::prelude::*;

use crate::protocol::{key_name, Key};

verus! {

/// The ASCII digit for a value below ten.
pub open spec fn digit_char(d: nat) -> char {
    if d == 0 {
        '0'
    } else if d == 1 {
        '1'
    } else if d == 2 {
        '2'
    } else if d == 3 {
        '3'
    } else if d == 4 {
        '4'
    } else if d == 5 {
        '5'
    } else if d == 6 {
        '6'
    } else if d == 7 {
        '7'
    } else if d == 8 {
        '8'
    } else {
        '9'
    }
}

/// The decimal digits of `n`, most significant first, without leading zeros.
pub open spec fn decimal(n: nat) -> Seq<char>
    decreases n,
{
    if n < 10 {
        seq![digit_char(n)]
    } else {
        decimal(n / 10).push(digit_char(n % 10))
    }
}

/// `n` in decimal, with a leading minus sign when it is negative.
pub open spec fn signed_decimal(n: int) -> Seq<char> {
    if n < 0 {
        seq!['-'] + decimal((-n) as nat)
    } else {
        decimal(n as nat)
    }
}

/// The names of `keys`, in order, separated by a comma and a space.
pub open spec fn joined_key_names(keys: Seq<Key>) -> Seq<char>
    decreases keys.len(),
{
    if keys.len() == 0 {
        Seq::empty()
    } else if keys.len() == 1 {
        key_name(keys[0])
    } else {
        joined_key_names(keys.drop_last()) + ", "@ + key_name(keys.last())
    }
}

/// A list of keys written as `[A, B, C]`.
pub open spec fn key_list_text(keys: Seq<Key>) -> Seq<char> {
    "["@ + joined_key_names(keys) + "]"@
}

fn digit_str(d: u64) -> (r: &'static str)
    requires
        d < 10,
    ensures
        r@ == seq![digit_char(d as nat)],
{
    proof {
        reveal_strlit("0");
        reveal_strlit("1");
        reveal_strlit("2");
        reveal_strlit("3");
        reveal_strlit("4");
        reveal_strlit("5");
        reveal_strlit("6");
        reveal_strlit("7");
        reveal_strlit("8");
        reveal_strlit("9");
    }
    let r = match d {
        0 => "0",
        1 => "1",
        2 => "2",
        3 => "3",
        4 => "4",
        5 => "5",
        6 => "6",
        7 => "7",
        8 => "8",
        _ => "9",
    };
    assert(r@ =~= seq![digit_char(d as nat)]);
    r
}

/// Appends the decimal digits of `n` to `s`.
pub fn append_decimal(s: &mut String, n: u64)
    ensures
        final(s)@ == old(s)@ + decimal(n as nat),
    decreases n,
{
    if n >= 10 {
        append_decimal(s, n / 10);
    }
    s.append(digit_str(n % 10));
    assert(final(s)@ =~= old(s)@ + decimal(n as nat));
}

/// Appends `n` in decimal, with a leading minus sign when it is negative.
pub fn append_signed_decimal(s: &mut String, n: i32)
    ensures
        final(s)@ == old(s)@ + signed_decimal(n as int),
{
    if n < 0 {
        proof {
            reveal_strlit("-");
        }
        s.append("-");
        let magnitude: u64 = (-(n as i64)) as u64;
        append_decimal(s, magnitude);
        assert(final(s)@ =~= old(s)@ + signed_decimal(n as int));
    } else {
        append_decimal(s, n as u64);
    }
}

/// Appends the list of `keys` written as `[A, B, C]`.
pub fn append_key_list(s: &mut String, keys: &Vec<Key>)
    ensures
        final(s)@ == old(s)@ + key_list_text(keys@),
{
    let ghost start = s@;
    s.append("[");
    let mut i: usize = 0;
    while i < keys.len()
        invariant
            i <= keys@.len(),
            s@ == start + "["@ + joined_key_names(keys@.subrange(0, i as int)),
        decreases keys@.len() - i,
    {
        let ghost before = s@;
        if i > 0 {
            s.append(", ");
        }
        s.append(keys[i].name());
        proof {
            let prefix = keys@.subrange(0, i as int + 1);
            assert(prefix.drop_last() =~= keys@.subrange(0, i as int));
            assert(prefix.last() == keys@[i as int]);
            if i == 0 {
                assert(keys@.subrange(0, 0) =~= Seq::<Key>::empty());
            }
            assert(s@ =~= start + "["@ + joined_key_names(prefix));
        }
        i = i + 1;
    }
    s.append("]");
    assert(keys@.subrange(0, keys@.len() as int) =~= keys@);
    assert(final(s)@ =~= old(s)@ + key_list_text(keys@));
}

} // verus!
