use vstd::prelude::*;
use vstd::string::*;

verus! {

/// The decimal digit `d` (for `0 <= d < 10`) as a character.
pub open spec fn digit_char(d: int) -> char {
    if d == 0 {
        '0'
    } else if d == 1 {
        '1'
    } else if d == 2 {
        '2'
    } else if d == 3 {
        '3'
    } else if d == 4 {
        '4'
    } else if d == 5 {
        '5'
    } else if d == 6 {
        '6'
    } else if d == 7 {
        '7'
    } else if d == 8 {
        '8'
    } else {
        '9'
    }
}

/// The decimal notation of a natural number, without leading zeros.
pub open spec fn nat_text(n: nat) -> Seq<char>
    decreases n,
{
    if n < 10 {
        seq![digit_char(n as int)]
    } else {
        nat_text(n / 10).push(digit_char((n % 10) as int))
    }
}

/// The decimal notation of an integer, with a leading `-` when negative.
pub open spec fn int_text(n: int) -> Seq<char> {
    if n < 0 {
        seq!['-'] + nat_text((-n) as nat)
    } else {
        nat_text(n as nat)
    }
}

/// The `width` lowest bits of `n` in binary, most significant first.
pub open spec fn binary_text(n: nat, width: nat) -> Seq<char>
    decreases width,
{
    if width == 0 {
        Seq::empty()
    } else {
        binary_text(n / 2, (width - 1) as nat).push(if n % 2 == 1 { '1' } else { '0' })
    }
}

/// `count` copies of the character `c`.
pub open spec fn repeat_text(c: char, count: nat) -> Seq<char> {
    Seq::new(count, |i: int| c)
}

fn digit_str(d: u8) -> (r: &'static str)
    requires
        d < 10,
    ensures
        r@ == seq![digit_char(d as int)],
{
    proof {
        reveal_strlit("0");
        reveal_strlit("1");
        reveal_strlit("2");
        reveal_strlit("3");
        reveal_strlit("4");
        reveal_strlit("5");
        reveal_strlit("6");
        reveal_strlit("7");
        reveal_strlit("8");
        reveal_strlit("9");
    }
    if d == 0 {
        "0"
    } else if d == 1 {
        "1"
    } else if d == 2 {
        "2"
    } else if d == 3 {
        "3"
    } else if d == 4 {
        "4"
    } else if d == 5 {
        "5"
    } else if d == 6 {
        "6"
    } else if d == 7 {
        "7"
    } else if d == 8 {
        "8"
    } else {
        "9"
    }
}

/// Appends the decimal notation of `n`.
pub(crate) fn append_nat(out: &mut String, n: u128)
    ensures
        final(out)@ == old(out)@ + nat_text(n as nat),
    decreases n,
{
    if n >= 10 {
        append_nat(out, n / 10);
    }
    out.append(digit_str((n % 10) as u8));
    proof {
        if n >= 10 {
            assert(old(out)@ + nat_text(n as nat) =~= old(out)@ + nat_text((n / 10) as nat)
                + seq![digit_char((n % 10) as int)]);
        }
    }
}

/// Appends the decimal notation of `n`, with a leading `-` when negative.
pub(crate) fn append_int(out: &mut String, n: i128)
    requires
        n > i128::MIN,
    ensures
        final(out)@ == old(out)@ + int_text(n as int),
{
    if n < 0 {
        proof {
            reveal_strlit("-");
        }
        out.append("-");
        append_nat(out, (-n) as u128);
        assert(final(out)@ =~= old(out)@ + int_text(n as int));
    } else {
        append_nat(out, n as u128);
    }
}

/// Appends the `width` lowest bits of `n` in binary, most significant first.
pub(crate) fn append_binary(out: &mut String, n: u64, width: u16)
    ensures
        final(out)@ == old(out)@ + binary_text(n as nat, width as nat),
    decreases width,
{
    if width == 0 {
        assert(final(out)@ =~= old(out)@ + binary_text(n as nat, width as nat));
    } else {
        append_binary(out, n / 2, width - 1);
        proof {
            reveal_strlit("0");
            reveal_strlit("1");
        }
        if n % 2 == 1 {
            out.append("1");
        } else {
            out.append("0");
        }
        assert(final(out)@ =~= old(out)@ + binary_text(n as nat, width as nat));
    }
}

/// Appends `count` copies of the one-character string `c`.
pub(crate) fn append_repeat(out: &mut String, c: &str, count: u16)
    requires
        c@.len() == 1,
    ensures
        final(out)@ == old(out)@ + repeat_text(c@[0], count as nat),
{
    let mut i: u16 = 0;
    while i < count
        invariant
            c@.len() == 1,
            i <= count,
            out@ == old(out)@ + repeat_text(c@[0], i as nat),
        decreases count - i,
    {
        out.append(c);
        i = i + 1;
        assert(out@ =~= old(out)@ + repeat_text(c@[0], i as nat));
    }
}

} // verus!
