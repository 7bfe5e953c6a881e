//! Decimal and list rendering of counters, as `{:?}` prints them.
use vstd::prelude::*;

verus! {

/// The decimal digit character of `d` (`d < 10`).
pub open spec fn digit_char(d: int) -> char {
    if d == 0 { '0' }
    else if d == 1 { '1' }
    else if d == 2 { '2' }
    else if d == 3 { '3' }
    else if d == 4 { '4' }
    else if d == 5 { '5' }
    else if d == 6 { '6' }
    else if d == 7 { '7' }
    else if d == 8 { '8' }
    else { '9' }
}

/// The decimal representation of `n`, most significant digit first, without
/// leading zeros.
pub open spec fn decimal(n: nat) -> Seq<char>
    decreases n,
{
    if n < 10 {
        seq![digit_char(n as int)]
    } else {
        decimal(n / 10) + seq![digit_char((n % 10) as int)]
    }
}

/// The numbers of `values`, in decimal, separated by `", "`.
pub open spec fn joined(values: Seq<usize>) -> Seq<char>
    decreases values.len(),
{
    if values.len() == 0 {
        Seq::empty()
    } else if values.len() == 1 {
        decimal(values[0] as nat)
    } else {
        joined(values.drop_last()) + seq![',', ' '] + decimal(values.last() as nat)
    }
}

/// `values` as a bracketed list, `[a, b, c]`.
pub open spec fn list_text(values: Seq<usize>) -> Seq<char> {
    seq!['['] + joined(values) + seq![']']
}

fn digit_text(d: usize) -> (text: &'static str)
    requires
        d < 10,
    ensures
        text@ == seq![digit_char(d as int)],
{
    if d == 0 {
        proof { reveal_strlit("0"); }
        "0"
    } else if d == 1 {
        proof { reveal_strlit("1"); }
        "1"
    } else if d == 2 {
        proof { reveal_strlit("2"); }
        "2"
    } else if d == 3 {
        proof { reveal_strlit("3"); }
        "3"
    } else if d == 4 {
        proof { reveal_strlit("4"); }
        "4"
    } else if d == 5 {
        proof { reveal_strlit("5"); }
        "5"
    } else if d == 6 {
        proof { reveal_strlit("6"); }
        "6"
    } else if d == 7 {
        proof { reveal_strlit("7"); }
        "7"
    } else if d == 8 {
        proof { reveal_strlit("8"); }
        "8"
    } else {
        proof { reveal_strlit("9"); }
        "9"
    }
}

/// Appends the decimal representation of `n`.
pub fn push_decimal(out: &mut String, n: usize)
    ensures
        final(out)@ == old(out)@ + decimal(n as nat),
    decreases n,
{
    if n >= 10 {
        push_decimal(out, n / 10);
    }
    out.append(digit_text(n % 10));
    proof {
        if n >= 10 {
            assert(final(out)@ =~= old(out)@ + decimal(n as nat));
        } else {
            assert(final(out)@ =~= old(out)@ + decimal(n as nat));
        }
    }
}

/// Appends `values` as a bracketed, comma-separated decimal list.
pub fn push_list(out: &mut String, values: &Vec<usize>)
    ensures
        final(out)@ == old(out)@ + list_text(values@),
{
    proof { reveal_strlit("["); reveal_strlit("]"); reveal_strlit(", "); }
    out.append("[");
    let ghost start = out@;
    let mut i: usize = 0;
    while i < values.len()
        invariant
            i <= values@.len(),
            out@ == start + joined(values@.take(i as int)),
        decreases values@.len() - i,
    {
        proof { reveal_strlit(", "); }
        let ghost before = out@;
        if i > 0 {
            out.append(", ");
        }
        push_decimal(out, values[i]);
        proof {
            assert(", "@ =~= seq![',', ' ']);
            let taken = values@.take((i + 1) as int);
            assert(taken.drop_last() =~= values@.take(i as int));
            assert(taken.last() == values@[i as int]);
            if i == 0 {
                assert(values@.take(0) =~= Seq::<usize>::empty());
                assert(out@ =~= start + joined(taken));
            } else {
                assert(joined(taken) == joined(taken.drop_last()) + seq![',', ' '] + decimal(taken.last() as nat));
                assert(out@ =~= start + joined(taken));
            }
        }
        i = i + 1;
    }
    out.append("]");
    proof {
        assert(values@.take(values@.len() as int) =~= values@);
        assert(final(out)@ =~= old(out)@ + list_text(values@));
    }
}

} // verus!
