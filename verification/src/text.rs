//! Numbers as text.

use vstd::prelude::*;

verus! {

/// The decimal digits of `n`, the most significant first.
pub open spec fn decimal(n: nat) -> Seq<char>
    decreases n,
{
    if n < 10 {
        seq![(48 + n) as char]
    } else {
        decimal(n / 10).push((48 + n % 10) as char)
    }
}

fn digit(d: u64) -> (text: &'static str)
    requires
        d < 10,
    ensures
        text@ == seq![(48 + d) as char],
{
    proof {
        reveal_strlit("0");
        reveal_strlit("1");
        reveal_strlit("2");
        reveal_strlit("3");
        reveal_strlit("4");
        reveal_strlit("5");
        reveal_strlit("6");
        reveal_strlit("7");
        reveal_strlit("8");
        reveal_strlit("9");
    }
    let text = match d {
        0 => "0",
        1 => "1",
        2 => "2",
        3 => "3",
        4 => "4",
        5 => "5",
        6 => "6",
        7 => "7",
        8 => "8",
        _ => "9",
    };
    assert(text@ =~= seq![(48 + d) as char]);
    text
}

/// Writes `n` in decimal.
pub fn to_decimal(n: u64) -> (text: String)
    ensures
        text@ == decimal(n as nat),
    decreases n,
{
    if n < 10 {
        digit(n).to_owned()
    } else {
        let mut text = to_decimal(n / 10);
        text.append(digit(n % 10));
        assert(text@ =~= decimal(n as nat));
        text
    }
}

/// The text is some number in decimal.
pub open spec fn is_decimal(text: Seq<char>) -> bool {
    exists|n: u64| text == #[trigger] decimal(n as nat)
}

proof fn lemma_decimal_len(n: nat)
    ensures
        decimal(n).len() >= 1,
        decimal(n).len() == 1 <==> n < 10,
    decreases n,
{
    if n >= 10 {
        lemma_decimal_len(n / 10);
    }
}

/// Two numbers with the same decimal digits are equal.
pub proof fn law_decimal_is_injective(a: nat, b: nat)
    requires
        decimal(a) == decimal(b),
    ensures
        a == b,
    decreases a,
{
    lemma_decimal_len(a);
    lemma_decimal_len(b);
    if a < 10 {
        assert(decimal(a)[0] == decimal(b)[0]);
        assert(decimal(a)[0] as int == 48 + a);
        assert(decimal(b)[0] as int == 48 + b);
    } else {
        assert(decimal(a).last() == decimal(b).last());
        assert(decimal(a).last() as int == 48 + a % 10);
        assert(decimal(b).last() as int == 48 + b % 10);
        assert(decimal(a).drop_last() =~= decimal(a / 10));
        assert(decimal(b).drop_last() =~= decimal(b / 10));
        law_decimal_is_injective(a / 10, b / 10);
    }
}

fn from_digits(text: &str, len: usize) -> (n: u64)
    requires
        1 <= len <= text@.len(),
        is_decimal(text@.take(len as int)),
    ensures
        decimal(n as nat) == text@.take(len as int),
    decreases len,
{
    let ghost value = choose|n: u64| text@.take(len as int) == #[trigger] decimal(n as nat);
    proof {
        lemma_decimal_len(value as nat);
    }
    let last: u64 = text.get_char(len - 1) as u64;
    assert(text@.take(len as int).last() == text@[len - 1]);
    if len == 1 {
        assert(text@.take(1)[0] == text@[0]);
        return last - 48;
    }
    assert(text@.take(len as int).drop_last() =~= text@.take(len - 1));
    assert(decimal(value as nat).drop_last() =~= decimal((value / 10) as nat));
    assert(is_decimal(text@.take(len - 1)));
    let high: u64 = from_digits(text, len - 1);
    proof {
        law_decimal_is_injective(high as nat, (value / 10) as nat);
    }
    high * 10 + (last - 48)
}

/// Reads a number that is written in decimal.
pub fn from_decimal(text: &str) -> (n: u64)
    requires
        is_decimal(text@),
    ensures
        decimal(n as nat) == text@,
{
    proof {
        let value = choose|n: u64| text@ == #[trigger] decimal(n as nat);
        lemma_decimal_len(value as nat);
    }
    let len = text.unicode_len();
    assert(text@.take(len as int) =~= text@);
    from_digits(text, len)
}

/// The number that the digits stand for, each ten times as much as the next.
pub open spec fn digits_value(digits: Seq<char>) -> int
    decreases digits.len(),
{
    if digits.len() == 0 {
        0
    } else {
        digits_value(digits.drop_last()) * 10 + (digits.last() as int - '0' as int)
    }
}

/// The text of a number is made of digits that stand for it, without a leading
/// zero.
pub proof fn law_decimal_digits_stand_for_the_number(n: nat)
    ensures
        digits_value(decimal(n)) == n,
        decimal(n).len() > 0,
        forall|i: int| 0 <= i < decimal(n).len() ==> '0' <= #[trigger] decimal(n)[i] <= '9',
        n > 0 ==> decimal(n)[0] != '0',
    decreases n,
{
    let all = decimal(n);
    if n < 10 {
        reveal_with_fuel(digits_value, 2);
        assert(all.drop_last() =~= Seq::empty());
        assert(all.last() as int == 48 + n);
    } else {
        law_decimal_digits_stand_for_the_number(n / 10);
        let front = decimal(n / 10);
        assert(all.drop_last() =~= front);
        assert(all.last() as int == 48 + n % 10);
        assert forall|i: int| 0 <= i < all.len() implies '0' <= #[trigger] all[i] <= '9' by {
            if i < front.len() {
                assert(all[i] == front[i]);
            }
        }
        assert(all[0] == front[0]);
    }
}

} // verus!
