//! How ids are written.

use crate::text::{decimal, digit};
use vstd::prelude::*;

verus! {

/// The number that the digits of `text` make up.
pub open spec fn value_of(text: Seq<char>) -> int
    decreases text.len(),
{
    if text.len() == 0 {
        0
    } else {
        10 * value_of(text.drop_last()) + (text.last() as int - '0' as int)
    }
}

/// `text` is `n` in decimal digits, without leading zeros.
pub open spec fn is_numeral(text: Seq<char>, n: int) -> bool {
    &&& text.len() > 0
    &&& forall|i: int| 0 <= i < text.len() ==> '0' <= #[trigger] text[i] <= '9'
    &&& text.len() > 1 ==> text[0] != '0'
    &&& value_of(text) == n
}

/// Digits make up a number that is not negative, and one of at least ten if there are several of
/// them and the first is not zero.
proof fn lemma_value_of_digits(text: Seq<char>)
    requires
        forall|i: int| 0 <= i < text.len() ==> '0' <= #[trigger] text[i] <= '9',
    ensures
        value_of(text) >= 0,
        text.len() > 0 && text[0] != '0' ==> value_of(text) >= 1,
        text.len() > 1 && text[0] != '0' ==> value_of(text) >= 10,
    decreases text.len(),
{
    if text.len() > 0 {
        let front = text.drop_last();
        assert(forall|i: int| 0 <= i < front.len() ==> front[i] == text[i]);
        lemma_value_of_digits(front);
        assert('0' <= text[text.len() - 1] <= '9');
    }
}

/// A number has one numeral.
pub proof fn law_numerals_are_unique(a: Seq<char>, b: Seq<char>, n: int)
    requires
        is_numeral(a, n),
        is_numeral(b, n),
    ensures
        a == b,
    decreases a.len(),
{
    lemma_value_of_digits(a);
    lemma_value_of_digits(b);
    let (a_front, b_front) = (a.drop_last(), b.drop_last());
    lemma_value_of_digits(a_front);
    lemma_value_of_digits(b_front);
    assert('0' <= a[a.len() - 1] <= '9' && '0' <= b[b.len() - 1] <= '9');
    assert(value_of(a_front) == n / 10 && value_of(b_front) == n / 10);
    assert(a.last() == b.last());
    if a.len() == 1 || b.len() == 1 {
        assert(n < 10);
        assert(a.len() == 1 && b.len() == 1);
        assert(a =~= b);
    } else {
        assert(a_front[0] == a[0] && b_front[0] == b[0]);
        assert(forall|i: int| 0 <= i < a_front.len() ==> a_front[i] == a[i]);
        assert(forall|i: int| 0 <= i < b_front.len() ==> b_front[i] == b[i]);
        law_numerals_are_unique(a_front, b_front, n / 10);
        assert(a =~= a_front.push(a.last()));
        assert(b =~= b_front.push(b.last()));
    }
}

/// What ids are written as is their numeral.
pub proof fn law_decimal_is_the_numeral(n: nat)
    ensures
        is_numeral(decimal(n), n as int),
    decreases n,
{
    if n < 10 {
        assert(decimal(n).drop_last() =~= Seq::empty());
        assert(value_of(decimal(n).drop_last()) == 0);
    } else {
        let front = decimal(n / 10);
        law_decimal_is_the_numeral(n / 10);
        assert(decimal(n).drop_last() =~= front);
        assert(decimal(n).last() == digit(n % 10));
        assert(forall|i: int| 0 <= i < front.len() ==> decimal(n)[i] == front[i]);
        if front.len() == 1 {
            assert(front.drop_last() =~= Seq::empty());
            assert(value_of(front.drop_last()) == 0);
        }
    }
}

} // verus!
