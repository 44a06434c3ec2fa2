//! Text: decimal numerals, and the questions asked of field names.

use vstd::prelude::*;

verus! {

/// The decimal digit for `d`, which is below ten.
pub open spec fn digit(d: nat) -> char {
    ('0' as nat + d) as char
}

/// The decimal numeral of `n`, without leading zeros.
pub open spec fn decimal(n: nat) -> Seq<char>
    decreases n,
{
    if n < 10 {
        seq![digit(n)]
    } else {
        decimal(n / 10).push(digit(n % 10))
    }
}

/// The decimal digit for `d`, as text.
fn digit_text(d: u8) -> (text: &'static str)
    requires
        d < 10,
    ensures
        text@ == seq![digit(d as nat)],
{
    proof {
        reveal_strlit("0");
        reveal_strlit("1");
        reveal_strlit("2");
        reveal_strlit("3");
        reveal_strlit("4");
        reveal_strlit("5");
        reveal_strlit("6");
        reveal_strlit("7");
        reveal_strlit("8");
        reveal_strlit("9");
    }
    match d {
        0 => "0",
        1 => "1",
        2 => "2",
        3 => "3",
        4 => "4",
        5 => "5",
        6 => "6",
        7 => "7",
        8 => "8",
        _ => "9",
    }
}

/// The decimal numeral of `n`.
pub(crate) fn decimal_text(n: u128) -> (text: String)
    ensures
        text@ == decimal(n as nat),
    decreases n,
{
    let last: &str = digit_text((n % 10) as u8);
    if n < 10 {
        last.to_owned()
    } else {
        let mut text = decimal_text(n / 10);
        text.append(last);
        assert(text@ =~= decimal((n / 10) as nat).push(digit((n % 10) as nat)));
        text
    }
}

/// What follows `prefix` in `text`, if the text begins with it.
pub(crate) fn strip_prefix<'a>(text: &'a str, prefix: &str) -> (rest: Option<&'a str>)
    ensures
        match rest {
            Some(rest) => prefix@.is_prefix_of(text@) && rest@ == text@.skip(
                prefix@.len() as int,
            ),
            None => !prefix@.is_prefix_of(text@),
        },
{
    let len: usize = text.unicode_len();
    let prefix_len: usize = prefix.unicode_len();
    if len < prefix_len {
        return None;
    }
    let mut i: usize = 0;
    while i < prefix_len
        invariant
            i <= prefix_len <= len,
            len == text@.len(),
            prefix_len == prefix@.len(),
            forall|j: int| 0 <= j < i ==> text@[j] == prefix@[j],
        decreases prefix_len - i,
    {
        if text.get_char(i) != prefix.get_char(i) {
            return None;
        }
        i += 1;
    }
    Some(text.substring_char(prefix_len, len))
}

/// Decides whether `text` begins with `prefix`.
pub(crate) fn starts_with(text: &str, prefix: &str) -> (found: bool)
    ensures
        found == prefix@.is_prefix_of(text@),
{
    strip_prefix(text, prefix).is_some()
}

/// Decides whether two texts hold the same characters.
pub(crate) fn same_text(a: &str, b: &str) -> (same: bool)
    ensures
        same == (a@ == b@),
{
    match strip_prefix(a, b) {
        Some(rest) => {
            assert(rest@.len() == 0 ==> a@ =~= b@);
            rest.is_empty()
        },
        None => false,
    }
}

} // verus!
