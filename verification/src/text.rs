//! Small text helpers shared by the other modules.

use vstd::prelude::*;

verus! {

/// The character that writes the decimal digit `d`.
pub open spec fn digit_char(d: nat) -> char {
    if d == 0 {
        '0'
    } else if d == 1 {
        '1'
    } else if d == 2 {
        '2'
    } else if d == 3 {
        '3'
    } else if d == 4 {
        '4'
    } else if d == 5 {
        '5'
    } else if d == 6 {
        '6'
    } else if d == 7 {
        '7'
    } else if d == 8 {
        '8'
    } else {
        '9'
    }
}

/// Decimal notation of `n`, most significant digit first, without padding.
pub open spec fn decimal(n: nat) -> Seq<char>
    decreases n,
{
    if n < 10 {
        seq![digit_char(n)]
    } else {
        decimal(n / 10).push(digit_char(n % 10))
    }
}

/// One-character text for a single decimal digit.
fn digit_str(d: u16) -> (s: &'static str)
    requires
        d < 10,
    ensures
        s@ == seq![digit_char(d as nat)],
{
    proof {
        reveal_strlit("0");
        reveal_strlit("1");
        reveal_strlit("2");
        reveal_strlit("3");
        reveal_strlit("4");
        reveal_strlit("5");
        reveal_strlit("6");
        reveal_strlit("7");
        reveal_strlit("8");
        reveal_strlit("9");
    }
    let s = if d == 0 {
        "0"
    } else if d == 1 {
        "1"
    } else if d == 2 {
        "2"
    } else if d == 3 {
        "3"
    } else if d == 4 {
        "4"
    } else if d == 5 {
        "5"
    } else if d == 6 {
        "6"
    } else if d == 7 {
        "7"
    } else if d == 8 {
        "8"
    } else {
        "9"
    };
    assert(s@ =~= seq![digit_char(d as nat)]);
    s
}

/// Writes `n` in decimal notation.
pub fn decimal_string(n: u16) -> (s: String)
    ensures
        s@ == decimal(n as nat),
    decreases n,
{
    if n < 10 {
        String::from_str(digit_str(n))
    } else {
        let mut s = decimal_string(n / 10);
        s.append(digit_str(n % 10));
        assert(s@ =~= decimal(n as nat));
        s
    }
}

/// Whether two texts hold the same characters.
pub fn same_text(a: &str, b: &str) -> (same: bool)
    ensures
        same == (a@ == b@),
{
    let left = String::from_str(a);
    let right = String::from_str(b);
    left == right
}

/// The word the wire format uses for a flag.
pub open spec fn yes_no_text(flag: bool) -> Seq<char> {
    if flag {
        "yes"@
    } else {
        "no"@
    }
}

/// Writes a flag the way the wire format wants it: `yes` or `no`.
pub fn yes_no(flag: bool) -> (word: &'static str)
    ensures
        word@ == yes_no_text(flag),
{
    if flag {
        "yes"
    } else {
        "no"
    }
}

/// Writes an optional flag the way the wire format wants it, keeping an
/// absent one absent.
pub fn serialize_bool_as_yes_no(value: Option<bool>) -> (word: Option<&'static str>)
    ensures
        value is None ==> word is None,
        value matches Some(flag) ==> (word matches Some(w) && w@ == yes_no_text(flag)),
{
    match value {
        Some(flag) => Some(yes_no(flag)),
        None => None,
    }
}

/// Reads a flag from the wire format: `yes` is true, anything else false.
pub fn deserialize_yes_no_as_bool(word: &str) -> (flag: bool)
    ensures
        flag == (word@ == "yes"@),
{
    same_text(word, "yes")
}

/// The two words of the wire format differ, so a flag written and read back
/// is the flag that was written.
pub proof fn lemma_yes_no_round_trip(flag: bool)
    ensures
        (yes_no_text(flag) == "yes"@) == flag,
{
    reveal_strlit("yes");
    reveal_strlit("no");
    assert("yes"@.len() == 3);
    assert("no"@.len() == 2);
}

} // verus!
