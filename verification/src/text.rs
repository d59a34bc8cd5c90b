//! Working with text: numbers in decimal, and the part of a header before
//! its colon.

use vstd::prelude::*;
use vstd::string::StrSliceExecFns;
use vstd::string::StringExecFns;

verus! {

/// The text of an optional string.
pub open spec fn text_of(s: Option<String>) -> Option<Seq<char>> {
    match s {
        Some(t) => Some(t@),
        None => None,
    }
}

/// The character that writes the digit `d` (meant for `d < 10`).
pub open spec fn digit_char(d: nat) -> char {
    ('0' as nat + d) as char
}

/// The decimal numeral of `n`: most significant digit first, no sign, no
/// leading zero (and `"0"` for zero).
pub open spec fn decimal(n: nat) -> Seq<char>
    decreases n,
{
    if n < 10 {
        seq![digit_char(n)]
    } else {
        decimal(n / 10).push(digit_char(n % 10))
    }
}

/// The text of a single decimal digit.
fn digit(d: u8) -> (text: &'static str)
    requires
        d < 10,
    ensures
        text@ == seq![digit_char(d as nat)],
{
    proof {
        reveal_strlit("0");
        reveal_strlit("1");
        reveal_strlit("2");
        reveal_strlit("3");
        reveal_strlit("4");
        reveal_strlit("5");
        reveal_strlit("6");
        reveal_strlit("7");
        reveal_strlit("8");
        reveal_strlit("9");
    }
    match d {
        0 => "0",
        1 => "1",
        2 => "2",
        3 => "3",
        4 => "4",
        5 => "5",
        6 => "6",
        7 => "7",
        8 => "8",
        _ => "9",
    }
}

/// Appends the decimal numeral of `n` to `out`.
pub fn push_decimal(out: &mut String, n: u128)
    ensures
        final(out)@ == old(out)@ + decimal(n as nat),
    decreases n,
{
    if n >= 10 {
        push_decimal(out, n / 10);
    }
    let low: u8 = (n % 10) as u8;
    out.append(digit(low));
}

/// The decimal numeral of `n` as a fresh string.
pub fn to_decimal(n: u128) -> (s: String)
    ensures
        s@ == decimal(n as nat),
{
    let mut s = String::new();
    push_decimal(&mut s, n);
    s
}

/// The part of `header` before its first colon; all of it when it has none.
pub open spec fn before_colon(header: Seq<char>) -> Seq<char> {
    match header.index_of_first(':') {
        Some(i) => header.take(i),
        None => header,
    }
}

/// Computes [`before_colon`].
pub fn up_to_colon(header: &str) -> (head: String)
    ensures
        head@ == before_colon(header@),
{
    let length = header.unicode_len();
    let mut cut: usize = 0;
    let mut open = true;
    for c in it: header.chars()
        invariant
            it.seq() == header@,
            length == header@.len(),
            open ==> cut == it.index(),
            !open ==> cut < it.index() && header@[cut as int] == ':',
            cut <= header@.len(),
            forall|j: int| 0 <= j < cut ==> header@[j] != ':',
    {
        if open {
            if c == ':' {
                open = false;
            } else {
                cut += 1;
            }
        }
    }
    proof {
        // `cut` is where the first colon stands, or the length when there
        // is none.
        header@.index_of_first_ensures(':');
    }
    String::from_str(header.substring_char(0, cut))
}

/// What [`before_colon`] cuts off: the result is the longest beginning of
/// `header` that holds no colon.
pub proof fn law_before_colon_is_longest_colon_free_prefix(header: Seq<char>)
    ensures
        before_colon(header).is_prefix_of(header),
        !before_colon(header).contains(':'),
        before_colon(header).len() == header.len() || header[before_colon(
            header,
        ).len() as int] == ':',
{
    header.index_of_first_ensures(':');
    let head = before_colon(header);
    assert forall|j: int| 0 <= j < head.len() implies head[j] != ':' by {}
}

} // verus!
