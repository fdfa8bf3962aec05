//! Building strings one character at a time.

use vstd::prelude::*;

verus! {

/// `String::push` appends one character to the end of the string, as std documents.
pub assume_specification[ String::push ](s: &mut String, ch: char)
    ensures
        final(s)@ == old(s)@.push(ch),
;

/// `String::push_str` appends the given string slice to the end of the string, as std
/// documents.
pub assume_specification[ String::push_str ](s: &mut String, string: &str)
    ensures
        final(s)@ == old(s)@ + string@,
;

/// The decimal digits of `n`, most significant first, with no leading zeros.
pub open spec fn decimal(n: u8) -> Seq<char> {
    if n < 10 {
        seq![(n + 48) as char]
    } else if n < 100 {
        seq![(n / 10 + 48) as char, (n % 10 + 48) as char]
    } else {
        seq![(n / 100 + 48) as char, (n / 10 % 10 + 48) as char, (n % 10 + 48) as char]
    }
}

/// The digit character of `d`, for `d < 10`.
fn digit(d: u8) -> (c: char)
    requires
        d < 10,
    ensures
        c == (d + 48) as char,
{
    (d + 48) as char
}

/// Appends `n` in decimal.
pub fn push_decimal(s: &mut String, n: u8)
    ensures
        final(s)@ == old(s)@ + decimal(n),
{
    if n >= 100 {
        s.push(digit(n / 100));
    }
    if n >= 10 {
        s.push(digit(n / 10 % 10));
    }
    s.push(digit(n % 10));
    assert(final(s)@ =~= old(s)@ + decimal(n));
}

/// A string of one character.
pub fn char_to_string(c: char) -> (s: String)
    ensures
        s@ == seq![c],
{
    let mut s = String::new();
    s.push(c);
    s
}


/// The number a string of decimal digits reads as, most significant digit first.
pub open spec fn decimal_value(s: Seq<char>) -> int
    decreases s.len(),
{
    if s.len() == 0 {
        0
    } else {
        decimal_value(s.drop_last()) * 10 + (s.last() as int - '0' as int)
    }
}

/// The decimal form of a number is made of digits, starts with a non-zero digit unless
/// the number is 0, and reads back as the number.
pub proof fn lemma_decimal_reads_back(n: u8)
    ensures
        decimal_value(decimal(n)) == n,
        forall|i: int| 0 <= i < decimal(n).len() ==> '0' <= #[trigger] decimal(n)[i] <= '9',
        decimal(n).len() > 1 ==> decimal(n)[0] != '0',
{
    let s = decimal(n);
    let h = n / 100;
    let t = n / 10 % 10;
    let u = n % 10;
    assert(((h + 48) as char) as int == h + 48);
    assert(((t + 48) as char) as int == t + 48);
    assert(((u + 48) as char) as int == u + 48);
    assert(((n / 10 + 48) as char) as int == n / 10 + 48);
    assert(((n + 48) as char) as int == n + 48 || n >= 10);
    if n < 10 {
        assert(s.drop_last() =~= Seq::<char>::empty());
        assert(decimal_value(s) == decimal_value(s.drop_last()) * 10 + (s.last() as int - 48));
    } else if n < 100 {
        let s1 = s.drop_last();
        assert(s1 =~= seq![(n / 10 + 48) as char]);
        assert(s1.drop_last() =~= Seq::<char>::empty());
        assert(decimal_value(s1) == decimal_value(s1.drop_last()) * 10 + (s1.last() as int - 48));
        assert(decimal_value(s) == decimal_value(s1) * 10 + (s.last() as int - 48));
        assert(n == (n / 10) * 10 + n % 10);
    } else {
        let s1 = s.drop_last();
        let s2 = s1.drop_last();
        assert(s1 =~= seq![(h + 48) as char, (t + 48) as char]);
        assert(s2 =~= seq![(h + 48) as char]);
        assert(s2.drop_last() =~= Seq::<char>::empty());
        assert(decimal_value(s2) == decimal_value(s2.drop_last()) * 10 + (s2.last() as int - 48));
        assert(decimal_value(s1) == decimal_value(s2) * 10 + (s1.last() as int - 48));
        assert(decimal_value(s) == decimal_value(s1) * 10 + (s.last() as int - 48));
        assert(n == h * 100 + t * 10 + u);
    }
}

} // verus!
