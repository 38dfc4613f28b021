//! Small string-building helpers shared by the encoders.

use vstd::prelude::*;

verus! {

/// Relies on String::push: appends exactly the one given character.
#[verifier::external_body]
pub fn push_char(s: &mut String, c: char)
    ensures
        final(s)@ == old(s)@.push(c),
{
    s.push(c);
}

/// The decimal digit character for a value below 10.
pub open spec fn dec_char(n: nat) -> char
    recommends
        n < 10,
{
    ((0x30 + n) as u8) as char
}

/// The decimal digits of a number, most significant first, with no leading
/// zeros (a single `0` for zero).
pub open spec fn dec_chars(n: nat) -> Seq<char>
    decreases n,
{
    if n < 10 {
        seq![dec_char(n)]
    } else {
        dec_chars(n / 10) + seq![dec_char(n % 10)]
    }
}

/// Render a number in decimal.
pub fn usize_string(n: usize) -> (r: String)
    ensures
        r@ == dec_chars(n as nat),
    decreases n,
{
    let d = (n % 10) as u8;
    let c = (0x30u8 + d) as char;
    if n < 10 {
        let mut s = String::new();
        push_char(&mut s, c);
        assert(Seq::<char>::empty().push(c) =~= seq![dec_char(n as nat)]);
        s
    } else {
        let mut s = usize_string(n / 10);
        push_char(&mut s, c);
        assert(dec_chars((n / 10) as nat).push(c) =~= dec_chars((n / 10) as nat) + seq![
            dec_char((n % 10) as nat),
        ]);
        s
    }
}

/// The characters `true` and `false` are written with.
pub open spec fn bool_chars(b: bool) -> Seq<char> {
    if b {
        "true"@
    } else {
        "false"@
    }
}

/// Render a boolean as `true` or `false`.
pub fn bool_string(b: bool) -> (r: String)
    ensures
        r@ == bool_chars(b),
{
    if b {
        "true".to_owned()
    } else {
        "false".to_owned()
    }
}

} // verus!
