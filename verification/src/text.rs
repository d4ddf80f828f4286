//! Small verified helpers: decimal rendering of integers and joining of path
//! components.

use vstd::prelude::*;

verus! {

/// The character of a decimal digit.
pub open spec fn digit_char(d: nat) -> char {
    seq!['0', '1', '2', '3', '4', '5', '6', '7', '8', '9'][d as int]
}

/// Decimal rendering of a natural number, most significant digit first,
/// without leading zeros.
pub open spec fn nat_text(n: nat) -> Seq<char>
    decreases n,
{
    if n < 10 {
        seq![digit_char(n)]
    } else {
        nat_text(n / 10).push(digit_char(n % 10))
    }
}

/// Decimal rendering of an integer, with a leading `-` when it is negative.
pub open spec fn int_text(i: int) -> Seq<char> {
    if i < 0 {
        seq!['-'] + nat_text((-i) as nat)
    } else {
        nat_text(i as nat)
    }
}

/// The byte of the path separator `/`.
pub open spec fn separator() -> u8 {
    0x2f
}

/// Appending a relative component to a path, both taken as the bytes the
/// operating system uses: a separator is inserted unless the path is empty
/// or already ends with one.
pub open spec fn path_join(base: Seq<u8>, comp: Seq<u8>) -> Seq<u8> {
    if base.len() == 0 || base.last() == separator() {
        base + comp
    } else {
        base + seq![separator()] + comp
    }
}

fn digit_str(d: u64) -> (s: &'static str)
    requires
        d < 10,
    ensures
        s@ == seq![digit_char(d as nat)],
{
    if d == 0 {
        proof { reveal_strlit("0"); }
        "0"
    } else if d == 1 {
        proof { reveal_strlit("1"); }
        "1"
    } else if d == 2 {
        proof { reveal_strlit("2"); }
        "2"
    } else if d == 3 {
        proof { reveal_strlit("3"); }
        "3"
    } else if d == 4 {
        proof { reveal_strlit("4"); }
        "4"
    } else if d == 5 {
        proof { reveal_strlit("5"); }
        "5"
    } else if d == 6 {
        proof { reveal_strlit("6"); }
        "6"
    } else if d == 7 {
        proof { reveal_strlit("7"); }
        "7"
    } else if d == 8 {
        proof { reveal_strlit("8"); }
        "8"
    } else {
        proof { reveal_strlit("9"); }
        "9"
    }
}

/// Renders a natural number in decimal.
pub fn nat_to_text(n: u64) -> (s: String)
    ensures
        s@ == nat_text(n as nat),
    decreases n,
{
    if n < 10 {
        String::from_str(digit_str(n))
    } else {
        let mut s = nat_to_text(n / 10);
        s.append(digit_str(n % 10));
        s
    }
}

/// Renders an integer in decimal, as `{}` formatting does.
pub fn int_to_text(i: i32) -> (s: String)
    ensures
        s@ == int_text(i as int),
{
    if i < 0 {
        let magnitude: u64 = (0i64 - (i as i64)) as u64;
        let digits = nat_to_text(magnitude);
        proof { reveal_strlit("-"); }
        let s = String::from_str("-");
        s.concat(digits.as_str())
    } else {
        nat_to_text(i as u64)
    }
}

fn append_bytes(r: &mut Vec<u8>, s: &[u8])
    ensures
        final(r)@ == old(r)@ + s@,
{
    let n = s.len();
    for i in 0..n
        invariant
            n == s@.len(),
            r@ == old(r)@ + s@.take(i as int),
    {
        r.push(s[i]);
        assert(s@.take(i + 1) =~= s@.take(i as int).push(s@[i as int]));
    }
    assert(s@.take(n as int) =~= s@);
}

/// Appends the relative component `comp` to the path `base`.
pub fn join_path(base: &[u8], comp: &[u8]) -> (r: Vec<u8>)
    ensures
        r@ == path_join(base@, comp@),
{
    let mut r: Vec<u8> = Vec::new();
    append_bytes(&mut r, base);
    let n = base.len();
    if n != 0 && base[n - 1] != 0x2f {
        r.push(0x2f);
    }
    append_bytes(&mut r, comp);
    assert(r@ =~= path_join(base@, comp@));
    r
}

} // verus!
