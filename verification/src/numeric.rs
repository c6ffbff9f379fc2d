use vstd::prelude::*;

verus! {

/// The decimal digit character for `d` in `0..10`.
pub open spec fn dec_digit(d: int) -> char {
    if d == 0 {
        '0'
    } else if d == 1 {
        '1'
    } else if d == 2 {
        '2'
    } else if d == 3 {
        '3'
    } else if d == 4 {
        '4'
    } else if d == 5 {
        '5'
    } else if d == 6 {
        '6'
    } else if d == 7 {
        '7'
    } else if d == 8 {
        '8'
    } else {
        '9'
    }
}

/// The lowercase hexadecimal digit character for `d` in `0..16`.
pub open spec fn hex_digit(d: int) -> char {
    if d < 10 {
        dec_digit(d)
    } else if d == 10 {
        'a'
    } else if d == 11 {
        'b'
    } else if d == 12 {
        'c'
    } else if d == 13 {
        'd'
    } else if d == 14 {
        'e'
    } else {
        'f'
    }
}

/// The canonical decimal rendering of `n`: no sign, no leading zeros
/// (a single `'0'` for zero).
pub open spec fn dec_str(n: nat) -> Seq<char>
    decreases n,
{
    if n < 10 {
        seq![dec_digit(n as int)]
    } else {
        dec_str(n / 10) + seq![dec_digit((n % 10) as int)]
    }
}

/// The decimal digit character for `d < 10`.
pub fn dec_digit_char(d: u64) -> (c: char)
    requires
        d < 10,
    ensures
        c == dec_digit(d as int),
{
    if d == 0 {
        '0'
    } else if d == 1 {
        '1'
    } else if d == 2 {
        '2'
    } else if d == 3 {
        '3'
    } else if d == 4 {
        '4'
    } else if d == 5 {
        '5'
    } else if d == 6 {
        '6'
    } else if d == 7 {
        '7'
    } else if d == 8 {
        '8'
    } else {
        '9'
    }
}

/// The lowercase hexadecimal digit character for `d < 16`.
pub fn hex_digit_char(d: u64) -> (c: char)
    requires
        d < 16,
    ensures
        c == hex_digit(d as int),
{
    if d < 10 {
        dec_digit_char(d)
    } else if d == 10 {
        'a'
    } else if d == 11 {
        'b'
    } else if d == 12 {
        'c'
    } else if d == 13 {
        'd'
    } else if d == 14 {
        'e'
    } else {
        'f'
    }
}

/// The canonical decimal rendering of `n`, as characters.
pub fn u64_to_chars(n: u64) -> (v: Vec<char>)
    ensures
        v@ == dec_str(n as nat),
{
    let mut rev: Vec<char> = Vec::new();
    let mut m: u64 = n;
    while m >= 10
        invariant
            dec_str(n as nat) =~= dec_str(m as nat) + rev@.reverse(),
        decreases m,
    {
        let d = dec_digit_char(m % 10);
        proof {
            assert(dec_str(m as nat) == dec_str((m as nat) / 10) + seq![
                dec_digit(((m as nat) % 10) as int),
            ]);
            assert(rev@.push(d).reverse() =~= seq![d] + rev@.reverse());
        }
        rev.push(d);
        m = m / 10;
    }
    let d = dec_digit_char(m);
    proof {
        assert(rev@.push(d).reverse() =~= seq![d] + rev@.reverse());
        assert(dec_str(m as nat) == seq![dec_digit(m as int)]);
    }
    rev.push(d);
    let ghost target = dec_str(n as nat);
    proof {
        assert(rev@.reverse() =~= target);
    }
    let mut out: Vec<char> = Vec::new();
    let len = rev.len();
    for k in 0..len
        invariant
            len == rev@.len(),
            out@.len() == k,
            forall|j: int| 0 <= j < k ==> out@[j] == rev@[len - 1 - j],
            rev@.reverse() =~= target,
    {
        out.push(rev[len - 1 - k]);
    }
    proof {
        assert(out@ =~= rev@.reverse());
    }
    out
}

} // verus!
