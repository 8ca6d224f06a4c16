//! Small text utilities shared by every stage: string equality at the level
//! of character sequences, and appending a single character.

use vstd::prelude::*;

verus! {

/// Character-for-character equality of two string slices.
pub fn str_eq(a: &str, b: &str) -> (r: bool)
    ensures
        r == (a@ == b@),
{
    let ao: String = a.to_owned();
    let bo: String = b.to_owned();
    ao == bo
}

/// Relies on std's String::push: appends the given character to the end of
/// the string.
#[verifier::external_body]
pub fn push_char(s: &mut String, c: char)
    ensures
        final(s)@ == old(s)@.push(c),
{
    s.push(c);
}


/// Relies on std's str::chars: the characters of the text, in order, as a
/// vector.
#[verifier::external_body]
pub fn chars_vec(s: &str) -> (r: Vec<char>)
    ensures
        r@ == s@,
{
    s.chars().collect()
}

/// The decimal digit character for a value below ten.
pub open spec fn digit_char(d: nat) -> char {
    if d == 0 { '0' }
    else if d == 1 { '1' }
    else if d == 2 { '2' }
    else if d == 3 { '3' }
    else if d == 4 { '4' }
    else if d == 5 { '5' }
    else if d == 6 { '6' }
    else if d == 7 { '7' }
    else if d == 8 { '8' }
    else { '9' }
}

/// The decimal spelling of a natural number, most significant digit first.
pub open spec fn dec_str(n: nat) -> Seq<char>
    decreases n,
{
    if n < 10 {
        seq![digit_char(n)]
    } else {
        dec_str(n / 10).push(digit_char(n % 10))
    }
}

/// The decimal spelling of `n`.
pub fn usize_text(n: usize) -> (r: String)
    ensures
        r@ == dec_str(n as nat),
{
    let mut digits: Vec<char> = Vec::new();
    let mut m: usize = n;
    proof {
        assert(digits@.reverse() =~= Seq::<char>::empty());
        assert(dec_str(n as nat) + digits@.reverse() =~= dec_str(n as nat));
    }
    loop
        invariant_except_break
            dec_str(n as nat) == dec_str(m as nat) + digits@.reverse(),
        ensures
            dec_str(n as nat) == digits@.reverse(),
        decreases m,
    {
        let ghost m_pre = m as nat;
        let d: usize = m % 10;
        let c: char = match d {
            0 => '0',
            1 => '1',
            2 => '2',
            3 => '3',
            4 => '4',
            5 => '5',
            6 => '6',
            7 => '7',
            8 => '8',
            _ => '9',
        };
        proof {
            assert(c == digit_char(m_pre % 10));
        }
        let ghost digits_pre = digits@;
        digits.push(c);
        proof {
            assert(digits@.reverse() =~= seq![c] + digits_pre.reverse());
        }
        if m < 10 {
            proof {
                assert(dec_str(m_pre) == seq![digit_char(m_pre)]);
                assert(seq![digit_char(m_pre)] + digits_pre.reverse() =~= digits@.reverse());
            }
            break;
        }
        m = m / 10;
        proof {
            assert(dec_str(m_pre) == dec_str(m_pre / 10).push(digit_char(m_pre % 10)));
            assert(dec_str(m as nat).push(c) + digits_pre.reverse() =~= dec_str(m as nat)
                + digits@.reverse());
        }
    }
    let mut out = String::new();
    let k = digits.len();
    let mut i: usize = 0;
    while i < k
        invariant
            k == digits@.len(),
            i <= k,
            out@ == digits@.reverse().subrange(0, i as int),
            dec_str(n as nat) == digits@.reverse(),
        decreases k - i,
    {
        push_char(&mut out, digits[k - 1 - i]);
        proof {
            assert(digits@.reverse()[i as int] == digits@[k - 1 - i]);
            assert(out@ =~= digits@.reverse().subrange(0, i + 1));
        }
        i = i + 1;
    }
    proof {
        assert(digits@.reverse().subrange(0, k as int) =~= digits@.reverse());
    }
    out
}

} // verus!
