//! Byte-string utilities shared by the URL and path builders: ASCII
//! conversion, decimal formatting and parsing, and substring search.

use vstd::prelude::*;

verus! {

/// The bytes of an ASCII string, one byte per character; characters
/// outside the ASCII range are replaced by `?` (the builders only ever
/// pass ASCII literals).
pub open spec fn ascii_seq(s: Seq<char>) -> Seq<u8> {
    s.map_values(|c: char| if c as u32 <= 127 { (c as u32) as u8 } else { 63u8 })
}

/// Converts a string slice to its ASCII bytes, replacing any non-ASCII
/// character by `?`.
pub fn str_to_bytes(s: &str) -> (r: Vec<u8>)
    ensures
        r@ == ascii_seq(s@),
{
    let n = s.unicode_len();
    let mut r: Vec<u8> = Vec::new();
    let mut i: usize = 0;
    while i < n
        invariant
            n == s@.len(),
            i <= n,
            r@ == ascii_seq(s@).take(i as int),
        decreases n - i,
    {
        let c = s.get_char(i);
        let u = c as u32;
        if u <= 127 {
            r.push(u as u8);
        } else {
            r.push(63u8);
        }
        proof {
            assert(r@ =~= ascii_seq(s@).take(i + 1));
        }
        i = i + 1;
    }
    proof {
        assert(r@ =~= ascii_seq(s@));
    }
    r
}

/// Appends all of `src` to `dst`.
pub fn push_bytes(dst: &mut Vec<u8>, src: &Vec<u8>)
    ensures
        final(dst)@ == old(dst)@ + src@,
{
    let mut i: usize = 0;
    while i < src.len()
        invariant
            i <= src@.len(),
            dst@ == old(dst)@ + src@.take(i as int),
        decreases src@.len() - i,
    {
        dst.push(src[i]);
        proof {
            assert(old(dst)@ + src@.take(i as int) + seq![src@[i as int]] =~= old(dst)@ + src@.take(
                i + 1,
            ));
        }
        i = i + 1;
    }
    proof {
        assert(old(dst)@ + src@.take(src@.len() as int) =~= old(dst)@ + src@);
    }
}

/// The decimal digit string of a natural number, most significant digit
/// first, without leading zeros (the number zero is the single digit `0`).
pub open spec fn dec_of(n: nat) -> Seq<u8>
    decreases n,
{
    if n < 10 {
        seq![(48 + n) as u8]
    } else {
        dec_of(n / 10).push((48 + n % 10) as u8)
    }
}

/// Formats an unsigned number in decimal.
pub fn u64_to_dec(n: u64) -> (r: Vec<u8>)
    ensures
        r@ == dec_of(n as nat),
    decreases n,
{
    if n < 10 {
        let mut r: Vec<u8> = Vec::new();
        r.push(48 + (n as u8));
        proof {
            assert(r@ =~= dec_of(n as nat));
        }
        r
    } else {
        let mut r = u64_to_dec(n / 10);
        r.push(48 + ((n % 10) as u8));
        r
    }
}

/// The decimal digit string of an integer: a leading `-` for a negative
/// value, then the digits of its magnitude.
pub open spec fn int_dec(i: int) -> Seq<u8> {
    if i < 0 {
        seq![45u8] + dec_of((-i) as nat)
    } else {
        dec_of(i as nat)
    }
}

/// Formats a signed number in decimal.
pub fn i32_to_dec(n: i32) -> (r: Vec<u8>)
    ensures
        r@ == int_dec(n as int),
{
    if n < 0 {
        let m: u64 = (-(n as i64)) as u64;
        let mut r: Vec<u8> = Vec::new();
        r.push(45u8);
        let digits = u64_to_dec(m);
        push_bytes(&mut r, &digits);
        proof {
            assert(r@ =~= int_dec(n as int));
        }
        r
    } else {
        u64_to_dec(n as u64)
    }
}

/// Compares two byte strings for equality.
pub fn bytes_eq(a: &Vec<u8>, b: &Vec<u8>) -> (r: bool)
    ensures
        r == (a@ == b@),
{
    if a.len() != b.len() {
        assert(a@ != b@) by {
            assert(a@.len() != b@.len());
        }
        return false;
    }
    let mut i: usize = 0;
    while i < a.len()
        invariant
            a@.len() == b@.len(),
            i <= a@.len(),
            forall|k: int| 0 <= k < i ==> a@[k] == b@[k],
        decreases a@.len() - i,
    {
        if a[i] != b[i] {
            return false;
        }
        i = i + 1;
    }
    proof {
        assert(a@ =~= b@);
    }
    true
}

/// Copies a byte string.
pub fn clone_bytes(v: &Vec<u8>) -> (r: Vec<u8>)
    ensures
        r@ == v@,
{
    let mut r: Vec<u8> = Vec::new();
    push_bytes(&mut r, v);
    r
}

/// Whether every byte of `s` is a decimal digit.
pub open spec fn all_digits(s: Seq<u8>) -> bool {
    forall|i: int| 0 <= i < s.len() ==> 48 <= #[trigger] s[i] <= 57
}

/// The value of a digit string read in base ten.
pub open spec fn digits_val(s: Seq<u8>) -> nat
    decreases s.len(),
{
    if s.len() == 0 {
        0
    } else {
        (digits_val(s.drop_last()) * 10 + (s.last() - 48)) as nat
    }
}

proof fn lemma_digits_val_prefix_le(s: Seq<u8>, i: int)
    requires
        0 <= i <= s.len(),
        all_digits(s),
    ensures
        digits_val(s.take(i)) <= digits_val(s),
    decreases s.len() - i,
{
    if i < s.len() {
        lemma_digits_val_prefix_le(s, i + 1);
        assert(s.take(i + 1).drop_last() =~= s.take(i));
        assert(digits_val(s.take(i + 1)) == digits_val(s.take(i)) * 10 + (s.take(i + 1).last()
            - 48));
        assert(digits_val(s.take(i)) <= digits_val(s.take(i)) * 10);
    } else {
        assert(s.take(i) =~= s);
    }
}

/// Parses a decimal digit string. Returns the value exactly when the
/// input is a non-empty string of digits whose value fits in a `u64`.
pub fn parse_decimal(s: &Vec<u8>) -> (r: Option<u64>)
    ensures
        r matches Some(v) <==> (s@.len() > 0 && all_digits(s@) && digits_val(s@) <= u64::MAX),
        r matches Some(v) ==> v == digits_val(s@),
{
    if s.len() == 0 {
        return None;
    }
    let mut acc: u64 = 0;
    let mut i: usize = 0;
    while i < s.len()
        invariant
            i <= s@.len(),
            all_digits(s@.take(i as int)),
            acc == digits_val(s@.take(i as int)),
        decreases s@.len() - i,
    {
        let b = s[i];
        if b < 48 || b > 57 {
            assert(!all_digits(s@)) by {
                assert(s@[i as int] == b);
            }
            return None;
        }
        let d: u64 = (b - 48) as u64;
        if acc > u64::MAX / 10 || acc * 10 > u64::MAX - d {
            proof {
                assert(s@.take(i + 1).drop_last() =~= s@.take(i as int));
                assert(digits_val(s@.take(i + 1)) > u64::MAX);
                if all_digits(s@) {
                    lemma_digits_val_prefix_le(s@, i + 1);
                }
            }
            return None;
        }
        acc = acc * 10 + d;
        proof {
            assert(s@.take(i + 1).drop_last() =~= s@.take(i as int));
            assert(all_digits(s@.take(i + 1)));
        }
        i = i + 1;
    }
    proof {
        assert(s@.take(s@.len() as int) =~= s@);
    }
    Some(acc)
}

/// Whether `needle` occurs as a contiguous run of bytes inside `hay`.
pub open spec fn contains_sub(hay: Seq<u8>, needle: Seq<u8>) -> bool {
    exists|i: int|
        0 <= i && i + needle.len() <= hay.len() && #[trigger] hay.subrange(
            i,
            i + needle.len() as int,
        ) =~= needle
}

/// Substring search: reports whether `needle` occurs inside `hay`.
pub fn contains_seq(hay: &Vec<u8>, needle: &Vec<u8>) -> (r: bool)
    ensures
        r == contains_sub(hay@, needle@),
{
    let n = needle.len();
    let h = hay.len();
    if n > h {
        assert(!contains_sub(hay@, needle@));
        return false;
    }
    let mut i: usize = 0;
    while i <= h - n
        invariant
            n == needle@.len(),
            h == hay@.len(),
            n <= h,
            i <= h - n + 1,
            forall|k: int|
                0 <= k < i ==> !(#[trigger] hay@.subrange(k, k + needle@.len() as int)
                    =~= needle@),
        decreases h - n - i + 1,
    {
        let mut j: usize = 0;
        let mut matched = true;
        while j < n
            invariant
                n == needle@.len(),
                h == hay@.len(),
                n <= h,
                i <= h - n,
                j <= n,
                matched ==> forall|k: int| 0 <= k < j ==> hay@[i + k] == needle@[k],
                !matched ==> !(hay@.subrange(i as int, i + needle@.len() as int) =~= needle@),
            decreases n - j,
        {
            if hay[i + j] != needle[j] {
                proof {
                    assert(hay@.subrange(i as int, i + needle@.len() as int)[j as int] != needle@[j as int]);
                }
                matched = false;
                j = n;
            } else {
                j = j + 1;
            }
        }
        if matched {
            proof {
                assert(hay@.subrange(i as int, i + needle@.len() as int) =~= needle@);
            }
            return true;
        }
        i = i + 1;
    }
    proof {
        assert forall|k: int| 0 <= k && k + needle@.len() <= hay@.len() implies !(
        #[trigger] hay@.subrange(k, k + needle@.len() as int) =~= needle@) by {
            assert(k < i);
        }
    }
    false
}

} // verus!
