//! Tag encoding: each raw tag is percent-encoded on its own and the
//! results are joined with a literal `+`, exactly as the listing
//! endpoints expect. The inverse (splitting on `+` and percent-decoding
//! each piece) recovers the original tags; see
//! [`lemma_fragment_round_trip`].

use vstd::prelude::*;

use crate::text::push_bytes;

verus! {

/// Bytes that percent-encoding leaves as they are: ASCII alphanumerics
/// and `-`, `.`, `_`, `~`.
pub open spec fn is_unreserved(b: u8) -> bool {
    (48 <= b <= 57) || (65 <= b <= 90) || (97 <= b <= 122) || b == 45 || b == 46 || b == 95
        || b == 126
}

/// The ASCII digit standing for a value below sixteen, `A` to `F` for
/// ten to fifteen.
pub open spec fn hex_digit(n: u8) -> u8 {
    if n < 10 {
        (48 + n) as u8
    } else {
        (55 + n) as u8
    }
}

/// The value of an ASCII hexadecimal digit, uppercase or lowercase.
pub open spec fn hex_val(b: u8) -> u8 {
    if 48 <= b <= 57 {
        (b - 48) as u8
    } else if 65 <= b <= 70 {
        (b - 55) as u8
    } else if 97 <= b <= 102 {
        (b - 87) as u8
    } else {
        0
    }
}

/// Percent-encoding of one byte: an unreserved byte stands as it is,
/// any other becomes `%` followed by two uppercase hex digits.
pub open spec fn enc_byte(b: u8) -> Seq<u8> {
    if is_unreserved(b) {
        seq![b]
    } else {
        seq![37u8, hex_digit(b / 16), hex_digit(b % 16)]
    }
}

/// Percent-encoding of a whole byte string.
pub open spec fn enc_bytes(s: Seq<u8>) -> Seq<u8>
    decreases s.len(),
{
    if s.len() == 0 {
        Seq::<u8>::empty()
    } else {
        enc_byte(s[0]) + enc_bytes(s.drop_first())
    }
}

/// Relies on `urlencoding::encode_binary`: percent-encodes every byte
/// except ASCII alphanumerics and `-`, `.`, `_`, `~`, writing escapes as
/// `%` plus two uppercase hex digits.
#[verifier::external_body]
fn percent_encode(t: &Vec<u8>) -> (r: Vec<u8>)
    ensures
        r@ == enc_bytes(t@),
{
    urlencoding::encode_binary(t).into_owned().into_bytes()
}

/// The sequence of byte strings a sequence of tag vectors stands for.
pub open spec fn tags_model(tags: Seq<Vec<u8>>) -> Seq<Seq<u8>> {
    tags.map_values(|t: Vec<u8>| t@)
}

/// The query fragment of a tag list: the tags percent-encoded one by
/// one and joined with `+`.
pub open spec fn fragment_of(tags: Seq<Seq<u8>>) -> Seq<u8>
    decreases tags.len(),
{
    if tags.len() == 0 {
        Seq::<u8>::empty()
    } else if tags.len() == 1 {
        enc_bytes(tags[0])
    } else {
        enc_bytes(tags[0]) + seq![43u8] + fragment_of(tags.drop_first())
    }
}

proof fn lemma_fragment_snoc(tags: Seq<Seq<u8>>, t: Seq<u8>)
    ensures
        fragment_of(tags.push(t)) == if tags.len() == 0 {
            enc_bytes(t)
        } else {
            fragment_of(tags) + seq![43u8] + enc_bytes(t)
        },
    decreases tags.len(),
{
    if tags.len() == 0 {
        assert(tags.push(t).len() == 1);
        assert(tags.push(t)[0] == t);
    } else if tags.len() == 1 {
        assert(tags.push(t).drop_first() =~= seq![t]);
        assert(fragment_of(seq![t]) == enc_bytes(t));
        assert(tags.push(t)[0] == tags[0]);
    } else {
        assert(tags.push(t).drop_first() =~= tags.drop_first().push(t));
        lemma_fragment_snoc(tags.drop_first(), t);
        assert(tags.push(t)[0] == tags[0]);
        assert(enc_bytes(tags[0]) + seq![43u8] + (fragment_of(tags.drop_first()) + seq![43u8]
            + enc_bytes(t)) =~= (enc_bytes(tags[0]) + seq![43u8] + fragment_of(tags.drop_first()))
            + seq![43u8] + enc_bytes(t));
    }
}

/// Encodes an ordered tag list into one query fragment. Order is kept;
/// nothing is deduplicated.
pub fn encode_tags(tags: &Vec<Vec<u8>>) -> (r: Vec<u8>)
    ensures
        r@ == fragment_of(tags_model(tags@)),
{
    let mut r: Vec<u8> = Vec::new();
    let mut i: usize = 0;
    while i < tags.len()
        invariant
            i <= tags@.len(),
            r@ == fragment_of(tags_model(tags@).take(i as int)),
        decreases tags@.len() - i,
    {
        if i > 0 {
            r.push(43u8);
        }
        let enc = percent_encode(&tags[i]);
        push_bytes(&mut r, &enc);
        proof {
            let m = tags_model(tags@);
            lemma_fragment_snoc(m.take(i as int), tags@[i as int]@);
            assert(m.take(i + 1) =~= m.take(i as int).push(tags@[i as int]@));
            if i == 0 {
                assert(r@ =~= fragment_of(m.take(i + 1)));
            } else {
                assert(r@ =~= fragment_of(m.take(i as int)) + seq![43u8] + enc_bytes(
                    tags@[i as int]@,
                ));
            }
        }
        i = i + 1;
    }
    proof {
        assert(tags_model(tags@).take(tags@.len() as int) =~= tags_model(tags@));
    }
    r
}

/// Percent-decoding: a `%` followed by two bytes is read as one escaped
/// byte, anything else stands for itself.
pub open spec fn dec_bytes(s: Seq<u8>) -> Seq<u8>
    decreases s.len(),
{
    if s.len() == 0 {
        Seq::<u8>::empty()
    } else if s[0] == 37 && s.len() >= 3 {
        seq![(hex_val(s[1]) * 16 + hex_val(s[2])) as u8] + dec_bytes(
            s.subrange(3, s.len() as int),
        )
    } else {
        seq![s[0]] + dec_bytes(s.drop_first())
    }
}

/// The index of the first `+` in a byte string, or a negative value
/// when there is none.
pub open spec fn find_plus(s: Seq<u8>) -> int
    decreases s.len(),
{
    if s.len() == 0 {
        -1
    } else if s[0] == 43 {
        0
    } else {
        let r = find_plus(s.drop_first());
        if r < 0 {
            -1
        } else {
            r + 1
        }
    }
}

/// Splitting a byte string on every `+`.
pub open spec fn split_plus(s: Seq<u8>) -> Seq<Seq<u8>>
    decreases s.len(),
{
    let i = find_plus(s);
    if 0 <= i < s.len() {
        seq![s.take(i)] + split_plus(s.subrange(i + 1, s.len() as int))
    } else {
        seq![s]
    }
}

/// Decoding a joined fragment: split on `+`, then percent-decode each
/// piece.
pub open spec fn decode_fragment(s: Seq<u8>) -> Seq<Seq<u8>> {
    split_plus(s).map_values(|t: Seq<u8>| dec_bytes(t))
}

proof fn lemma_find_plus_props(s: Seq<u8>)
    ensures
        find_plus(s) < 0 ==> forall|j: int| 0 <= j < s.len() ==> s[j] != 43,
        find_plus(s) >= 0 ==> 0 <= find_plus(s) < s.len() && s[find_plus(s)] == 43 && forall|
            j: int,
        | 0 <= j < find_plus(s) ==> s[j] != 43,
    decreases s.len(),
{
    if s.len() > 0 && s[0] != 43 {
        lemma_find_plus_props(s.drop_first());
        let r = find_plus(s.drop_first());
        if r < 0 {
            assert forall|j: int| 0 <= j < s.len() implies s[j] != 43 by {
                if j > 0 {
                    assert(s.drop_first()[j - 1] == s[j]);
                }
            }
        } else {
            assert(s[r + 1] == s.drop_first()[r]);
            assert forall|j: int| 0 <= j < r + 1 implies s[j] != 43 by {
                if j > 0 {
                    assert(s.drop_first()[j - 1] == s[j]);
                }
            }
        }
    }
}

proof fn lemma_enc_bytes_no_plus(t: Seq<u8>)
    ensures
        forall|j: int| 0 <= j < enc_bytes(t).len() ==> enc_bytes(t)[j] != 43,
    decreases t.len(),
{
    if t.len() > 0 {
        lemma_enc_bytes_no_plus(t.drop_first());
        assert forall|j: int| 0 <= j < enc_bytes(t).len() implies enc_bytes(t)[j] != 43 by {
            let head = enc_byte(t[0]);
            if j < head.len() {
                assert(enc_bytes(t)[j] == head[j]);
            } else {
                assert(enc_bytes(t)[j] == enc_bytes(t.drop_first())[j - head.len()]);
            }
        }
    }
}

proof fn lemma_hex_round_trip(b: u8)
    ensures
        hex_val(hex_digit(b / 16)) * 16 + hex_val(hex_digit(b % 16)) == b,
{
    assert(hex_val(hex_digit(b / 16)) == b / 16);
    assert(hex_val(hex_digit(b % 16)) == b % 16);
    assert((b / 16) * 16 + b % 16 == b) by (nonlinear_arith);
}

proof fn lemma_dec_enc(t: Seq<u8>)
    ensures
        dec_bytes(enc_bytes(t)) == t,
    decreases t.len(),
{
    if t.len() == 0 {
        assert(dec_bytes(enc_bytes(t)) =~= t);
    } else {
        let b = t[0];
        let rest = t.drop_first();
        lemma_dec_enc(rest);
        let s = enc_bytes(t);
        if is_unreserved(b) {
            assert(s[0] == b);
            assert(b != 37);
            assert(s.drop_first() =~= enc_bytes(rest));
            assert(dec_bytes(s) == seq![b] + dec_bytes(enc_bytes(rest)));
            assert(seq![b] + rest =~= t);
        } else {
            assert(s[0] == 37);
            assert(s.len() >= 3);
            assert(s[1] == hex_digit(b / 16));
            assert(s[2] == hex_digit(b % 16));
            lemma_hex_round_trip(b);
            assert(s.subrange(3, s.len() as int) =~= enc_bytes(rest));
            assert(dec_bytes(s) == seq![b] + dec_bytes(enc_bytes(rest)));
            assert(seq![b] + rest =~= t);
        }
    }
}

proof fn lemma_find_plus_concat(a: Seq<u8>, b: Seq<u8>)
    requires
        forall|j: int| 0 <= j < a.len() ==> a[j] != 43,
    ensures
        find_plus(a + seq![43u8] + b) == a.len(),
{
    let s = a + seq![43u8] + b;
    lemma_find_plus_props(s);
    assert(s[a.len() as int] == 43);
    let f = find_plus(s);
    if f < 0 {
        assert(false);
    }
    if f < a.len() {
        assert(s[f] == a[f]);
        assert(false);
    }
    if f > a.len() {
        assert(s[a.len() as int] != 43);
        assert(false);
    }
}

/// Round-trip law of the tag encoder: for any non-empty tag list,
/// splitting the joined fragment on `+` and percent-decoding each piece
/// reproduces the original tags, in the same order.
pub proof fn lemma_fragment_round_trip(tags: Seq<Seq<u8>>)
    requires
        tags.len() > 0,
    ensures
        decode_fragment(fragment_of(tags)) == tags,
    decreases tags.len(),
{
    if tags.len() == 1 {
        let s = enc_bytes(tags[0]);
        lemma_enc_bytes_no_plus(tags[0]);
        lemma_find_plus_props(s);
        assert(find_plus(s) < 0);
        assert(split_plus(s) == seq![s]);
        lemma_dec_enc(tags[0]);
        assert(decode_fragment(s) =~= tags);
    } else {
        let t0 = tags[0];
        let rest = tags.drop_first();
        let a = enc_bytes(t0);
        let frag_rest = fragment_of(rest);
        let s = fragment_of(tags);
        assert(s == a + seq![43u8] + frag_rest);
        lemma_enc_bytes_no_plus(t0);
        lemma_find_plus_concat(a, frag_rest);
        assert(find_plus(s) == a.len());
        assert(s.len() == a.len() + 1 + frag_rest.len());
        assert(s.take(a.len() as int) =~= a);
        assert(s.subrange(a.len() as int + 1, s.len() as int) =~= frag_rest);
        assert(split_plus(s) == seq![a] + split_plus(frag_rest));
        lemma_fragment_round_trip(rest);
        lemma_dec_enc(t0);
        assert(decode_fragment(s) =~= seq![dec_bytes(a)] + decode_fragment(frag_rest));
        assert(decode_fragment(s) =~= tags);
    }
}

} // verus!
