//! Turning 8.3 name records back into readable names, and the long-file-name
//! checksum primitive.

use vstd::prelude::*;
use crate::encoding::zero_buffer;
use crate::file_ops::{
    count_byte,
    find_byte,
    lemma_count_find,
    lemma_find_byte,
    spec_format_short_name,
    upper,
};

verus! {

/// The bytes of `s` that are not spaces, in order.
pub open spec fn non_spaces(s: Seq<u8>) -> Seq<u8>
    decreases s.len(),
{
    if s.len() == 0 {
        Seq::empty()
    } else if s[0] == 0x20 {
        non_spaces(s.drop_first())
    } else {
        seq![s[0]] + non_spaces(s.drop_first())
    }
}

/// Dropping spaces never lengthens a sequence.
pub proof fn lemma_non_spaces_len(s: Seq<u8>)
    ensures
        non_spaces(s).len() <= s.len(),
    decreases s.len(),
{
    if s.len() != 0 {
        lemma_non_spaces_len(s.drop_first());
    }
}

/// Appending one byte appends it to the space-free bytes, unless it is a
/// space.
pub proof fn lemma_non_spaces_push(s: Seq<u8>, x: u8)
    ensures
        x == 0x20 ==> non_spaces(s.push(x)) =~= non_spaces(s),
        x != 0x20 ==> non_spaces(s.push(x)) =~= non_spaces(s).push(x),
    decreases s.len(),
{
    if s.len() == 0 {
        assert(s.push(x)[0] == x);
        assert(s.push(x).drop_first() =~= Seq::<u8>::empty());
        assert(s.push(x).drop_first() == Seq::<u8>::empty());
        assert(non_spaces(Seq::<u8>::empty()) =~= Seq::<u8>::empty());
        assert(s =~= Seq::<u8>::empty());
        assert(non_spaces(s) =~= Seq::<u8>::empty());
        if x != 0x20 {
            assert(non_spaces(s.push(x)) =~= seq![x] + Seq::<u8>::empty());
            assert(seq![x] + Seq::<u8>::empty() =~= Seq::<u8>::empty().push(x));
        }
    } else {
        assert(s.push(x)[0] == s[0]);
        assert(s.push(x).drop_first() =~= s.drop_first().push(x));
        assert(s.push(x).drop_first() == s.drop_first().push(x));
        lemma_non_spaces_push(s.drop_first(), x);
        assert(non_spaces(s.push(x)) == if s[0] == 0x20 {
            non_spaces(s.drop_first().push(x))
        } else {
            seq![s[0]] + non_spaces(s.drop_first().push(x))
        });
        if s[0] != 0x20 {
            if x == 0x20 {
                assert(seq![s[0]] + non_spaces(s.drop_first().push(x)) =~= non_spaces(s));
            } else {
                assert(seq![s[0]] + non_spaces(s.drop_first()).push(x) =~= non_spaces(s).push(x));
                assert(non_spaces(s.drop_first().push(x)) == non_spaces(s.drop_first()).push(x));
            }
        }
    }
}

/// The readable form of an 11-byte short name record: the base bytes up to
/// the first space, then, if the extension field is in use, a dot and the
/// space-free extension bytes; zero-padded to 12 bytes.
pub open spec fn spec_short_name_to_string(name: Seq<u8>) -> Seq<u8> {
    let base = name.take(8).take(find_byte(name.take(8), 0x20));
    let body = if name[8] != 0x20 {
        base + seq![0x2Eu8] + non_spaces(name.subrange(8, 11))
    } else {
        base
    };
    body + Seq::new((12 - body.len()) as nat, |i: int| 0u8)
}

/// Decodes an 11-byte short name record into its readable 12-byte,
/// zero-padded form.
pub fn short_name_to_string(name: &Vec<u8>) -> (r: Vec<u8>)
    requires
        name@.len() == 11,
    ensures
        r@.len() == 12,
        r@ == spec_short_name_to_string(name@),
{
    let ghost s: Seq<u8> = name@;
    let ghost base: Seq<u8> = s.take(8).take(find_byte(s.take(8), 0x20));
    proof {
        lemma_find_byte(s.take(8), 0x20);
    }
    let mut result = zero_buffer(12);
    let mut p: usize = 0;
    while p < 8 && name[p] != 0x20
        invariant
            p <= 8,
            s.len() == 11,
            name@ == s,
            forall|j: int| 0 <= j < p ==> s[j] != 0x20,
        decreases 8 - p,
    {
        p = p + 1;
    }
    proof {
        assert(find_byte(s.take(8), 0x20) == p) by {
            if p < 8 {
                assert(s.take(8)[p as int] == 0x20);
            }
        }
        assert(base =~= s.take(p as int));
    }
    let mut j: usize = 0;
    while j < p
        invariant
            j <= p,
            p <= 8,
            s.len() == 11,
            name@ == s,
            result@.len() == 12,
            forall|q: int| 0 <= q < j ==> result@[q] == s[q],
            forall|q: int| j <= q < 12 ==> result@[q] == 0u8,
        decreases p - j,
    {
        result.set(j, name[j]);
        j = j + 1;
    }
    let mut pos: usize = p;
    if name[8] != 0x20 {
        result.set(pos, 0x2E);
        pos = pos + 1;
        let mut e: usize = 8;
        while e < 11
            invariant
                8 <= e <= 11,
                s.len() == 11,
                name@ == s,
                p <= 8,
                s[8] != 0x20,
                result@.len() == 12,
                pos == p + 1 + non_spaces(s.subrange(8, e as int)).len(),
                pos <= p + 1 + (e - 8),
                result@ =~= (base + seq![0x2Eu8] + non_spaces(s.subrange(8, e as int))) + Seq::new(
                    (12 - pos) as nat,
                    |i: int| 0u8,
                ),
                base =~= s.take(p as int),
            decreases 11 - e,
        {
            proof {
                lemma_non_spaces_push(s.subrange(8, e as int), s[e as int]);
                assert(s.subrange(8, e as int).push(s[e as int]) =~= s.subrange(8, e as int + 1));
                lemma_non_spaces_len(s.subrange(8, e as int + 1));
            }
            if name[e] != 0x20 {
                result.set(pos, name[e]);
                pos = pos + 1;
                proof {
                    assert(result@ =~= (base + seq![0x2Eu8] + non_spaces(
                        s.subrange(8, e as int + 1),
                    )) + Seq::new((12 - pos) as nat, |i: int| 0u8));
                }
            } else {
                proof {
                    assert(result@ =~= (base + seq![0x2Eu8] + non_spaces(
                        s.subrange(8, e as int + 1),
                    )) + Seq::new((12 - pos) as nat, |i: int| 0u8));
                }
            }
            e = e + 1;
        }
        proof {
            assert(s.subrange(8, 11) =~= s.subrange(8, 11));
            assert(result@ =~= spec_short_name_to_string(s));
        }
    } else {
        proof {
            assert(result@ =~= spec_short_name_to_string(s));
        }
    }
    result
}

/// `s` upper-cased byte by byte.
pub open spec fn upper_seq(s: Seq<u8>) -> Seq<u8> {
    Seq::new(s.len(), |i: int| upper(s[i]))
}

/// `find_byte` is pinned by its defining properties: nothing before `k`
/// matches, and `k` is the length or a match.
pub proof fn lemma_find_byte_is(t: Seq<u8>, b: u8, k: int)
    requires
        0 <= k <= t.len(),
        forall|j: int| 0 <= j < k ==> t[j] != b,
        k < t.len() ==> t[k] == b,
    ensures
        find_byte(t, b) == k,
    decreases t.len(),
{
    if t.len() != 0 && k > 0 {
        assert(t[0] != b);
        lemma_find_byte_is(t.drop_first(), b, k - 1);
    }
}

/// A sequence of spaces only has no space-free bytes.
pub proof fn lemma_non_spaces_all_spaces(t: Seq<u8>)
    requires
        forall|j: int| 0 <= j < t.len() ==> t[j] == 0x20,
    ensures
        non_spaces(t) =~= Seq::<u8>::empty(),
    decreases t.len(),
{
    if t.len() != 0 {
        lemma_non_spaces_all_spaces(t.drop_first());
    }
}

/// When all space-free bytes stand in front of all spaces, dropping the
/// spaces keeps exactly that front part.
pub proof fn lemma_non_spaces_prefix(t: Seq<u8>, k: int)
    requires
        0 <= k <= t.len(),
        forall|j: int| 0 <= j < k ==> t[j] != 0x20,
        forall|j: int| k <= j < t.len() ==> t[j] == 0x20,
    ensures
        non_spaces(t) =~= t.take(k),
    decreases t.len(),
{
    if k == 0 {
        lemma_non_spaces_all_spaces(t);
    } else {
        assert(t[0] != 0x20);
        lemma_non_spaces_prefix(t.drop_first(), k - 1);
        assert(seq![t[0]] + t.drop_first().take(k - 1) =~= t.take(k));
    }
}

/// The short-name codec round-trips, short of truncation: a name with
/// exactly one dot, a base of at most 8 bytes, an extension of 1 to 3
/// bytes, and no spaces comes back from encoding and decoding as its
/// upper-cased self, zero-padded to 12 bytes.
pub proof fn lemma_short_name_round_trip(s: Seq<u8>)
    requires
        count_byte(s, 0x2E) == 1,
        find_byte(s, 0x2E) <= 8,
        find_byte(s, 0x2E) + 2 <= s.len(),
        s.len() <= find_byte(s, 0x2E) + 4,
        forall|i: int| 0 <= i < s.len() ==> s[i] != 0x20,
    ensures
        spec_short_name_to_string(spec_format_short_name(s)) == upper_seq(s) + Seq::new(
            (12 - s.len()) as nat,
            |i: int| 0u8,
        ),
{
    lemma_find_byte(s, 0x2E);
    lemma_count_find(s, 0x2E);
    let p = find_byte(s, 0x2E);
    let n = s.len() as int;
    let ext_len = n - p - 1;
    let enc = spec_format_short_name(s);
    assert(enc.len() == 11);
    assert(forall|j: int| 0 <= j < s.len() ==> upper(s[j]) != 0x20);
    assert(s[p] == 0x2E);
    let enc8 = enc.take(8);
    assert forall|j: int| 0 <= j < p implies enc8[j] != 0x20 by {
        assert(enc8[j] == upper(s[j]));
    }
    if p < 8 {
        assert(enc8[p] == 0x20);
    }
    lemma_find_byte_is(enc8, 0x20, p);
    let base = enc8.take(p);
    let ext = enc.subrange(8, 11);
    assert(enc[8] == upper(s[p + 1]));
    assert(enc[8] != 0x20);
    assert forall|j: int| 0 <= j < ext_len implies ext[j] != 0x20 by {
        assert(ext[j] == upper(s[p + 1 + j]));
    }
    assert(forall|j: int| ext_len <= j < 3 ==> ext[j] == 0x20);
    lemma_non_spaces_prefix(ext, ext_len);
    let body = base + seq![0x2Eu8] + non_spaces(ext);
    assert(body.len() == n);
    assert forall|j: int| 0 <= j < n implies body[j] == upper(s[j]) by {
        if j < p {
            assert(body[j] == base[j]);
            assert(base[j] == upper(s[j]));
        } else if j == p {
            assert(body[j] == 0x2Eu8);
            assert(upper(s[p]) == 0x2E);
        } else {
            assert(body[j] == non_spaces(ext)[j - p - 1]);
            assert(non_spaces(ext)[j - p - 1] == ext[j - p - 1]);
            assert(ext[j - p - 1] == upper(s[j]));
        }
    }
    assert(body =~= upper_seq(s));
    assert(spec_short_name_to_string(enc) =~= upper_seq(s) + Seq::new(
        (12 - s.len()) as nat,
        |i: int| 0u8,
    ));
}

/// One step of the long-file-name checksum: rotate the sum right by one bit
/// and add the next byte, modulo 256.
pub open spec fn lfn_step(sum: u8, b: u8) -> u8 {
    ((((sum & 1) << 7) + (sum >> 1) + b) % 256) as u8
}

/// The long-file-name checksum of the bytes of `s`, folded left to right.
pub open spec fn spec_lfn_checksum(s: Seq<u8>) -> u8
    decreases s.len(),
{
    if s.len() == 0 {
        0u8
    } else {
        lfn_step(spec_lfn_checksum(s.drop_last()), s.last())
    }
}

/// Computes the checksum that long-file-name entries store for an 11-byte
/// short name.
pub fn lfn_checksum(short_name: &Vec<u8>) -> (r: u8)
    requires
        short_name@.len() == 11,
    ensures
        r == spec_lfn_checksum(short_name@),
{
    let mut sum: u8 = 0;
    let mut i: usize = 0;
    while i < 11
        invariant
            i <= 11,
            short_name@.len() == 11,
            sum == spec_lfn_checksum(short_name@.take(i as int)),
        decreases 11 - i,
    {
        proof {
            assert(short_name@.take(i as int + 1).drop_last() =~= short_name@.take(i as int));
            assert(short_name@.take(i as int + 1).last() == short_name@[i as int]);
            assert(((sum & 1) << 7) <= 128 && (sum >> 1) <= 127) by (bit_vector);
            assert((((sum & 1) as u32) << 7u32) <= 128) by (bit_vector);
        }
        let hi: u32 = ((sum & 1) as u32) << 7u32;
        let t: u32 = hi + ((sum >> 1u8) as u32) + (short_name[i] as u32);
        proof {
            assert((((sum & 1) as u32) << 7u32) == (((sum & 1) << 7) as u32)) by (bit_vector);
        }
        sum = (t % 256) as u8;
        i = i + 1;
    }
    proof {
        assert(short_name@.take(11) =~= short_name@);
    }
    sum
}

} // verus!
