//! Creating directory entries and handling 8.3 short names.

use vstd::prelude::*;
use vstd::string::StringSliceAdditionalSpecFns;
use crate::dir_entry::{ATTR_ARCHIVE, ATTR_DIRECTORY, DirEntry};
use crate::encoding::zero_buffer;

verus! {

/// The ASCII byte upper-cased: a lower-case letter loses `0x20`, every other
/// byte stays.
pub open spec fn upper(b: u8) -> u8 {
    if 0x61 <= b <= 0x7A {
        (b - 0x20) as u8
    } else {
        b
    }
}

/// How many times `b` occurs in `s`.
pub open spec fn count_byte(s: Seq<u8>, b: u8) -> int
    decreases s.len(),
{
    if s.len() == 0 {
        0
    } else {
        (if s[0] == b {
            1int
        } else {
            0int
        }) + count_byte(s.drop_first(), b)
    }
}

/// The index of the first occurrence of `b` in `s`, or `s.len()` if absent.
pub open spec fn find_byte(s: Seq<u8>, b: u8) -> int
    decreases s.len(),
{
    if s.len() == 0 {
        0
    } else if s[0] == b {
        0
    } else {
        1 + find_byte(s.drop_first(), b)
    }
}

/// `find_byte` names the first occurrence: nothing before it matches, and it
/// lies on a match unless `b` is absent.
pub proof fn lemma_find_byte(s: Seq<u8>, b: u8)
    ensures
        0 <= find_byte(s, b) <= s.len(),
        forall|j: int| 0 <= j < find_byte(s, b) ==> s[j] != b,
        find_byte(s, b) < s.len() ==> s[find_byte(s, b)] == b,
    decreases s.len(),
{
    if s.len() != 0 && s[0] != b {
        lemma_find_byte(s.drop_first(), b);
        assert(forall|j: int| 0 <= j < find_byte(s.drop_first(), b) ==> s.drop_first()[j] != b);
        assert forall|j: int| 0 <= j < find_byte(s, b) implies s[j] != b by {
            if j > 0 {
                assert(s.drop_first()[j - 1] != b);
            }
        }
    }
}

/// `b` occurs in `s` exactly when `find_byte` lands before the end.
pub proof fn lemma_count_find(s: Seq<u8>, b: u8)
    ensures
        count_byte(s, b) > 0 <==> find_byte(s, b) < s.len(),
        count_byte(s, b) >= 0,
    decreases s.len(),
{
    if s.len() != 0 {
        lemma_count_find(s.drop_first(), b);
    }
}

/// Appending one byte raises the count by one exactly on a match.
pub proof fn lemma_count_byte_push(s: Seq<u8>, b: u8, x: u8)
    ensures
        count_byte(s.push(x), b) == count_byte(s, b) + (if x == b {
            1int
        } else {
            0int
        }),
    decreases s.len(),
{
    if s.len() == 0 {
        assert(s.push(x)[0] == x);
        assert(s.push(x).drop_first() =~= Seq::<u8>::empty());
        assert(count_byte(Seq::<u8>::empty(), b) == 0);
    } else {
        assert(s.push(x)[0] == s[0]);
        assert(s.push(x).drop_first() =~= s.drop_first().push(x));
        lemma_count_byte_push(s.drop_first(), b, x);
    }
}

/// The encoded 11-byte short name of `name`: with exactly one dot, the part
/// before it fills the first 8 positions and the part after it the last 3,
/// each upper-cased, truncated and space-padded; otherwise the first 8 bytes
/// of the whole name fill the first 8 positions.
pub open spec fn spec_format_short_name(s: Seq<u8>) -> Seq<u8> {
    if count_byte(s, 0x2E) == 1 {
        let p = find_byte(s, 0x2E);
        Seq::new(
            11,
            |i: int|
                if i < 8 {
                    if i < p {
                        upper(s[i])
                    } else {
                        0x20u8
                    }
                } else {
                    if i - 8 < s.len() - p - 1 && i - 8 < 3 {
                        upper(s[p + 1 + (i - 8)])
                    } else {
                        0x20u8
                    }
                },
        )
    } else {
        Seq::new(
            11,
            |i: int|
                if i < s.len() && i < 8 {
                    upper(s[i])
                } else {
                    0x20u8
                },
        )
    }
}

/// True of the bytes allowed in a name: ASCII letters and digits, dot,
/// underscore and dash.
pub open spec fn valid_name_byte(b: u8) -> bool {
    (0x30 <= b <= 0x39) || (0x41 <= b <= 0x5A) || (0x61 <= b <= 0x7A) || b == 0x2E || b == 0x5F
        || b == 0x2D
}

/// A name is valid when it has 1 to 12 bytes, all of them allowed.
pub open spec fn spec_valid_name(s: Seq<u8>) -> bool {
    1 <= s.len() <= 12 && forall|i: int| 0 <= i < s.len() ==> valid_name_byte(s[i])
}

/// The ASCII byte upper-cased.
pub fn upper_byte(b: u8) -> (r: u8)
    ensures
        r == upper(b),
{
    if 0x61 <= b && b <= 0x7A {
        b - 0x20
    } else {
        b
    }
}

/// Builds a fresh file entry with the archive attribute, no timestamps, the
/// given first cluster split into its two on-disk halves, and the given size.
pub fn create_file_entry(name: Vec<u8>, cluster: u32, size: u32) -> (r: DirEntry)
    requires
        name@.len() == 11,
    ensures
        r.wf(),
        r.name@ == name@,
        r.attributes == ATTR_ARCHIVE,
        r.nt_reserved == 0,
        r.creation_time_tenth == 0,
        r.creation_time == 0,
        r.creation_date == 0,
        r.last_access_date == 0,
        r.last_write_time == 0,
        r.last_write_date == 0,
        r.spec_first_cluster() == cluster,
        r.file_size == size,
{
    proof {
        assert((cluster >> 16u32) < 0x10000 && (cluster & 0xFFFF) < 0x10000 && ((((cluster
            >> 16u32) as u16) as u32) << 16u32) | (((cluster & 0xFFFF) as u16) as u32) == cluster)
            by (bit_vector);
    }
    DirEntry {
        name,
        attributes: ATTR_ARCHIVE,
        nt_reserved: 0,
        creation_time_tenth: 0,
        creation_time: 0,
        creation_date: 0,
        last_access_date: 0,
        first_cluster_high: (cluster >> 16u32) as u16,
        last_write_time: 0,
        last_write_date: 0,
        first_cluster_low: (cluster & 0xFFFF) as u16,
        file_size: size,
    }
}

/// Builds a fresh directory entry: like a file entry, but with the directory
/// attribute and a size field of zero.
pub fn create_dir_entry(name: Vec<u8>, cluster: u32) -> (r: DirEntry)
    requires
        name@.len() == 11,
    ensures
        r.wf(),
        r.name@ == name@,
        r.attributes == ATTR_DIRECTORY,
        r.nt_reserved == 0,
        r.creation_time_tenth == 0,
        r.creation_time == 0,
        r.creation_date == 0,
        r.last_access_date == 0,
        r.last_write_time == 0,
        r.last_write_date == 0,
        r.spec_first_cluster() == cluster,
        r.file_size == 0,
{
    proof {
        assert((cluster >> 16u32) < 0x10000 && (cluster & 0xFFFF) < 0x10000 && ((((cluster
            >> 16u32) as u16) as u32) << 16u32) | (((cluster & 0xFFFF) as u16) as u32) == cluster)
            by (bit_vector);
    }
    DirEntry {
        name,
        attributes: ATTR_DIRECTORY,
        nt_reserved: 0,
        creation_time_tenth: 0,
        creation_time: 0,
        creation_date: 0,
        last_access_date: 0,
        first_cluster_high: (cluster >> 16u32) as u16,
        last_write_time: 0,
        last_write_date: 0,
        first_cluster_low: (cluster & 0xFFFF) as u16,
        file_size: 0,
    }
}

/// Encodes a name into the 11-byte 8.3 short-name form of
/// [`spec_format_short_name`].
pub fn format_short_name(name: &str) -> (r: Vec<u8>)
    ensures
        r@.len() == 11,
        r@ == spec_format_short_name(name.spec_bytes()),
{
    let bytes: &[u8] = name.as_bytes();
    let n: usize = bytes.len();
    let ghost s: Seq<u8> = name.spec_bytes();
    proof {
        lemma_find_byte(s, 0x2E);
        lemma_count_find(s, 0x2E);
    }
    let mut dots: usize = 0;
    let mut p: usize = n;
    let mut i: usize = 0;
    while i < n
        invariant
            i <= n,
            n == s.len(),
            bytes@ == s,
            dots == count_byte(s.take(i as int), 0x2E),
            dots <= i,
            if find_byte(s, 0x2E) < i {
                p == find_byte(s, 0x2E)
            } else {
                p == n
            },
            0 <= find_byte(s, 0x2E) <= s.len(),
            forall|j: int| 0 <= j < find_byte(s, 0x2E) ==> s[j] != 0x2E,
            find_byte(s, 0x2E) < s.len() ==> s[find_byte(s, 0x2E)] == 0x2E,
        decreases n - i,
    {
        proof {
            lemma_count_byte_push(s.take(i as int), 0x2E, s[i as int]);
            assert(s.take(i as int).push(s[i as int]) =~= s.take(i as int + 1));
        }
        if bytes[i] == 0x2E {
            if p == n && i < n {
                p = i;
            }
            dots = dots + 1;
        }
        i = i + 1;
    }
    proof {
        assert(s.take(n as int) =~= s);
    }
    let mut out = zero_buffer(11);
    let mut k: usize = 0;
    while k < 11
        invariant
            k <= 11,
            out@.len() == 11,
            forall|j: int| 0 <= j < k ==> out@[j] == 0x20u8,
        decreases 11 - k,
    {
        out.set(k, 0x20);
        k = k + 1;
    }
    if dots == 1 {
        let base_len: usize = if p < 8 {
            p
        } else {
            8
        };
        let mut j: usize = 0;
        while j < base_len
            invariant
                j <= base_len,
                base_len <= 8,
                base_len <= p,
                p <= n,
                n == s.len(),
                bytes@ == s,
                out@.len() == 11,
                forall|q: int| 0 <= q < j ==> out@[q] == upper(s[q]),
                forall|q: int| j <= q < 11 ==> out@[q] == 0x20u8,
            decreases base_len - j,
        {
            out.set(j, upper_byte(bytes[j]));
            j = j + 1;
        }
        let ext_avail: usize = n - p - 1;
        let ext_len: usize = if ext_avail < 3 {
            ext_avail
        } else {
            3
        };
        let mut e: usize = 0;
        while e < ext_len
            invariant
                e <= ext_len,
                ext_len <= 3,
                ext_len <= n - p - 1,
                p < n,
                n == s.len(),
                bytes@ == s,
                out@.len() == 11,
                forall|q: int| 0 <= q < base_len ==> out@[q] == upper(s[q]),
                forall|q: int| base_len <= q < 8 ==> out@[q] == 0x20u8,
                base_len <= 8,
                forall|q: int| 8 <= q < 8 + e ==> out@[q] == upper(s[p + 1 + (q - 8)]),
                forall|q: int| 8 + e <= q < 11 ==> out@[q] == 0x20u8,
            decreases ext_len - e,
        {
            out.set(8 + e, upper_byte(bytes[p + 1 + e]));
            e = e + 1;
        }
        proof {
            assert(p == find_byte(s, 0x2E));
            assert(out@ =~= spec_format_short_name(s));
        }
    } else {
        let base_len: usize = if n < 8 {
            n
        } else {
            8
        };
        let mut j: usize = 0;
        while j < base_len
            invariant
                j <= base_len,
                base_len <= 8,
                base_len <= n,
                n == s.len(),
                bytes@ == s,
                out@.len() == 11,
                forall|q: int| 0 <= q < j ==> out@[q] == upper(s[q]),
                forall|q: int| j <= q < 11 ==> out@[q] == 0x20u8,
            decreases base_len - j,
        {
            out.set(j, upper_byte(bytes[j]));
            j = j + 1;
        }
        proof {
            assert(out@ =~= spec_format_short_name(s));
        }
    }
    out
}

/// Reports whether a name is acceptable: 1 to 12 bytes, all of them ASCII
/// letters or digits, dot, underscore or dash.
pub fn is_valid_name(name: &str) -> (r: bool)
    ensures
        r == spec_valid_name(name.spec_bytes()),
{
    let bytes: &[u8] = name.as_bytes();
    let n: usize = bytes.len();
    if n == 0 || n > 12 {
        return false;
    }
    let mut i: usize = 0;
    while i < n
        invariant
            i <= n,
            n == bytes@.len(),
            bytes@ == name.spec_bytes(),
            forall|j: int| 0 <= j < i ==> valid_name_byte(bytes@[j]),
        decreases n - i,
    {
        let b = bytes[i];
        let ok = (0x30 <= b && b <= 0x39) || (0x41 <= b && b <= 0x5A) || (0x61 <= b && b <= 0x7A)
            || b == 0x2E || b == 0x5F || b == 0x2D;
        if !ok {
            return false;
        }
        i = i + 1;
    }
    true
}

/// Reports whether two 11-byte short names hold exactly the same bytes.
pub fn names_match(name1: &Vec<u8>, name2: &Vec<u8>) -> (r: bool)
    ensures
        r == (name1@ == name2@),
{
    if name1.len() != name2.len() {
        return false;
    }
    let n: usize = name1.len();
    let mut i: usize = 0;
    while i < n
        invariant
            i <= n,
            n == name1@.len(),
            n == name2@.len(),
            forall|j: int| 0 <= j < i ==> name1@[j] == name2@[j],
        decreases n - i,
    {
        if name1[i] != name2[i] {
            return false;
        }
        i = i + 1;
    }
    proof {
        assert(name1@ =~= name2@);
    }
    true
}

} // verus!
