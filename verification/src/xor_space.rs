//! Names of nodes, and the prefixes that partition the space of names into sections.
use vstd::prelude::*;

verus! {

/// Number of bits in a name.
pub const XOR_NAME_BITS: usize = 256;

/// Bit `j` of a byte, counted from the most significant one.
pub open spec fn byte_bit(byte: u8, j: int) -> bool {
    (byte >> ((7 - j) as u8)) & 1u8 == 1u8
}

/// Name of a node: a point in the space of 256-bit numbers, most significant byte first.
#[derive(Clone, Copy, Debug)]
pub struct XorName(pub [u8; 32]);

impl XorName {
    /// Bit `i` of the name, counted from the most significant one.
    pub open spec fn bit(self, i: int) -> bool {
        byte_bit(self.0@[i / 8], i % 8)
    }

    /// The order of names as numbers: at the first byte in which two names differ, the smaller
    /// name has the smaller byte.
    pub open spec fn at_most(self, other: XorName) -> bool {
        ||| self == other
        ||| exists|k: int|
            #![trigger self.0@[k]]
            0 <= k < 32 && self.0@[k] < other.0@[k] && forall|i: int|
                0 <= i < k ==> self.0@[i] == other.0@[i]
    }

    /// Whether bit `i` of the name is set.
    pub fn is_set(&self, i: usize) -> (set: bool)
        requires
            i < XOR_NAME_BITS,
        ensures
            set == self.bit(i as int),
    {
        let j: u8 = (i % 8) as u8;
        (self.0[i / 8] >> (7 - j)) & 1u8 == 1u8
    }

    /// The name with every bit from position `n` on set to `fill`.
    pub fn set_remaining(&self, n: usize, fill: bool) -> (name: XorName)
        ensures
            forall|i: int|
                0 <= i < 256 ==> #[trigger] name.bit(i) == (if i < n {
                    self.bit(i)
                } else {
                    fill
                }),
    {
        let mut bytes: [u8; 32] = self.0;
        let mut k: usize = 0;
        while k < 32
            invariant
                0 <= k <= 32,
                forall|i: int| k <= i < 32 ==> bytes@[i] == self.0@[i],
                forall|i: int|
                    0 <= i < 8 * k ==> #[trigger] byte_bit(bytes@[i / 8], i % 8) == (if i < n {
                        self.bit(i)
                    } else {
                        fill
                    }),
            decreases 32 - k,
        {
            let ghost before = bytes@;
            let kept: u8 = if n <= 8 * k {
                0
            } else if n >= 8 * (k + 1) {
                8
            } else {
                (n - 8 * k) as u8
            };
            let byte: u8 = set_remaining_byte(self.0[k], kept, fill);
            bytes[k] = byte;
            proof {
                assert forall|i: int| 0 <= i < 8 * (k + 1) implies #[trigger] byte_bit(
                    bytes@[i / 8],
                    i % 8,
                ) == (if i < n {
                    self.bit(i)
                } else {
                    fill
                }) by {
                    if i < 8 * k {
                        assert(bytes@[i / 8] == before[i / 8]);
                        assert(byte_bit(before[i / 8], i % 8) == (if i < n {
                            self.bit(i)
                        } else {
                            fill
                        }));
                    } else {
                        assert(i / 8 == k);
                        assert(byte_bit(byte, i % 8) == (if i % 8 < kept {
                            byte_bit(self.0@[k as int], i % 8)
                        } else {
                            fill
                        }));
                    }
                }
            }
            k = k + 1;
        }
        XorName(bytes)
    }
}

/// The byte with every bit from position `kept` on set to `fill`.
fn set_remaining_byte(byte: u8, kept: u8, fill: bool) -> (res: u8)
    requires
        kept <= 8,
    ensures
        forall|j: int|
            0 <= j < 8 ==> #[trigger] byte_bit(res, j) == (if j < kept {
                byte_bit(byte, j)
            } else {
                fill
            }),
{
    if kept == 8 {
        byte
    } else {
        let tail: u8 = 0xffu8 >> kept;
        let res: u8 = if fill {
            byte | tail
        } else {
            byte & !tail
        };
        proof {
            assert forall|j: int| 0 <= j < 8 implies #[trigger] byte_bit(res, j) == (if j < kept {
                byte_bit(byte, j)
            } else {
                fill
            }) by {
                let s: u8 = (7 - j) as u8;
                assert(s < 8 && kept < 8 ==> ((((byte | (0xffu8 >> kept)) >> s) & 1u8 == 1u8) == (if 7
                    - s < kept {
                    (byte >> s) & 1u8 == 1u8
                } else {
                    true
                }))) by (bit_vector);
                assert(s < 8 && kept < 8 ==> ((((byte & !(0xffu8 >> kept)) >> s) & 1u8 == 1u8) == (
                if 7 - s < kept {
                    (byte >> s) & 1u8 == 1u8
                } else {
                    false
                }))) by (bit_vector);
            }
        }
        res
    }
}

impl PartialEq for XorName {
    fn eq(&self, other: &XorName) -> (equal: bool) {
        let mut k: usize = 0;
        while k < 32
            invariant
                0 <= k <= 32,
                forall|i: int| 0 <= i < k ==> self.0@[i] == other.0@[i],
            decreases 32 - k,
        {
            if self.0[k] != other.0[k] {
                return false;
            }
            k = k + 1;
        }
        assert(self.0 =~= other.0);
        true
    }
}

impl vstd::std_specs::cmp::PartialEqSpecImpl for XorName {
    open spec fn obeys_eq_spec() -> bool {
        true
    }

    open spec fn eq_spec(&self, other: &XorName) -> bool {
        *self == *other
    }
}

impl Eq for XorName {

}

/// Whether two names agree in their first `n` bits.
pub open spec fn agree(a: XorName, b: XorName, n: int) -> bool {
    forall|i: int| 0 <= i < n && i < 256 ==> #[trigger] a.bit(i) == b.bit(i)
}

/// Whether `range` consists of the name that begins with the first `n` bits of `name` and is unset
/// in the others, and of the one that begins with the same bits and is set in the others.
pub open spec fn spans(name: XorName, n: int, range: (XorName, XorName)) -> bool {
    forall|i: int|
        #![trigger range.0.bit(i)]
        #![trigger range.1.bit(i)]
        0 <= i < 256 ==> if i < n {
            range.0.bit(i) == name.bit(i) && range.1.bit(i) == name.bit(i)
        } else {
            !range.0.bit(i) && range.1.bit(i)
        }
}

/// A section's share of the name space: all the names that begin with the first `bit_count` bits
/// of `name`.
#[derive(Clone, Copy, Debug, PartialEq, Eq)]
pub struct Prefix {
    pub bit_count: u16,
    pub name: XorName,
}

impl Prefix {
    /// Whether `name` lies in the prefix.
    pub open spec fn covers(self, name: XorName) -> bool {
        agree(self.name, name, self.bit_count as int)
    }

    /// A prefix that is made of the first bits of a name has at most as many of them as the name
    /// has, and no bit is set in the rest.
    pub open spec fn well_formed(self) -> bool {
        &&& self.bit_count <= 256
        &&& forall|i: int| self.bit_count <= i < 256 ==> !#[trigger] self.name.bit(i)
    }

    /// The prefix of the first `bit_count` bits of `name`, or of all its bits if `bit_count`
    /// exceeds their number. The remaining bits are unset.
    pub fn new(bit_count: usize, name: XorName) -> (prefix: Prefix)
        ensures
            prefix.well_formed(),
            prefix.bit_count == (if bit_count <= 256 {
                bit_count as int
            } else {
                256
            }),
            agree(prefix.name, name, bit_count as int),
    {
        let count: u16 = if bit_count <= XOR_NAME_BITS {
            bit_count as u16
        } else {
            256
        };
        Prefix { bit_count: count, name: name.set_remaining(count as usize, false) }
    }

    /// Number of the bits that all the names in the prefix share.
    pub fn bit_count(&self) -> (count: usize)
        ensures
            count == self.bit_count,
    {
        self.bit_count as usize
    }

    /// Whether `name` lies in the prefix.
    pub fn matches(&self, name: &XorName) -> (matched: bool)
        ensures
            matched == self.covers(*name),
    {
        let mut i: usize = 0;
        while i < self.bit_count as usize && i < XOR_NAME_BITS
            invariant
                i <= self.bit_count,
                i <= 256,
                forall|k: int| 0 <= k < i ==> #[trigger] self.name.bit(k) == name.bit(k),
            decreases 256 - i,
        {
            if self.name.is_set(i) != name.is_set(i) {
                return false;
            }
            i = i + 1;
        }
        true
    }


    /// The smallest and the largest name of the prefix.
    pub fn range_inclusive(&self) -> (range: (XorName, XorName))
        ensures
            spans(self.name, self.bit_count as int, range),
    {
        let count: usize = self.bit_count as usize;
        (self.name.set_remaining(count, false), self.name.set_remaining(count, true))
    }
}

/// A byte whose set bits are all set in another one is no larger than it.
proof fn lemma_byte_subset(a: u8, b: u8)
    requires
        forall|j: int| 0 <= j < 8 && #[trigger] byte_bit(a, j) ==> byte_bit(b, j),
    ensures
        a <= b,
{
    assert(byte_bit(a, 0) ==> byte_bit(b, 0));
    assert(byte_bit(a, 1) ==> byte_bit(b, 1));
    assert(byte_bit(a, 2) ==> byte_bit(b, 2));
    assert(byte_bit(a, 3) ==> byte_bit(b, 3));
    assert(byte_bit(a, 4) ==> byte_bit(b, 4));
    assert(byte_bit(a, 5) ==> byte_bit(b, 5));
    assert(byte_bit(a, 6) ==> byte_bit(b, 6));
    assert(byte_bit(a, 7) ==> byte_bit(b, 7));
    assert(a <= b) by (bit_vector)
        requires
            ((a >> 7u8) & 1u8 == 1u8) ==> ((b >> 7u8) & 1u8 == 1u8),
            ((a >> 6u8) & 1u8 == 1u8) ==> ((b >> 6u8) & 1u8 == 1u8),
            ((a >> 5u8) & 1u8 == 1u8) ==> ((b >> 5u8) & 1u8 == 1u8),
            ((a >> 4u8) & 1u8 == 1u8) ==> ((b >> 4u8) & 1u8 == 1u8),
            ((a >> 3u8) & 1u8 == 1u8) ==> ((b >> 3u8) & 1u8 == 1u8),
            ((a >> 2u8) & 1u8 == 1u8) ==> ((b >> 2u8) & 1u8 == 1u8),
            ((a >> 1u8) & 1u8 == 1u8) ==> ((b >> 1u8) & 1u8 == 1u8),
            ((a >> 0u8) & 1u8 == 1u8) ==> ((b >> 0u8) & 1u8 == 1u8),
    ;
}

/// A byte between two bytes that agree in their first `r` bits agrees with them in these bits.
proof fn lemma_byte_between(a: u8, n: u8, b: u8, r: int)
    requires
        0 <= r <= 8,
        a <= n <= b,
        forall|j: int| 0 <= j < r ==> #[trigger] byte_bit(a, j) == byte_bit(b, j),
    ensures
        forall|j: int| 0 <= j < r ==> #[trigger] byte_bit(n, j) == byte_bit(a, j),
    decreases r,
{
    if r > 0 {
        lemma_byte_between(a, n, b, r - 1);
        let s: u8 = (8 - r) as u8;
        assert forall|j: int| 0 <= j < r - 1 implies byte_bit(n, j) == byte_bit(a, j) && byte_bit(
            b,
            j,
        ) == byte_bit(a, j) by {
            assert(byte_bit(a, j) == byte_bit(b, j));
        }
        lemma_byte_high_bits(n, a, r - 1);
        lemma_byte_high_bits(b, a, r - 1);
        assert(byte_bit(a, r - 1) == byte_bit(b, r - 1));
        let t: u8 = (9 - r) as u8;
        assert((n >> s) & 1u8 == (a >> s) & 1u8) by (bit_vector)
            requires
                s < 8,
                t == s + 1,
                a <= n,
                n <= b,
                t < 8 ==> n >> t == a >> t,
                t < 8 ==> b >> t == a >> t,
                ((a >> s) & 1u8 == 1u8) == ((b >> s) & 1u8 == 1u8),
        ;
        assert((7 - (r - 1)) as u8 == s);
    }
}

/// Two bytes that agree in their first `r` bits are equal once the others are shifted out.
proof fn lemma_byte_high_bits(a: u8, b: u8, r: int)
    requires
        0 <= r <= 8,
        forall|j: int| 0 <= j < r ==> #[trigger] byte_bit(a, j) == byte_bit(b, j),
    ensures
        0 < r ==> a >> ((8 - r) as u8) == b >> ((8 - r) as u8),
    decreases r,
{
    if r > 0 {
        lemma_byte_high_bits(a, b, r - 1);
        let s: u8 = (8 - r) as u8;
        let t: u8 = (9 - r) as u8;
        assert(byte_bit(a, r - 1) == byte_bit(b, r - 1));
        assert((7 - (r - 1)) as u8 == s);
        assert(a >> s == b >> s) by (bit_vector)
            requires
                s < 8,
                t == s + 1,
                t < 8 ==> a >> t == b >> t,
                ((a >> s) & 1u8 == 1u8) == ((b >> s) & 1u8 == 1u8),
        ;
    }
}

/// Where two names in order agree up to a byte, that byte is in order too.
proof fn lemma_at_most_byte(a: XorName, b: XorName, k: int)
    requires
        a.at_most(b),
        0 <= k < 32,
        forall|i: int| 0 <= i < k ==> a.0@[i] == b.0@[i],
    ensures
        a.0@[k] <= b.0@[k],
{
    if a != b {
        let d = choose|d: int|
            #![trigger a.0@[d]]
            0 <= d < 32 && a.0@[d] < b.0@[d] && forall|i: int| 0 <= i < d ==> a.0@[i] == b.0@[i];
        assert(a.0@[d] < b.0@[d]);
        if d < k {
            assert(a.0@[d] == b.0@[d]);
        }
    }
}

/// Names whose bytes are pairwise in order are in order themselves. The first `k` bytes agree.
proof fn lemma_bytes_at_most(a: XorName, b: XorName, k: int)
    requires
        0 <= k <= 32,
        forall|i: int| 0 <= i < 32 ==> #[trigger] a.0@[i] <= b.0@[i],
        forall|i: int| 0 <= i < k ==> a.0@[i] == b.0@[i],
    ensures
        a.at_most(b),
    decreases 32 - k,
{
    if k == 32 {
        assert(a.0 =~= b.0);
    } else if a.0@[k] == b.0@[k] {
        lemma_bytes_at_most(a, b, k + 1);
    } else {
        assert(a.0@[k] < b.0@[k]);
    }
}

/// A name agrees with another one in the first `n` bits if and only if it lies between the smallest
/// and the largest name that does so.
pub proof fn agreement_is_a_range(
    base: XorName,
    n: int,
    range: (XorName, XorName),
    name: XorName,
)
    requires
        spans(base, n, range),
    ensures
        agree(base, name, n) <==> range.0.at_most(name) && name.at_most(range.1),
{
    let (first, last) = range;
    if agree(base, name, n) {
        assert forall|k: int| 0 <= k < 32 implies #[trigger] first.0@[k] <= name.0@[k]
            && name.0@[k] <= last.0@[k] by {
            assert forall|j: int| 0 <= j < 8 && #[trigger] byte_bit(first.0@[k], j) implies byte_bit(
                name.0@[k],
                j,
            ) by {
                let i = 8 * k + j;
                assert(i / 8 == k && i % 8 == j);
                assert(first.bit(i) ==> name.bit(i)) by {
                    if i < n {
                        assert(base.bit(i) == name.bit(i));
                    }
                }
            }
            lemma_byte_subset(first.0@[k], name.0@[k]);
            assert forall|j: int| 0 <= j < 8 && #[trigger] byte_bit(name.0@[k], j) implies byte_bit(
                last.0@[k],
                j,
            ) by {
                let i = 8 * k + j;
                assert(i / 8 == k && i % 8 == j);
                assert(name.bit(i) ==> last.bit(i)) by {
                    if i < n {
                        assert(base.bit(i) == name.bit(i));
                    }
                }
            }
            lemma_byte_subset(name.0@[k], last.0@[k]);
        }
        lemma_bytes_at_most(first, name, 0);
        lemma_bytes_at_most(name, last, 0);
    }
    if first.at_most(name) && name.at_most(last) {
        lemma_range_bits(base, n, range, name, 32);
        assert forall|i: int| 0 <= i < n && i < 256 implies #[trigger] base.bit(
            i,
        ) == name.bit(i) by {
            assert(first.bit(i) == base.bit(i));
        }
    }
}

/// The first `k` bytes of a name between two bounds agree with the bounds, as far as these agree
/// with each other.
proof fn lemma_range_bits(base: XorName, n: int, range: (XorName, XorName), name: XorName, k: int)
    requires
        spans(base, n, range),
        range.0.at_most(name),
        name.at_most(range.1),
        0 <= k <= 32,
    ensures
        forall|i: int|
            0 <= i < 8 * k && i < n ==> #[trigger] name.bit(i) == range.0.bit(i),
    decreases k,
{
    if k > 0 {
        lemma_range_bits(base, n, range, name, k - 1);
        let (first, last) = range;
        let b = k - 1;
        if 8 * b < n {
            assert forall|i: int| 0 <= i < b implies first.0@[i] == name.0@[i] && name.0@[i]
                == last.0@[i] by {
                assert forall|j: int| 0 <= j < 8 implies #[trigger] byte_bit(first.0@[i], j)
                    == byte_bit(name.0@[i], j) && byte_bit(first.0@[i], j) == byte_bit(
                    last.0@[i],
                    j,
                ) by {
                    let p = 8 * i + j;
                    assert(p / 8 == i && p % 8 == j);
                    assert(name.bit(p) == first.bit(p));
                    assert(last.bit(p) == first.bit(p));
                }
                lemma_byte_subset(first.0@[i], name.0@[i]);
                lemma_byte_subset(name.0@[i], first.0@[i]);
                lemma_byte_subset(first.0@[i], last.0@[i]);
                lemma_byte_subset(last.0@[i], first.0@[i]);
            }
            lemma_at_most_byte(first, name, b);
            lemma_at_most_byte(name, last, b);
            let r = if n - 8 * b < 8 {
                n - 8 * b
            } else {
                8
            };
            assert forall|j: int| 0 <= j < r implies #[trigger] byte_bit(first.0@[b], j)
                == byte_bit(last.0@[b], j) by {
                let p = 8 * b + j;
                assert(p / 8 == b && p % 8 == j);
                assert(last.bit(p) == first.bit(p));
            }
            lemma_byte_between(first.0@[b], name.0@[b], last.0@[b], r);
            assert forall|i: int|
                0 <= i < 8 * k && i < n implies #[trigger] name.bit(i)
                == first.bit(i) by {
                if i >= 8 * b {
                    let j = i - 8 * b;
                    assert(i / 8 == b && i % 8 == j);
                    assert(byte_bit(name.0@[b], j) == byte_bit(first.0@[b], j));
                }
            }
        }
    }
}

/// A name lies in a prefix if and only if it lies between the smallest and the largest name of
/// the prefix.
pub proof fn prefix_is_its_range(prefix: Prefix, range: (XorName, XorName), name: XorName)
    requires
        spans(prefix.name, prefix.bit_count as int, range),
    ensures
        prefix.covers(name) <==> range.0.at_most(name) && name.at_most(range.1),
{
    agreement_is_a_range(prefix.name, prefix.bit_count as int, range, name);
}

/// The bits of a name are those of a number: each byte is the sum of its bits, the first of them
/// being the most significant one.
pub proof fn name_is_a_number(name: XorName, k: int)
    requires
        0 <= k < 32,
    ensures
        ({
            let digit = |j: int| -> int { if name.bit(8 * k + j) { 1int } else { 0int } };
            name.0@[k] == 128 * digit(0) + 64 * digit(1) + 32 * digit(2) + 16 * digit(3) + 8 * digit(
                4,
            ) + 4 * digit(5) + 2 * digit(6) + digit(7)
        }),
{
    let byte: u8 = name.0@[k];
    assert forall|j: int| 0 <= j < 8 implies #[trigger] name.bit(8 * k + j) == ((byte >> ((7
        - j) as u8)) & 1u8 == 1u8) by {
        assert((8 * k + j) / 8 == k && (8 * k + j) % 8 == j);
    }
    assert(byte == 128 * ((byte >> 7u8) & 1u8) + 64 * ((byte >> 6u8) & 1u8) + 32 * ((byte >> 5u8)
        & 1u8) + 16 * ((byte >> 4u8) & 1u8) + 8 * ((byte >> 3u8) & 1u8) + 4 * ((byte >> 2u8) & 1u8)
        + 2 * ((byte >> 1u8) & 1u8) + ((byte >> 0u8) & 1u8)) by (bit_vector);
    assert(forall|s: u8| s < 8 ==> #[trigger] (byte >> s) & 1u8 == 0u8 || (byte >> s) & 1u8 == 1u8)
        by (bit_vector);
    assert(name.bit(8 * k) == name.bit(8 * k + 0));
    assert((byte >> 7u8) & 1u8 == 0u8 || (byte >> 7u8) & 1u8 == 1u8);
    assert((byte >> 6u8) & 1u8 == 0u8 || (byte >> 6u8) & 1u8 == 1u8);
    assert((byte >> 5u8) & 1u8 == 0u8 || (byte >> 5u8) & 1u8 == 1u8);
    assert((byte >> 4u8) & 1u8 == 0u8 || (byte >> 4u8) & 1u8 == 1u8);
    assert((byte >> 3u8) & 1u8 == 0u8 || (byte >> 3u8) & 1u8 == 1u8);
    assert((byte >> 2u8) & 1u8 == 0u8 || (byte >> 2u8) & 1u8 == 1u8);
    assert((byte >> 1u8) & 1u8 == 0u8 || (byte >> 1u8) & 1u8 == 1u8);
    assert((byte >> 0u8) & 1u8 == 0u8 || (byte >> 0u8) & 1u8 == 1u8);
}

/// Names are in order as numbers are: each is at most itself, and of two names that agree up to a
/// byte the one with the smaller byte is the smaller one.
pub proof fn first_difference_decides(a: XorName, b: XorName, k: int)
    requires
        0 <= k < 32,
        forall|i: int| 0 <= i < k ==> a.0@[i] == b.0@[i],
        a.0@[k] < b.0@[k],
    ensures
        a.at_most(a),
        a.at_most(b),
        !b.at_most(a),
{
    if b.at_most(a) {
        lemma_at_most_byte(b, a, k);
    }
}

/// Any two names are in order one way or the other, and both ways only if they are the same.
pub proof fn names_are_totally_ordered(a: XorName, b: XorName)
    ensures
        a.at_most(b) || b.at_most(a),
        a.at_most(b) && b.at_most(a) <==> a == b,
{
    if a != b {
        let k = lemma_first_difference(a, b, 0);
        if a.0@[k] < b.0@[k] {
            first_difference_decides(a, b, k);
        } else {
            first_difference_decides(b, a, k);
        }
    }
}

/// The first byte in which two names differ whose first `k` bytes agree.
proof fn lemma_first_difference(a: XorName, b: XorName, k: int) -> (d: int)
    requires
        a != b,
        0 <= k <= 32,
        forall|i: int| 0 <= i < k ==> a.0@[i] == b.0@[i],
    ensures
        k <= d < 32,
        a.0@[d] != b.0@[d],
        forall|i: int| 0 <= i < d ==> a.0@[i] == b.0@[i],
    decreases 32 - k,
{
    if k == 32 {
        assert(a.0 =~= b.0);
        k
    } else if a.0@[k] == b.0@[k] {
        lemma_first_difference(a, b, k + 1)
    } else {
        k
    }
}

/// Names agree bit by bit: all agree in no bits, and two that agree in some bits agree in one more
/// if and only if they have the same next bit. Those that agree in all 256 bits are the same.
pub proof fn names_agree_bit_by_bit(a: XorName, b: XorName, n: int)
    requires
        0 <= n < 256,
    ensures
        agree(a, b, 0),
        agree(a, b, n + 1) <==> agree(a, b, n) && a.bit(n) == b.bit(n),
        agree(a, b, 256) <==> a == b,
{
    if agree(a, b, n) && a.bit(n) == b.bit(n) {
        assert forall|i: int| 0 <= i < n + 1 && i < 256 implies #[trigger] a.bit(i) == b.bit(i) by {
            if i < n {
                assert(a.bit(i) == b.bit(i));
            }
        }
    }
    if agree(a, b, n + 1) {
        assert(a.bit(n) == b.bit(n));
    }
    if agree(a, b, 256) && a != b {
        let k = lemma_first_difference(a, b, 0);
        assert forall|j: int| 0 <= j < 8 implies #[trigger] byte_bit(a.0@[k], j) == byte_bit(
            b.0@[k],
            j,
        ) by {
            let i = 8 * k + j;
            assert(i / 8 == k && i % 8 == j);
            assert(a.bit(i) == b.bit(i));
        }
        lemma_byte_subset(a.0@[k], b.0@[k]);
        lemma_byte_subset(b.0@[k], a.0@[k]);
    }
}

/// A name has no more than 256 bits to agree in.
pub proof fn names_agree_in_all_their_bits(a: XorName, b: XorName, n: int)
    requires
        256 <= n,
    ensures
        agree(a, b, n) <==> a == b,
{
    names_agree_bit_by_bit(a, b, 255);
    if agree(a, b, n) {
        assert(agree(a, b, 256));
    }
}

/// A prefix holds a name if and only if the name begins with the bits of the prefix. In
/// particular the empty prefix holds every name, and a prefix of all the bits only a single one.
pub proof fn prefix_is_its_bits(prefix: Prefix, name: XorName)
    ensures
        prefix.covers(name) <==> (forall|i: int|
            0 <= i < prefix.bit_count && i < 256 ==> prefix.name.bit(i) == #[trigger] name.bit(i)),
        prefix.bit_count == 0 ==> prefix.covers(name),
        prefix.bit_count == 256 ==> (prefix.covers(name) <==> prefix.name == name),
        prefix.well_formed() <==> prefix.bit_count <= 256 && (forall|i: int|
            prefix.bit_count <= i < 256 ==> !#[trigger] prefix.name.bit(i)),
{
    names_agree_bit_by_bit(prefix.name, name, 255);
}

/// The bounds of a range are the smallest and the largest name that begins with the given bits.
pub proof fn range_is_bounded_by_its_names(
    base: XorName,
    n: int,
    range: (XorName, XorName),
    i: int,
)
    requires
        spans(base, n, range),
        0 <= i < 256,
    ensures
        i < n ==> range.0.bit(i) == base.bit(i) && range.1.bit(i) == base.bit(i),
        i >= n ==> !range.0.bit(i) && range.1.bit(i),
        range.0.at_most(range.1),
{
    assert(range.0.bit(i) == range.0.bit(i));
    assert forall|k: int| 0 <= k < n && k < 256 implies #[trigger] base.bit(k) == range.0.bit(k) by {
        assert(range.0.bit(k) == base.bit(k));
    }
    agreement_is_a_range(base, n, range, range.0);
}

} // verus!
