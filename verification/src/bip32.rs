//! Key-derivation paths: a component count byte followed by big-endian
//! 32-bit components, capped at `LEN` components.

use vstd::prelude::*;

use crate::parser::{read_be32, spec_be32};

verus! {

/// Why a derivation path failed to decode or build.
#[derive(Debug, Clone, Copy, PartialEq, Eq)]
pub enum BIP32PathError {
    /// A path with zero components was requested.
    ZeroLength,
    /// The input ends before the declared components are complete.
    NotEnoughData,
    /// The input holds more than the declared or supported components.
    TooMuchData,
}

/// A derivation path with up to `LEN` components.
#[derive(Debug, PartialEq, Eq)]
pub struct BIP32Path<const LEN: usize> {
    components: Vec<u32>,
}

impl<const LEN: usize> View for BIP32Path<LEN> {
    type V = Seq<u32>;

    closed spec fn view(&self) -> Seq<u32> {
        self.components@
    }
}

/// Byte `k` (big-endian, `0 <= k < 4`) of a 32-bit component.
pub open spec fn spec_be32_byte(c: u32, k: int) -> u8 {
    if k == 0 {
        (c >> 24) as u8
    } else if k == 1 {
        (c >> 16) as u8
    } else if k == 2 {
        (c >> 8) as u8
    } else {
        c as u8
    }
}

impl<const LEN: usize> BIP32Path<LEN> {
    /// A path is well formed when it has at least one component, no more
    /// than `LEN`, and the count fits the single count byte of the wire
    /// format.
    pub open spec fn wf(&self) -> bool {
        1 <= self@.len() <= LEN && self@.len() <= 255
    }

    /// Mathematical counterpart of [`BIP32Path::read`].
    pub open spec fn spec_read(s: Seq<u8>) -> Result<Seq<u32>, BIP32PathError> {
        if s.len() < 2 {
            Err(BIP32PathError::NotEnoughData)
        } else if (s.len() - 1) % 4 != 0 {
            Err(BIP32PathError::NotEnoughData)
        } else if s[0] == 0 {
            Err(BIP32PathError::ZeroLength)
        } else if s[0] > LEN {
            Err(BIP32PathError::TooMuchData)
        } else if (s.len() - 1) / 4 > s[0] {
            Err(BIP32PathError::TooMuchData)
        } else if (s.len() - 1) / 4 < s[0] {
            Err(BIP32PathError::NotEnoughData)
        } else {
            Ok(Seq::new(s[0] as nat, |i: int| spec_be32(s, 1 + 4 * i)))
        }
    }

    /// Attempt to read a path from the provided input bytes.
    ///
    /// The total length must be exactly one count byte plus four bytes per
    /// declared component; a count of zero, a count above `LEN`, and a
    /// length that disagrees with the count in either direction are each
    /// rejected.
    pub fn read(input: &[u8]) -> (r: Result<Self, BIP32PathError>)
        ensures
            match r {
                Ok(p) => Self::spec_read(input@) == Ok::<Seq<u32>, BIP32PathError>(p@) && p.wf(),
                Err(e) => Self::spec_read(input@) == Err::<Seq<u32>, BIP32PathError>(e),
            },
    {
        if input.len() < 2 {
            return Err(BIP32PathError::NotEnoughData);
        }
        let blen = input.len() - 1;
        if blen % 4 != 0 {
            return Err(BIP32PathError::NotEnoughData);
        }
        let len = input[0] as usize;
        if len == 0 {
            return Err(BIP32PathError::ZeroLength);
        }
        if len > LEN {
            return Err(BIP32PathError::TooMuchData);
        }
        if blen / 4 > len {
            return Err(BIP32PathError::TooMuchData);
        }
        if blen / 4 < len {
            return Err(BIP32PathError::NotEnoughData);
        }
        proof {
            assert(blen == 4 * (blen / 4) + blen % 4);
        }
        let mut components: Vec<u32> = Vec::new();
        let mut i: usize = 0;
        while i < len
            invariant
                i <= len,
                len <= 255,
                input@.len() == 1 + 4 * len,
                components@ == Seq::new(i as nat, |k: int| spec_be32(input@, 1 + 4 * k)),
            decreases len - i,
        {
            let c = read_be32(input, 1 + 4 * i);
            components.push(c);
            proof {
                assert(components@ =~= Seq::new(
                    (i + 1) as nat,
                    |k: int| spec_be32(input@, 1 + 4 * k),
                ));
            }
            i = i + 1;
        }
        proof {
            assert(components@ =~= Seq::new(input@[0] as nat, |k: int| spec_be32(input@, 1 + 4 * k)));
        }
        Ok(BIP32Path { components })
    }

    /// The decoded components, in order.
    pub fn components(&self) -> (r: &[u32])
        ensures
            r@ == self@,
    {
        self.components.as_slice()
    }

    /// Build a path from the given components.
    ///
    /// Fails with a zero-length error for an empty list and with a
    /// too-much-data error when the list exceeds `LEN` components or the
    /// count byte of the wire format.
    pub fn new(components: &[u32]) -> (r: Result<Self, BIP32PathError>)
        ensures
            r is Ok <==> 1 <= components@.len() <= LEN && components@.len() <= 255,
            r matches Ok(p) ==> p@ == components@ && p.wf(),
            r == Err::<Self, _>(BIP32PathError::ZeroLength) <==> components@.len() == 0,
            r == Err::<Self, _>(BIP32PathError::TooMuchData) <==> (components@.len() > LEN
                || components@.len() > 255),
    {
        let n = components.len();
        if n == 0 {
            return Err(BIP32PathError::ZeroLength);
        }
        if n > LEN || n > 255 {
            return Err(BIP32PathError::TooMuchData);
        }
        let mut values: Vec<u32> = Vec::new();
        let mut i: usize = 0;
        while i < n
            invariant
                i <= n == components@.len(),
                values@ == components@.take(i as int),
            decreases n - i,
        {
            values.push(components[i]);
            proof {
                assert(values@ =~= components@.take(i as int + 1));
            }
            i = i + 1;
        }
        proof {
            assert(values@ =~= components@);
        }
        Ok(BIP32Path { components: values })
    }

    /// The decoder's rejections, each with its distinct condition: an
    /// input shorter than two bytes or whose length is not one count byte
    /// plus whole four-byte components, a declared count of zero, a
    /// declared count above the capacity, and a length that implies more
    /// or fewer components than declared.
    pub proof fn lemma_read_rejections(s: Seq<u8>)
        ensures
            s.len() < 2 ==> Self::spec_read(s) == Err::<Seq<u32>, BIP32PathError>(
                BIP32PathError::NotEnoughData,
            ),
            s.len() >= 2 && (s.len() - 1) % 4 != 0 ==> Self::spec_read(s) == Err::<
                Seq<u32>,
                BIP32PathError,
            >(BIP32PathError::NotEnoughData),
            s.len() >= 2 && (s.len() - 1) % 4 == 0 && s[0] == 0 ==> Self::spec_read(s) == Err::<
                Seq<u32>,
                BIP32PathError,
            >(BIP32PathError::ZeroLength),
            s.len() >= 2 && (s.len() - 1) % 4 == 0 && s[0] > LEN ==> Self::spec_read(s) == Err::<
                Seq<u32>,
                BIP32PathError,
            >(BIP32PathError::TooMuchData),
            s.len() >= 2 && (s.len() - 1) % 4 == 0 && 0 < s[0] <= LEN && (s.len() - 1) / 4 > s[0]
                ==> Self::spec_read(s) == Err::<Seq<u32>, BIP32PathError>(
                BIP32PathError::TooMuchData,
            ),
            s.len() >= 2 && (s.len() - 1) % 4 == 0 && 0 < s[0] <= LEN && (s.len() - 1) / 4 < s[0]
                ==> Self::spec_read(s) == Err::<Seq<u32>, BIP32PathError>(
                BIP32PathError::NotEnoughData,
            ),
    {
    }

    /// Mathematical counterpart of [`BIP32Path::serialize`]: the component
    /// count byte followed by each component in big-endian order.
    pub open spec fn spec_serialize(v: Seq<u32>) -> Seq<u8> {
        Seq::new(
            (1 + 4 * v.len()) as nat,
            |i: int|
                if i == 0 {
                    v.len() as u8
                } else {
                    spec_be32_byte(v[(i - 1) / 4], (i - 1) % 4)
                },
        )
    }

    /// Serialize the path in its wire format.
    pub fn serialize(&self) -> (r: Vec<u8>)
        requires
            self.wf(),
        ensures
            r@ == Self::spec_serialize(self@),
    {
        let n = self.components.len();
        let mut v: Vec<u8> = Vec::new();
        v.push(n as u8);
        let mut i: usize = 0;
        while i < n
            invariant
                i <= n == self@.len(),
                n <= 255,
                v@.len() == 1 + 4 * i,
                forall|j: int| 0 <= j < v@.len() ==> v@[j] == Self::spec_serialize(self@)[j],
            decreases n - i,
        {
            let c = self.components[i];
            v.push((c >> 24) as u8);
            v.push((c >> 16) as u8);
            v.push((c >> 8) as u8);
            v.push(c as u8);
            proof {
                assert forall|k: int| 0 <= k < 4 implies Self::spec_serialize(self@)[1 + 4 * (
                i as int) + k] == spec_be32_byte(self@[i as int], k) by {
                    lemma_serialize_index::<LEN>(self@, i as int, k);
                }
            }
            i = i + 1;
        }
        proof {
            assert(v@ =~= Self::spec_serialize(self@));
        }
        v
    }
}

/// Byte `1 + 4*i + k` of a serialized path is byte `k` of component `i`.
proof fn lemma_serialize_index<const LEN: usize>(v: Seq<u32>, i: int, k: int)
    requires
        0 <= i < v.len(),
        0 <= k < 4,
    ensures
        BIP32Path::<LEN>::spec_serialize(v)[1 + 4 * i + k] == spec_be32_byte(v[i], k),
{
    assert((4 * i + k) / 4 == i && (4 * i + k) % 4 == k) by (nonlinear_arith)
        requires
            0 <= i,
            0 <= k < 4,
    ;
}

/// The four big-endian bytes of a 32-bit value recompose to that value.
proof fn lemma_be32_recompose(c: u32)
    ensures
        ((c >> 24) as u8) * 0x1000000 + ((c >> 16) as u8) * 0x10000 + ((c >> 8) as u8) * 0x100 + (
        c as u8) == c,
{
    assert(((c >> 24) as u8) * 0x1000000 + ((c >> 16) as u8) * 0x10000 + ((c >> 8) as u8) * 0x100
        + (c as u8) == c) by (bit_vector);
}

/// Serializing a well-formed path and reading the result yields the same
/// components: the wire format loses no information for any component
/// count from one up to the capacity and any component values.
pub proof fn lemma_serialize_read_round_trip<const LEN: usize>(v: Seq<u32>)
    requires
        1 <= v.len() <= LEN,
        v.len() <= 255,
    ensures
        BIP32Path::<LEN>::spec_read(BIP32Path::<LEN>::spec_serialize(v)) == Ok::<
            Seq<u32>,
            BIP32PathError,
        >(v),
{
    let s = BIP32Path::<LEN>::spec_serialize(v);
    assert(s.len() == 1 + 4 * v.len());
    assert(s[0] == v.len() as u8);
    assert((s.len() - 1) % 4 == 0 && (s.len() - 1) / 4 == v.len()) by (nonlinear_arith)
        requires
            s.len() == 1 + 4 * v.len(),
            v.len() >= 1,
    ;
    let decoded = Seq::new(s[0] as nat, |i: int| spec_be32(s, 1 + 4 * i));
    assert forall|i: int| 0 <= i < v.len() implies decoded[i] == v[i] by {
        assert forall|k: int| 0 <= k < 4 implies s[1 + 4 * i + k] == spec_be32_byte(v[i], k) by {
            lemma_serialize_index::<LEN>(v, i, k);
        }
        lemma_be32_recompose(v[i]);
        assert(decoded[i] == spec_be32(s, 1 + 4 * i));
    }
    assert(decoded =~= v);
}

} // verus!
