//! Service identifiers in the layout that the platform's advertisement filter takes.

use vstd::prelude::*;

verus! {

/// A 128-bit service identifier split into the four fields of a platform GUID.
///
/// `data1` holds the 32 most significant bits, `data2` and `data3` the next two groups of
/// 16 bits, and `data4` the remaining 64 bits as bytes, most significant byte first.
#[derive(Clone, Copy, Debug, PartialEq, Eq)]
pub struct Guid {
    pub data1: u32,
    pub data2: u16,
    pub data3: u16,
    pub data4: [u8; 8],
}

/// The 128-bit number whose bits are the given fields laid side by side, the first field
/// on top.
pub open spec fn join(
    d1: u32,
    d2: u16,
    d3: u16,
    b0: u8,
    b1: u8,
    b2: u8,
    b3: u8,
    b4: u8,
    b5: u8,
    b6: u8,
    b7: u8,
) -> u128 {
    (d1 as u128) << 96
        | (d2 as u128) << 80
        | (d3 as u128) << 64
        | (b0 as u128) << 56
        | (b1 as u128) << 48
        | (b2 as u128) << 40
        | (b3 as u128) << 32
        | (b4 as u128) << 24
        | (b5 as u128) << 16
        | (b6 as u128) << 8
        | (b7 as u128)
}

impl Guid {
    /// The GUID that stands for the identifier `uuid`.
    pub open spec fn of(uuid: u128) -> Guid {
        Guid {
            data1: (uuid >> 96) as u32,
            data2: ((uuid >> 80) & 0xffff) as u16,
            data3: ((uuid >> 64) & 0xffff) as u16,
            data4: [
                ((uuid >> 56) & 0xff) as u8,
                ((uuid >> 48) & 0xff) as u8,
                ((uuid >> 40) & 0xff) as u8,
                ((uuid >> 32) & 0xff) as u8,
                ((uuid >> 24) & 0xff) as u8,
                ((uuid >> 16) & 0xff) as u8,
                ((uuid >> 8) & 0xff) as u8,
                (uuid & 0xff) as u8,
            ],
        }
    }

    /// The identifier that the four fields spell, read from `data1` down to the last byte
    /// of `data4`.
    pub open spec fn value(self) -> u128 {
        join(
            self.data1,
            self.data2,
            self.data3,
            self.data4[0],
            self.data4[1],
            self.data4[2],
            self.data4[3],
            self.data4[4],
            self.data4[5],
            self.data4[6],
            self.data4[7],
        )
    }

    /// Splitting an identifier into a GUID loses nothing: the fields spell it back.
    pub proof fn lemma_value_of(uuid: u128)
        ensures
            Guid::of(uuid).value() == uuid,
    {
        assert(join(
            (uuid >> 96) as u32,
            ((uuid >> 80) & 0xffff) as u16,
            ((uuid >> 64) & 0xffff) as u16,
            ((uuid >> 56) & 0xff) as u8,
            ((uuid >> 48) & 0xff) as u8,
            ((uuid >> 40) & 0xff) as u8,
            ((uuid >> 32) & 0xff) as u8,
            ((uuid >> 24) & 0xff) as u8,
            ((uuid >> 16) & 0xff) as u8,
            ((uuid >> 8) & 0xff) as u8,
            (uuid & 0xff) as u8,
        ) == uuid) by (bit_vector);
    }

    /// Two identifiers with the same GUID are the same identifier.
    pub proof fn lemma_of_injective(a: u128, b: u128)
        requires
            Guid::of(a) == Guid::of(b),
        ensures
            a == b,
    {
        Guid::lemma_value_of(a);
        Guid::lemma_value_of(b);
    }

    /// Every GUID stands for exactly the identifier that its fields spell.
    pub proof fn lemma_of_value(g: Guid)
        ensures
            Guid::of(g.value()) == g,
    {
        let (d1, d2, d3) = (g.data1, g.data2, g.data3);
        let (b0, b1, b2, b3) = (g.data4[0], g.data4[1], g.data4[2], g.data4[3]);
        let (b4, b5, b6, b7) = (g.data4[4], g.data4[5], g.data4[6], g.data4[7]);
        let v = join(d1, d2, d3, b0, b1, b2, b3, b4, b5, b6, b7);
        assert((v >> 96) as u32 == d1 && ((v >> 80) & 0xffff) as u16 == d2 && ((v >> 64)
            & 0xffff) as u16 == d3 && ((v >> 56) & 0xff) as u8 == b0 && ((v >> 48) & 0xff) as u8
            == b1 && ((v >> 40) & 0xff) as u8 == b2 && ((v >> 32) & 0xff) as u8 == b3 && ((v
            >> 24) & 0xff) as u8 == b4 && ((v >> 16) & 0xff) as u8 == b5 && ((v >> 8) & 0xff) as u8
            == b6 && (v & 0xff) as u8 == b7) by (bit_vector)
            requires
                v == join(d1, d2, d3, b0, b1, b2, b3, b4, b5, b6, b7),
        ;
        assert(Guid::of(v).data4 =~= g.data4);
    }
}

/// Splits an identifier into the platform's GUID and copies the four fields over.
///
/// The split is `windows_core::GUID::from` for a `u128`, and the contract is taken on
/// trust: it restates the shifts and masks by which that function fills `data1`, `data2`
/// and `data3`, and the big-endian bytes of the low 64 bits that it puts into `data4`.
#[verifier::external_body]
pub(crate) fn platform_guid(uuid: u128) -> (g: Guid)
    ensures
        g == Guid::of(uuid),
{
    let native = windows_core::GUID::from(uuid);
    Guid { data1: native.data1, data2: native.data2, data3: native.data3, data4: native.data4 }
}

} // verus!
