//! The per-pixel record stored on the ledger.
use crate::address::Address;
use crate::error::NftCanvasError;
use crate::packable::{
    Packable, copy_bytes, lemma_u32_round_trip, lemma_u64_round_trip, pad_to, padded, push_bytes,
    push_u32, push_u64, read_u32, read_u64, u32_at, u32_le, u64_at, u64_le,
};
use vstd::prelude::*;

verus! {

/// Encoded size of a `Pixel` record.
pub const PIXEL_PACKED_SIZE: usize = 88;

/// The outstanding bid on a pixel: its price is held in the trade pool.
#[derive(Clone, Copy, Debug, Default, PartialEq)]
pub struct PixelBuyInfo {
    pub price: u64,
    pub buyer_wallet: Address,
}

/// One pixel of the canvas.
#[derive(Clone, Copy, Debug, Default, PartialEq)]
pub struct Pixel {
    pub index: u32,
    pub color: [u8; 3],
    pub owner_wallet: Address,
    /// Asking price; 0 means not listed.
    pub sell_price: u64,
    pub best_buy_info: Option<PixelBuyInfo>,
}

impl Pixel {
    pub fn new(index: u32, color: [u8; 3], owner_wallet: Address, sell_price: u64) -> (r: Pixel)
        ensures
            r == (Pixel { index, color, owner_wallet, sell_price, best_buy_info: None }),
    {
        Pixel { index, color, owner_wallet, sell_price, best_buy_info: None }
    }

    /// The encoded fields, before padding.
    pub open spec fn spec_fields(&self) -> Seq<u8> {
        u32_le(self.index) + self.color@ + self.owner_wallet@ + u64_le(self.sell_price) + match
            self.best_buy_info {
            None => seq![0u8],
            Some(b) => seq![1u8] + u64_le(b.price) + b.buyer_wallet@,
        }
    }

    /// The address stored at byte `i`.
    pub open spec fn spec_address_at(data: Seq<u8>, i: int) -> Address {
        choose|a: Address| a@ == data.subrange(i, i + 32)
    }
}

/// The pixel record that `data` holds, when `data` is exactly one record long.
pub open spec fn pixel_of_bytes(data: Seq<u8>) -> Option<Pixel> {
    if data.len() != PIXEL_PACKED_SIZE || (data[47] != 0 && data[47] != 1) {
        None
    } else {
        Some(
            Pixel {
                index: u32_at(data, 0),
                color: [data[4], data[5], data[6]],
                owner_wallet: Pixel::spec_address_at(data, 7),
                sell_price: u64_at(data, 39),
                best_buy_info: if data[47] == 0 {
                    None
                } else {
                    Some(
                        PixelBuyInfo {
                            price: u64_at(data, 48),
                            buyer_wallet: Pixel::spec_address_at(data, 56),
                        },
                    )
                },
            },
        )
    }
}

fn read_address(data: &[u8], i: usize) -> (r: Address)
    requires
        i + 32 <= data@.len(),
    ensures
        r == Pixel::spec_address_at(data@, i as int),
{
    let len = data.len();
    let mut bytes = [0u8; 32];
    let mut k: usize = 0;
    while k < 32
        invariant
            0 <= k <= 32,
            len == data@.len(),
            i + 32 <= data@.len(),
            forall|j: int| 0 <= j < k ==> bytes[j] == data@[i + j],
        decreases 32 - k,
    {
        bytes[k] = data[i + k];
        k = k + 1;
    }
    let r = Address { bytes };
    assert(r@ =~= data@.subrange(i as int, i + 32));
    let ghost a = Pixel::spec_address_at(data@, i as int);
    assert(a.bytes =~= r.bytes);
    r
}

impl Packable for Pixel {
    open spec fn spec_packed_size() -> nat {
        PIXEL_PACKED_SIZE as nat
    }

    open spec fn spec_packed(&self) -> Seq<u8> {
        padded(self.spec_fields(), PIXEL_PACKED_SIZE as nat)
    }

    open spec fn spec_unpacked(data: Seq<u8>) -> Option<Pixel> {
        pixel_of_bytes(data)
    }

    fn packed_size() -> (r: usize) {
        PIXEL_PACKED_SIZE
    }

    fn unpack(data: &[u8]) -> (r: Result<Pixel, NftCanvasError>) {
        if data.len() != PIXEL_PACKED_SIZE || (data[47] != 0 && data[47] != 1) {
            return Err(NftCanvasError::FailedToUnpackData);
        }
        let best_buy_info = if data[47] == 0 {
            None
        } else {
            Some(PixelBuyInfo { price: read_u64(data, 48), buyer_wallet: read_address(data, 56) })
        };
        Ok(
            Pixel {
                index: read_u32(data, 0),
                color: [data[4], data[5], data[6]],
                owner_wallet: read_address(data, 7),
                sell_price: read_u64(data, 39),
                best_buy_info,
            },
        )
    }

    fn pack(&self) -> (r: Vec<u8>) {
        let mut out: Vec<u8> = Vec::new();
        push_u32(&mut out, self.index);
        push_bytes(&mut out, self.color.as_slice());
        push_bytes(&mut out, self.owner_wallet.bytes.as_slice());
        push_u64(&mut out, self.sell_price);
        match &self.best_buy_info {
            None => {
                out.push(0u8);
            },
            Some(b) => {
                out.push(1u8);
                push_u64(&mut out, b.price);
                push_bytes(&mut out, b.buyer_wallet.bytes.as_slice());
            },
        }
        assert(out@ =~= self.spec_fields());
        pad_to(&mut out, PIXEL_PACKED_SIZE);
        out
    }

    fn pack_into(&self, data: &mut [u8]) -> (r: Result<(), NftCanvasError>) {
        if data.len() != PIXEL_PACKED_SIZE {
            return Err(NftCanvasError::FailedToPackData);
        }
        let bytes = self.pack();
        copy_bytes(data, &bytes);
        Ok(())
    }
}

/// Decoding a pixel's encoding gives the pixel back.
pub proof fn lemma_pixel_round_trip(p: Pixel)
    ensures
        pixel_of_bytes(p.spec_packed()) == Some(p),
{
    let s = p.spec_packed();
    let f = p.spec_fields();
    assert(s.subrange(0, f.len() as int) =~= f);
    assert(s.subrange(0, 4) =~= u32_le(p.index));
    lemma_u32_round_trip(p.index, s, 0);
    assert(s.subrange(39, 47) =~= u64_le(p.sell_price));
    lemma_u64_round_trip(p.sell_price, s, 39);
    let q = pixel_of_bytes(s).unwrap();
    assert(q.color =~= p.color);
    assert(p.owner_wallet@ =~= s.subrange(7, 39));
    assert(q.owner_wallet.bytes =~= p.owner_wallet.bytes);
    match p.best_buy_info {
        None => {
            assert(s[47] == 0);
        },
        Some(b) => {
            assert(s[47] == 1);
            assert(s.subrange(48, 56) =~= u64_le(b.price));
            lemma_u64_round_trip(b.price, s, 48);
            assert(b.buyer_wallet@ =~= s.subrange(56, 88));
            let qb = q.best_buy_info.unwrap();
            assert(qb.buyer_wallet.bytes =~= b.buyer_wallet.bytes);
        },
    }
}

} // verus!
