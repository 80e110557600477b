//! Requests understood by the canvas program.
use crate::address::Address;
use crate::error::NftCanvasError;
use crate::packable::{
    Packable, copy_bytes, lemma_u32_round_trip, lemma_u64_round_trip, pad_to, padded, push_bytes,
    push_u32, push_u64, read_u32, read_u64, u32_at, u32_le, u64_at, u64_le,
};
use vstd::prelude::*;

verus! {

/// Encoded size of a request.
pub const INSTRUCTION_PACKED_SIZE: usize = 16;

#[derive(Clone, Copy, Debug, PartialEq, Eq)]
pub enum NftCanvasInstruction {
    MintPixel { index: u32, color: [u8; 3], sell_price: u64 },
    UpdatePixelColor { index: u32, color: [u8; 3] },
    SellPixel { index: u32, price: u64 },
    BuyPixel { index: u32, price: u64, direct_only: u8 },
}

/// An account that a request references, with how the request uses it.
#[derive(Clone, Copy, Debug, PartialEq)]
pub struct AccountMeta {
    pub pubkey: Address,
    pub is_signer: bool,
    pub is_writable: bool,
}

impl AccountMeta {
    pub fn new(pubkey: Address, is_signer: bool) -> (r: AccountMeta)
        ensures
            r == (AccountMeta { pubkey, is_signer, is_writable: true }),
    {
        AccountMeta { pubkey, is_signer, is_writable: true }
    }

    pub fn new_readonly(pubkey: Address, is_signer: bool) -> (r: AccountMeta)
        ensures
            r == (AccountMeta { pubkey, is_signer, is_writable: false }),
    {
        AccountMeta { pubkey, is_signer, is_writable: false }
    }
}

/// A request addressed to a program: the accounts it references and its
/// encoded data.
pub struct Instruction {
    pub program_id: Address,
    pub accounts: Vec<AccountMeta>,
    pub data: Vec<u8>,
}

pub open spec fn writable(pubkey: Address, is_signer: bool) -> AccountMeta {
    AccountMeta { pubkey, is_signer, is_writable: true }
}

pub open spec fn readonly(pubkey: Address) -> AccountMeta {
    AccountMeta { pubkey, is_signer: false, is_writable: false }
}

impl NftCanvasInstruction {
    /// A mint request; the owner wallet signs and pays.
    pub fn mint_pixel(
        program: Address,
        system_program: Address,
        rent_sysvar: Address,
        mint_pool_wallet: Address,
        pixel_account: Address,
        owner_wallet: Address,
        index: u32,
        color: [u8; 3],
        sell_price: u64,
    ) -> (r: Instruction)
        ensures
            r.program_id == program,
            r.data@ == (NftCanvasInstruction::MintPixel { index, color, sell_price }).spec_packed(),
            r.accounts@ == seq![
                readonly(program),
                readonly(system_program),
                readonly(rent_sysvar),
                writable(mint_pool_wallet, false),
                writable(pixel_account, false),
                writable(owner_wallet, true),
            ],
    {
        let data = NftCanvasInstruction::MintPixel { index, color, sell_price }.pack();
        let accounts = vec![
            AccountMeta::new_readonly(program, false),
            AccountMeta::new_readonly(system_program, false),
            AccountMeta::new_readonly(rent_sysvar, false),
            AccountMeta::new(mint_pool_wallet, false),
            AccountMeta::new(pixel_account, false),
            AccountMeta::new(owner_wallet, true),
        ];
        Instruction { program_id: program, accounts, data }
    }

    /// A recolor request; the owner wallet signs.
    pub fn update_pixel_color(
        program: Address,
        pixel_account: Address,
        owner_wallet: Address,
        index: u32,
        color: [u8; 3],
    ) -> (r: Instruction)
        ensures
            r.program_id == program,
            r.data@ == (NftCanvasInstruction::UpdatePixelColor { index, color }).spec_packed(),
            r.accounts@ == seq![
                readonly(program),
                writable(pixel_account, false),
                writable(owner_wallet, true),
            ],
    {
        let data = NftCanvasInstruction::UpdatePixelColor { index, color }.pack();
        let accounts = vec![
            AccountMeta::new_readonly(program, false),
            AccountMeta::new(pixel_account, false),
            AccountMeta::new(owner_wallet, true),
        ];
        Instruction { program_id: program, accounts, data }
    }

    /// An ask request; the pixel owner signs.
    pub fn sell_pixel(
        program: Address,
        token_program: Address,
        pixel_account: Address,
        team_token_account: Address,
        trade_pool: Address,
        trade_pool_token_account: Address,
        pixel_owner: Address,
        pixel_owner_token_account: Address,
        index: u32,
        price: u64,
    ) -> (r: Instruction)
        ensures
            r.program_id == program,
            r.data@ == (NftCanvasInstruction::SellPixel { index, price }).spec_packed(),
            r.accounts@ == seq![
                readonly(program),
                readonly(token_program),
                writable(pixel_account, false),
                writable(team_token_account, false),
                writable(trade_pool, false),
                writable(trade_pool_token_account, false),
                writable(pixel_owner, true),
                writable(pixel_owner_token_account, false),
            ],
    {
        let data = NftCanvasInstruction::SellPixel { index, price }.pack();
        let accounts = vec![
            AccountMeta::new_readonly(program, false),
            AccountMeta::new_readonly(token_program, false),
            AccountMeta::new(pixel_account, false),
            AccountMeta::new(team_token_account, false),
            AccountMeta::new(trade_pool, false),
            AccountMeta::new(trade_pool_token_account, false),
            AccountMeta::new(pixel_owner, true),
            AccountMeta::new(pixel_owner_token_account, false),
        ];
        Instruction { program_id: program, accounts, data }
    }

    /// A buy request; the buyer wallet signs.
    pub fn buy_pixel(
        program: Address,
        token_program: Address,
        pixel_account: Address,
        team_token_account: Address,
        trade_pool: Address,
        trade_pool_token_account: Address,
        pixel_owner: Address,
        pixel_owner_token_account: Address,
        buyer_wallet: Address,
        buyer_token_account: Address,
        index: u32,
        price: u64,
        direct_only: u8,
    ) -> (r: Instruction)
        ensures
            r.program_id == program,
            r.data@ == (NftCanvasInstruction::BuyPixel { index, price, direct_only }).spec_packed(),
            r.accounts@ == seq![
                readonly(program),
                readonly(token_program),
                writable(pixel_account, false),
                writable(team_token_account, false),
                writable(trade_pool, false),
                writable(trade_pool_token_account, false),
                writable(pixel_owner, false),
                writable(pixel_owner_token_account, false),
                writable(buyer_wallet, true),
                writable(buyer_token_account, false),
            ],
    {
        let data = NftCanvasInstruction::BuyPixel { index, price, direct_only }.pack();
        let accounts = vec![
            AccountMeta::new_readonly(program, false),
            AccountMeta::new_readonly(token_program, false),
            AccountMeta::new(pixel_account, false),
            AccountMeta::new(team_token_account, false),
            AccountMeta::new(trade_pool, false),
            AccountMeta::new(trade_pool_token_account, false),
            AccountMeta::new(pixel_owner, false),
            AccountMeta::new(pixel_owner_token_account, false),
            AccountMeta::new(buyer_wallet, true),
            AccountMeta::new(buyer_token_account, false),
        ];
        Instruction { program_id: program, accounts, data }
    }

    /// The encoded variant number and fields, before padding.
    pub open spec fn spec_fields(&self) -> Seq<u8> {
        match *self {
            NftCanvasInstruction::MintPixel { index, color, sell_price } => seq![0u8] + u32_le(index)
                + color@ + u64_le(sell_price),
            NftCanvasInstruction::UpdatePixelColor { index, color } => seq![1u8] + u32_le(index)
                + color@,
            NftCanvasInstruction::SellPixel { index, price } => seq![2u8] + u32_le(index) + u64_le(
                price,
            ),
            NftCanvasInstruction::BuyPixel { index, price, direct_only } => seq![3u8] + u32_le(
                index,
            ) + u64_le(price) + seq![direct_only],
        }
    }
}

/// The request that `data` holds, when `data` is exactly one request long.
pub open spec fn instruction_of_bytes(data: Seq<u8>) -> Option<NftCanvasInstruction> {
    if data.len() != INSTRUCTION_PACKED_SIZE || data[0] > 3 {
        None
    } else if data[0] == 0 {
        Some(
            NftCanvasInstruction::MintPixel {
                index: u32_at(data, 1),
                color: [data[5], data[6], data[7]],
                sell_price: u64_at(data, 8),
            },
        )
    } else if data[0] == 1 {
        Some(
            NftCanvasInstruction::UpdatePixelColor {
                index: u32_at(data, 1),
                color: [data[5], data[6], data[7]],
            },
        )
    } else if data[0] == 2 {
        Some(NftCanvasInstruction::SellPixel { index: u32_at(data, 1), price: u64_at(data, 5) })
    } else {
        Some(
            NftCanvasInstruction::BuyPixel {
                index: u32_at(data, 1),
                price: u64_at(data, 5),
                direct_only: data[13],
            },
        )
    }
}

impl Packable for NftCanvasInstruction {
    open spec fn spec_packed_size() -> nat {
        INSTRUCTION_PACKED_SIZE as nat
    }

    open spec fn spec_packed(&self) -> Seq<u8> {
        padded(self.spec_fields(), INSTRUCTION_PACKED_SIZE as nat)
    }

    open spec fn spec_unpacked(data: Seq<u8>) -> Option<NftCanvasInstruction> {
        instruction_of_bytes(data)
    }

    fn packed_size() -> (r: usize) {
        INSTRUCTION_PACKED_SIZE
    }

    fn unpack(data: &[u8]) -> (r: Result<NftCanvasInstruction, NftCanvasError>) {
        if data.len() != INSTRUCTION_PACKED_SIZE || data[0] > 3 {
            return Err(NftCanvasError::FailedToUnpackData);
        }
        let tag = data[0];
        let index = read_u32(data, 1);
        if tag == 0 {
            Ok(
                NftCanvasInstruction::MintPixel {
                    index,
                    color: [data[5], data[6], data[7]],
                    sell_price: read_u64(data, 8),
                },
            )
        } else if tag == 1 {
            Ok(NftCanvasInstruction::UpdatePixelColor { index, color: [data[5], data[6], data[7]] })
        } else if tag == 2 {
            Ok(NftCanvasInstruction::SellPixel { index, price: read_u64(data, 5) })
        } else {
            Ok(
                NftCanvasInstruction::BuyPixel {
                    index,
                    price: read_u64(data, 5),
                    direct_only: data[13],
                },
            )
        }
    }

    fn pack(&self) -> (r: Vec<u8>) {
        let mut out: Vec<u8> = Vec::new();
        match *self {
            NftCanvasInstruction::MintPixel { index, color, sell_price } => {
                out.push(0u8);
                push_u32(&mut out, index);
                push_bytes(&mut out, color.as_slice());
                push_u64(&mut out, sell_price);
            },
            NftCanvasInstruction::UpdatePixelColor { index, color } => {
                out.push(1u8);
                push_u32(&mut out, index);
                push_bytes(&mut out, color.as_slice());
            },
            NftCanvasInstruction::SellPixel { index, price } => {
                out.push(2u8);
                push_u32(&mut out, index);
                push_u64(&mut out, price);
            },
            NftCanvasInstruction::BuyPixel { index, price, direct_only } => {
                out.push(3u8);
                push_u32(&mut out, index);
                push_u64(&mut out, price);
                out.push(direct_only);
            },
        }
        assert(out@ =~= self.spec_fields());
        pad_to(&mut out, INSTRUCTION_PACKED_SIZE);
        out
    }

    fn pack_into(&self, data: &mut [u8]) -> (r: Result<(), NftCanvasError>) {
        if data.len() != INSTRUCTION_PACKED_SIZE {
            return Err(NftCanvasError::FailedToPackData);
        }
        let bytes = self.pack();
        copy_bytes(data, &bytes);
        Ok(())
    }
}

/// Decoding a request's encoding gives the request back.
pub proof fn lemma_instruction_round_trip(ix: NftCanvasInstruction)
    ensures
        instruction_of_bytes(ix.spec_packed()) == Some(ix),
{
    let s = ix.spec_packed();
    let f = ix.spec_fields();
    assert(s.subrange(0, f.len() as int) =~= f);
    assert(s.subrange(1, 5) =~= f.subrange(1, 5));
    match ix {
        NftCanvasInstruction::MintPixel { index, color, sell_price } => {
            assert(s.subrange(1, 5) =~= u32_le(index));
            lemma_u32_round_trip(index, s, 1);
            assert(s.subrange(8, 16) =~= u64_le(sell_price));
            lemma_u64_round_trip(sell_price, s, 8);
            let q = instruction_of_bytes(s).unwrap();
            assert(q->MintPixel_color =~= color);
        },
        NftCanvasInstruction::UpdatePixelColor { index, color } => {
            assert(s.subrange(1, 5) =~= u32_le(index));
            lemma_u32_round_trip(index, s, 1);
            let q = instruction_of_bytes(s).unwrap();
            assert(q->UpdatePixelColor_color =~= color);
        },
        NftCanvasInstruction::SellPixel { index, price } => {
            assert(s.subrange(1, 5) =~= u32_le(index));
            lemma_u32_round_trip(index, s, 1);
            assert(s.subrange(5, 13) =~= u64_le(price));
            lemma_u64_round_trip(price, s, 5);
        },
        NftCanvasInstruction::BuyPixel { index, price, direct_only } => {
            assert(s.subrange(1, 5) =~= u32_le(index));
            lemma_u32_round_trip(index, s, 1);
            assert(s.subrange(5, 13) =~= u64_le(price));
            lemma_u64_round_trip(price, s, 5);
        },
    }
}

} // verus!
