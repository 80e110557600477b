//! Deployment constants and the tax split.
use crate::address::Address;
use crate::ledger::{
    associated_token_program_bytes, associated_token_program_id, derived_view,
    find_program_address, program_address, seeds_view, token_program_bytes, token_program_id,
};
use crate::packable::{push_u32, u32_le};
use vstd::prelude::*;

verus! {

/// Number of pixels on the canvas (width * height).
pub const PIXEL_COUNT: u32 = 1000000;

/// Lamports paid into the mint pool for each minted pixel.
pub const MINT_COST: u64 = 1000000;

/// The team's share of a trade is `1 / TAX_DIV` of its amount, rounded down.
pub const TAX_DIV: u64 = 100;

/// How a trade's amount is divided between the seller and the team.
pub struct TradeAmountSplit {
    pub to_seller: u64,
    pub to_team: u64,
}

impl TradeAmountSplit {
    pub open spec fn spec_split(amount: u64) -> TradeAmountSplit {
        TradeAmountSplit {
            to_seller: (amount - amount / TAX_DIV) as u64,
            to_team: amount / TAX_DIV,
        }
    }

    pub fn split(amount: u64) -> (r: TradeAmountSplit)
        ensures
            r == Self::spec_split(amount),
            r.to_team == amount / 100,
            r.to_seller == amount - amount / 100,
            r.to_seller + r.to_team == amount,
    {
        let to_team = amount / TAX_DIV;
        TradeAmountSplit { to_seller: amount - to_team, to_team }
    }
}

/// The token mint traded on the canvas,
/// 8s9FCz99Wcr3dHpiauFRi6bLXzshXfcGTfgQE7UEopVx.
pub open spec fn token_mint_bytes() -> Seq<u8> {
    seq![
        116u8, 218, 43, 232, 254, 122, 208, 151, 135, 80, 148, 171, 104, 26, 207, 104, 184, 185,
        90, 82, 118, 30, 5, 84, 21, 115, 160, 84, 110, 31, 40, 11,
    ]
}

/// The wallet that receives the mint cost,
/// ARamwbZzoaRjiEnHM2oVmD5bqPpGPNuxUuXWRzsacgaz.
pub open spec fn mint_pool_wallet_bytes() -> Seq<u8> {
    seq![
        140u8, 5, 79, 164, 60, 241, 131, 232, 165, 50, 146, 78, 242, 250, 237, 9, 162, 149, 210,
        221, 187, 74, 137, 132, 131, 98, 176, 245, 118, 224, 197, 55,
    ]
}

/// The team's token account, which collects the tax,
/// Esi6Z7reZt9NjZ2TeTFRXcTez1XA7764dE9bZoKCdjTb.
pub open spec fn team_token_account_bytes() -> Seq<u8> {
    seq![
        206u8, 37, 112, 7, 122, 109, 154, 138, 42, 105, 95, 21, 59, 194, 61, 105, 144, 22, 170,
        241, 3, 16, 111, 108, 112, 34, 213, 219, 26, 247, 181, 254,
    ]
}

pub fn token_mint_id() -> (r: Address)
    ensures
        r@ == token_mint_bytes(),
{
    let r = Address {
        bytes: [
            116, 218, 43, 232, 254, 122, 208, 151, 135, 80, 148, 171, 104, 26, 207, 104, 184, 185,
            90, 82, 118, 30, 5, 84, 21, 115, 160, 84, 110, 31, 40, 11,
        ],
    };
    assert(r@ =~= token_mint_bytes());
    r
}

pub fn mint_pool_wallet_id() -> (r: Address)
    ensures
        r@ == mint_pool_wallet_bytes(),
{
    let r = Address {
        bytes: [
            140, 5, 79, 164, 60, 241, 131, 232, 165, 50, 146, 78, 242, 250, 237, 9, 162, 149, 210,
            221, 187, 74, 137, 132, 131, 98, 176, 245, 118, 224, 197, 55,
        ],
    };
    assert(r@ =~= mint_pool_wallet_bytes());
    r
}

pub fn team_token_account_id() -> (r: Address)
    ensures
        r@ == team_token_account_bytes(),
{
    let r = Address {
        bytes: [
            206, 37, 112, 7, 122, 109, 154, 138, 42, 105, 95, 21, 59, 194, 61, 105, 144, 22, 170,
            241, 3, 16, 111, 108, 112, 34, 213, 219, 26, 247, 181, 254,
        ],
    };
    assert(r@ =~= team_token_account_bytes());
    r
}

/// The seed text "pixel".
pub open spec fn pixel_seed_text() -> Seq<u8> {
    seq![112u8, 105, 120, 101, 108]
}

/// The seed text "trade_pool".
pub open spec fn trade_pool_seed_text() -> Seq<u8> {
    seq![116u8, 114, 97, 100, 101, 95, 112, 111, 111, 108]
}

/// The derived address of the record of pixel `index`.
pub open spec fn pixel_address(program: Seq<u8>, index: u32) -> Option<(Seq<u8>, u8)> {
    program_address(seq![program, pixel_seed_text(), u32_le(index)], program)
}

/// The derived address of the trade pool.
pub open spec fn trade_pool_address(program: Seq<u8>) -> Option<(Seq<u8>, u8)> {
    program_address(seq![program, trade_pool_seed_text()], program)
}

/// The derived address of the canvas token account of `wallet`: the program
/// address of (wallet, token program, token mint) under the associated token
/// account program.
pub open spec fn token_account_address(wallet: Seq<u8>) -> Option<(Seq<u8>, u8)> {
    program_address(
        seq![wallet, token_program_bytes(), token_mint_bytes()],
        associated_token_program_bytes(),
    )
}

pub fn get_trade_pool(program: &Address) -> (r: Option<(Address, u8)>)
    ensures
        derived_view(r) == trade_pool_address(program@),
{
    let seeds: Vec<Vec<u8>> = vec![
        program.to_vec(),
        vec![116u8, 114, 97, 100, 101, 95, 112, 111, 111, 108],
    ];
    assert(seeds_view(seeds@) =~= seq![program@, trade_pool_seed_text()]);
    find_program_address(&seeds, program)
}

pub fn get_pixel(program: &Address, index: u32) -> (r: Option<(Address, u8)>)
    ensures
        derived_view(r) == pixel_address(program@, index),
{
    let mut index_bytes: Vec<u8> = Vec::new();
    push_u32(&mut index_bytes, index);
    let seeds: Vec<Vec<u8>> = vec![
        program.to_vec(),
        vec![112u8, 105, 120, 101, 108],
        index_bytes,
    ];
    assert(seeds_view(seeds@) =~= seq![program@, pixel_seed_text(), u32_le(index)]);
    find_program_address(&seeds, program)
}

/// The canvas token account of `owner`, where it can be derived.
pub fn get_token_account(owner: &Address) -> (r: Option<Address>)
    ensures
        match token_account_address(owner@) {
            Some((key, _)) => r is Some && r->Some_0@ == key,
            None => r is None,
        },
{
    let token_program = token_program_id();
    let mint = token_mint_id();
    let seeds: Vec<Vec<u8>> = vec![
        owner.to_vec(),
        token_program.to_vec(),
        mint.to_vec(),
    ];
    assert(seeds_view(seeds@) =~= seq![owner@, token_program_bytes(), token_mint_bytes()]);
    let ata_program = associated_token_program_id();
    match find_program_address(&seeds, &ata_program) {
        Some((key, _)) => Some(key),
        None => None,
    }
}

} // verus!
