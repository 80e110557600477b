//! Request processing: checks the referenced accounts in a fixed order, then
//! applies the marketplace operation.
//!
//! The host hands over each referenced account as its key, whether it signed,
//! and its data. Processing either fails with the first failed check or
//! returns the new pixel record and the token transfers that settle the
//! request, which the host applies atomically.
use crate::address::Address;
use crate::config::{
    MINT_COST, PIXEL_COUNT, get_pixel, get_token_account, get_trade_pool, mint_pool_wallet_bytes,
    mint_pool_wallet_id, pixel_address, team_token_account_bytes, team_token_account_id,
    token_account_address, trade_pool_address,
};
use crate::error::NftCanvasError;
use crate::instruction::{NftCanvasInstruction, instruction_of_bytes};
use crate::ledger::{
    derived_view, rent_sysvar_bytes, rent_sysvar_id, system_program_bytes, system_program_id,
    token_program_bytes, token_program_id,
};
use crate::market::{
    Party, Transfer, buy, buy_outcome, is_direct_buy, minted, recolored, sell, sell_outcome,
};
use crate::packable::Packable;
use crate::state::{Pixel, pixel_of_bytes};
use vstd::prelude::*;

verus! {

/// An account referenced by a request, as the host supplies it.
pub struct AccountRef {
    pub key: Address,
    pub is_signer: bool,
    pub data: Vec<u8>,
}

/// Why a request was rejected.
#[derive(Clone, Copy, Debug, PartialEq, Eq, Structural)]
pub enum ProcessError {
    /// Fewer accounts were referenced than the request needs.
    NotEnoughAccountKeys,
    Canvas(NftCanvasError),
}

/// A token transfer between ledger accounts, signed by `authority`.
#[derive(Clone, Copy, Debug, PartialEq)]
pub struct TokenTransfer {
    pub source: Address,
    pub destination: Address,
    pub authority: Address,
    pub amount: u64,
}

/// The token accounts that play each part in a trade.
#[derive(Clone, Copy, Debug)]
pub struct TradeAccounts {
    pub trade_pool: Address,
    pub trade_pool_token: Address,
    pub seller_token: Address,
    pub team_token: Address,
    pub buyer: Address,
    pub buyer_token: Address,
    pub previous_bidder_token: Address,
}

/// A minted pixel, the bump seed of its derived record address, and the
/// lamports that the owner pays into the mint pool wallet.
#[derive(Clone, Copy, Debug)]
pub struct MintEffects {
    pub pixel: Pixel,
    pub pixel_bump: u8,
    pub mint_cost: u64,
}

/// The new pixel record after a trade, the transfers that settle it, and the
/// trade pool's bump seed, which signs for the pool.
pub struct TradeEffects {
    pub pixel: Pixel,
    pub transfers: Vec<TokenTransfer>,
    pub trade_pool_bump: u8,
}

/// What an accepted request asks the host to do.
pub enum Effects {
    /// Take the mint cost, create the record account and write the pixel.
    Mint(MintEffects),
    /// Write the recolored pixel.
    Recolor(Pixel),
    /// Run the transfers and write the pixel.
    Trade(TradeEffects),
}

/// Whether `key` is the derived address `d`.
pub open spec fn is_key(key: Address, d: Option<(Seq<u8>, u8)>) -> bool {
    d is Some && d->Some_0.0 == key@
}

fn key_is(key: &Address, d: &Option<(Address, u8)>) -> (r: bool)
    ensures
        r == is_key(*key, derived_view(*d)),
{
    match d {
        Some((a, _)) => a.same_bytes(key),
        None => false,
    }
}

/// The account that sends for a party, and the one that signs for it.
pub open spec fn party_account(p: Party, r: TradeAccounts) -> (Address, Address) {
    match p {
        Party::Buyer => (r.buyer_token, r.buyer),
        Party::Seller => (r.seller_token, r.seller_token),
        Party::Team => (r.team_token, r.team_token),
        Party::TradePool => (r.trade_pool_token, r.trade_pool),
        Party::PreviousBidder => (r.previous_bidder_token, r.previous_bidder_token),
    }
}

pub open spec fn token_transfer(t: Transfer, r: TradeAccounts) -> TokenTransfer {
    TokenTransfer {
        source: party_account(t.from, r).0,
        destination: party_account(t.to, r).0,
        authority: party_account(t.from, r).1,
        amount: t.amount,
    }
}

pub open spec fn token_transfers(ts: Seq<Transfer>, r: TradeAccounts) -> Seq<TokenTransfer> {
    ts.map_values(|t: Transfer| token_transfer(t, r))
}

fn party_account_exec(p: Party, r: &TradeAccounts) -> (out: (Address, Address))
    ensures
        out == party_account(p, *r),
{
    match p {
        Party::Buyer => (r.buyer_token, r.buyer),
        Party::Seller => (r.seller_token, r.seller_token),
        Party::Team => (r.team_token, r.team_token),
        Party::TradePool => (r.trade_pool_token, r.trade_pool),
        Party::PreviousBidder => (r.previous_bidder_token, r.previous_bidder_token),
    }
}

/// The transfers between parties, made concrete with the trade's accounts.
pub fn to_token_transfers(ts: &Vec<Transfer>, r: &TradeAccounts) -> (out: Vec<TokenTransfer>)
    ensures
        out@ == token_transfers(ts@, *r),
{
    let mut out: Vec<TokenTransfer> = Vec::new();
    let mut i: usize = 0;
    while i < ts.len()
        invariant
            0 <= i <= ts@.len(),
            out@ == token_transfers(ts@.subrange(0, i as int), *r),
        decreases ts@.len() - i,
    {
        let t = ts[i];
        let (source, authority) = party_account_exec(t.from, r);
        let (destination, _) = party_account_exec(t.to, r);
        out.push(TokenTransfer { source, destination, authority, amount: t.amount });
        i = i + 1;
        assert(out@ =~= token_transfers(ts@.subrange(0, i as int), *r));
    }
    assert(ts@.subrange(0, i as int) =~= ts@);
    out
}

/// The first failed check of a mint request, or its effects.
pub open spec fn mint_request(
    program: Address,
    accounts: Seq<AccountRef>,
    index: u32,
    color: [u8; 3],
    sell_price: u64,
) -> Result<(Pixel, u8), ProcessError> {
    if index >= PIXEL_COUNT {
        Err(ProcessError::Canvas(NftCanvasError::PixelIndexOutOfBounds))
    } else if accounts.len() < 6 {
        Err(ProcessError::NotEnoughAccountKeys)
    } else if accounts[0].key@ != program@ {
        Err(ProcessError::Canvas(NftCanvasError::ProgramKeyMismatch))
    } else if accounts[1].key@ != system_program_bytes() || accounts[2].key@
        != rent_sysvar_bytes() {
        Err(ProcessError::Canvas(NftCanvasError::RentSysvarKeyMismatch))
    } else if accounts[3].key@ != mint_pool_wallet_bytes() {
        Err(ProcessError::Canvas(NftCanvasError::MintPoolWalletKeyMismatch))
    } else if !is_key(accounts[4].key, pixel_address(program@, index)) || accounts[4].data@.len()
        != 0 {
        Err(ProcessError::Canvas(NftCanvasError::PixelAccountKeyMismatch))
    } else if !accounts[5].is_signer {
        Err(ProcessError::Canvas(NftCanvasError::FunderDidNotSign))
    } else {
        Ok(
            (
                minted(index, color, accounts[5].key, sell_price),
                pixel_address(program@, index)->Some_0.1,
            ),
        )
    }
}

/// Mints pixel `index` for the signing wallet (the sixth account). The
/// accounts are: program, system program, rent sysvar, mint pool wallet,
/// pixel record, owner wallet. The pixel record must be the derived address
/// of `index` and hold no data yet: a slot that already holds a record is
/// refused like a wrong address.
pub fn process_mint_pixel(
    program_id: &Address,
    accounts: &[AccountRef],
    index: u32,
    color: [u8; 3],
    sell_price: u64,
) -> (r: Result<MintEffects, ProcessError>)
    ensures
        match r {
            Ok(e) => mint_request(*program_id, accounts@, index, color, sell_price) == Ok::<
                (Pixel, u8),
                ProcessError,
            >((e.pixel, e.pixel_bump)) && e.mint_cost == MINT_COST,
            Err(e) => mint_request(*program_id, accounts@, index, color, sell_price) == Err::<
                (Pixel, u8),
                ProcessError,
            >(e),
        },
{
    if index >= PIXEL_COUNT {
        return Err(ProcessError::Canvas(NftCanvasError::PixelIndexOutOfBounds));
    }
    if accounts.len() < 6 {
        return Err(ProcessError::NotEnoughAccountKeys);
    }
    let pixel_id = get_pixel(program_id, index);
    if !accounts[0].key.same_bytes(program_id) {
        return Err(ProcessError::Canvas(NftCanvasError::ProgramKeyMismatch));
    }
    if !accounts[1].key.same_bytes(&system_program_id()) || !accounts[2].key.same_bytes(
        &rent_sysvar_id(),
    ) {
        return Err(ProcessError::Canvas(NftCanvasError::RentSysvarKeyMismatch));
    }
    if !accounts[3].key.same_bytes(&mint_pool_wallet_id()) {
        return Err(ProcessError::Canvas(NftCanvasError::MintPoolWalletKeyMismatch));
    }
    if !key_is(&accounts[4].key, &pixel_id) || accounts[4].data.len() != 0 {
        return Err(ProcessError::Canvas(NftCanvasError::PixelAccountKeyMismatch));
    }
    if !accounts[5].is_signer {
        return Err(ProcessError::Canvas(NftCanvasError::FunderDidNotSign));
    }
    let pixel_bump = match pixel_id {
        Some((_, bump)) => bump,
        None => 0,
    };
    Ok(
        MintEffects {
            pixel: Pixel::new(index, color, accounts[5].key, sell_price),
            pixel_bump,
            mint_cost: MINT_COST,
        },
    )
}

/// The first failed check of a recolor request, or the recolored pixel.
pub open spec fn recolor_request(
    program: Address,
    accounts: Seq<AccountRef>,
    index: u32,
    color: [u8; 3],
) -> Result<Pixel, ProcessError> {
    if index >= PIXEL_COUNT {
        Err(ProcessError::Canvas(NftCanvasError::PixelIndexOutOfBounds))
    } else if accounts.len() < 3 {
        Err(ProcessError::NotEnoughAccountKeys)
    } else {
        match pixel_of_bytes(accounts[1].data@) {
            None => Err(ProcessError::Canvas(NftCanvasError::FailedToUnpackData)),
            Some(p) => if accounts[0].key@ != program@ {
                Err(ProcessError::Canvas(NftCanvasError::ProgramKeyMismatch))
            } else if !is_key(accounts[1].key, pixel_address(program@, index)) {
                Err(ProcessError::Canvas(NftCanvasError::PixelAccountKeyMismatch))
            } else if accounts[2].key@ != p.owner_wallet@ {
                Err(ProcessError::Canvas(NftCanvasError::PixelOwnerKeyMismatch))
            } else if !accounts[2].is_signer {
                Err(ProcessError::Canvas(NftCanvasError::PixelOwnerDidNotSign))
            } else {
                Ok(recolored(p, color))
            },
        }
    }
}

/// Recolors pixel `index` for its signing owner. The accounts are: program,
/// pixel record, owner wallet.
pub fn process_update_pixel_color(
    program_id: &Address,
    accounts: &[AccountRef],
    index: u32,
    color: [u8; 3],
) -> (r: Result<Pixel, ProcessError>)
    ensures
        r == recolor_request(*program_id, accounts@, index, color),
{
    if index >= PIXEL_COUNT {
        return Err(ProcessError::Canvas(NftCanvasError::PixelIndexOutOfBounds));
    }
    if accounts.len() < 3 {
        return Err(ProcessError::NotEnoughAccountKeys);
    }
    let pixel_id = get_pixel(program_id, index);
    let mut pixel = match Pixel::unpack(accounts[1].data.as_slice()) {
        Ok(p) => p,
        Err(e) => {
            return Err(ProcessError::Canvas(e));
        },
    };
    if !accounts[0].key.same_bytes(program_id) {
        return Err(ProcessError::Canvas(NftCanvasError::ProgramKeyMismatch));
    }
    if !key_is(&accounts[1].key, &pixel_id) {
        return Err(ProcessError::Canvas(NftCanvasError::PixelAccountKeyMismatch));
    }
    if !accounts[2].key.same_bytes(&pixel.owner_wallet) {
        return Err(ProcessError::Canvas(NftCanvasError::PixelOwnerKeyMismatch));
    }
    if !accounts[2].is_signer {
        return Err(ProcessError::Canvas(NftCanvasError::PixelOwnerDidNotSign));
    }
    crate::market::recolor(&mut pixel, color);
    Ok(pixel)
}

/// The first failed key check shared by ask and buy requests, whose accounts
/// start with: program, token program, pixel record, team token account,
/// trade pool, trade pool token account, pixel owner, owner token account.
pub open spec fn trade_key_error(
    program: Address,
    accounts: Seq<AccountRef>,
    index: u32,
    owner: Address,
) -> Option<NftCanvasError> {
    if accounts[0].key@ != program@ {
        Some(NftCanvasError::ProgramKeyMismatch)
    } else if accounts[1].key@ != token_program_bytes() {
        Some(NftCanvasError::TokenProgramKeyMismatch)
    } else if !is_key(accounts[2].key, pixel_address(program@, index)) {
        Some(NftCanvasError::PixelAccountKeyMismatch)
    } else if accounts[3].key@ != team_token_account_bytes() {
        Some(NftCanvasError::TeamTokenAccountKeyMismatch)
    } else if !is_key(accounts[4].key, trade_pool_address(program@)) {
        Some(NftCanvasError::TradePoolKeyMismatch)
    } else if !is_key(accounts[5].key, token_account_address(accounts[4].key@)) {
        Some(NftCanvasError::TradePoolTokenAccountKeyMismatch)
    } else if accounts[6].key@ != owner@ {
        Some(NftCanvasError::PixelOwnerKeyMismatch)
    } else if !is_key(accounts[7].key, token_account_address(owner@)) {
        Some(NftCanvasError::PixelOwnerKeyMismatch)
    } else {
        None
    }
}

fn derived_key_is(key: &Address, d: &Option<Address>, ghost_d: Ghost<Option<(Seq<u8>, u8)>>) -> (r:
    bool)
    requires
        match ghost_d@ {
            Some((k, _)) => d is Some && d->Some_0@ == k,
            None => d is None,
        },
    ensures
        r == is_key(*key, ghost_d@),
{
    match d {
        Some(a) => a.same_bytes(key),
        None => false,
    }
}

fn check_trade_keys(program_id: &Address, accounts: &[AccountRef], index: u32, owner: &Address) -> (r:
    Result<u8, NftCanvasError>)
    requires
        accounts@.len() >= 8,
    ensures
        match trade_key_error(*program_id, accounts@, index, *owner) {
            Some(e) => r == Err::<u8, NftCanvasError>(e),
            None => r == Ok::<u8, NftCanvasError>(trade_pool_address(program_id@)->Some_0.1),
        },
{
    let pixel_id = get_pixel(program_id, index);
    let trade_pool_id = get_trade_pool(program_id);
    if !accounts[0].key.same_bytes(program_id) {
        return Err(NftCanvasError::ProgramKeyMismatch);
    }
    if !accounts[1].key.same_bytes(&token_program_id()) {
        return Err(NftCanvasError::TokenProgramKeyMismatch);
    }
    if !key_is(&accounts[2].key, &pixel_id) {
        return Err(NftCanvasError::PixelAccountKeyMismatch);
    }
    if !accounts[3].key.same_bytes(&team_token_account_id()) {
        return Err(NftCanvasError::TeamTokenAccountKeyMismatch);
    }
    if !key_is(&accounts[4].key, &trade_pool_id) {
        return Err(NftCanvasError::TradePoolKeyMismatch);
    }
    let pool_token = get_token_account(&accounts[4].key);
    if !derived_key_is(
        &accounts[5].key,
        &pool_token,
        Ghost(token_account_address(accounts@[4].key@)),
    ) {
        return Err(NftCanvasError::TradePoolTokenAccountKeyMismatch);
    }
    if !accounts[6].key.same_bytes(owner) {
        return Err(NftCanvasError::PixelOwnerKeyMismatch);
    }
    let owner_token = get_token_account(owner);
    if !derived_key_is(&accounts[7].key, &owner_token, Ghost(token_account_address(owner@))) {
        return Err(NftCanvasError::PixelOwnerKeyMismatch);
    }
    match trade_pool_id {
        Some((_, bump)) => Ok(bump),
        None => Ok(0),
    }
}

/// The accounts of a trade, by their place in the request.
pub open spec fn trade_accounts(accounts: Seq<AccountRef>) -> TradeAccounts {
    TradeAccounts {
        trade_pool: accounts[4].key,
        trade_pool_token: accounts[5].key,
        seller_token: accounts[7].key,
        team_token: accounts[3].key,
        buyer: if accounts.len() > 8 {
            accounts[8].key
        } else {
            accounts[6].key
        },
        buyer_token: if accounts.len() > 9 {
            accounts[9].key
        } else {
            accounts[7].key
        },
        previous_bidder_token: if accounts.len() > 10 {
            accounts[10].key
        } else {
            accounts[5].key
        },
    }
}

fn trade_accounts_exec(accounts: &[AccountRef]) -> (r: TradeAccounts)
    requires
        accounts@.len() >= 8,
    ensures
        r == trade_accounts(accounts@),
{
    TradeAccounts {
        trade_pool: accounts[4].key,
        trade_pool_token: accounts[5].key,
        seller_token: accounts[7].key,
        team_token: accounts[3].key,
        buyer: if accounts.len() > 8 {
            accounts[8].key
        } else {
            accounts[6].key
        },
        buyer_token: if accounts.len() > 9 {
            accounts[9].key
        } else {
            accounts[7].key
        },
        previous_bidder_token: if accounts.len() > 10 {
            accounts[10].key
        } else {
            accounts[5].key
        },
    }
}

/// The first failed check of an ask request, or its effects.
pub open spec fn sell_request(program: Address, accounts: Seq<AccountRef>, index: u32, price: u64) -> Result<
    (Pixel, Seq<TokenTransfer>, u8),
    ProcessError,
> {
    if index >= PIXEL_COUNT {
        Err(ProcessError::Canvas(NftCanvasError::PixelIndexOutOfBounds))
    } else if accounts.len() < 8 {
        Err(ProcessError::NotEnoughAccountKeys)
    } else {
        match pixel_of_bytes(accounts[2].data@) {
            None => Err(ProcessError::Canvas(NftCanvasError::FailedToUnpackData)),
            Some(p) => match trade_key_error(program, accounts, index, p.owner_wallet) {
                Some(e) => Err(ProcessError::Canvas(e)),
                None => if !accounts[6].is_signer {
                    Err(ProcessError::Canvas(NftCanvasError::PixelOwnerDidNotSign))
                } else {
                    let (q, ts) = sell_outcome(p, price);
                    Ok(
                        (
                            q,
                            token_transfers(ts, trade_accounts(accounts)),
                            trade_pool_address(program@)->Some_0.1,
                        ),
                    )
                },
            },
        }
    }
}

/// The owner's ask on pixel `index` at `price` (0 withdraws the ask). The
/// accounts are those of `trade_key_error`.
pub fn process_sell_pixel(program_id: &Address, accounts: &[AccountRef], index: u32, price: u64) -> (r:
    Result<TradeEffects, ProcessError>)
    ensures
        match r {
            Ok(e) => sell_request(*program_id, accounts@, index, price) == Ok::<
                (Pixel, Seq<TokenTransfer>, u8),
                ProcessError,
            >((e.pixel, e.transfers@, e.trade_pool_bump)),
            Err(e) => sell_request(*program_id, accounts@, index, price) == Err::<
                (Pixel, Seq<TokenTransfer>, u8),
                ProcessError,
            >(e),
        },
{
    if index >= PIXEL_COUNT {
        return Err(ProcessError::Canvas(NftCanvasError::PixelIndexOutOfBounds));
    }
    if accounts.len() < 8 {
        return Err(ProcessError::NotEnoughAccountKeys);
    }
    let mut pixel = match Pixel::unpack(accounts[2].data.as_slice()) {
        Ok(p) => p,
        Err(e) => {
            return Err(ProcessError::Canvas(e));
        },
    };
    let owner = pixel.owner_wallet;
    let trade_pool_bump = match check_trade_keys(program_id, accounts, index, &owner) {
        Ok(bump) => bump,
        Err(e) => {
            return Err(ProcessError::Canvas(e));
        },
    };
    if !accounts[6].is_signer {
        return Err(ProcessError::Canvas(NftCanvasError::PixelOwnerDidNotSign));
    }
    let roles = trade_accounts_exec(accounts);
    let transfers = sell(&mut pixel, price);
    Ok(TradeEffects { pixel, transfers: to_token_transfers(&transfers, &roles), trade_pool_bump })
}

/// The first failed check of a buy request, or its effects.
pub open spec fn buy_request(
    program: Address,
    accounts: Seq<AccountRef>,
    index: u32,
    price: u64,
    direct_only: u8,
) -> Result<(Pixel, Seq<TokenTransfer>, u8), ProcessError> {
    if index >= PIXEL_COUNT {
        Err(ProcessError::Canvas(NftCanvasError::PixelIndexOutOfBounds))
    } else if accounts.len() < 10 {
        Err(ProcessError::NotEnoughAccountKeys)
    } else {
        match pixel_of_bytes(accounts[2].data@) {
            None => Err(ProcessError::Canvas(NftCanvasError::FailedToUnpackData)),
            Some(p) => match trade_key_error(program, accounts, index, p.owner_wallet) {
                Some(e) => Err(ProcessError::Canvas(e)),
                None => if !is_key(accounts[9].key, token_account_address(accounts[8].key@)) {
                    Err(ProcessError::Canvas(NftCanvasError::BuyerTokenAccountKeyMismatch))
                } else if !accounts[8].is_signer {
                    Err(ProcessError::Canvas(NftCanvasError::PixelOwnerDidNotSign))
                } else {
                    match buy_outcome(p, accounts[8].key, price, direct_only) {
                        Err(e) => Err(ProcessError::Canvas(e)),
                        Ok((q, ts)) => if !is_direct_buy(p, price) && p.best_buy_info is Some
                            && accounts.len() < 11 {
                            Err(ProcessError::NotEnoughAccountKeys)
                        } else {
                            Ok(
                                (
                                    q,
                                    token_transfers(ts, trade_accounts(accounts)),
                                    trade_pool_address(program@)->Some_0.1,
                                ),
                            )
                        },
                    }
                },
            },
        }
    }
}

/// A buy request on pixel `index` at `price` from the signing buyer. The
/// accounts are those of `trade_key_error`, then the buyer's wallet and
/// token account, then, when the request replaces an outstanding bid, the
/// token account that receives its refund.
pub fn process_buy_pixel(
    program_id: &Address,
    accounts: &[AccountRef],
    index: u32,
    price: u64,
    direct_only: u8,
) -> (r: Result<TradeEffects, ProcessError>)
    ensures
        match r {
            Ok(e) => buy_request(*program_id, accounts@, index, price, direct_only) == Ok::<
                (Pixel, Seq<TokenTransfer>, u8),
                ProcessError,
            >((e.pixel, e.transfers@, e.trade_pool_bump)),
            Err(e) => buy_request(*program_id, accounts@, index, price, direct_only) == Err::<
                (Pixel, Seq<TokenTransfer>, u8),
                ProcessError,
            >(e),
        },
{
    if index >= PIXEL_COUNT {
        return Err(ProcessError::Canvas(NftCanvasError::PixelIndexOutOfBounds));
    }
    if accounts.len() < 10 {
        return Err(ProcessError::NotEnoughAccountKeys);
    }
    let mut pixel = match Pixel::unpack(accounts[2].data.as_slice()) {
        Ok(p) => p,
        Err(e) => {
            return Err(ProcessError::Canvas(e));
        },
    };
    let owner = pixel.owner_wallet;
    let trade_pool_bump = match check_trade_keys(program_id, accounts, index, &owner) {
        Ok(bump) => bump,
        Err(e) => {
            return Err(ProcessError::Canvas(e));
        },
    };
    let buyer = accounts[8].key;
    let buyer_token = get_token_account(&buyer);
    if !derived_key_is(&accounts[9].key, &buyer_token, Ghost(token_account_address(buyer@))) {
        return Err(ProcessError::Canvas(NftCanvasError::BuyerTokenAccountKeyMismatch));
    }
    if !accounts[8].is_signer {
        return Err(ProcessError::Canvas(NftCanvasError::PixelOwnerDidNotSign));
    }
    let replaces_bid = !(pixel.sell_price != 0 && price >= pixel.sell_price)
        && pixel.best_buy_info.is_some();
    let transfers = match buy(&mut pixel, &buyer, price, direct_only) {
        Ok(ts) => ts,
        Err(e) => {
            return Err(ProcessError::Canvas(e));
        },
    };
    if replaces_bid && accounts.len() < 11 {
        return Err(ProcessError::NotEnoughAccountKeys);
    }
    let roles = trade_accounts_exec(accounts);
    Ok(TradeEffects { pixel, transfers: to_token_transfers(&transfers, &roles), trade_pool_bump })
}

/// Whether `r` is what processing a decoded request gives.
pub open spec fn dispatched(
    program: Address,
    accounts: Seq<AccountRef>,
    ix: NftCanvasInstruction,
    r: Result<Effects, ProcessError>,
) -> bool {
    match ix {
        NftCanvasInstruction::MintPixel { index, color, sell_price } => match r {
            Ok(Effects::Mint(e)) => mint_request(program, accounts, index, color, sell_price) == Ok::<
                (Pixel, u8),
                ProcessError,
            >((e.pixel, e.pixel_bump)) && e.mint_cost == MINT_COST,
            Ok(_) => false,
            Err(e) => mint_request(program, accounts, index, color, sell_price) == Err::<
                (Pixel, u8),
                ProcessError,
            >(e),
        },
        NftCanvasInstruction::UpdatePixelColor { index, color } => match r {
            Ok(Effects::Recolor(p)) => recolor_request(program, accounts, index, color) == Ok::<
                Pixel,
                ProcessError,
            >(p),
            Ok(_) => false,
            Err(e) => recolor_request(program, accounts, index, color) == Err::<Pixel, ProcessError>(
                e,
            ),
        },
        NftCanvasInstruction::SellPixel { index, price } => match r {
            Ok(Effects::Trade(e)) => sell_request(program, accounts, index, price) == Ok::<
                (Pixel, Seq<TokenTransfer>, u8),
                ProcessError,
            >((e.pixel, e.transfers@, e.trade_pool_bump)),
            Ok(_) => false,
            Err(e) => sell_request(program, accounts, index, price) == Err::<
                (Pixel, Seq<TokenTransfer>, u8),
                ProcessError,
            >(e),
        },
        NftCanvasInstruction::BuyPixel { index, price, direct_only } => match r {
            Ok(Effects::Trade(e)) => buy_request(program, accounts, index, price, direct_only)
                == Ok::<(Pixel, Seq<TokenTransfer>, u8), ProcessError>(
                (e.pixel, e.transfers@, e.trade_pool_bump),
            ),
            Ok(_) => false,
            Err(e) => buy_request(program, accounts, index, price, direct_only) == Err::<
                (Pixel, Seq<TokenTransfer>, u8),
                ProcessError,
            >(e),
        },
    }
}

/// Decodes a request and processes it; an undecodable request fails with
/// `FailedToUnpackData`.
pub fn process_instruction(
    program_id: &Address,
    accounts: &[AccountRef],
    instruction_data: &[u8],
) -> (r: Result<Effects, ProcessError>)
    ensures
        match instruction_of_bytes(instruction_data@) {
            None => r == Err::<Effects, ProcessError>(
                ProcessError::Canvas(NftCanvasError::FailedToUnpackData),
            ),
            Some(ix) => dispatched(*program_id, accounts@, ix, r),
        },
{
    let ix = match NftCanvasInstruction::unpack(instruction_data) {
        Ok(ix) => ix,
        Err(e) => {
            return Err(ProcessError::Canvas(e));
        },
    };
    match ix {
        NftCanvasInstruction::MintPixel { index, color, sell_price } => {
            match process_mint_pixel(program_id, accounts, index, color, sell_price) {
                Ok(e) => Ok(Effects::Mint(e)),
                Err(e) => Err(e),
            }
        },
        NftCanvasInstruction::UpdatePixelColor { index, color } => {
            match process_update_pixel_color(program_id, accounts, index, color) {
                Ok(p) => Ok(Effects::Recolor(p)),
                Err(e) => Err(e),
            }
        },
        NftCanvasInstruction::SellPixel { index, price } => {
            match process_sell_pixel(program_id, accounts, index, price) {
                Ok(e) => Ok(Effects::Trade(e)),
                Err(e) => Err(e),
            }
        },
        NftCanvasInstruction::BuyPixel { index, price, direct_only } => {
            match process_buy_pixel(program_id, accounts, index, price, direct_only) {
                Ok(e) => Ok(Effects::Trade(e)),
                Err(e) => Err(e),
            }
        },
    }
}

} // verus!
