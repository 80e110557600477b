//! The marketplace state machine: mint, recolor, ask and buy on one pixel.
//!
//! Each operation maps a pixel record (and the request's values) to the new
//! record and the token transfers that settle it. Transfers name the parties
//! by role; the processor turns roles into ledger accounts.
use crate::address::Address;
use crate::config::{PIXEL_COUNT, TradeAmountSplit};
use crate::error::NftCanvasError;
use crate::state::{Pixel, PixelBuyInfo};
use vstd::prelude::*;

verus! {

/// A participant in a token transfer.
#[derive(Clone, Copy, Debug, PartialEq, Eq, Structural)]
pub enum Party {
    /// The wallet that sends the buy request.
    Buyer,
    /// The pixel's owner before the request.
    Seller,
    /// The team's token account, which collects the tax.
    Team,
    /// The shared escrow that holds the outstanding bids.
    TradePool,
    /// The holder of the bid that a higher bid replaces.
    PreviousBidder,
}

/// A movement of `amount` tokens from one party to another.
#[derive(Clone, Copy, Debug, PartialEq, Eq, Structural)]
pub struct Transfer {
    pub from: Party,
    pub to: Party,
    pub amount: u64,
}

/// The amount that the trade pool holds for a pixel's bid.
pub open spec fn escrowed(p: Pixel) -> int {
    match p.best_buy_info {
        Some(b) => b.price as int,
        None => 0,
    }
}

/// What one transfer adds to the trade pool's balance.
pub open spec fn pool_flow(t: Transfer) -> int {
    (if t.to == Party::TradePool {
        t.amount as int
    } else {
        0
    }) - (if t.from == Party::TradePool {
        t.amount as int
    } else {
        0
    })
}

/// What a sequence of transfers adds to the trade pool's balance.
pub open spec fn pool_delta(ts: Seq<Transfer>) -> int
    decreases ts.len(),
{
    if ts.len() == 0 {
        0
    } else {
        pool_delta(ts.drop_last()) + pool_flow(ts.last())
    }
}

/// The transfers that pay `amount` from `from` to the seller and the team.
pub open spec fn payout(from: Party, amount: u64) -> Seq<Transfer> {
    let s = TradeAmountSplit::spec_split(amount);
    seq![
        Transfer { from, to: Party::Seller, amount: s.to_seller },
        Transfer { from, to: Party::Team, amount: s.to_team },
    ]
}

/// A freshly minted pixel.
pub open spec fn minted(index: u32, color: [u8; 3], owner: Address, sell_price: u64) -> Pixel {
    Pixel { index, color, owner_wallet: owner, sell_price, best_buy_info: None }
}

/// The pixel with a new color.
pub open spec fn recolored(p: Pixel, color: [u8; 3]) -> Pixel {
    Pixel { color, ..p }
}

/// Whether an ask at `price` is met by the pixel's outstanding bid.
pub open spec fn ask_matches_bid(p: Pixel, price: u64) -> bool {
    price != 0 && p.best_buy_info is Some && p.best_buy_info->Some_0.price >= price
}

/// The owner's ask at `price`: it settles against the outstanding bid at the
/// bid's price when the bid meets it, else it sets the asking price.
pub open spec fn sell_outcome(p: Pixel, price: u64) -> (Pixel, Seq<Transfer>) {
    if ask_matches_bid(p, price) {
        let bid = p.best_buy_info->Some_0;
        (
            Pixel { owner_wallet: bid.buyer_wallet, sell_price: 0, best_buy_info: None, ..p },
            payout(Party::TradePool, bid.price),
        )
    } else {
        (Pixel { sell_price: price, ..p }, seq![])
    }
}

/// Whether a buy at `price` takes the pixel at its asking price.
pub open spec fn is_direct_buy(p: Pixel, price: u64) -> bool {
    p.sell_price != 0 && price >= p.sell_price
}

/// Whether a buy at `price` is higher than the outstanding bid, or there is
/// none. Such a buy fails with `CouldNotDirectBuy` when only a direct
/// purchase was asked for. Otherwise it becomes the new bid, with one
/// exception: a zero price on a pixel without a bid fails with
/// `BuyPriceTooLow`, since a stored bid's price is never zero.
pub open spec fn outbids(p: Pixel, price: u64) -> bool {
    p.best_buy_info is None || price > p.best_buy_info->Some_0.price
}

/// A buy request from `buyer` at `price`: a direct purchase at or above the
/// ask, else a new best bid above the outstanding one (or above zero where
/// there is none), else a failure.
pub open spec fn buy_outcome(p: Pixel, buyer: Address, price: u64, direct_only: u8) -> Result<
    (Pixel, Seq<Transfer>),
    NftCanvasError,
> {
    if is_direct_buy(p, price) {
        let bid = if p.best_buy_info is Some && p.best_buy_info->Some_0.buyer_wallet == buyer {
            None
        } else {
            p.best_buy_info
        };
        Ok(
            (
                Pixel { owner_wallet: buyer, sell_price: 0, best_buy_info: bid, ..p },
                payout(Party::Buyer, price),
            ),
        )
    } else if outbids(p, price) {
        if direct_only != 0 {
            Err(NftCanvasError::CouldNotDirectBuy)
        } else if price == 0 {
            Err(NftCanvasError::BuyPriceTooLow)
        } else {
            let refund = match p.best_buy_info {
                Some(b) => seq![
                    Transfer { from: Party::TradePool, to: Party::PreviousBidder, amount: b.price },
                ],
                None => seq![],
            };
            Ok(
                (
                    Pixel {
                        best_buy_info: Some(PixelBuyInfo { price, buyer_wallet: buyer }),
                        ..p
                    },
                    refund + seq![Transfer { from: Party::Buyer, to: Party::TradePool, amount: price }],
                ),
            )
        }
    } else {
        Err(NftCanvasError::BuyPriceTooLow)
    }
}

/// Fails with `PixelIndexOutOfBounds` unless the index is on the canvas.
pub fn check_pixel_index(index: u32) -> (r: Result<(), NftCanvasError>)
    ensures
        r is Ok <==> index < PIXEL_COUNT,
        r is Err ==> r == Err::<(), NftCanvasError>(NftCanvasError::PixelIndexOutOfBounds),
{
    if index < PIXEL_COUNT {
        Ok(())
    } else {
        Err(NftCanvasError::PixelIndexOutOfBounds)
    }
}

fn pay(from: Party, amount: u64) -> (r: Vec<Transfer>)
    ensures
        r@ == payout(from, amount),
{
    let s = TradeAmountSplit::split(amount);
    let r = vec![
        Transfer { from, to: Party::Seller, amount: s.to_seller },
        Transfer { from, to: Party::Team, amount: s.to_team },
    ];
    assert(r@ =~= payout(from, amount));
    r
}

/// The record of a newly minted pixel.
pub fn mint(index: u32, color: [u8; 3], owner: Address, sell_price: u64) -> (r: Pixel)
    ensures
        r == minted(index, color, owner, sell_price),
{
    Pixel::new(index, color, owner, sell_price)
}

/// Sets a pixel's color and nothing else.
pub fn recolor(pixel: &mut Pixel, color: [u8; 3])
    ensures
        *final(pixel) == recolored(*old(pixel), color),
{
    pixel.color = color;
}

/// Applies the owner's ask at `price` to the pixel.
pub fn sell(pixel: &mut Pixel, price: u64) -> (r: Vec<Transfer>)
    ensures
        (*final(pixel), r@) == sell_outcome(*old(pixel), price),
{
    let matched = match &pixel.best_buy_info {
        Some(bid) => price != 0 && bid.price >= price,
        None => false,
    };
    if matched {
        let bid = pixel.best_buy_info.unwrap();
        let transfers = pay(Party::TradePool, bid.price);
        pixel.owner_wallet = bid.buyer_wallet;
        pixel.sell_price = 0;
        pixel.best_buy_info = None;
        transfers
    } else {
        pixel.sell_price = price;
        Vec::new()
    }
}

/// Applies a buy request from `buyer` at `price` to the pixel; on failure the
/// pixel is left as it was.
pub fn buy(pixel: &mut Pixel, buyer: &Address, price: u64, direct_only: u8) -> (r: Result<
    Vec<Transfer>,
    NftCanvasError,
>)
    ensures
        match buy_outcome(*old(pixel), *buyer, price, direct_only) {
            Ok((q, ts)) => r is Ok && *final(pixel) == q && r->Ok_0@ == ts,
            Err(e) => r == Err::<Vec<Transfer>, NftCanvasError>(e) && *final(pixel) == *old(pixel),
        },
{
    if pixel.sell_price != 0 && price >= pixel.sell_price {
        let transfers = pay(Party::Buyer, price);
        let own_bid = match &pixel.best_buy_info {
            Some(bid) => bid.buyer_wallet.same(buyer),
            None => false,
        };
        pixel.owner_wallet = *buyer;
        pixel.sell_price = 0;
        if own_bid {
            pixel.best_buy_info = None;
        }
        Ok(transfers)
    } else {
        let higher = match &pixel.best_buy_info {
            Some(bid) => price > bid.price,
            None => true,
        };
        if !higher {
            return Err(NftCanvasError::BuyPriceTooLow);
        }
        if direct_only != 0 {
            return Err(NftCanvasError::CouldNotDirectBuy);
        }
        if price == 0 {
            return Err(NftCanvasError::BuyPriceTooLow);
        }
        let mut transfers: Vec<Transfer> = Vec::new();
        if let Some(bid) = &pixel.best_buy_info {
            transfers.push(
                Transfer { from: Party::TradePool, to: Party::PreviousBidder, amount: bid.price },
            );
        }
        transfers.push(Transfer { from: Party::Buyer, to: Party::TradePool, amount: price });
        pixel.best_buy_info = Some(PixelBuyInfo { price, buyer_wallet: *buyer });
        proof {
            let ghost refund = match old(pixel).best_buy_info {
                Some(b) => seq![
                    Transfer { from: Party::TradePool, to: Party::PreviousBidder, amount: b.price },
                ],
                None => seq![],
            };
            assert(transfers@ =~= refund + seq![
                Transfer { from: Party::Buyer, to: Party::TradePool, amount: price },
            ]);
        }
        Ok(transfers)
    }
}

} // verus!
