//! Properties of the marketplace that hold across operations.
use crate::address::Address;
use crate::config::{PIXEL_COUNT, TradeAmountSplit};
use crate::error::NftCanvasError;
use crate::market::{
    Party, Transfer, buy_outcome, escrowed, is_direct_buy, outbids, minted, payout, pool_delta, pool_flow,
    recolored, sell_outcome,
};
use crate::processor::{AccountRef, TokenTransfer, buy_request};
use crate::state::{Pixel, PixelBuyInfo, pixel_of_bytes};
use vstd::prelude::*;

verus! {

/// The sum of the outstanding bids over a set of pixels.
pub open spec fn total_escrow(pixels: Seq<Pixel>) -> int
    decreases pixels.len(),
{
    if pixels.len() == 0 {
        0
    } else {
        total_escrow(pixels.drop_last()) + escrowed(pixels.last())
    }
}

proof fn lemma_total_escrow_update(pixels: Seq<Pixel>, i: int, q: Pixel)
    requires
        0 <= i < pixels.len(),
    ensures
        total_escrow(pixels.update(i, q)) == total_escrow(pixels) - escrowed(pixels[i]) + escrowed(
            q,
        ),
    decreases pixels.len(),
{
    let u = pixels.update(i, q);
    if i == pixels.len() - 1 {
        assert(u.drop_last() =~= pixels.drop_last());
    } else {
        lemma_total_escrow_update(pixels.drop_last(), i, q);
        assert(u.drop_last() =~= pixels.drop_last().update(i, q));
    }
}

proof fn lemma_pool_delta_two(a: Transfer, b: Transfer)
    ensures
        pool_delta(seq![a, b]) == pool_flow(a) + pool_flow(b),
{
    reveal_with_fuel(pool_delta, 3);
    assert(seq![a, b].drop_last() =~= seq![a]);
    assert(seq![a].drop_last() =~= Seq::<Transfer>::empty());
}

proof fn lemma_pool_delta_one(a: Transfer)
    ensures
        pool_delta(seq![a]) == pool_flow(a),
{
    reveal_with_fuel(pool_delta, 2);
    assert(seq![a].drop_last() =~= Seq::<Transfer>::empty());
}

proof fn lemma_payout_delta(from: Party, amount: u64)
    ensures
        pool_delta(payout(from, amount)) == if from == Party::TradePool {
            -amount
        } else {
            0
        },
{
    let s = TradeAmountSplit::spec_split(amount);
    lemma_pool_delta_two(
        Transfer { from, to: Party::Seller, amount: s.to_seller },
        Transfer { from, to: Party::Team, amount: s.to_team },
    );
    assert(payout(from, amount) =~= seq![
        Transfer { from, to: Party::Seller, amount: s.to_seller },
        Transfer { from, to: Party::Team, amount: s.to_team },
    ]);
}

/// An ask moves exactly the settled bid's amount out of the trade pool, and
/// nothing when it only sets the asking price.
pub proof fn lemma_sell_pool_delta(p: Pixel, price: u64)
    ensures
        pool_delta(sell_outcome(p, price).1) == escrowed(sell_outcome(p, price).0) - escrowed(p),
{
    match p.best_buy_info {
        Some(b) => lemma_payout_delta(Party::TradePool, b.price),
        None => {},
    }
}

/// A successful buy changes the trade pool by the change in the pixel's bid,
/// except a direct purchase by the holder of the outstanding bid, whose bid
/// is dropped from the record while its amount stays in the pool.
pub proof fn lemma_buy_pool_delta(p: Pixel, buyer: Address, price: u64, direct_only: u8)
    requires
        !(is_direct_buy(p, price) && p.best_buy_info is Some && p.best_buy_info->Some_0.buyer_wallet
            == buyer),
    ensures
        buy_outcome(p, buyer, price, direct_only) matches Ok((q, ts)) ==> pool_delta(ts)
            == escrowed(q) - escrowed(p),
{
    if is_direct_buy(p, price) {
        lemma_payout_delta(Party::Buyer, price);
    } else {
        let deposit = Transfer { from: Party::Buyer, to: Party::TradePool, amount: price };
        match p.best_buy_info {
            Some(b) => {
                let refund = Transfer {
                    from: Party::TradePool,
                    to: Party::PreviousBidder,
                    amount: b.price,
                };
                assert(seq![refund] + seq![deposit] =~= seq![refund, deposit]);
                lemma_pool_delta_two(refund, deposit);
            },
            None => {
                assert(Seq::<Transfer>::empty() + seq![deposit] =~= seq![deposit]);
                lemma_pool_delta_one(deposit);
            },
        }
    }
}

/// Escrow conservation under an ask: when the trade pool holds the sum of the
/// outstanding bids of the canvas, it still does after the ask on pixel `i`
/// and its transfers.
pub proof fn law_sell_conserves_escrow(pixels: Seq<Pixel>, i: int, price: u64, pool: int)
    requires
        0 <= i < pixels.len(),
        pool == total_escrow(pixels),
    ensures
        pool + pool_delta(sell_outcome(pixels[i], price).1) == total_escrow(
            pixels.update(i, sell_outcome(pixels[i], price).0),
        ),
{
    lemma_sell_pool_delta(pixels[i], price);
    lemma_total_escrow_update(pixels, i, sell_outcome(pixels[i], price).0);
}

/// Escrow conservation under a buy: when the trade pool holds the sum of the
/// outstanding bids of the canvas, it still does after a successful buy on
/// pixel `i` and its transfers. A direct purchase by the holder of the
/// pixel's outstanding bid is left out: it drops that bid from the record
/// and leaves its amount in the pool.
pub proof fn law_buy_conserves_escrow(
    pixels: Seq<Pixel>,
    i: int,
    buyer: Address,
    price: u64,
    direct_only: u8,
    pool: int,
)
    requires
        0 <= i < pixels.len(),
        pool == total_escrow(pixels),
        !(is_direct_buy(pixels[i], price) && pixels[i].best_buy_info is Some
            && pixels[i].best_buy_info->Some_0.buyer_wallet == buyer),
    ensures
        buy_outcome(pixels[i], buyer, price, direct_only) matches Ok((q, ts)) ==> pool + pool_delta(
            ts,
        ) == total_escrow(pixels.update(i, q)),
{
    lemma_buy_pool_delta(pixels[i], buyer, price, direct_only);
    if let Ok((q, ts)) = buy_outcome(pixels[i], buyer, price, direct_only) {
        lemma_total_escrow_update(pixels, i, q);
    }
}

/// Escrow conservation under mint and recolor: a new pixel holds no bid, and
/// a color change leaves the bids alone.
pub proof fn law_mint_and_recolor_conserve_escrow(
    pixels: Seq<Pixel>,
    index: u32,
    color: [u8; 3],
    owner: Address,
    sell_price: u64,
    i: int,
    new_color: [u8; 3],
)
    requires
        0 <= i < pixels.len(),
    ensures
        total_escrow(pixels.push(minted(index, color, owner, sell_price))) == total_escrow(pixels),
        total_escrow(pixels.update(i, recolored(pixels[i], new_color))) == total_escrow(pixels),
{
    assert(pixels.push(minted(index, color, owner, sell_price)).drop_last() =~= pixels);
    lemma_total_escrow_update(pixels, i, recolored(pixels[i], new_color));
}

/// Minting a pixel and then recoloring it changes its color only.
pub proof fn law_mint_then_recolor(
    index: u32,
    color: [u8; 3],
    owner: Address,
    sell_price: u64,
    new_color: [u8; 3],
)
    requires
        index < PIXEL_COUNT,
    ensures
        ({
            let p = minted(index, color, owner, sell_price);
            let q = recolored(p, new_color);
            &&& q.color == new_color
            &&& q.index == p.index
            &&& q.owner_wallet == p.owner_wallet
            &&& q.sell_price == p.sell_price
            &&& q.best_buy_info == p.best_buy_info
        }),
{
}

/// A bid above the outstanding one, where no direct purchase applies, refunds
/// the outstanding bid in full to its holder and takes the new bid into the
/// trade pool, whose balance changes by the difference.
pub proof fn law_outbid_refunds(p: Pixel, buyer: Address, price: u64)
    requires
        p.best_buy_info is Some,
        price > p.best_buy_info->Some_0.price,
        !is_direct_buy(p, price),
    ensures
        ({
            let old_bid = p.best_buy_info->Some_0;
            let refund = Transfer {
                from: Party::TradePool,
                to: Party::PreviousBidder,
                amount: old_bid.price,
            };
            let deposit = Transfer { from: Party::Buyer, to: Party::TradePool, amount: price };
            buy_outcome(p, buyer, price, 0) == Ok::<(Pixel, Seq<Transfer>), NftCanvasError>(
                (
                    Pixel {
                        best_buy_info: Some(PixelBuyInfo { price, buyer_wallet: buyer }),
                        ..p
                    },
                    seq![refund, deposit],
                ),
            ) && pool_delta(seq![refund, deposit]) == price - old_bid.price
        }),
{
    let old_bid = p.best_buy_info->Some_0;
    let refund = Transfer { from: Party::TradePool, to: Party::PreviousBidder, amount: old_bid.price };
    let deposit = Transfer { from: Party::Buyer, to: Party::TradePool, amount: price };
    assert(seq![refund] + seq![deposit] =~= seq![refund, deposit]);
    lemma_pool_delta_two(refund, deposit);
}

/// A buy at or above a nonzero asking price is a direct purchase whatever bid
/// is outstanding: the buyer owns the pixel, the ask is cleared, the trade
/// pool is not touched, and another holder's bid stays in place.
pub proof fn law_direct_buy_precedes_bids(p: Pixel, buyer: Address, price: u64, direct_only: u8)
    requires
        p.sell_price != 0,
        price >= p.sell_price,
    ensures
        buy_outcome(p, buyer, price, direct_only) matches Ok((q, ts)) && q.owner_wallet == buyer
            && q.sell_price == 0 && ts == payout(Party::Buyer, price) && pool_delta(ts) == 0 && (
        p.best_buy_info is None || p.best_buy_info->Some_0.buyer_wallet != buyer
            ==> q.best_buy_info == p.best_buy_info),
{
    lemma_payout_delta(Party::Buyer, price);
}

/// A bid that does not exceed the outstanding bid, where no direct purchase
/// applies, fails with `BuyPriceTooLow`; so does a zero bid on a pixel with
/// no bid, unless only a direct purchase was asked for.
pub proof fn law_low_bid_fails(p: Pixel, buyer: Address, price: u64, direct_only: u8)
    requires
        p.best_buy_info is Some ==> price <= p.best_buy_info->Some_0.price,
        p.best_buy_info is None ==> price == 0 && direct_only == 0,
        !is_direct_buy(p, price),
    ensures
        buy_outcome(p, buyer, price, direct_only) == Err::<(Pixel, Seq<Transfer>), NftCanvasError>(
            NftCanvasError::BuyPriceTooLow,
        ),
{
}

/// Every bid that a successful request leaves on a pixel has a price above
/// zero, provided the pixel's bid had one before.
pub proof fn law_bids_are_positive(p: Pixel, buyer: Address, price: u64, direct_only: u8)
    requires
        p.best_buy_info is Some ==> p.best_buy_info->Some_0.price > 0,
    ensures
        buy_outcome(p, buyer, price, direct_only) matches Ok((q, _)) ==> (q.best_buy_info is Some
            ==> q.best_buy_info->Some_0.price > 0),
        sell_outcome(p, price).0.best_buy_info is Some ==> sell_outcome(
            p,
            price,
        ).0.best_buy_info->Some_0.price > 0,
{
}

/// A buy that is neither a direct purchase nor above the outstanding bid
/// (where there is one), with only a direct purchase asked for, fails with
/// `CouldNotDirectBuy`.
pub proof fn law_direct_only_fails_without_ask(
    p: Pixel,
    buyer: Address,
    price: u64,
    direct_only: u8,
)
    requires
        !is_direct_buy(p, price),
        outbids(p, price),
        direct_only != 0,
    ensures
        buy_outcome(p, buyer, price, direct_only) == Err::<(Pixel, Seq<Transfer>), NftCanvasError>(
            NftCanvasError::CouldNotDirectBuy,
        ),
{
}

/// Out-bid refund for a whole buy request: when the request passes its
/// checks and its price is above the outstanding bid, with no direct purchase
/// applying, exactly two transfers are issued. The first refunds the
/// outstanding bid in full from the trade pool's token account to the refund
/// account (the eleventh), signed by the trade pool. The second moves the new
/// price from the buyer's token account into the pool's. So the pool's
/// balance changes by the difference. The record changes only its bid, which
/// becomes the buyer's.
pub proof fn law_outbid_request_refunds(
    program: Address,
    accounts: Seq<AccountRef>,
    index: u32,
    price: u64,
    p: Pixel,
)
    requires
        pixel_of_bytes(accounts[2].data@) == Some(p),
        p.best_buy_info is Some,
        price > p.best_buy_info->Some_0.price,
        !is_direct_buy(p, price),
        buy_request(program, accounts, index, price, 0) is Ok,
    ensures
        ({
            let old_bid = p.best_buy_info->Some_0;
            let (q, ts, _) = buy_request(program, accounts, index, price, 0)->Ok_0;
            &&& accounts.len() >= 11
            &&& ts == seq![
                TokenTransfer {
                    source: accounts[5].key,
                    destination: accounts[10].key,
                    authority: accounts[4].key,
                    amount: old_bid.price,
                },
                TokenTransfer {
                    source: accounts[9].key,
                    destination: accounts[5].key,
                    authority: accounts[8].key,
                    amount: price,
                },
            ]
            &&& q == Pixel {
                best_buy_info: Some(PixelBuyInfo { price, buyer_wallet: accounts[8].key }),
                ..p
            }
        }),
{
    let old_bid = p.best_buy_info->Some_0;
    law_outbid_refunds(p, accounts[8].key, price);
    let ts = buy_request(program, accounts, index, price, 0)->Ok_0.1;
    assert(ts.len() == 2);
    assert(ts =~= seq![
        TokenTransfer {
            source: accounts[5].key,
            destination: accounts[10].key,
            authority: accounts[4].key,
            amount: old_bid.price,
        },
        TokenTransfer {
            source: accounts[9].key,
            destination: accounts[5].key,
            authority: accounts[8].key,
            amount: price,
        },
    ]);
}

} // verus!
