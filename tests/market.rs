use chikin_nft_canvas::address::Address;
use chikin_nft_canvas::config::TradeAmountSplit;
use chikin_nft_canvas::error::NftCanvasError;
use chikin_nft_canvas::market::{self, Party, Transfer};
use chikin_nft_canvas::state::{Pixel, PixelBuyInfo};

fn addr(b: u8) -> Address {
    Address::new_from_array([b; 32])
}

fn pool_change(ts: &[Transfer]) -> i128 {
    let mut d: i128 = 0;
    for t in ts {
        if t.to == Party::TradePool {
            d += t.amount as i128;
        }
        if t.from == Party::TradePool {
            d -= t.amount as i128;
        }
    }
    d
}

fn bid_total(pixels: &[Pixel]) -> i128 {
    pixels.iter().map(|p| p.best_buy_info.map(|b| b.price as i128).unwrap_or(0)).sum()
}

#[test]
fn split_exact_values() {
    let s = TradeAmountSplit::split(0);
    assert_eq!((s.to_seller, s.to_team), (0, 0));
    let s = TradeAmountSplit::split(1);
    assert_eq!((s.to_seller, s.to_team), (1, 0));
    let s = TradeAmountSplit::split(99);
    assert_eq!((s.to_seller, s.to_team), (99, 0));
    let s = TradeAmountSplit::split(100);
    assert_eq!((s.to_seller, s.to_team), (99, 1));
    let s = TradeAmountSplit::split(200);
    assert_eq!((s.to_seller, s.to_team), (198, 2));
    let s = TradeAmountSplit::split(12345);
    assert_eq!((s.to_seller, s.to_team), (12222, 123));
    let s = TradeAmountSplit::split(u64::MAX);
    assert_eq!(s.to_team, u64::MAX / 100);
    assert_eq!(s.to_seller + s.to_team, u64::MAX);
}

#[test]
fn mint_then_recolor_changes_color_only() {
    let mut p = market::mint(999_999, [1, 2, 3], addr(1), 77);
    assert_eq!(p.best_buy_info, None);
    market::recolor(&mut p, [9, 9, 9]);
    assert_eq!(p, Pixel { index: 999_999, color: [9, 9, 9], owner_wallet: addr(1), sell_price: 77, best_buy_info: None });
}

#[test]
fn index_bounds() {
    assert_eq!(market::check_pixel_index(0), Ok(()));
    assert_eq!(market::check_pixel_index(999_999), Ok(()));
    assert_eq!(market::check_pixel_index(1_000_000), Err(NftCanvasError::PixelIndexOutOfBounds));
}

#[test]
fn outbid_refunds_previous_bidder() {
    let mut p = market::mint(3, [0, 0, 0], addr(1), 0);
    let first = market::buy(&mut p, &addr(2), 40, 0).unwrap();
    assert_eq!(first, vec![Transfer { from: Party::Buyer, to: Party::TradePool, amount: 40 }]);
    let second = market::buy(&mut p, &addr(3), 65, 0).unwrap();
    assert_eq!(
        second,
        vec![
            Transfer { from: Party::TradePool, to: Party::PreviousBidder, amount: 40 },
            Transfer { from: Party::Buyer, to: Party::TradePool, amount: 65 },
        ]
    );
    assert_eq!(pool_change(&second), 65 - 40);
    assert_eq!(p.best_buy_info, Some(PixelBuyInfo { price: 65, buyer_wallet: addr(3) }));
    assert_eq!(p.owner_wallet, addr(1));
}

#[test]
fn direct_buy_takes_precedence_over_bid() {
    let x = addr(5);
    let mut p = Pixel {
        index: 1,
        color: [0, 0, 0],
        owner_wallet: addr(1),
        sell_price: 100,
        best_buy_info: Some(PixelBuyInfo { price: 90, buyer_wallet: x }),
    };
    let ts = market::buy(&mut p, &addr(6), 100, 0).unwrap();
    assert_eq!(
        ts,
        vec![
            Transfer { from: Party::Buyer, to: Party::Seller, amount: 99 },
            Transfer { from: Party::Buyer, to: Party::Team, amount: 1 },
        ]
    );
    assert_eq!(p.owner_wallet, addr(6));
    assert_eq!(p.sell_price, 0);
    assert_eq!(p.best_buy_info, Some(PixelBuyInfo { price: 90, buyer_wallet: x }));
    assert_eq!(pool_change(&ts), 0);
}

#[test]
fn direct_buy_by_bidder_clears_own_bid() {
    let x = addr(5);
    let mut p = Pixel {
        index: 1,
        color: [0, 0, 0],
        owner_wallet: addr(1),
        sell_price: 100,
        best_buy_info: Some(PixelBuyInfo { price: 90, buyer_wallet: x }),
    };
    market::buy(&mut p, &x, 120, 1).unwrap();
    assert_eq!(p.owner_wallet, x);
    assert_eq!(p.best_buy_info, None);
}

#[test]
fn equal_bid_is_too_low() {
    let x = addr(5);
    let before = Pixel {
        index: 1,
        color: [0, 0, 0],
        owner_wallet: addr(1),
        sell_price: 0,
        best_buy_info: Some(PixelBuyInfo { price: 50, buyer_wallet: x }),
    };
    let mut p = before;
    assert_eq!(market::buy(&mut p, &addr(6), 50, 0), Err(NftCanvasError::BuyPriceTooLow));
    assert_eq!(p, before);
    assert_eq!(market::buy(&mut p, &addr(6), 49, 1), Err(NftCanvasError::BuyPriceTooLow));
    assert_eq!(p, before);
}

#[test]
fn direct_only_without_ask_fails() {
    let mut p = market::mint(1, [0, 0, 0], addr(1), 0);
    assert_eq!(market::buy(&mut p, &addr(2), 10, 1), Err(NftCanvasError::CouldNotDirectBuy));
    assert_eq!(p, market::mint(1, [0, 0, 0], addr(1), 0));
    let mut listed = market::mint(1, [0, 0, 0], addr(1), 100);
    assert_eq!(market::buy(&mut listed, &addr(2), 99, 1), Err(NftCanvasError::CouldNotDirectBuy));
}

#[test]
fn mint_ask_buy_scenario() {
    let seller = addr(1);
    let buyer = addr(2);
    let mut p = market::mint(7, [1, 2, 3], seller, 0);
    let ts = market::sell(&mut p, 200);
    assert!(ts.is_empty());
    assert_eq!(p.sell_price, 200);
    let ts = market::buy(&mut p, &buyer, 200, 1).unwrap();
    assert_eq!(
        ts,
        vec![
            Transfer { from: Party::Buyer, to: Party::Seller, amount: 198 },
            Transfer { from: Party::Buyer, to: Party::Team, amount: 2 },
        ]
    );
    assert_eq!(p, Pixel { index: 7, color: [1, 2, 3], owner_wallet: buyer, sell_price: 0, best_buy_info: None });
}

#[test]
fn ask_matches_outstanding_bid_at_bid_price() {
    let mut p = market::mint(4, [0, 0, 0], addr(1), 0);
    market::buy(&mut p, &addr(2), 300, 0).unwrap();
    let ts = market::sell(&mut p, 250);
    assert_eq!(
        ts,
        vec![
            Transfer { from: Party::TradePool, to: Party::Seller, amount: 297 },
            Transfer { from: Party::TradePool, to: Party::Team, amount: 3 },
        ]
    );
    assert_eq!(p.owner_wallet, addr(2));
    assert_eq!(p.sell_price, 0);
    assert_eq!(p.best_buy_info, None);
}

#[test]
fn ask_above_bid_or_zero_only_lists() {
    let mut p = market::mint(4, [0, 0, 0], addr(1), 0);
    market::buy(&mut p, &addr(2), 300, 0).unwrap();
    assert!(market::sell(&mut p, 301).is_empty());
    assert_eq!(p.sell_price, 301);
    assert!(market::sell(&mut p, 0).is_empty());
    assert_eq!(p.sell_price, 0);
    assert_eq!(p.owner_wallet, addr(1));
    assert_eq!(p.best_buy_info, Some(PixelBuyInfo { price: 300, buyer_wallet: addr(2) }));
}

#[test]
fn escrow_matches_bids_over_a_sequence() {
    let mut pixels = vec![market::mint(0, [0, 0, 0], addr(1), 0), market::mint(1, [0, 0, 0], addr(1), 0)];
    let mut pool: i128 = 0;
    let steps: Vec<(usize, u8, u64, bool)> = vec![
        (0, 2, 10, false),
        (1, 3, 20, false),
        (0, 4, 15, false),
        (0, 0, 12, true),
        (1, 0, 500, true),
        (1, 5, 600, false),
    ];
    for (i, who, price, is_ask) in steps {
        let ts = if is_ask {
            market::sell(&mut pixels[i], price)
        } else {
            market::buy(&mut pixels[i], &addr(who), price, 0).unwrap()
        };
        pool += pool_change(&ts);
        assert_eq!(pool, bid_total(&pixels));
    }
    assert_eq!(pixels[0].owner_wallet, addr(4));
    assert_eq!(pixels[1].owner_wallet, addr(5));
    assert_eq!(pool, 20);
}

#[test]
fn zero_first_bid_is_too_low() {
    let before = market::mint(2, [0, 0, 0], addr(1), 0);
    let mut p = before;
    assert_eq!(market::buy(&mut p, &addr(2), 0, 0), Err(NftCanvasError::BuyPriceTooLow));
    assert_eq!(p, before);
    assert_eq!(market::buy(&mut p, &addr(2), 0, 1), Err(NftCanvasError::CouldNotDirectBuy));
    assert_eq!(p, before);
    let ts = market::buy(&mut p, &addr(2), 1, 0).unwrap();
    assert_eq!(ts, vec![Transfer { from: Party::Buyer, to: Party::TradePool, amount: 1 }]);
    assert_eq!(p.best_buy_info, Some(PixelBuyInfo { price: 1, buyer_wallet: addr(2) }));
}
