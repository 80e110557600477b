use borsh::BorshSerialize;
use chikin_nft_canvas::address::Address;
use chikin_nft_canvas::error::NftCanvasError;
use chikin_nft_canvas::instruction::NftCanvasInstruction;
use chikin_nft_canvas::packable::Packable;
use chikin_nft_canvas::state::{Pixel, PixelBuyInfo};

fn addr(b: u8) -> Address {
    let mut bytes = [0u8; 32];
    for (i, x) in bytes.iter_mut().enumerate() {
        *x = b.wrapping_add(i as u8);
    }
    Address::new_from_array(bytes)
}

fn padded(mut v: Vec<u8>, n: usize) -> Vec<u8> {
    v.resize(n, 0);
    v
}

#[test]
fn pixel_encoding_is_the_borsh_layout() {
    let mut p = Pixel::new(0x01020304, [9, 8, 7], addr(40), 0x1122334455667788);
    let expected = (0x01020304u32, [9u8, 8, 7], addr(40).bytes, 0x1122334455667788u64, None::<(u64, [u8; 32])>)
        .try_to_vec()
        .unwrap();
    assert_eq!(p.pack(), padded(expected, 88));

    p.best_buy_info = Some(PixelBuyInfo { price: 500, buyer_wallet: addr(90) });
    let expected = (0x01020304u32, [9u8, 8, 7], addr(40).bytes, 0x1122334455667788u64, Some((500u64, addr(90).bytes)))
        .try_to_vec()
        .unwrap();
    assert_eq!(expected.len(), 88);
    assert_eq!(p.pack(), expected);
}

#[test]
fn pixel_round_trip() {
    let mut p = Pixel::new(999_999, [255, 0, 1], addr(3), 42);
    assert_eq!(Pixel::unpack(&p.pack()), Ok(p));
    p.best_buy_info = Some(PixelBuyInfo { price: u64::MAX, buyer_wallet: addr(200) });
    assert_eq!(Pixel::unpack(&p.pack()), Ok(p));
}

#[test]
fn pixel_unpack_rejects_bad_input() {
    let p = Pixel::new(1, [1, 2, 3], addr(1), 0);
    let bytes = p.pack();
    assert_eq!(Pixel::unpack(&bytes[..87]), Err(NftCanvasError::FailedToUnpackData));
    let mut longer = bytes.clone();
    longer.push(0);
    assert_eq!(Pixel::unpack(&longer), Err(NftCanvasError::FailedToUnpackData));
    assert_eq!(Pixel::unpack(&[]), Err(NftCanvasError::FailedToUnpackData));
    let mut bad_tag = bytes.clone();
    bad_tag[47] = 2;
    assert_eq!(Pixel::unpack(&bad_tag), Err(NftCanvasError::FailedToUnpackData));
}

#[test]
fn pixel_unpack_ignores_padding() {
    let p = Pixel::new(5, [1, 2, 3], addr(1), 10);
    let mut bytes = p.pack();
    bytes[60] = 0xff;
    assert_eq!(Pixel::unpack(&bytes), Ok(p));
}

#[test]
fn pack_into_checks_length() {
    let p = Pixel::new(5, [1, 2, 3], addr(1), 10);
    let mut short = vec![0u8; 40];
    assert_eq!(p.pack_into(&mut short), Err(NftCanvasError::FailedToPackData));
    assert_eq!(short, vec![0u8; 40]);
    let mut exact = vec![0xaau8; 88];
    assert_eq!(p.pack_into(&mut exact), Ok(()));
    assert_eq!(exact, p.pack());

    let ix = NftCanvasInstruction::SellPixel { index: 3, price: 4 };
    let mut buf = vec![0u8; 17];
    assert_eq!(ix.pack_into(&mut buf), Err(NftCanvasError::FailedToPackData));
    let mut buf = vec![0u8; 16];
    assert_eq!(ix.pack_into(&mut buf), Ok(()));
    assert_eq!(buf, ix.pack());
}

#[test]
fn instruction_encoding_is_the_borsh_layout() {
    let mint = NftCanvasInstruction::MintPixel { index: 7, color: [1, 2, 3], sell_price: 300 };
    assert_eq!(mint.pack(), (0u8, 7u32, [1u8, 2, 3], 300u64).try_to_vec().unwrap());
    let recolor = NftCanvasInstruction::UpdatePixelColor { index: 7, color: [4, 5, 6] };
    assert_eq!(recolor.pack(), padded((1u8, 7u32, [4u8, 5, 6]).try_to_vec().unwrap(), 16));
    let sell = NftCanvasInstruction::SellPixel { index: 8, price: 200 };
    assert_eq!(sell.pack(), padded((2u8, 8u32, 200u64).try_to_vec().unwrap(), 16));
    let buy = NftCanvasInstruction::BuyPixel { index: 9, price: 250, direct_only: 1 };
    assert_eq!(buy.pack(), padded((3u8, 9u32, 250u64, 1u8).try_to_vec().unwrap(), 16));
}

#[test]
fn instruction_round_trip_and_rejection() {
    let all = [
        NftCanvasInstruction::MintPixel { index: 999_999, color: [1, 2, 3], sell_price: u64::MAX },
        NftCanvasInstruction::UpdatePixelColor { index: 0, color: [4, 5, 6] },
        NftCanvasInstruction::SellPixel { index: 8, price: 0 },
        NftCanvasInstruction::BuyPixel { index: 9, price: 250, direct_only: 1 },
    ];
    for ix in all.iter() {
        assert_eq!(NftCanvasInstruction::unpack(&ix.pack()), Ok(*ix));
    }
    let mut bad = all[0].pack();
    bad[0] = 4;
    assert_eq!(NftCanvasInstruction::unpack(&bad), Err(NftCanvasError::FailedToUnpackData));
    assert_eq!(NftCanvasInstruction::unpack(&all[1].pack()[..15]), Err(NftCanvasError::FailedToUnpackData));
}

#[test]
fn error_codes_follow_declaration_order() {
    assert_eq!(NftCanvasError::ProgramKeyMismatch.code(), 0);
    assert_eq!(NftCanvasError::BuyPriceTooLow.code(), 15);
    assert_eq!(NftCanvasError::FailedToUnpackData.code(), 18);
}
