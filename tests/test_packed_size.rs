use chikin_nft_canvas::config;
use chikin_nft_canvas::instruction::NftCanvasInstruction;
use chikin_nft_canvas::packable::Packable;
use chikin_nft_canvas::state::Pixel;
use solana_program::rent::Rent;

#[test]
fn test_packed_size() {
    println!("NftCanvasInstruction.len={}", NftCanvasInstruction::packed_size());
    println!("Pixel.len={}", Pixel::packed_size());
    let rent = Rent::default().minimum_balance(Pixel::packed_size());
    println!("Pixel.rent={}", rent);
    let pixel_count = 1000 * 1000;
    println!("Pixel.rent.total={}", rent * pixel_count);

    println!("MINT_COST={}", config::MINT_COST);
    assert_eq!(NftCanvasInstruction::packed_size(), 16);
    assert_eq!(Pixel::packed_size(), 88);
}
