use std::str::FromStr;

use chikin_nft_canvas::address::Address;
use chikin_nft_canvas::config;
use solana_program::pubkey::Pubkey;

fn pubkey(a: &Address) -> Pubkey {
    Pubkey::new_from_array(a.bytes)
}

#[test]
fn test_get_id() {
    let program = Pubkey::from_str("ALaYfBMScNrJxKTfgpfFYDQSMYJHpzuxGq15TM2j6o8E").unwrap();
    let program_address = Address::new_from_array(program.to_bytes());
    let token_mint = pubkey(&config::token_mint_id());
    let team_token_account = pubkey(&config::team_token_account_id());
    let trade_pool = pubkey(&config::get_trade_pool(&program_address).unwrap().0);
    let pixel0 = pubkey(&config::get_pixel(&program_address, 0).unwrap().0);
    let pixel1 = pubkey(&config::get_pixel(&program_address, 1).unwrap().0);
    let pixel54 = pubkey(&config::get_pixel(&program_address, 54).unwrap().0);

    println!("program={}", program);
    println!("token_mint={}", token_mint);
    println!("team_token_account={}", team_token_account);
    println!("trade_pool={}", trade_pool);
    println!("pixel0={}", pixel0);
    println!("pixel1={}", pixel1);
    println!("pixel54={}", pixel54);
}

#[test]
fn configured_addresses_match_their_names() {
    assert_eq!(
        pubkey(&config::token_mint_id()),
        Pubkey::from_str("8s9FCz99Wcr3dHpiauFRi6bLXzshXfcGTfgQE7UEopVx").unwrap()
    );
    assert_eq!(
        pubkey(&config::mint_pool_wallet_id()),
        Pubkey::from_str("ARamwbZzoaRjiEnHM2oVmD5bqPpGPNuxUuXWRzsacgaz").unwrap()
    );
    assert_eq!(
        pubkey(&config::team_token_account_id()),
        Pubkey::from_str("Esi6Z7reZt9NjZ2TeTFRXcTez1XA7764dE9bZoKCdjTb").unwrap()
    );
}

#[test]
fn derived_addresses_match_the_ledger_derivation() {
    let program = Pubkey::from_str("ALaYfBMScNrJxKTfgpfFYDQSMYJHpzuxGq15TM2j6o8E").unwrap();
    let program_address = Address::new_from_array(program.to_bytes());

    let (pool, pool_bump) = config::get_trade_pool(&program_address).unwrap();
    let expected = Pubkey::find_program_address(&[&program.to_bytes(), b"trade_pool"], &program);
    assert_eq!(pubkey(&pool), expected.0);
    assert_eq!(pool_bump, expected.1);
    assert_ne!(pool.bytes, program.to_bytes());

    let (pixel, bump) = config::get_pixel(&program_address, 54).unwrap();
    let expected =
        Pubkey::find_program_address(&[&program.to_bytes(), b"pixel", &54u32.to_le_bytes()], &program);
    assert_eq!(pubkey(&pixel), expected.0);
    assert_eq!(bump, expected.1);
    assert_ne!(config::get_pixel(&program_address, 0).unwrap().0, pixel);

    let wallet = Pubkey::new_from_array([7u8; 32]);
    let token = config::get_token_account(&Address::new_from_array(wallet.to_bytes())).unwrap();
    let expected = spl_associated_token_account::get_associated_token_address(
        &wallet,
        &pubkey(&config::token_mint_id()),
    );
    assert_eq!(pubkey(&token), expected);
}
