use btc_regtest::generator::{
    check_mining_address, wallet_action, GeneratorError, WalletAction, SEED_BLOCKS, WALLET_NAME,
};

#[test]
fn no_wallet_list_creates_default_wallet() {
    match wallet_action(None) {
        WalletAction::Create(n) => assert_eq!(n, "regtest_wallet"),
        WalletAction::Load(_) => panic!("expected a new wallet"),
    }
}

#[test]
fn empty_wallet_list_creates_default_wallet() {
    match wallet_action(Some(vec![])) {
        WalletAction::Create(n) => assert_eq!(n, WALLET_NAME),
        WalletAction::Load(_) => panic!("expected a new wallet"),
    }
}

#[test]
fn existing_wallet_is_loaded_not_created() {
    let listed = vec!["Alice".to_string(), "regtest_wallet".to_string()];
    match wallet_action(Some(listed)) {
        WalletAction::Load(n) => assert_eq!(n, "Alice"),
        WalletAction::Create(_) => panic!("an existing wallet must be reused"),
    }
}

#[test]
fn bootstrap_twice_reuses_created_wallet() {
    let first = wallet_action(Some(vec![]));
    let created = match first {
        WalletAction::Create(n) => n,
        WalletAction::Load(_) => panic!("expected a new wallet"),
    };
    match wallet_action(Some(vec![created])) {
        WalletAction::Load(n) => assert_eq!(n, "regtest_wallet"),
        WalletAction::Create(_) => panic!("a second bootstrap must not create a wallet"),
    }
}

#[test]
fn regtest_address_is_accepted() {
    assert!(check_mining_address("bcrt1q2nfxmhd4n3c8834pj72xagvyr9gl57n5r94fsl").is_ok());
}

#[test]
fn mainnet_address_is_refused() {
    let r = check_mining_address("bc1qvzvkjn4q3nszqxrv3nraga2r822xjty3ykvkuw");
    assert!(matches!(r, Err(GeneratorError::WrongNetwork)));
}

#[test]
fn malformed_address_is_refused() {
    let r = check_mining_address("not an address");
    assert!(matches!(r, Err(GeneratorError::WrongNetwork)));
}

#[test]
fn seed_batch_size() {
    assert_eq!(SEED_BLOCKS, 100);
}
