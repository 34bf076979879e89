use ghost_orders::ghost_bridge::constants::{
    DELEGATION_PROGRAM_ID, DRIFT_PROGRAM_ID, ID, MAGIC_CONTEXT_ID, MAGIC_PROGRAM_ID,
    PYTH_RECEIVER_ID, SYSTEM_PROGRAM_ID,
};
use ghost_orders::ghost_bridge::drift_cpi::PLACE_PERP_ORDER_DISCRIMINATOR;
use ghost_orders::ghost_bridge::instructions::schedule_encrypted_monitoring::CHECK_PRICE_UPDATE_DISCRIMINATOR;
use ghost_orders::ghost_crank::instructions::schedule_monitoring::CHECK_TRIGGER_DISCRIMINATOR;
use ghost_orders::ghost_crank::state::GhostOrder;
use ghost_orders::vault::state::{TraderProfile, Vault};
use solana_program::pubkey::Pubkey;

#[test]
fn identities_decode_from_their_base58_names() {
    let cases: [(&str, [u8; 32]); 9] = [
        ("Magic11111111111111111111111111111111111111", MAGIC_PROGRAM_ID),
        ("MagicContext1111111111111111111111111111111", MAGIC_CONTEXT_ID),
        ("DELeGGvXpWV2fqJUhqcF5ZSYMS4JTLjteaAMARRSaeSh", DELEGATION_PROGRAM_ID),
        ("dRiftyHA39MWEi3m9aunc5MzRF1JYuBsbn6VPcn33UH", DRIFT_PROGRAM_ID),
        ("rec5EKMGg6MxZYaMdyBfgwp4d5rB9T1VQH5pJv5LtFJ", PYTH_RECEIVER_ID),
        ("11111111111111111111111111111111", SYSTEM_PROGRAM_ID),
        ("8w95bQ7UzKHKa4NYvyVeAVGN3dMgwshJhhTinPfabMLA", ID),
        ("7VvD7j99AE7q9PC9atpJeMEUeEzZ5ZYH7WqSzGdmvsqv", ghost_orders::ghost_crank::ID),
        ("GaxNRQXHVoYJQQEmXGRWSmBRmAvt7iWBtUuYWf8f8pki", ghost_orders::vault::ID),
    ];
    for (name, bytes) in cases {
        assert_eq!(Pubkey::from_str_const(name).to_bytes(), bytes, "{}", name);
    }
}

#[test]
fn selectors_are_the_first_eight_bytes_of_the_method_digest() {
    let cases: [(&str, [u8; 8]); 3] = [
        ("global:place_perp_order", PLACE_PERP_ORDER_DISCRIMINATOR),
        ("global:check_price_update", CHECK_PRICE_UPDATE_DISCRIMINATOR),
        ("global:check_trigger", CHECK_TRIGGER_DISCRIMINATOR),
    ];
    for (name, selector) in cases {
        let digest = solana_program::hash::hash(name.as_bytes()).to_bytes();
        assert_eq!(&digest[..8], &selector, "{}", name);
    }
}

#[test]
fn seed_prefixes_and_sizes() {
    assert_eq!(&GhostOrder::SEED_PREFIX, b"ghost_order");
    assert_eq!(&GhostOrder::DELEGATE_SEED_PREFIX, b"ghost_delegate");
    assert_eq!(&Vault::SEED_PREFIX, b"vault");
    assert_eq!(&TraderProfile::SEED_PREFIX, b"trader_profile");
    assert_eq!(GhostOrder::LEN, 264);
    assert_eq!(Vault::INIT_SPACE, 186);
    assert_eq!(TraderProfile::INIT_SPACE, 74);
}
