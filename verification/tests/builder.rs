use surfpool::keys::Pubkey;
use surfpool::sdk::builder::{BlockProductionMode, SurfnetBuilder};
use surfpool::sdk::surfnet::Surfnet;

#[test]
fn surfnet_builder_skip_blockhash_check_defaults_to_false() {
    let builder = SurfnetBuilder::default();
    assert!(!builder.skip_blockhash_check);
}

#[test]
fn surfnet_builder_skip_blockhash_check_setter_updates_builder() {
    let builder = SurfnetBuilder::default().skip_blockhash_check(true);
    assert!(builder.skip_blockhash_check);
}

#[test]
fn builder_defaults() {
    let builder = Surfnet::builder();
    assert!(builder.offline_mode);
    assert_eq!(builder.remote_rpc_url, None);
    assert!(matches!(builder.block_production_mode, BlockProductionMode::Transaction));
    assert_eq!(builder.slot_time_ms, 1);
    assert!(builder.airdrop_addresses.is_empty());
    assert_eq!(builder.airdrop_lamports, 10_000_000_000);
    assert!(builder.payer.is_none());
}

#[test]
fn builder_setters_change_one_thing_each() {
    let builder = Surfnet::builder()
        .slot_time_ms(400)
        .airdrop_sol(5)
        .airdrop_addresses(vec![Pubkey { bytes: [3; 32] }])
        .block_production_mode(BlockProductionMode::Named("clock".to_string()));
    assert_eq!(builder.slot_time_ms, 400);
    assert_eq!(builder.airdrop_lamports, 5);
    assert_eq!(builder.airdrop_addresses, vec![Pubkey { bytes: [3; 32] }]);
    assert!(matches!(builder.block_production_mode, BlockProductionMode::Named(ref n) if n == "clock"));
    assert!(builder.offline_mode);
}

#[test]
fn remote_url_implies_online() {
    let builder = Surfnet::builder().offline(true).remote_rpc_url("https://rpc".to_string());
    assert!(!builder.offline_mode);
    assert_eq!(builder.remote_rpc_url, Some("https://rpc".to_string()));
    assert!(builder.offline(true).offline_mode);
}
