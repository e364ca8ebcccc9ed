use program_subscribe::pubkey::Pubkey;
use program_subscribe::subscribe::{Commitment, Filters, RpcProgramSubscribe, SubscribeConfig};
use program_subscribe::worker::UpdateType;

fn key(byte: u8) -> Pubkey {
    Pubkey::new(vec![byte; 32])
}

fn plain_config() -> SubscribeConfig {
    SubscribeConfig {
        filters: None,
        encoding: None,
        data_slice: None,
        commitment: Some(Commitment::Confirmed),
        min_context_slot: None,
        with_context: None,
        sort_results: None,
    }
}

#[test]
fn filters_new_keeps_key_and_config() {
    let f = Filters::new(key(1), Some(plain_config()));
    assert_eq!(f.pubkey.bytes, vec![1u8; 32]);
    let config = f.program_subscribe_config.expect("config kept");
    assert_eq!(config.commitment, Some(Commitment::Confirmed));
}

#[test]
fn new_datasource_has_no_filters() {
    let ds = RpcProgramSubscribe::new("wss://example.invalid".to_string());
    assert_eq!(ds.rpc_ws_url, "wss://example.invalid");
    assert!(ds.filters.is_empty());
}

#[test]
fn with_filters_appends_one() {
    let ds = RpcProgramSubscribe::new("wss://example.invalid".to_string())
        .with_filters(Filters::new(key(1), None))
        .with_filters(Filters::new(key(2), None));
    assert_eq!(ds.filters.len(), 2);
    assert_eq!(ds.filters[0].pubkey.bytes, vec![1u8; 32]);
    assert_eq!(ds.filters[1].pubkey.bytes, vec![2u8; 32]);
}

#[test]
fn with_multiple_filters_appends_all_in_order() {
    let ds = RpcProgramSubscribe::new("wss://example.invalid".to_string())
        .with_filters(Filters::new(key(1), None))
        .with_multiple_filters(vec![
            Filters::new(key(2), None),
            Filters::new(key(3), Some(plain_config())),
        ]);
    assert_eq!(ds.filters.len(), 3);
    assert_eq!(ds.filters[2].pubkey.bytes, vec![3u8; 32]);
}

#[test]
fn update_types_names_account_updates_only() {
    let ds = RpcProgramSubscribe::new("wss://example.invalid".to_string());
    assert_eq!(ds.update_types(), vec![UpdateType::AccountUpdate]);
}
