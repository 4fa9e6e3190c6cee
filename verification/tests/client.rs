use zerox_client::{ZeroXClient, ZeroXClientError, ZeroXQuoteParams, encode_query};

#[test]
fn test_init() {
    let client = ZeroXClient::new(1, String::from("test")).unwrap();
    assert_eq!(client.base_url().as_str(), "https://api.0x.org");
}

#[test]
fn test_init_invalid_chain_id() {
    let client = ZeroXClient::new(2, String::from("test"));
    assert!(client.is_err());
}

#[test]
fn resolve_returns_documented_url_for_every_supported_chain() {
    let table: [(u64, &str); 8] = [
        (1, "https://api.0x.org"),
        (42161, "https://arbitrum.api.0x.org"),
        (43114, "https://avalanche.api.0x.org"),
        (250, "https://fantom.api.0x.org"),
        (137, "https://polygon.api.0x.org"),
        (42220, "https://celo.api.0x.org"),
        (56, "https://bsc.api.0x.org"),
        (10, "https://optimism.api.0x.org"),
    ];
    for (chain_id, url) in table {
        let client = ZeroXClient::new(chain_id, String::from("key")).unwrap();
        assert_eq!(client.base_url().as_str(), url);
        assert_eq!(client.api_key().as_str(), "key");
    }
}

#[test]
fn resolve_rejects_unsupported_chains_naming_them() {
    for chain_id in [0u64, 2, 3, 100, 1337, u64::MAX] {
        match ZeroXClient::new(chain_id, String::from("key")) {
            Err(ZeroXClientError::InvalidChainId(id)) => assert_eq!(id, chain_id),
            other => panic!("expected InvalidChainId, got {:?}", other.map(|_| ())),
        }
    }
}

#[test]
fn quote_url_appends_the_quote_path() {
    let client = ZeroXClient::new(137, String::from("key")).unwrap();
    assert_eq!(client.quote_url().as_str(), "https://polygon.api.0x.org/swap/v1/quote");
}

fn required_only() -> ZeroXQuoteParams {
    ZeroXQuoteParams {
        sell_token: String::from("ETH"),
        buy_token: String::from("0x6b175474e89094c44da98b954eedeac495271d0f"),
        sell_amount: String::from("1000000000000000000"),
        ..Default::default()
    }
}

#[test]
fn encode_with_only_required_fields_has_exactly_three_pairs() {
    let q = encode_query(&required_only());
    assert_eq!(q.len(), 3);
    assert_eq!(q[0].0, "sellToken");
    assert_eq!(q[0].1, "ETH");
    assert_eq!(q[1].0, "buyToken");
    assert_eq!(q[1].1, "0x6b175474e89094c44da98b954eedeac495271d0f");
    assert_eq!(q[2].0, "sellAmount");
    assert_eq!(q[2].1, "1000000000000000000");
}

#[test]
fn encode_joins_excluded_sources_with_commas_in_order() {
    let mut p = required_only();
    p.excluded_sources = Some(vec![String::from("Uniswap"), String::from("Kyber")]);
    let q = encode_query(&p);
    assert_eq!(q.len(), 4);
    assert_eq!(q[3].0, "excludedSources");
    assert_eq!(q[3].1, "Uniswap,Kyber");
}

#[test]
fn encode_joins_included_sources_with_commas_in_order() {
    let mut p = required_only();
    p.included_sources = Some(vec![
        String::from("Uniswap"),
        String::from("Kyber"),
        String::from("Balancer"),
    ]);
    let q = encode_query(&p);
    assert_eq!(q.len(), 4);
    assert_eq!(q[3].0, "includedSources");
    assert_eq!(q[3].1, "Uniswap,Kyber,Balancer");
}

#[test]
fn encode_emits_every_set_optional_under_its_upstream_key() {
    let p = ZeroXQuoteParams {
        sell_token: String::from("ETH"),
        buy_token: String::from("DAI"),
        sell_amount: String::from("42"),
        fee_recipient: Some(String::from("0xfee")),
        buy_token_percentage_fee: Some(String::from("0.1")),
        taker_address: Some(String::from("0xtaker")),
        slippage_percentage: Some(String::from("0.03")),
        excluded_sources: Some(vec![String::from("Uniswap")]),
        included_sources: Some(vec![String::from("Kyber")]),
        skip_validation: Some(String::from("true")),
    };
    let q = encode_query(&p);
    let pairs: Vec<(&str, &str)> = q.iter().map(|kv| (kv.0.as_str(), kv.1.as_str())).collect();
    assert_eq!(
        pairs,
        vec![
            ("sellToken", "ETH"),
            ("buyToken", "DAI"),
            ("sellAmount", "42"),
            ("takerAddress", "0xtaker"),
            ("feeRecipient", "0xfee"),
            ("buyTokenPercentageFee", "0.1"),
            ("slippagePercentage", "0.03"),
            ("excludedSources", "Uniswap"),
            ("includedSources", "Kyber"),
            ("skipValidation", "true"),
        ]
    );
}

#[test]
fn encode_distinguishes_absent_from_empty() {
    let mut p = required_only();
    p.skip_validation = Some(String::new());
    let q = encode_query(&p);
    assert_eq!(q.len(), 4);
    assert_eq!(q[3].0, "skipValidation");
    assert_eq!(q[3].1, "");
}
