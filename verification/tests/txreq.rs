use zerox_client::{TransactionRequestError, ZeroXQuoteResponse};

fn empty_quote() -> ZeroXQuoteResponse {
    ZeroXQuoteResponse {
        chain_id: None,
        price: None,
        guaranteed_price: None,
        estimated_price_impact: None,
        to: None,
        data: None,
        value: None,
        gas: None,
        estimated_gas: None,
        gas_price: None,
        protocol_fee: None,
        minimum_protocol_fee: None,
        buy_token_address: None,
        sell_token_address: None,
        buy_amount: None,
        sell_amount: None,
        sources: None,
        orders: None,
        allowance_target: None,
        sell_token_to_eth_rate: None,
        buy_token_to_eth_rate: None,
        fees: None,
        gross_price: None,
        gross_buy_amount: None,
        gross_sell_amount: None,
    }
}

fn fillable_quote() -> ZeroXQuoteResponse {
    let mut q = empty_quote();
    q.to = Some(String::from("0x0000000000000000000000000000000000000001"));
    q.data = Some(String::from("0x"));
    q.value = Some(String::from("1000000000000000000"));
    q.gas_price = Some(String::from("20000000000"));
    q
}

#[test]
fn builds_a_minimal_transaction_request() {
    let tx = fillable_quote().to_transaction_request().expect("build should succeed");

    let mut to_bytes = [0u8; 20];
    to_bytes[19] = 1;
    assert_eq!(tx.to.as_ref().unwrap().bytes, to_bytes);
    assert_eq!(tx.data.as_ref().unwrap().as_slice(), &[] as &[u8]);
    assert_eq!(tx.value.as_ref().unwrap().limbs, [1_000_000_000_000_000_000u64, 0, 0, 0]);
    assert_eq!(tx.gas_price.as_ref().unwrap().limbs, [20_000_000_000u64, 0, 0, 0]);

    assert!(tx.from.is_none());
    assert!(tx.gas.is_none());
    assert!(tx.nonce.is_none());
    assert!(tx.chain_id.is_none());
}

#[test]
fn parsed_fields_agree_with_the_blockchain_primitives_crate() {
    let mut q = fillable_quote();
    q.to = Some(String::from("0xdef1c0ded9bec7f1a1670819833240f027b25eff"));
    q.data = Some(String::from("0xd9627aa40b1e"));
    q.value = Some(String::from("340282366920938463463374607431768211456"));
    let tx = q.to_transaction_request().expect("build should succeed");

    let addr = "0xdef1c0ded9bec7f1a1670819833240f027b25eff"
        .parse::<ethers_core::types::Address>()
        .unwrap();
    assert_eq!(tx.to.as_ref().unwrap().bytes, addr.0);

    let data = "0xd9627aa40b1e".parse::<ethers_core::types::Bytes>().unwrap();
    assert_eq!(tx.data.as_ref().unwrap().as_slice(), data.as_ref());
    assert_eq!(tx.data.as_ref().unwrap().as_slice(), &[0xd9, 0x62, 0x7a, 0xa4, 0x0b, 0x1e]);

    let value =
        ethers_core::types::U256::from_dec_str("340282366920938463463374607431768211456").unwrap();
    assert_eq!(tx.value.as_ref().unwrap().limbs, value.0);
    assert_eq!(tx.value.as_ref().unwrap().limbs, [0, 0, 1, 0]);
}

#[test]
fn missing_gas_price_is_reported_by_name() {
    let mut q = fillable_quote();
    q.gas_price = None;
    match q.to_transaction_request() {
        Err(TransactionRequestError::MissingField(f)) => assert_eq!(f, "gas_price"),
        other => panic!("expected MissingField, got {:?}", other.map(|_| ())),
    }
}

#[test]
fn the_first_missing_field_in_order_is_reported() {
    match empty_quote().to_transaction_request() {
        Err(TransactionRequestError::MissingField(f)) => assert_eq!(f, "to"),
        other => panic!("expected MissingField, got {:?}", other.map(|_| ())),
    }
    let mut q = fillable_quote();
    q.data = None;
    q.value = None;
    match q.to_transaction_request() {
        Err(TransactionRequestError::MissingField(f)) => assert_eq!(f, "data"),
        other => panic!("expected MissingField, got {:?}", other.map(|_| ())),
    }
    let mut q = fillable_quote();
    q.value = None;
    match q.to_transaction_request() {
        Err(TransactionRequestError::MissingField(f)) => assert_eq!(f, "value"),
        other => panic!("expected MissingField, got {:?}", other.map(|_| ())),
    }
}

#[test]
fn an_unparsable_address_is_reported_by_name() {
    let mut q = fillable_quote();
    q.to = Some(String::from("0x123"));
    match q.to_transaction_request() {
        Err(TransactionRequestError::InvalidField(f)) => assert_eq!(f, "to"),
        other => panic!("expected InvalidField, got {:?}", other.map(|_| ())),
    }
}

#[test]
fn odd_length_call_data_is_reported_by_name() {
    let mut q = fillable_quote();
    q.data = Some(String::from("0xabc"));
    match q.to_transaction_request() {
        Err(TransactionRequestError::InvalidField(f)) => assert_eq!(f, "data"),
        other => panic!("expected InvalidField, got {:?}", other.map(|_| ())),
    }
}

#[test]
fn a_non_decimal_value_is_reported_by_name() {
    let mut q = fillable_quote();
    q.value = Some(String::from("12a"));
    match q.to_transaction_request() {
        Err(TransactionRequestError::InvalidField(f)) => assert_eq!(f, "value"),
        other => panic!("expected InvalidField, got {:?}", other.map(|_| ())),
    }
}

#[test]
fn a_value_overflowing_256_bits_is_reported_by_name() {
    let mut q = fillable_quote();
    // 2^256, one past the largest representable value.
    q.value = Some(String::from(
        "115792089237316195423570985008687907853269984665640564039457584007913129639936",
    ));
    match q.to_transaction_request() {
        Err(TransactionRequestError::InvalidField(f)) => assert_eq!(f, "value"),
        other => panic!("expected InvalidField, got {:?}", other.map(|_| ())),
    }
}

#[test]
fn a_non_decimal_gas_price_is_reported_by_name() {
    let mut q = fillable_quote();
    q.gas_price = Some(String::from("0x20"));
    match q.to_transaction_request() {
        Err(TransactionRequestError::InvalidField(f)) => assert_eq!(f, "gas_price"),
        other => panic!("expected InvalidField, got {:?}", other.map(|_| ())),
    }
}
