use zerox_client::{JsonValue, ZeroXClientError, classify_reply, decode_quote_response};

fn ok_reply(status: u16, body: &str) -> Result<(u16, String), String> {
    Ok((status, String::from(body)))
}

#[test]
fn transport_failure_is_surfaced_with_its_cause() {
    match classify_reply(Err(String::from("connection refused"))) {
        Err(ZeroXClientError::ZeroXQuoteError(cause)) => {
            assert_eq!(cause, "connection refused");
        },
        other => panic!("expected ZeroXQuoteError, got {:?}", other.map(|_| ())),
    }
}

#[test]
fn non_200_status_is_surfaced_regardless_of_body() {
    match classify_reply(ok_reply(400, "{\"price\": \"1.0\"}")) {
        Err(ZeroXClientError::ZeroXInvalidResponseStatusCode(code)) => assert_eq!(code, 400),
        other => panic!("expected status error, got {:?}", other.map(|_| ())),
    }
    match classify_reply(ok_reply(503, "not even json")) {
        Err(ZeroXClientError::ZeroXInvalidResponseStatusCode(code)) => assert_eq!(code, 503),
        other => panic!("expected status error, got {:?}", other.map(|_| ())),
    }
}

#[test]
fn invalid_json_body_is_a_malformed_response() {
    match classify_reply(ok_reply(200, "not json at all")) {
        Err(ZeroXClientError::ZeroXInvalidResponse(_)) => {},
        other => panic!("expected ZeroXInvalidResponse, got {:?}", other.map(|_| ())),
    }
}

#[test]
fn malformed_orders_array_is_a_malformed_response() {
    let body = "{\"price\": \"1.0\", \"orders\": 5}";
    match classify_reply(ok_reply(200, body)) {
        Err(ZeroXClientError::ZeroXInvalidResponse(_)) => {},
        other => panic!("expected ZeroXInvalidResponse, got {:?}", other.map(|_| ())),
    }
}

#[test]
fn wrong_typed_field_is_a_malformed_response() {
    match classify_reply(ok_reply(200, "{\"price\": 3}")) {
        Err(ZeroXClientError::ZeroXInvalidResponse(_)) => {},
        other => panic!("expected ZeroXInvalidResponse, got {:?}", other.map(|_| ())),
    }
    match classify_reply(ok_reply(200, "[\"price\"]")) {
        Err(ZeroXClientError::ZeroXInvalidResponse(_)) => {},
        other => panic!("expected ZeroXInvalidResponse, got {:?}", other.map(|_| ())),
    }
}

#[test]
fn chain_id_out_of_range_is_a_malformed_response() {
    match classify_reply(ok_reply(200, "{\"chainId\": 123456789123}")) {
        Err(ZeroXClientError::ZeroXInvalidResponse(_)) => {},
        other => panic!("expected ZeroXInvalidResponse, got {:?}", other.map(|_| ())),
    }
}

#[test]
fn well_formed_200_body_decodes_field_by_field() {
    let body = "{\
        \"chainId\": 1,\
        \"price\": \"1805.32\",\
        \"guaranteedPrice\": \"1787.26\",\
        \"to\": \"0xdef1c0ded9bec7f1a1670819833240f027b25eff\",\
        \"data\": \"0xd9627aa4\",\
        \"value\": \"1000000000000000000\",\
        \"gas\": \"111000\",\
        \"gasPrice\": \"20000000000\",\
        \"buyAmount\": \"1805320000\",\
        \"sellAmount\": \"1000000000000000000\",\
        \"sources\": [\
            {\"name\": \"Uniswap_V3\", \"proportion\": \"1\"},\
            {\"name\": \"Kyber\", \"proportion\": \"0\"}\
        ],\
        \"orders\": [{\
            \"makerToken\": \"0x6b175474e89094c44da98b954eedeac495271d0f\",\
            \"takerToken\": \"0xc02aaa39b223fe8d0a0e5c4f27ead9083c756cc2\",\
            \"makerAmount\": \"1805320000\",\
            \"takerAmount\": \"1000000000000000000\",\
            \"fillData\": {\
                \"tokenAddressPath\": [\"0xc02a\", \"0x6b17\"],\
                \"router\": \"0xe592427a0aece92de3edee1f18e0157c05861564\"\
            },\
            \"source\": \"Uniswap_V3\",\
            \"sourcePathId\": \"0xabc\",\
            \"type\": 0\
        }],\
        \"allowanceTarget\": \"0x0000000000000000000000000000000000000000\",\
        \"fees\": {\"zeroExFee\": {\
            \"billingType\": \"on-chain\",\
            \"feeAmount\": \"100\",\
            \"feeToken\": \"0x6b175474e89094c44da98b954eedeac495271d0f\",\
            \"feeType\": \"volume\"\
        }},\
        \"extraUnknownField\": [1, 2, 3]\
    }";
    let quote = classify_reply(ok_reply(200, body)).expect("decode should succeed");

    assert_eq!(quote.chain_id, Some(1));
    assert_eq!(quote.price.as_deref(), Some("1805.32"));
    assert_eq!(quote.guaranteed_price.as_deref(), Some("1787.26"));
    assert_eq!(quote.to.as_deref(), Some("0xdef1c0ded9bec7f1a1670819833240f027b25eff"));
    assert_eq!(quote.data.as_deref(), Some("0xd9627aa4"));
    assert_eq!(quote.value.as_deref(), Some("1000000000000000000"));
    assert_eq!(quote.gas.as_deref(), Some("111000"));
    assert_eq!(quote.gas_price.as_deref(), Some("20000000000"));
    assert_eq!(quote.buy_amount.as_deref(), Some("1805320000"));
    assert_eq!(quote.sell_amount.as_deref(), Some("1000000000000000000"));

    // Absent fields decode to the unset state.
    assert!(quote.estimated_price_impact.is_none());
    assert!(quote.estimated_gas.is_none());
    assert!(quote.protocol_fee.is_none());
    assert!(quote.minimum_protocol_fee.is_none());
    assert!(quote.buy_token_address.is_none());
    assert!(quote.sell_token_address.is_none());
    assert!(quote.gross_price.is_none());
    assert!(quote.gross_buy_amount.is_none());
    assert!(quote.gross_sell_amount.is_none());
    assert!(quote.sell_token_to_eth_rate.is_none());
    assert!(quote.buy_token_to_eth_rate.is_none());

    let sources = quote.sources.as_ref().expect("sources present");
    assert_eq!(sources.len(), 2);
    assert_eq!(sources[0].name.as_deref(), Some("Uniswap_V3"));
    assert_eq!(sources[0].proportion.as_deref(), Some("1"));
    assert_eq!(sources[1].name.as_deref(), Some("Kyber"));
    assert_eq!(sources[1].proportion.as_deref(), Some("0"));

    let orders = quote.orders.as_ref().expect("orders present");
    assert_eq!(orders.len(), 1);
    let order = &orders[0];
    assert_eq!(order.maker_token.as_deref(), Some("0x6b175474e89094c44da98b954eedeac495271d0f"));
    assert_eq!(order.taker_token.as_deref(), Some("0xc02aaa39b223fe8d0a0e5c4f27ead9083c756cc2"));
    assert_eq!(order.maker_amount.as_deref(), Some("1805320000"));
    assert_eq!(order.taker_amount.as_deref(), Some("1000000000000000000"));
    assert_eq!(order.source.as_deref(), Some("Uniswap_V3"));
    assert_eq!(order.source_path_id.as_deref(), Some("0xabc"));
    assert_eq!(order.type_, Some(0));
    let fill = order.fill_data.as_ref().expect("fillData present");
    assert_eq!(
        fill.token_address_path.as_deref(),
        Some(&[String::from("0xc02a"), String::from("0x6b17")][..])
    );
    assert_eq!(fill.router.as_deref(), Some("0xe592427a0aece92de3edee1f18e0157c05861564"));

    assert_eq!(quote.allowance_target.as_deref(), Some("0x0000000000000000000000000000000000000000"));
    let fees = quote.fees.as_ref().expect("fees present");
    let zfee = fees.zero_ex_fee.as_ref().expect("zeroExFee present");
    assert_eq!(zfee.billing_type.as_deref(), Some("on-chain"));
    assert_eq!(zfee.fee_amount.as_deref(), Some("100"));
    assert_eq!(zfee.fee_token.as_deref(), Some("0x6b175474e89094c44da98b954eedeac495271d0f"));
    assert_eq!(zfee.fee_type.as_deref(), Some("volume"));
}

#[test]
fn explicit_null_fields_decode_to_the_unset_state() {
    let body = "{\"price\": null, \"to\": null, \"sources\": null, \"fees\": null}";
    let quote = classify_reply(ok_reply(200, body)).expect("decode should succeed");
    assert!(quote.price.is_none());
    assert!(quote.to.is_none());
    assert!(quote.sources.is_none());
    assert!(quote.fees.is_none());
}

#[test]
fn decode_rejects_anything_but_an_object_at_top_level() {
    assert!(decode_quote_response(&JsonValue::Null).is_err());
    assert!(decode_quote_response(&JsonValue::Int(7)).is_err());
    assert!(decode_quote_response(&JsonValue::Arr(vec![])).is_err());
}

#[test]
fn decode_reads_a_hand_built_tree() {
    let tree = JsonValue::Obj(vec![
        (String::from("price"), JsonValue::Str(String::from("3.5"))),
        (String::from("chainId"), JsonValue::Int(137)),
        (
            String::from("sources"),
            JsonValue::Arr(vec![JsonValue::Obj(vec![
                (String::from("name"), JsonValue::Str(String::from("Kyber"))),
                (String::from("proportion"), JsonValue::Null),
            ])]),
        ),
    ]);
    let quote = decode_quote_response(&tree).expect("decode should succeed");
    assert_eq!(quote.price.as_deref(), Some("3.5"));
    assert_eq!(quote.chain_id, Some(137));
    let sources = quote.sources.as_ref().unwrap();
    assert_eq!(sources.len(), 1);
    assert_eq!(sources[0].name.as_deref(), Some("Kyber"));
    assert!(sources[0].proportion.is_none());
    assert!(quote.orders.is_none());
}

#[test]
fn decode_fails_on_a_source_of_the_wrong_shape() {
    let tree = JsonValue::Obj(vec![(
        String::from("sources"),
        JsonValue::Arr(vec![JsonValue::Str(String::from("Uniswap"))]),
    )]);
    assert!(decode_quote_response(&tree).is_err());
}
