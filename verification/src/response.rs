use vstd::prelude::*;
use vstd::string::StringExecFns;

use crate::json::JsonValue;
use crate::json::j_lookup;
use crate::json::obj_get;

verus! {

// ---------------------------------------------------------------------------
// The quote shape. Every field is optional: the service omits fields
// situationally, and an absent field is distinct from an empty one.
// ---------------------------------------------------------------------------

/// One leg of the routing metadata: which venue and contract path would
/// execute an order.
pub struct FillData {
    pub token_address_path: Option<Vec<String>>,
    pub router: Option<String>,
}

/// One order the quote would fill, with its tokens, amounts and routing.
pub struct Order {
    pub maker_token: Option<String>,
    pub taker_token: Option<String>,
    pub maker_amount: Option<String>,
    pub taker_amount: Option<String>,
    pub fill_data: Option<FillData>,
    pub source: Option<String>,
    pub source_path_id: Option<String>,
    pub type_: Option<i32>,
}

/// One liquidity source and the proportion of the fill routed through it.
pub struct Source {
    pub name: Option<String>,
    pub proportion: Option<String>,
}

/// The fee block of a quote.
pub struct Fees {
    pub zero_ex_fee: Option<ZeroExFee>,
}

/// The service's own fee: how it is billed, its amount and token.
pub struct ZeroExFee {
    pub billing_type: Option<String>,
    pub fee_amount: Option<String>,
    pub fee_token: Option<String>,
    pub fee_type: Option<String>,
}

/// A successfully decoded quote. Field names follow the service's camel-case
/// keys, written in snake case.
pub struct ZeroXQuoteResponse {
    pub chain_id: Option<i32>,
    pub price: Option<String>,
    pub guaranteed_price: Option<String>,
    pub estimated_price_impact: Option<String>,
    pub to: Option<String>,
    pub data: Option<String>,
    pub value: Option<String>,
    pub gas: Option<String>,
    pub estimated_gas: Option<String>,
    pub gas_price: Option<String>,
    pub protocol_fee: Option<String>,
    pub minimum_protocol_fee: Option<String>,
    pub buy_token_address: Option<String>,
    pub sell_token_address: Option<String>,
    pub buy_amount: Option<String>,
    pub sell_amount: Option<String>,
    pub sources: Option<Vec<Source>>,
    pub orders: Option<Vec<Order>>,
    pub allowance_target: Option<String>,
    pub sell_token_to_eth_rate: Option<String>,
    pub buy_token_to_eth_rate: Option<String>,
    pub fees: Option<Fees>,
    pub gross_price: Option<String>,
    pub gross_buy_amount: Option<String>,
    pub gross_sell_amount: Option<String>,
}

// ---------------------------------------------------------------------------
// Mathematical views of the quote shape, with text as character sequences.
// ---------------------------------------------------------------------------

pub struct FillDataView {
    pub token_address_path: Option<Seq<Seq<char>>>,
    pub router: Option<Seq<char>>,
}

pub struct OrderView {
    pub maker_token: Option<Seq<char>>,
    pub taker_token: Option<Seq<char>>,
    pub maker_amount: Option<Seq<char>>,
    pub taker_amount: Option<Seq<char>>,
    pub fill_data: Option<FillDataView>,
    pub source: Option<Seq<char>>,
    pub source_path_id: Option<Seq<char>>,
    pub type_: Option<i32>,
}

pub struct SourceView {
    pub name: Option<Seq<char>>,
    pub proportion: Option<Seq<char>>,
}

pub struct FeesView {
    pub zero_ex_fee: Option<ZeroExFeeView>,
}

pub struct ZeroExFeeView {
    pub billing_type: Option<Seq<char>>,
    pub fee_amount: Option<Seq<char>>,
    pub fee_token: Option<Seq<char>>,
    pub fee_type: Option<Seq<char>>,
}

pub struct ZeroXQuoteResponseView {
    pub chain_id: Option<i32>,
    pub price: Option<Seq<char>>,
    pub guaranteed_price: Option<Seq<char>>,
    pub estimated_price_impact: Option<Seq<char>>,
    pub to: Option<Seq<char>>,
    pub data: Option<Seq<char>>,
    pub value: Option<Seq<char>>,
    pub gas: Option<Seq<char>>,
    pub estimated_gas: Option<Seq<char>>,
    pub gas_price: Option<Seq<char>>,
    pub protocol_fee: Option<Seq<char>>,
    pub minimum_protocol_fee: Option<Seq<char>>,
    pub buy_token_address: Option<Seq<char>>,
    pub sell_token_address: Option<Seq<char>>,
    pub buy_amount: Option<Seq<char>>,
    pub sell_amount: Option<Seq<char>>,
    pub sources: Option<Seq<SourceView>>,
    pub orders: Option<Seq<OrderView>>,
    pub allowance_target: Option<Seq<char>>,
    pub sell_token_to_eth_rate: Option<Seq<char>>,
    pub buy_token_to_eth_rate: Option<Seq<char>>,
    pub fees: Option<FeesView>,
    pub gross_price: Option<Seq<char>>,
    pub gross_buy_amount: Option<Seq<char>>,
    pub gross_sell_amount: Option<Seq<char>>,
}

impl DeepView for FillData {
    type V = FillDataView;

    open spec fn deep_view(&self) -> FillDataView {
        FillDataView {
            token_address_path: self.token_address_path.deep_view(),
            router: self.router.deep_view(),
        }
    }
}

impl DeepView for Order {
    type V = OrderView;

    open spec fn deep_view(&self) -> OrderView {
        OrderView {
            maker_token: self.maker_token.deep_view(),
            taker_token: self.taker_token.deep_view(),
            maker_amount: self.maker_amount.deep_view(),
            taker_amount: self.taker_amount.deep_view(),
            fill_data: self.fill_data.deep_view(),
            source: self.source.deep_view(),
            source_path_id: self.source_path_id.deep_view(),
            type_: self.type_,
        }
    }
}

impl DeepView for Source {
    type V = SourceView;

    open spec fn deep_view(&self) -> SourceView {
        SourceView { name: self.name.deep_view(), proportion: self.proportion.deep_view() }
    }
}

impl DeepView for Fees {
    type V = FeesView;

    open spec fn deep_view(&self) -> FeesView {
        FeesView { zero_ex_fee: self.zero_ex_fee.deep_view() }
    }
}

impl DeepView for ZeroExFee {
    type V = ZeroExFeeView;

    open spec fn deep_view(&self) -> ZeroExFeeView {
        ZeroExFeeView {
            billing_type: self.billing_type.deep_view(),
            fee_amount: self.fee_amount.deep_view(),
            fee_token: self.fee_token.deep_view(),
            fee_type: self.fee_type.deep_view(),
        }
    }
}

impl DeepView for ZeroXQuoteResponse {
    type V = ZeroXQuoteResponseView;

    open spec fn deep_view(&self) -> ZeroXQuoteResponseView {
        ZeroXQuoteResponseView {
            chain_id: self.chain_id,
            price: self.price.deep_view(),
            guaranteed_price: self.guaranteed_price.deep_view(),
            estimated_price_impact: self.estimated_price_impact.deep_view(),
            to: self.to.deep_view(),
            data: self.data.deep_view(),
            value: self.value.deep_view(),
            gas: self.gas.deep_view(),
            estimated_gas: self.estimated_gas.deep_view(),
            gas_price: self.gas_price.deep_view(),
            protocol_fee: self.protocol_fee.deep_view(),
            minimum_protocol_fee: self.minimum_protocol_fee.deep_view(),
            buy_token_address: self.buy_token_address.deep_view(),
            sell_token_address: self.sell_token_address.deep_view(),
            buy_amount: self.buy_amount.deep_view(),
            sell_amount: self.sell_amount.deep_view(),
            sources: self.sources.deep_view(),
            orders: self.orders.deep_view(),
            allowance_target: self.allowance_target.deep_view(),
            sell_token_to_eth_rate: self.sell_token_to_eth_rate.deep_view(),
            buy_token_to_eth_rate: self.buy_token_to_eth_rate.deep_view(),
            fees: self.fees.deep_view(),
            gross_price: self.gross_price.deep_view(),
            gross_buy_amount: self.gross_buy_amount.deep_view(),
            gross_sell_amount: self.gross_sell_amount.deep_view(),
        }
    }
}

// ---------------------------------------------------------------------------
// What one field of an object strictly decodes to. A missing key and an
// explicit null both decode to the unset state; a present value of the wrong
// shape is a decode failure, never a silent omission.
// ---------------------------------------------------------------------------

/// A field that must hold text when present.
pub open spec fn j_str_field(fs: Seq<(String, JsonValue)>, k: Seq<char>) -> Result<
    Option<Seq<char>>,
    (),
> {
    match j_lookup(fs, k) {
        None => Ok(None),
        Some(JsonValue::Null) => Ok(None),
        Some(JsonValue::Str(s)) => Ok(Some(s@)),
        Some(_) => Err(()),
    }
}

/// A field that must hold an integer in `i32` range when present.
pub open spec fn j_i32_field(fs: Seq<(String, JsonValue)>, k: Seq<char>) -> Result<
    Option<i32>,
    (),
> {
    match j_lookup(fs, k) {
        None => Ok(None),
        Some(JsonValue::Null) => Ok(None),
        Some(JsonValue::Int(n)) => if i32::MIN <= n && n <= i32::MAX {
            Ok(Some(n as i32))
        } else {
            Err(())
        },
        Some(_) => Err(()),
    }
}

fn get_str_field(fs: &Vec<(String, JsonValue)>, k: &String) -> (r: Result<Option<String>, ()>)
    ensures
        match r {
            Ok(v) => j_str_field(fs@, k@) == Ok::<Option<Seq<char>>, ()>(v.deep_view()),
            Err(_) => j_str_field(fs@, k@) is Err,
        },
{
    match obj_get(fs, k) {
        None => Ok(None),
        Some(JsonValue::Null) => Ok(None),
        Some(JsonValue::Str(s)) => Ok(Some(s.clone())),
        Some(_) => Err(()),
    }
}

fn get_i32_field(fs: &Vec<(String, JsonValue)>, k: &String) -> (r: Result<Option<i32>, ()>)
    ensures
        match r {
            Ok(v) => j_i32_field(fs@, k@) == Ok::<Option<i32>, ()>(v),
            Err(_) => j_i32_field(fs@, k@) is Err,
        },
{
    match obj_get(fs, k) {
        None => Ok(None),
        Some(JsonValue::Null) => Ok(None),
        Some(JsonValue::Int(n)) => {
            let n = *n;
            if n >= i32::MIN as i64 && n <= i32::MAX as i64 {
                Ok(Some(n as i32))
            } else {
                Err(())
            }
        },
        Some(_) => Err(()),
    }
}

// ---------------------------------------------------------------------------
// Arrays of text, and the nested objects of the quote shape.
// ---------------------------------------------------------------------------

/// An array whose every element must hold text.
pub open spec fn spec_decode_str_array(arr: Seq<JsonValue>) -> Result<Seq<Seq<char>>, ()> {
    if forall|i: int| 0 <= i < arr.len() ==> arr[i] is Str {
        Ok(Seq::new(arr.len(), |i: int| arr[i]->Str_0@))
    } else {
        Err(())
    }
}

fn decode_str_array(arr: &Vec<JsonValue>) -> (r: Result<Vec<String>, ()>)
    ensures
        match r {
            Ok(v) => spec_decode_str_array(arr@) == Ok::<Seq<Seq<char>>, ()>(v.deep_view()),
            Err(_) => spec_decode_str_array(arr@) is Err,
        },
{
    let mut out: Vec<String> = Vec::new();
    let mut i: usize = 0;
    while i < arr.len()
        invariant
            0 <= i <= arr.len(),
            out.len() == i,
            forall|j: int| 0 <= j < i ==> arr@[j] is Str,
            forall|j: int| 0 <= j < i ==> out.deep_view()[j] == arr@[j]->Str_0@,
        decreases arr.len() - i,
    {
        let ghost pre = out.deep_view();
        match &arr[i] {
            JsonValue::Str(s) => {
                let dup = s.clone();
                proof {
                    let ghost d = dup.deep_view();
                    assert(d == arr@[i as int]->Str_0@);
                }
                out.push(dup);
                proof {
                    assert(out.deep_view() =~= pre.push(arr@[i as int]->Str_0@));
                }
            },
            _ => {
                return Err(());
            },
        }
        i = i + 1;
    }
    proof {
        assert(out.deep_view() =~= Seq::new(arr@.len(), |i: int| arr@[i]->Str_0@));
    }
    Ok(out)
}

/// A field that must hold an array of text when present.
pub open spec fn j_str_list_field(fs: Seq<(String, JsonValue)>, k: Seq<char>) -> Result<
    Option<Seq<Seq<char>>>,
    (),
> {
    match j_lookup(fs, k) {
        None => Ok(None),
        Some(JsonValue::Null) => Ok(None),
        Some(JsonValue::Arr(a)) => match spec_decode_str_array(a@) {
            Ok(v) => Ok(Some(v)),
            Err(_) => Err(()),
        },
        Some(_) => Err(()),
    }
}

fn get_str_list_field(fs: &Vec<(String, JsonValue)>, k: &String) -> (r: Result<
    Option<Vec<String>>,
    (),
>)
    ensures
        match r {
            Ok(v) => j_str_list_field(fs@, k@) == Ok::<Option<Seq<Seq<char>>>, ()>(v.deep_view()),
            Err(_) => j_str_list_field(fs@, k@) is Err,
        },
{
    match obj_get(fs, k) {
        None => Ok(None),
        Some(JsonValue::Null) => Ok(None),
        Some(JsonValue::Arr(a)) => match decode_str_array(a) {
            Ok(v) => Ok(Some(v)),
            Err(_) => Err(()),
        },
        Some(_) => Err(()),
    }
}

/// What a routing-metadata object strictly decodes to.
pub open spec fn spec_decode_fill_data(t: JsonValue) -> Result<FillDataView, ()> {
    match t {
        JsonValue::Obj(fs) => if j_str_list_field(fs@, "tokenAddressPath"@) is Err || j_str_field(
            fs@,
            "router"@,
        ) is Err {
            Err(())
        } else {
            Ok(
                FillDataView {
                    token_address_path: j_str_list_field(fs@, "tokenAddressPath"@)->Ok_0,
                    router: j_str_field(fs@, "router"@)->Ok_0,
                },
            )
        },
        _ => Err(()),
    }
}

fn decode_fill_data(t: &JsonValue) -> (r: Result<FillData, ()>)
    ensures
        match r {
            Ok(v) => spec_decode_fill_data(*t) == Ok::<FillDataView, ()>(v.deep_view()),
            Err(_) => spec_decode_fill_data(*t) is Err,
        },
{
    match t {
        JsonValue::Obj(fs) => {
            let token_address_path = match get_str_list_field(
                fs,
                &String::from_str("tokenAddressPath"),
            ) {
                Ok(v) => v,
                Err(_) => {
                    return Err(());
                },
            };
            let router = match get_str_field(fs, &String::from_str("router")) {
                Ok(v) => v,
                Err(_) => {
                    return Err(());
                },
            };
            Ok(FillData { token_address_path, router })
        },
        _ => Err(()),
    }
}

/// A field that must hold a routing-metadata object when present.
pub open spec fn j_fill_data_field(fs: Seq<(String, JsonValue)>, k: Seq<char>) -> Result<
    Option<FillDataView>,
    (),
> {
    match j_lookup(fs, k) {
        None => Ok(None),
        Some(JsonValue::Null) => Ok(None),
        Some(t) => match spec_decode_fill_data(t) {
            Ok(v) => Ok(Some(v)),
            Err(_) => Err(()),
        },
    }
}

fn get_fill_data_field(fs: &Vec<(String, JsonValue)>, k: &String) -> (r: Result<
    Option<FillData>,
    (),
>)
    ensures
        match r {
            Ok(v) => j_fill_data_field(fs@, k@) == Ok::<Option<FillDataView>, ()>(v.deep_view()),
            Err(_) => j_fill_data_field(fs@, k@) is Err,
        },
{
    match obj_get(fs, k) {
        None => Ok(None),
        Some(JsonValue::Null) => Ok(None),
        Some(t) => match decode_fill_data(t) {
            Ok(v) => Ok(Some(v)),
            Err(_) => Err(()),
        },
    }
}

/// What one order object strictly decodes to.
pub open spec fn spec_decode_order(t: JsonValue) -> Result<OrderView, ()> {
    match t {
        JsonValue::Obj(fs) => if j_str_field(fs@, "makerToken"@) is Err || j_str_field(
            fs@,
            "takerToken"@,
        ) is Err || j_str_field(fs@, "makerAmount"@) is Err || j_str_field(
            fs@,
            "takerAmount"@,
        ) is Err || j_fill_data_field(fs@, "fillData"@) is Err || j_str_field(
            fs@,
            "source"@,
        ) is Err || j_str_field(fs@, "sourcePathId"@) is Err || j_i32_field(fs@, "type"@) is Err {
            Err(())
        } else {
            Ok(
                OrderView {
                    maker_token: j_str_field(fs@, "makerToken"@)->Ok_0,
                    taker_token: j_str_field(fs@, "takerToken"@)->Ok_0,
                    maker_amount: j_str_field(fs@, "makerAmount"@)->Ok_0,
                    taker_amount: j_str_field(fs@, "takerAmount"@)->Ok_0,
                    fill_data: j_fill_data_field(fs@, "fillData"@)->Ok_0,
                    source: j_str_field(fs@, "source"@)->Ok_0,
                    source_path_id: j_str_field(fs@, "sourcePathId"@)->Ok_0,
                    type_: j_i32_field(fs@, "type"@)->Ok_0,
                },
            )
        },
        _ => Err(()),
    }
}

fn decode_order(t: &JsonValue) -> (r: Result<Order, ()>)
    ensures
        match r {
            Ok(v) => spec_decode_order(*t) == Ok::<OrderView, ()>(v.deep_view()),
            Err(_) => spec_decode_order(*t) is Err,
        },
{
    match t {
        JsonValue::Obj(fs) => {
            let maker_token = match get_str_field(fs, &String::from_str("makerToken")) {
                Ok(v) => v,
                Err(_) => {
                    return Err(());
                },
            };
            let taker_token = match get_str_field(fs, &String::from_str("takerToken")) {
                Ok(v) => v,
                Err(_) => {
                    return Err(());
                },
            };
            let maker_amount = match get_str_field(fs, &String::from_str("makerAmount")) {
                Ok(v) => v,
                Err(_) => {
                    return Err(());
                },
            };
            let taker_amount = match get_str_field(fs, &String::from_str("takerAmount")) {
                Ok(v) => v,
                Err(_) => {
                    return Err(());
                },
            };
            let fill_data = match get_fill_data_field(fs, &String::from_str("fillData")) {
                Ok(v) => v,
                Err(_) => {
                    return Err(());
                },
            };
            let source = match get_str_field(fs, &String::from_str("source")) {
                Ok(v) => v,
                Err(_) => {
                    return Err(());
                },
            };
            let source_path_id = match get_str_field(fs, &String::from_str("sourcePathId")) {
                Ok(v) => v,
                Err(_) => {
                    return Err(());
                },
            };
            let type_ = match get_i32_field(fs, &String::from_str("type")) {
                Ok(v) => v,
                Err(_) => {
                    return Err(());
                },
            };
            Ok(
                Order {
                    maker_token,
                    taker_token,
                    maker_amount,
                    taker_amount,
                    fill_data,
                    source,
                    source_path_id,
                    type_,
                },
            )
        },
        _ => Err(()),
    }
}

/// What one liquidity-source object strictly decodes to.
pub open spec fn spec_decode_source(t: JsonValue) -> Result<SourceView, ()> {
    match t {
        JsonValue::Obj(fs) => if j_str_field(fs@, "name"@) is Err || j_str_field(
            fs@,
            "proportion"@,
        ) is Err {
            Err(())
        } else {
            Ok(
                SourceView {
                    name: j_str_field(fs@, "name"@)->Ok_0,
                    proportion: j_str_field(fs@, "proportion"@)->Ok_0,
                },
            )
        },
        _ => Err(()),
    }
}

fn decode_source(t: &JsonValue) -> (r: Result<Source, ()>)
    ensures
        match r {
            Ok(v) => spec_decode_source(*t) == Ok::<SourceView, ()>(v.deep_view()),
            Err(_) => spec_decode_source(*t) is Err,
        },
{
    match t {
        JsonValue::Obj(fs) => {
            let name = match get_str_field(fs, &String::from_str("name")) {
                Ok(v) => v,
                Err(_) => {
                    return Err(());
                },
            };
            let proportion = match get_str_field(fs, &String::from_str("proportion")) {
                Ok(v) => v,
                Err(_) => {
                    return Err(());
                },
            };
            Ok(Source { name, proportion })
        },
        _ => Err(()),
    }
}

/// What the service's own fee object strictly decodes to.
pub open spec fn spec_decode_zero_ex_fee(t: JsonValue) -> Result<ZeroExFeeView, ()> {
    match t {
        JsonValue::Obj(fs) => if j_str_field(fs@, "billingType"@) is Err || j_str_field(
            fs@,
            "feeAmount"@,
        ) is Err || j_str_field(fs@, "feeToken"@) is Err || j_str_field(fs@, "feeType"@) is Err {
            Err(())
        } else {
            Ok(
                ZeroExFeeView {
                    billing_type: j_str_field(fs@, "billingType"@)->Ok_0,
                    fee_amount: j_str_field(fs@, "feeAmount"@)->Ok_0,
                    fee_token: j_str_field(fs@, "feeToken"@)->Ok_0,
                    fee_type: j_str_field(fs@, "feeType"@)->Ok_0,
                },
            )
        },
        _ => Err(()),
    }
}

fn decode_zero_ex_fee(t: &JsonValue) -> (r: Result<ZeroExFee, ()>)
    ensures
        match r {
            Ok(v) => spec_decode_zero_ex_fee(*t) == Ok::<ZeroExFeeView, ()>(v.deep_view()),
            Err(_) => spec_decode_zero_ex_fee(*t) is Err,
        },
{
    match t {
        JsonValue::Obj(fs) => {
            let billing_type = match get_str_field(fs, &String::from_str("billingType")) {
                Ok(v) => v,
                Err(_) => {
                    return Err(());
                },
            };
            let fee_amount = match get_str_field(fs, &String::from_str("feeAmount")) {
                Ok(v) => v,
                Err(_) => {
                    return Err(());
                },
            };
            let fee_token = match get_str_field(fs, &String::from_str("feeToken")) {
                Ok(v) => v,
                Err(_) => {
                    return Err(());
                },
            };
            let fee_type = match get_str_field(fs, &String::from_str("feeType")) {
                Ok(v) => v,
                Err(_) => {
                    return Err(());
                },
            };
            Ok(ZeroExFee { billing_type, fee_amount, fee_token, fee_type })
        },
        _ => Err(()),
    }
}

/// What the fee block strictly decodes to.
pub open spec fn spec_decode_fees(t: JsonValue) -> Result<FeesView, ()> {
    match t {
        JsonValue::Obj(fs) => match j_lookup(fs@, "zeroExFee"@) {
            None => Ok(FeesView { zero_ex_fee: None }),
            Some(JsonValue::Null) => Ok(FeesView { zero_ex_fee: None }),
            Some(inner) => match spec_decode_zero_ex_fee(inner) {
                Ok(v) => Ok(FeesView { zero_ex_fee: Some(v) }),
                Err(_) => Err(()),
            },
        },
        _ => Err(()),
    }
}

fn decode_fees(t: &JsonValue) -> (r: Result<Fees, ()>)
    ensures
        match r {
            Ok(v) => spec_decode_fees(*t) == Ok::<FeesView, ()>(v.deep_view()),
            Err(_) => spec_decode_fees(*t) is Err,
        },
{
    match t {
        JsonValue::Obj(fs) => match obj_get(fs, &String::from_str("zeroExFee")) {
            None => Ok(Fees { zero_ex_fee: None }),
            Some(JsonValue::Null) => Ok(Fees { zero_ex_fee: None }),
            Some(inner) => match decode_zero_ex_fee(inner) {
                Ok(v) => Ok(Fees { zero_ex_fee: Some(v) }),
                Err(_) => Err(()),
            },
        },
        _ => Err(()),
    }
}

// ---------------------------------------------------------------------------
// Arrays of sources and of orders.
// ---------------------------------------------------------------------------

/// What an array of liquidity sources strictly decodes to: every element
/// must decode, in order.
pub open spec fn spec_decode_sources(arr: Seq<JsonValue>) -> Result<Seq<SourceView>, ()> {
    if forall|i: int| 0 <= i < arr.len() ==> spec_decode_source(arr[i]) is Ok {
        Ok(Seq::new(arr.len(), |i: int| spec_decode_source(arr[i])->Ok_0))
    } else {
        Err(())
    }
}

fn decode_sources(arr: &Vec<JsonValue>) -> (r: Result<Vec<Source>, ()>)
    ensures
        match r {
            Ok(v) => spec_decode_sources(arr@) == Ok::<Seq<SourceView>, ()>(v.deep_view()),
            Err(_) => spec_decode_sources(arr@) is Err,
        },
{
    let mut out: Vec<Source> = Vec::new();
    let mut i: usize = 0;
    while i < arr.len()
        invariant
            0 <= i <= arr.len(),
            out.len() == i,
            forall|j: int| 0 <= j < i ==> spec_decode_source(arr@[j]) is Ok,
            forall|j: int| 0 <= j < i ==> out.deep_view()[j] == spec_decode_source(arr@[j])->Ok_0,
        decreases arr.len() - i,
    {
        let ghost pre = out.deep_view();
        match decode_source(&arr[i]) {
            Ok(s) => {
                out.push(s);
                proof {
                    assert(out.deep_view() =~= pre.push(spec_decode_source(arr@[i as int])->Ok_0));
                }
            },
            Err(_) => {
                return Err(());
            },
        }
        i = i + 1;
    }
    proof {
        assert(out.deep_view() =~= Seq::new(arr@.len(), |i: int| spec_decode_source(arr@[i])->Ok_0));
    }
    Ok(out)
}

/// What an array of orders strictly decodes to: every element must decode,
/// in order.
pub open spec fn spec_decode_orders(arr: Seq<JsonValue>) -> Result<Seq<OrderView>, ()> {
    if forall|i: int| 0 <= i < arr.len() ==> spec_decode_order(arr[i]) is Ok {
        Ok(Seq::new(arr.len(), |i: int| spec_decode_order(arr[i])->Ok_0))
    } else {
        Err(())
    }
}

fn decode_orders(arr: &Vec<JsonValue>) -> (r: Result<Vec<Order>, ()>)
    ensures
        match r {
            Ok(v) => spec_decode_orders(arr@) == Ok::<Seq<OrderView>, ()>(v.deep_view()),
            Err(_) => spec_decode_orders(arr@) is Err,
        },
{
    let mut out: Vec<Order> = Vec::new();
    let mut i: usize = 0;
    while i < arr.len()
        invariant
            0 <= i <= arr.len(),
            out.len() == i,
            forall|j: int| 0 <= j < i ==> spec_decode_order(arr@[j]) is Ok,
            forall|j: int| 0 <= j < i ==> out.deep_view()[j] == spec_decode_order(arr@[j])->Ok_0,
        decreases arr.len() - i,
    {
        let ghost pre = out.deep_view();
        match decode_order(&arr[i]) {
            Ok(s) => {
                out.push(s);
                proof {
                    assert(out.deep_view() =~= pre.push(spec_decode_order(arr@[i as int])->Ok_0));
                }
            },
            Err(_) => {
                return Err(());
            },
        }
        i = i + 1;
    }
    proof {
        assert(out.deep_view() =~= Seq::new(arr@.len(), |i: int| spec_decode_order(arr@[i])->Ok_0));
    }
    Ok(out)
}

/// A field that must hold an array of liquidity sources when present.
pub open spec fn j_sources_field(fs: Seq<(String, JsonValue)>, k: Seq<char>) -> Result<
    Option<Seq<SourceView>>,
    (),
> {
    match j_lookup(fs, k) {
        None => Ok(None),
        Some(JsonValue::Null) => Ok(None),
        Some(JsonValue::Arr(a)) => match spec_decode_sources(a@) {
            Ok(v) => Ok(Some(v)),
            Err(_) => Err(()),
        },
        Some(_) => Err(()),
    }
}

fn get_sources_field(fs: &Vec<(String, JsonValue)>, k: &String) -> (r: Result<
    Option<Vec<Source>>,
    (),
>)
    ensures
        match r {
            Ok(v) => j_sources_field(fs@, k@) == Ok::<Option<Seq<SourceView>>, ()>(v.deep_view()),
            Err(_) => j_sources_field(fs@, k@) is Err,
        },
{
    match obj_get(fs, k) {
        None => Ok(None),
        Some(JsonValue::Null) => Ok(None),
        Some(JsonValue::Arr(a)) => match decode_sources(a) {
            Ok(v) => Ok(Some(v)),
            Err(_) => Err(()),
        },
        Some(_) => Err(()),
    }
}

/// A field that must hold an array of orders when present.
pub open spec fn j_orders_field(fs: Seq<(String, JsonValue)>, k: Seq<char>) -> Result<
    Option<Seq<OrderView>>,
    (),
> {
    match j_lookup(fs, k) {
        None => Ok(None),
        Some(JsonValue::Null) => Ok(None),
        Some(JsonValue::Arr(a)) => match spec_decode_orders(a@) {
            Ok(v) => Ok(Some(v)),
            Err(_) => Err(()),
        },
        Some(_) => Err(()),
    }
}

fn get_orders_field(fs: &Vec<(String, JsonValue)>, k: &String) -> (r: Result<
    Option<Vec<Order>>,
    (),
>)
    ensures
        match r {
            Ok(v) => j_orders_field(fs@, k@) == Ok::<Option<Seq<OrderView>>, ()>(v.deep_view()),
            Err(_) => j_orders_field(fs@, k@) is Err,
        },
{
    match obj_get(fs, k) {
        None => Ok(None),
        Some(JsonValue::Null) => Ok(None),
        Some(JsonValue::Arr(a)) => match decode_orders(a) {
            Ok(v) => Ok(Some(v)),
            Err(_) => Err(()),
        },
        Some(_) => Err(()),
    }
}

/// A field that must hold the fee block when present.
pub open spec fn j_fees_field(fs: Seq<(String, JsonValue)>, k: Seq<char>) -> Result<
    Option<FeesView>,
    (),
> {
    match j_lookup(fs, k) {
        None => Ok(None),
        Some(JsonValue::Null) => Ok(None),
        Some(t) => match spec_decode_fees(t) {
            Ok(v) => Ok(Some(v)),
            Err(_) => Err(()),
        },
    }
}

fn get_fees_field(fs: &Vec<(String, JsonValue)>, k: &String) -> (r: Result<Option<Fees>, ()>)
    ensures
        match r {
            Ok(v) => j_fees_field(fs@, k@) == Ok::<Option<FeesView>, ()>(v.deep_view()),
            Err(_) => j_fees_field(fs@, k@) is Err,
        },
{
    match obj_get(fs, k) {
        None => Ok(None),
        Some(JsonValue::Null) => Ok(None),
        Some(t) => match decode_fees(t) {
            Ok(v) => Ok(Some(v)),
            Err(_) => Err(()),
        },
    }
}

// ---------------------------------------------------------------------------
// The whole quote object.
// ---------------------------------------------------------------------------

/// Whether any field of the quote object fails its strict decode.
pub open spec fn quote_fields_err(fs: Seq<(String, JsonValue)>) -> bool {
    ||| j_i32_field(fs, "chainId"@) is Err
    ||| j_str_field(fs, "price"@) is Err
    ||| j_str_field(fs, "guaranteedPrice"@) is Err
    ||| j_str_field(fs, "estimatedPriceImpact"@) is Err
    ||| j_str_field(fs, "to"@) is Err
    ||| j_str_field(fs, "data"@) is Err
    ||| j_str_field(fs, "value"@) is Err
    ||| j_str_field(fs, "gas"@) is Err
    ||| j_str_field(fs, "estimatedGas"@) is Err
    ||| j_str_field(fs, "gasPrice"@) is Err
    ||| j_str_field(fs, "protocolFee"@) is Err
    ||| j_str_field(fs, "minimumProtocolFee"@) is Err
    ||| j_str_field(fs, "buyTokenAddress"@) is Err
    ||| j_str_field(fs, "sellTokenAddress"@) is Err
    ||| j_str_field(fs, "buyAmount"@) is Err
    ||| j_str_field(fs, "sellAmount"@) is Err
    ||| j_sources_field(fs, "sources"@) is Err
    ||| j_orders_field(fs, "orders"@) is Err
    ||| j_str_field(fs, "allowanceTarget"@) is Err
    ||| j_str_field(fs, "sellTokenToEthRate"@) is Err
    ||| j_str_field(fs, "buyTokenToEthRate"@) is Err
    ||| j_fees_field(fs, "fees"@) is Err
    ||| j_str_field(fs, "grossPrice"@) is Err
    ||| j_str_field(fs, "grossBuyAmount"@) is Err
    ||| j_str_field(fs, "grossSellAmount"@) is Err
}

/// The view a quote object decodes to when no field fails.
pub open spec fn quote_view_of(fs: Seq<(String, JsonValue)>) -> ZeroXQuoteResponseView {
    ZeroXQuoteResponseView {
        chain_id: j_i32_field(fs, "chainId"@)->Ok_0,
        price: j_str_field(fs, "price"@)->Ok_0,
        guaranteed_price: j_str_field(fs, "guaranteedPrice"@)->Ok_0,
        estimated_price_impact: j_str_field(fs, "estimatedPriceImpact"@)->Ok_0,
        to: j_str_field(fs, "to"@)->Ok_0,
        data: j_str_field(fs, "data"@)->Ok_0,
        value: j_str_field(fs, "value"@)->Ok_0,
        gas: j_str_field(fs, "gas"@)->Ok_0,
        estimated_gas: j_str_field(fs, "estimatedGas"@)->Ok_0,
        gas_price: j_str_field(fs, "gasPrice"@)->Ok_0,
        protocol_fee: j_str_field(fs, "protocolFee"@)->Ok_0,
        minimum_protocol_fee: j_str_field(fs, "minimumProtocolFee"@)->Ok_0,
        buy_token_address: j_str_field(fs, "buyTokenAddress"@)->Ok_0,
        sell_token_address: j_str_field(fs, "sellTokenAddress"@)->Ok_0,
        buy_amount: j_str_field(fs, "buyAmount"@)->Ok_0,
        sell_amount: j_str_field(fs, "sellAmount"@)->Ok_0,
        sources: j_sources_field(fs, "sources"@)->Ok_0,
        orders: j_orders_field(fs, "orders"@)->Ok_0,
        allowance_target: j_str_field(fs, "allowanceTarget"@)->Ok_0,
        sell_token_to_eth_rate: j_str_field(fs, "sellTokenToEthRate"@)->Ok_0,
        buy_token_to_eth_rate: j_str_field(fs, "buyTokenToEthRate"@)->Ok_0,
        fees: j_fees_field(fs, "fees"@)->Ok_0,
        gross_price: j_str_field(fs, "grossPrice"@)->Ok_0,
        gross_buy_amount: j_str_field(fs, "grossBuyAmount"@)->Ok_0,
        gross_sell_amount: j_str_field(fs, "grossSellAmount"@)->Ok_0,
    }
}

/// What a whole document strictly decodes to: it must be an object, and
/// every known field must decode; unknown fields are ignored.
pub open spec fn spec_decode_quote(t: JsonValue) -> Result<ZeroXQuoteResponseView, ()> {
    match t {
        JsonValue::Obj(fs) => if quote_fields_err(fs@) {
            Err(())
        } else {
            Ok(quote_view_of(fs@))
        },
        _ => Err(()),
    }
}

/// Strictly decodes a parsed document into a quote: present fields are kept
/// exactly, absent or null fields decode to the unset state, and any field
/// of the wrong shape fails the whole decode.
#[verifier::rlimit(100)]
pub fn decode_quote_response(t: &JsonValue) -> (r: Result<ZeroXQuoteResponse, ()>)
    ensures
        match r {
            Ok(v) => spec_decode_quote(*t) == Ok::<ZeroXQuoteResponseView, ()>(v.deep_view()),
            Err(_) => spec_decode_quote(*t) is Err,
        },
{
    match t {
        JsonValue::Obj(fs) => {
            let chain_id = match get_i32_field(fs, &String::from_str("chainId")) {
                Ok(v) => v,
                Err(_) => {
                    return Err(());
                },
            };
            let price = match get_str_field(fs, &String::from_str("price")) {
                Ok(v) => v,
                Err(_) => {
                    return Err(());
                },
            };
            let guaranteed_price = match get_str_field(fs, &String::from_str("guaranteedPrice")) {
                Ok(v) => v,
                Err(_) => {
                    return Err(());
                },
            };
            let estimated_price_impact = match get_str_field(
                fs,
                &String::from_str("estimatedPriceImpact"),
            ) {
                Ok(v) => v,
                Err(_) => {
                    return Err(());
                },
            };
            let to = match get_str_field(fs, &String::from_str("to")) {
                Ok(v) => v,
                Err(_) => {
                    return Err(());
                },
            };
            let data = match get_str_field(fs, &String::from_str("data")) {
                Ok(v) => v,
                Err(_) => {
                    return Err(());
                },
            };
            let value = match get_str_field(fs, &String::from_str("value")) {
                Ok(v) => v,
                Err(_) => {
                    return Err(());
                },
            };
            let gas = match get_str_field(fs, &String::from_str("gas")) {
                Ok(v) => v,
                Err(_) => {
                    return Err(());
                },
            };
            let estimated_gas = match get_str_field(fs, &String::from_str("estimatedGas")) {
                Ok(v) => v,
                Err(_) => {
                    return Err(());
                },
            };
            let gas_price = match get_str_field(fs, &String::from_str("gasPrice")) {
                Ok(v) => v,
                Err(_) => {
                    return Err(());
                },
            };
            let protocol_fee = match get_str_field(fs, &String::from_str("protocolFee")) {
                Ok(v) => v,
                Err(_) => {
                    return Err(());
                },
            };
            let minimum_protocol_fee = match get_str_field(
                fs,
                &String::from_str("minimumProtocolFee"),
            ) {
                Ok(v) => v,
                Err(_) => {
                    return Err(());
                },
            };
            let buy_token_address = match get_str_field(fs, &String::from_str("buyTokenAddress")) {
                Ok(v) => v,
                Err(_) => {
                    return Err(());
                },
            };
            let sell_token_address = match get_str_field(
                fs,
                &String::from_str("sellTokenAddress"),
            ) {
                Ok(v) => v,
                Err(_) => {
                    return Err(());
                },
            };
            let buy_amount = match get_str_field(fs, &String::from_str("buyAmount")) {
                Ok(v) => v,
                Err(_) => {
                    return Err(());
                },
            };
            let sell_amount = match get_str_field(fs, &String::from_str("sellAmount")) {
                Ok(v) => v,
                Err(_) => {
                    return Err(());
                },
            };
            let sources = match get_sources_field(fs, &String::from_str("sources")) {
                Ok(v) => v,
                Err(_) => {
                    return Err(());
                },
            };
            let orders = match get_orders_field(fs, &String::from_str("orders")) {
                Ok(v) => v,
                Err(_) => {
                    return Err(());
                },
            };
            let allowance_target = match get_str_field(fs, &String::from_str("allowanceTarget")) {
                Ok(v) => v,
                Err(_) => {
                    return Err(());
                },
            };
            let sell_token_to_eth_rate = match get_str_field(
                fs,
                &String::from_str("sellTokenToEthRate"),
            ) {
                Ok(v) => v,
                Err(_) => {
                    return Err(());
                },
            };
            let buy_token_to_eth_rate = match get_str_field(
                fs,
                &String::from_str("buyTokenToEthRate"),
            ) {
                Ok(v) => v,
                Err(_) => {
                    return Err(());
                },
            };
            let fees = match get_fees_field(fs, &String::from_str("fees")) {
                Ok(v) => v,
                Err(_) => {
                    return Err(());
                },
            };
            let gross_price = match get_str_field(fs, &String::from_str("grossPrice")) {
                Ok(v) => v,
                Err(_) => {
                    return Err(());
                },
            };
            let gross_buy_amount = match get_str_field(fs, &String::from_str("grossBuyAmount")) {
                Ok(v) => v,
                Err(_) => {
                    return Err(());
                },
            };
            let gross_sell_amount = match get_str_field(fs, &String::from_str("grossSellAmount")) {
                Ok(v) => v,
                Err(_) => {
                    return Err(());
                },
            };
            Ok(
                ZeroXQuoteResponse {
                    chain_id,
                    price,
                    guaranteed_price,
                    estimated_price_impact,
                    to,
                    data,
                    value,
                    gas,
                    estimated_gas,
                    gas_price,
                    protocol_fee,
                    minimum_protocol_fee,
                    buy_token_address,
                    sell_token_address,
                    buy_amount,
                    sell_amount,
                    sources,
                    orders,
                    allowance_target,
                    sell_token_to_eth_rate,
                    buy_token_to_eth_rate,
                    fees,
                    gross_price,
                    gross_buy_amount,
                    gross_sell_amount,
                },
            )
        },
        _ => Err(()),
    }
}

} // verus!
