use vstd::prelude::*;
use vstd::string::StringExecFns;

verus! {

/// The caller-supplied description of the quote being asked for. The three
/// leading fields are required; every other field is passed through to the
/// service only when it is set.
pub struct ZeroXQuoteParams {
    pub sell_token: String,
    pub buy_token: String,
    pub sell_amount: String,
    pub fee_recipient: Option<String>,
    pub buy_token_percentage_fee: Option<String>,
    pub taker_address: Option<String>,
    pub slippage_percentage: Option<String>,
    pub excluded_sources: Option<Vec<String>>,
    pub included_sources: Option<Vec<String>>,
    pub skip_validation: Option<String>,
}

impl Default for ZeroXQuoteParams {
    /// Empty required fields and no optional field set.
    fn default() -> (r: ZeroXQuoteParams)
        ensures
            r.sell_token@ == Seq::<char>::empty(),
            r.buy_token@ == Seq::<char>::empty(),
            r.sell_amount@ == Seq::<char>::empty(),
            r.fee_recipient is None,
            r.buy_token_percentage_fee is None,
            r.taker_address is None,
            r.slippage_percentage is None,
            r.excluded_sources is None,
            r.included_sources is None,
            r.skip_validation is None,
    {
        ZeroXQuoteParams {
            sell_token: String::new(),
            buy_token: String::new(),
            sell_amount: String::new(),
            fee_recipient: None,
            buy_token_percentage_fee: None,
            taker_address: None,
            slippage_percentage: None,
            excluded_sources: None,
            included_sources: None,
            skip_validation: None,
        }
    }
}

/// The given pieces joined into one sequence with a comma between each two
/// neighbours, keeping their order; no escaping is applied.
pub open spec fn spec_join_comma(items: Seq<Seq<char>>) -> Seq<char>
    decreases items.len(),
{
    if items.len() == 0 {
        Seq::empty()
    } else if items.len() == 1 {
        items[0]
    } else {
        spec_join_comma(items.drop_last()) + seq![','] + items.last()
    }
}

fn join_comma(items: &Vec<String>) -> (r: String)
    ensures
        r@ == spec_join_comma(items.deep_view()),
{
    proof {
        reveal_strlit(",");
    }
    let mut r = String::new();
    if items.len() == 0 {
        assert(items.deep_view() =~= Seq::<Seq<char>>::empty());
        return r;
    }
    r.append(items[0].as_str());
    assert(r@ == spec_join_comma(items.deep_view().take(1)));
    let mut i: usize = 1;
    while i < items.len()
        invariant
            1 <= i <= items.len(),
            items.deep_view().len() == items.len(),
            r@ == spec_join_comma(items.deep_view().take(i as int)),
        decreases items.len() - i,
    {
        r.append(",");
        r.append(items[i].as_str());
        proof {
            reveal_strlit(",");
            let dv = items.deep_view();
            assert(","@ =~= seq![',']);
            assert(dv.take(i + 1).drop_last() =~= dv.take(i as int));
            assert(dv.take(i + 1).last() == dv[i as int]);
        }
        i = i + 1;
    }
    proof {
        assert(items.deep_view().take(items.len() as int) =~= items.deep_view());
    }
    r
}

/// The query pairs contributed by one optional scalar parameter: one pair
/// when it is set, none when it is absent.
pub open spec fn opt_pair(k: Seq<char>, v: Option<String>) -> Seq<(Seq<char>, Seq<char>)> {
    match v {
        Some(s) => seq![(k, s@)],
        None => Seq::empty(),
    }
}

/// The query pairs contributed by one optional list parameter: one pair
/// holding the comma-joined items when it is set, none when it is absent.
pub open spec fn opt_list_pair(k: Seq<char>, v: Option<Vec<String>>) -> Seq<
    (Seq<char>, Seq<char>),
> {
    match v {
        Some(items) => seq![(k, spec_join_comma(items.deep_view()))],
        None => Seq::empty(),
    }
}

/// The full encoded query for a request: the three required parameters under
/// their service-side names, then each optional parameter that is set, in a
/// fixed order, with list parameters comma-joined.
pub open spec fn spec_encode(p: ZeroXQuoteParams) -> Seq<(Seq<char>, Seq<char>)> {
    seq![
        ("sellToken"@, p.sell_token@),
        ("buyToken"@, p.buy_token@),
        ("sellAmount"@, p.sell_amount@),
    ] + opt_pair("takerAddress"@, p.taker_address) + opt_pair("feeRecipient"@, p.fee_recipient)
        + opt_pair("buyTokenPercentageFee"@, p.buy_token_percentage_fee) + opt_pair(
        "slippagePercentage"@,
        p.slippage_percentage,
    ) + opt_list_pair("excludedSources"@, p.excluded_sources) + opt_list_pair(
        "includedSources"@,
        p.included_sources,
    ) + opt_pair("skipValidation"@, p.skip_validation)
}

/// Encodes a request as the flat list of query pairs that is sent to the
/// service: exactly `spec_encode`, with absent optional fields omitted.
#[verifier::rlimit(100)]
pub fn encode_query(p: &ZeroXQuoteParams) -> (r: Vec<(String, String)>)
    ensures
        r.deep_view() == spec_encode(*p),
{
    let mut r: Vec<(String, String)> = Vec::new();
    r.push((String::from_str("sellToken"), p.sell_token.clone()));
    r.push((String::from_str("buyToken"), p.buy_token.clone()));
    r.push((String::from_str("sellAmount"), p.sell_amount.clone()));
    if let Some(taker_address) = &p.taker_address {
        r.push((String::from_str("takerAddress"), taker_address.clone()));
    }
    if let Some(fee_recipient) = &p.fee_recipient {
        r.push((String::from_str("feeRecipient"), fee_recipient.clone()));
    }
    if let Some(fee) = &p.buy_token_percentage_fee {
        r.push((String::from_str("buyTokenPercentageFee"), fee.clone()));
    }
    if let Some(slippage) = &p.slippage_percentage {
        r.push((String::from_str("slippagePercentage"), slippage.clone()));
    }
    if let Some(excluded) = &p.excluded_sources {
        r.push((String::from_str("excludedSources"), join_comma(excluded)));
    }
    if let Some(included) = &p.included_sources {
        r.push((String::from_str("includedSources"), join_comma(included)));
    }
    if let Some(skip) = &p.skip_validation {
        r.push((String::from_str("skipValidation"), skip.clone()));
    }
    proof {
        assert(r.deep_view() =~~= spec_encode(*p));
    }
    r
}

/// A request with no optional field set encodes to exactly the three
/// required query pairs, under the service-side parameter names.
pub proof fn lemma_encode_required_only(p: ZeroXQuoteParams)
    requires
        p.taker_address is None,
        p.fee_recipient is None,
        p.buy_token_percentage_fee is None,
        p.slippage_percentage is None,
        p.excluded_sources is None,
        p.included_sources is None,
        p.skip_validation is None,
    ensures
        spec_encode(p) == seq![
            ("sellToken"@, p.sell_token@),
            ("buyToken"@, p.buy_token@),
            ("sellAmount"@, p.sell_amount@),
        ],
{
    assert(spec_encode(p) =~= seq![
        ("sellToken"@, p.sell_token@),
        ("buyToken"@, p.buy_token@),
        ("sellAmount"@, p.sell_amount@),
    ]);
}

/// Whenever the excluded-sources list is set, the encoded query carries the
/// `excludedSources` pair, whose value is the comma-join of the given names
/// in their given order.
pub proof fn lemma_encode_excluded_sources(p: ZeroXQuoteParams, xs: Vec<String>)
    requires
        p.excluded_sources == Some(xs),
    ensures
        spec_encode(p).contains(("excludedSources"@, spec_join_comma(xs.deep_view()))),
{
    let pair = ("excludedSources"@, spec_join_comma(xs.deep_view()));
    let base: nat = 3 + opt_pair("takerAddress"@, p.taker_address).len() + opt_pair(
        "feeRecipient"@,
        p.fee_recipient,
    ).len() + opt_pair("buyTokenPercentageFee"@, p.buy_token_percentage_fee).len() + opt_pair(
        "slippagePercentage"@,
        p.slippage_percentage,
    ).len();
    assert(spec_encode(p)[base as int] == pair);
}

} // verus!
