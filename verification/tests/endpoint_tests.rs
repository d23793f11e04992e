use oklink::{Oklink, ProtocolType, Request};

fn client() -> Oklink {
    Oklink::new("test_api_key".to_string())
}

fn check(request: Request, path: &str, query: &[(&str, &str)]) {
    assert_eq!(request.url, format!("https://www.oklink.com/{}", path));
    let headers: Vec<(String, String)> = vec![
        ("Content-Type".to_string(), "application/json".to_string()),
        ("Ok-Access-Key".to_string(), "test_api_key".to_string()),
    ];
    assert_eq!(request.headers, headers);
    let query: Vec<(String, String)> =
        query.iter().map(|(k, v)| (k.to_string(), v.to_string())).collect();
    assert_eq!(request.query, query);
}

#[test]
fn address_info_request() {
    let request = client().address_info("0xA1");
    check(
        request,
        "api/v5/explorer/address/address-summary",
        &[("chainShortName", "KLAYTN"), ("address", "0xA1")],
    );
}

#[test]
fn evm_address_info_request() {
    let request = client().evm_address_info("0xA1");
    check(
        request,
        "api/v5/explorer/address/information-evm",
        &[("chainShortName", "KLAYTN"), ("address", "0xA1")],
    );
}

#[test]
fn address_active_chain_request() {
    let request = client().address_active_chain("0xA1");
    check(
        request,
        "api/v5/explorer/address/address-active-chain",
        &[("chainShortName", "KLAYTN"), ("address", "0xA1")],
    );
}

#[test]
fn address_token_balance_request_with_every_argument() {
    let request = client().address_token_balance(
        "0xA1",
        ProtocolType::Token20,
        Some("0xC0"),
        Some("2"),
        Some("50"),
    );
    check(
        request,
        "api/v5/explorer/address/token-balance",
        &[
            ("chainShortName", "KLAYTN"),
            ("address", "0xA1"),
            ("protocolType", "token_20"),
            ("tokenContractAddress", "0xC0"),
            ("page", "2"),
            ("limit", "50"),
        ],
    );
}

#[test]
fn address_token_balance_request_with_no_optional_argument() {
    let request = client().address_token_balance("0xA1", ProtocolType::Token20, None, None, None);
    check(
        request,
        "api/v5/explorer/address/token-balance",
        &[("chainShortName", "KLAYTN"), ("address", "0xA1"), ("protocolType", "token_20")],
    );
}

#[test]
fn address_balance_details_request_with_every_argument() {
    let request = client().address_balance_details(
        "0xA1",
        "token_721",
        Some("0xC0"),
        Some("2"),
        Some("50"),
    );
    check(
        request,
        "api/v5/explorer/address/address-balance-fills",
        &[
            ("chainShortName", "KLAYTN"),
            ("address", "0xA1"),
            ("protocolType", "token_721"),
            ("tokenContractAddress", "0xC0"),
            ("page", "2"),
            ("limit", "50"),
        ],
    );
}

#[test]
fn address_balance_details_request_with_no_optional_argument() {
    let request = client().address_balance_details("0xA1", "token_721", None, None, None);
    check(
        request,
        "api/v5/explorer/address/address-balance-fills",
        &[("chainShortName", "KLAYTN"), ("address", "0xA1"), ("protocolType", "token_721")],
    );
}

#[test]
fn address_balance_history_request_with_every_argument() {
    let request = client().address_balance_history("0xA1", "1234", Some("0xC0"));
    check(
        request,
        "api/v5/explorer/block/address-balance-history",
        &[
            ("chainShortName", "KLAYTN"),
            ("address", "0xA1"),
            ("height", "1234"),
            ("tokenContractAddress", "0xC0"),
        ],
    );
}

#[test]
fn address_balance_history_request_with_no_optional_argument() {
    let request = client().address_balance_history("0xA1", "1234", None);
    check(
        request,
        "api/v5/explorer/block/address-balance-history",
        &[("chainShortName", "KLAYTN"), ("address", "0xA1"), ("height", "1234")],
    );
}

#[test]
fn address_transaction_list_request_with_every_argument() {
    let request = client().address_transaction_list(
        "0xA1",
        Some("token_721"),
        Some("KLAY"),
        Some("100"),
        Some("200"),
        Some("from"),
        Some("2"),
        Some("50"),
    );
    check(
        request,
        "api/v5/explorer/address/transaction-list",
        &[
            ("chainShortName", "KLAYTN"),
            ("address", "0xA1"),
            ("protocolType", "token_721"),
            ("symbol", "KLAY"),
            ("startBlockHeight", "100"),
            ("endBlockHeight", "200"),
            ("isFromOrTo", "from"),
            ("page", "2"),
            ("limit", "50"),
        ],
    );
}

#[test]
fn address_transaction_list_request_with_no_optional_argument() {
    let request = client().address_transaction_list(
        "0xA1",
        None,
        None,
        None,
        None,
        None,
        None,
        None,
    );
    check(
        request,
        "api/v5/explorer/address/transaction-list",
        &[("chainShortName", "KLAYTN"), ("address", "0xA1")],
    );
}

#[test]
fn address_normal_transaction_list_request_with_every_argument() {
    let request = client().address_normal_transaction_list(
        "0xA1",
        Some("100"),
        Some("200"),
        Some("from"),
        Some("2"),
        Some("50"),
    );
    check(
        request,
        "api/v5/explorer/address/normal-transaction-list",
        &[
            ("chainShortName", "KLAYTN"),
            ("address", "0xA1"),
            ("startBlockHeight", "100"),
            ("endBlockHeight", "200"),
            ("isFromOrTo", "from"),
            ("page", "2"),
            ("limit", "50"),
        ],
    );
}

#[test]
fn address_normal_transaction_list_request_with_no_optional_argument() {
    let request = client().address_normal_transaction_list("0xA1", None, None, None, None, None);
    check(
        request,
        "api/v5/explorer/address/normal-transaction-list",
        &[("chainShortName", "KLAYTN"), ("address", "0xA1")],
    );
}

#[test]
fn address_internal_transaction_list_request_with_every_argument() {
    let request = client().address_internal_transaction_list(
        "0xA1",
        Some("100"),
        Some("200"),
        Some("from"),
        Some("2"),
        Some("50"),
    );
    check(
        request,
        "api/v5/explorer/address/internal-transaction-list",
        &[
            ("chainShortName", "KLAYTN"),
            ("address", "0xA1"),
            ("startBlockHeight", "100"),
            ("endBlockHeight", "200"),
            ("isFromOrTo", "from"),
            ("page", "2"),
            ("limit", "50"),
        ],
    );
}

#[test]
fn address_internal_transaction_list_request_with_no_optional_argument() {
    let request = client().address_internal_transaction_list("0xA1", None, None, None, None, None);
    check(
        request,
        "api/v5/explorer/address/internal-transaction-list",
        &[("chainShortName", "KLAYTN"), ("address", "0xA1")],
    );
}

#[test]
fn address_token_transaction_list_request_with_every_argument() {
    let request = client().address_token_transaction_list(
        "0xA1",
        "token_721",
        Some("0xC0"),
        Some("2"),
        Some("50"),
    );
    check(
        request,
        "api/v5/explorer/address/token-transaction-list",
        &[
            ("chainShortName", "KLAYTN"),
            ("address", "0xA1"),
            ("protocolType", "token_721"),
            ("tokenContractAddress", "0xC0"),
            ("page", "2"),
            ("limit", "50"),
        ],
    );
}

#[test]
fn address_token_transaction_list_request_with_no_optional_argument() {
    let request = client().address_token_transaction_list("0xA1", "token_721", None, None, None);
    check(
        request,
        "api/v5/explorer/address/token-transaction-list",
        &[("chainShortName", "KLAYTN"), ("address", "0xA1"), ("protocolType", "token_721")],
    );
}

#[test]
fn address_entity_labels_request() {
    let request = client().address_entity_labels("0xA1");
    check(
        request,
        "api/v5/explorer/address/entity-labels",
        &[("chainShortName", "KLAYTN"), ("address", "0xA1")],
    );
}

#[test]
fn batch_address_balances_request() {
    let request = client().batch_address_balances(&["0x1", "0x2"]).unwrap();
    check(
        request,
        "api/v5/explorer/address/balance-multi",
        &[("chainShortName", "KLAYTN"), ("addresses", "0x1,0x2")],
    );
}

#[test]
fn batch_address_token_balances_request_with_every_argument() {
    let request = client().batch_address_token_balances(
        &["0x1", "0x2"],
        Some("token_721"),
        Some("2"),
        Some("50"),
    ).unwrap();
    check(
        request,
        "api/v5/explorer/address/token-balance-multi",
        &[
            ("chainShortName", "KLAYTN"),
            ("addresses", "0x1,0x2"),
            ("protocolType", "token_721"),
            ("page", "2"),
            ("limit", "50"),
        ],
    );
}

#[test]
fn batch_address_token_balances_request_with_no_optional_argument() {
    let request = client().batch_address_token_balances(&["0x1", "0x2"], None, None, None).unwrap();
    check(
        request,
        "api/v5/explorer/address/token-balance-multi",
        &[("chainShortName", "KLAYTN"), ("addresses", "0x1,0x2")],
    );
}

#[test]
fn batch_address_normal_transaction_list_request_with_every_argument() {
    let request = client().batch_address_normal_transaction_list(
        &["0x1", "0x2"],
        Some("100"),
        Some("200"),
        Some("from"),
        Some("2"),
        Some("50"),
    ).unwrap();
    check(
        request,
        "api/v5/explorer/address/normal-transaction-list-multi",
        &[
            ("chainShortName", "KLAYTN"),
            ("addresses", "0x1,0x2"),
            ("startBlockHeight", "100"),
            ("endBlockHeight", "200"),
            ("isFromOrTo", "from"),
            ("page", "2"),
            ("limit", "50"),
        ],
    );
}

#[test]
fn batch_address_normal_transaction_list_request_with_no_optional_argument() {
    let request = client().batch_address_normal_transaction_list(
        &["0x1", "0x2"],
        None,
        None,
        None,
        None,
        None,
    ).unwrap();
    check(
        request,
        "api/v5/explorer/address/normal-transaction-list-multi",
        &[("chainShortName", "KLAYTN"), ("addresses", "0x1,0x2")],
    );
}

#[test]
fn batch_address_internal_transaction_list_request_with_every_argument() {
    let request = client().batch_address_internal_transaction_list(
        &["0x1", "0x2"],
        Some("100"),
        Some("200"),
        Some("from"),
        Some("2"),
        Some("50"),
    ).unwrap();
    check(
        request,
        "api/v5/explorer/address/internal-transaction-list-multi",
        &[
            ("chainShortName", "KLAYTN"),
            ("addresses", "0x1,0x2"),
            ("startBlockHeight", "100"),
            ("endBlockHeight", "200"),
            ("isFromOrTo", "from"),
            ("page", "2"),
            ("limit", "50"),
        ],
    );
}

#[test]
fn batch_address_internal_transaction_list_request_with_no_optional_argument() {
    let request = client().batch_address_internal_transaction_list(
        &["0x1", "0x2"],
        None,
        None,
        None,
        None,
        None,
    ).unwrap();
    check(
        request,
        "api/v5/explorer/address/internal-transaction-list-multi",
        &[("chainShortName", "KLAYTN"), ("addresses", "0x1,0x2")],
    );
}

#[test]
fn batch_address_token_transaction_list_request_with_every_argument() {
    let request = client().batch_address_token_transaction_list(
        &["0x1", "0x2"],
        "100",
        "200",
        Some("2"),
        Some("50"),
        Some("token_721"),
        Some("0xC0"),
        Some("from"),
    ).unwrap();
    check(
        request,
        "api/v5/explorer/address/token-transaction-list-multi",
        &[
            ("chainShortName", "KLAYTN"),
            ("addresses", "0x1,0x2"),
            ("startBlockHeight", "100"),
            ("endBlockHeight", "200"),
            ("page", "2"),
            ("limit", "50"),
            ("protocolType", "token_721"),
            ("tokenContractAddress", "0xC0"),
            ("isFromOrTo", "from"),
        ],
    );
}

#[test]
fn batch_address_token_transaction_list_request_with_no_optional_argument() {
    let request = client().batch_address_token_transaction_list(
        &["0x1", "0x2"],
        "100",
        "200",
        None,
        None,
        None,
        None,
        None,
    ).unwrap();
    check(
        request,
        "api/v5/explorer/address/token-transaction-list-multi",
        &[
            ("chainShortName", "KLAYTN"),
            ("addresses", "0x1,0x2"),
            ("startBlockHeight", "100"),
            ("endBlockHeight", "200"),
        ],
    );
}

#[test]
fn rich_list_request_with_every_argument() {
    let request = client().rich_list(Some("0xA1"));
    check(
        request,
        "api/v5/explorer/address/rich-list",
        &[("chainShortName", "KLAYTN"), ("address", "0xA1")],
    );
}

#[test]
fn rich_list_request_with_no_optional_argument() {
    let request = client().rich_list(None);
    check(
        request,
        "api/v5/explorer/address/rich-list",
        &[("chainShortName", "KLAYTN")],
    );
}

#[test]
fn native_token_ranking_request_with_every_argument() {
    let request = client().native_token_ranking(Some("2"), Some("50"));
    check(
        request,
        "api/v5/explorer/address/native-token-position-list",
        &[("chainShortName", "KLAYTN"), ("page", "2"), ("limit", "50")],
    );
}

#[test]
fn native_token_ranking_request_with_no_optional_argument() {
    let request = client().native_token_ranking(None, None);
    check(
        request,
        "api/v5/explorer/address/native-token-position-list",
        &[("chainShortName", "KLAYTN")],
    );
}

#[test]
fn transaction_list_request_with_every_argument() {
    let request = client().transaction_list(Some("0xB10C"), Some("1234"), Some("2"), Some("50"));
    check(
        request,
        "api/v5/explorer/transaction/transaction-list",
        &[
            ("chainShortName", "KLAYTN"),
            ("blockHash", "0xB10C"),
            ("height", "1234"),
            ("page", "2"),
            ("limit", "50"),
        ],
    );
}

#[test]
fn transaction_list_request_with_no_optional_argument() {
    let request = client().transaction_list(None, None, None, None);
    check(
        request,
        "api/v5/explorer/transaction/transaction-list",
        &[("chainShortName", "KLAYTN")],
    );
}

#[test]
fn large_transaction_list_request_with_every_argument() {
    let request = client().large_transaction_list(
        Some("large"),
        Some("1234"),
        Some("2"),
        Some("50"),
    );
    check(
        request,
        "api/v5/explorer/transaction/large-transaction-list",
        &[
            ("chainShortName", "KLAYTN"),
            ("type", "large"),
            ("height", "1234"),
            ("page", "2"),
            ("limit", "50"),
        ],
    );
}

#[test]
fn large_transaction_list_request_with_no_optional_argument() {
    let request = client().large_transaction_list(None, None, None, None);
    check(
        request,
        "api/v5/explorer/transaction/large-transaction-list",
        &[("chainShortName", "KLAYTN")],
    );
}

#[test]
fn unconfirmed_transaction_list_request_with_every_argument() {
    let request = client().unconfirmed_transaction_list(Some("2"), Some("50"));
    check(
        request,
        "api/v5/explorer/transaction/unconfirmed-transaction-list",
        &[("chainShortName", "KLAYTN"), ("page", "2"), ("limit", "50")],
    );
}

#[test]
fn unconfirmed_transaction_list_request_with_no_optional_argument() {
    let request = client().unconfirmed_transaction_list(None, None);
    check(
        request,
        "api/v5/explorer/transaction/unconfirmed-transaction-list",
        &[("chainShortName", "KLAYTN")],
    );
}

#[test]
fn internal_transaction_details_request_with_every_argument() {
    let request = client().internal_transaction_details("0x7X", Some("2"), Some("50"));
    check(
        request,
        "api/v5/explorer/transaction/internal-transaction-detail",
        &[("chainShortName", "KLAYTN"), ("txId", "0x7X"), ("page", "2"), ("limit", "50")],
    );
}

#[test]
fn internal_transaction_details_request_with_no_optional_argument() {
    let request = client().internal_transaction_details("0x7X", None, None);
    check(
        request,
        "api/v5/explorer/transaction/internal-transaction-detail",
        &[("chainShortName", "KLAYTN"), ("txId", "0x7X")],
    );
}

#[test]
fn token_transaction_details_request_with_every_argument() {
    let request = client().token_transaction_details("0x7X", "token_721", Some("2"), Some("50"));
    check(
        request,
        "api/v5/explorer/transaction/token-transaction-detail",
        &[
            ("chainShortName", "KLAYTN"),
            ("txId", "0x7X"),
            ("protocolType", "token_721"),
            ("page", "2"),
            ("limit", "50"),
        ],
    );
}

#[test]
fn token_transaction_details_request_with_no_optional_argument() {
    let request = client().token_transaction_details("0x7X", "token_721", None, None);
    check(
        request,
        "api/v5/explorer/transaction/token-transaction-detail",
        &[("chainShortName", "KLAYTN"), ("txId", "0x7X"), ("protocolType", "token_721")],
    );
}

#[test]
fn transaction_details_request() {
    let request = client().transaction_details("0x7X");
    check(
        request,
        "api/v5/explorer/transaction/transaction-fills",
        &[("chainShortName", "KLAYTN"), ("txId", "0x7X")],
    );
}

#[test]
fn batch_transaction_details_request() {
    let request = client().batch_transaction_details(&["0x1", "0x2"]).unwrap();
    check(
        request,
        "api/v5/explorer/transaction/transaction-multi",
        &[("chainShortName", "KLAYTN"), ("txIds", "0x1,0x2")],
    );
}

#[test]
fn batch_internal_transaction_details_request() {
    let request = client().batch_internal_transaction_details(&["0x1", "0x2"]).unwrap();
    check(
        request,
        "api/v5/explorer/transaction/internal-transaction-multi",
        &[("chainShortName", "KLAYTN"), ("txIds", "0x1,0x2")],
    );
}

#[test]
fn batch_token_transaction_details_request_with_every_argument() {
    let request = client().batch_token_transaction_details(
        &["0x1", "0x2"],
        Some("token_721"),
        Some("2"),
        Some("50"),
    ).unwrap();
    check(
        request,
        "api/v5/explorer/transaction/token-transfer-multi",
        &[
            ("chainShortName", "KLAYTN"),
            ("txIds", "0x1,0x2"),
            ("protocolType", "token_721"),
            ("page", "2"),
            ("limit", "50"),
        ],
    );
}

#[test]
fn batch_token_transaction_details_request_with_no_optional_argument() {
    let request = client().batch_token_transaction_details(
        &["0x1", "0x2"],
        None,
        None,
        None,
    ).unwrap();
    check(
        request,
        "api/v5/explorer/transaction/token-transfer-multi",
        &[("chainShortName", "KLAYTN"), ("txIds", "0x1,0x2")],
    );
}

#[test]
fn token_list_request_with_every_argument() {
    let request = client().token_list(
        Some("token_721"),
        Some("0xC0"),
        Some("1600000000000"),
        Some("1700000000000"),
        Some("totalMarketCap"),
        Some("2"),
        Some("50"),
    );
    check(
        request,
        "api/v5/explorer/token/token-list",
        &[
            ("chainShortName", "KLAYTN"),
            ("protocolType", "token_721"),
            ("tokenContractAddress", "0xC0"),
            ("startTime", "1600000000000"),
            ("endTime", "1700000000000"),
            ("orderBy", "totalMarketCap"),
            ("page", "2"),
            ("limit", "50"),
        ],
    );
}

#[test]
fn token_list_request_with_no_optional_argument() {
    let request = client().token_list(None, None, None, None, None, None, None);
    check(
        request,
        "api/v5/explorer/token/token-list",
        &[("chainShortName", "KLAYTN")],
    );
}

#[test]
fn token_position_list_request_with_every_argument() {
    let request = client().token_position_list("0xC0", Some("0xH0"), Some("2"), Some("50"));
    check(
        request,
        "api/v5/explorer/token/position-list",
        &[
            ("chainShortName", "KLAYTN"),
            ("tokenContractAddress", "0xC0"),
            ("holderAddress", "0xH0"),
            ("page", "2"),
            ("limit", "50"),
        ],
    );
}

#[test]
fn token_position_list_request_with_no_optional_argument() {
    let request = client().token_position_list("0xC0", None, None, None);
    check(
        request,
        "api/v5/explorer/token/position-list",
        &[("chainShortName", "KLAYTN"), ("tokenContractAddress", "0xC0")],
    );
}

#[test]
fn token_position_statistics_request_with_every_argument() {
    let request = client().token_position_statistics("0xC0", Some("0xH0"), Some("2"), Some("50"));
    check(
        request,
        "api/v5/explorer/token/position-statistics",
        &[
            ("chainShortName", "KLAYTN"),
            ("tokenContractAddress", "0xC0"),
            ("holderAddress", "0xH0"),
            ("page", "2"),
            ("limit", "50"),
        ],
    );
}

#[test]
fn token_position_statistics_request_with_no_optional_argument() {
    let request = client().token_position_statistics("0xC0", None, None, None);
    check(
        request,
        "api/v5/explorer/token/position-statistics",
        &[("chainShortName", "KLAYTN"), ("tokenContractAddress", "0xC0")],
    );
}

#[test]
fn token_transfer_details_request_with_every_argument() {
    let request = client().token_transfer_details(
        "0xC0",
        Some("900"),
        Some("10"),
        Some("2"),
        Some("50"),
    );
    check(
        request,
        "api/v5/explorer/token/transaction-list",
        &[
            ("chainShortName", "KLAYTN"),
            ("tokenContractAddress", "0xC0"),
            ("maxAmount", "900"),
            ("minAmount", "10"),
            ("page", "2"),
            ("limit", "50"),
        ],
    );
}

#[test]
fn token_transfer_details_request_with_no_optional_argument() {
    let request = client().token_transfer_details("0xC0", None, None, None, None);
    check(
        request,
        "api/v5/explorer/token/transaction-list",
        &[("chainShortName", "KLAYTN"), ("tokenContractAddress", "0xC0")],
    );
}

#[test]
fn batch_token_transaction_request_with_every_argument() {
    let request = client().batch_token_transaction("0xC0", "100", "200", Some("2"), Some("50"));
    check(
        request,
        "api/v5/explorer/token/token-transaction-list-multi",
        &[
            ("chainShortName", "KLAYTN"),
            ("tokenContractAddress", "0xC0"),
            ("startBlockHeight", "100"),
            ("endBlockHeight", "200"),
            ("page", "2"),
            ("limit", "50"),
        ],
    );
}

#[test]
fn batch_token_transaction_request_with_no_optional_argument() {
    let request = client().batch_token_transaction("0xC0", "100", "200", None, None);
    check(
        request,
        "api/v5/explorer/token/token-transaction-list-multi",
        &[
            ("chainShortName", "KLAYTN"),
            ("tokenContractAddress", "0xC0"),
            ("startBlockHeight", "100"),
            ("endBlockHeight", "200"),
        ],
    );
}

#[test]
fn token_supply_history_request() {
    let request = client().token_supply_history("0xC0", "1234");
    check(
        request,
        "api/v5/explorer/token/supply-history",
        &[("chainShortName", "KLAYTN"), ("tokenContractAddress", "0xC0"), ("height", "1234")],
    );
}

#[test]
fn token_transaction_statistics_request_with_every_argument() {
    let request = client().token_transaction_statistics(
        "0xC0",
        Some("totalMarketCap"),
        Some("2"),
        Some("50"),
    );
    check(
        request,
        "api/v5/explorer/token/transaction-stats",
        &[
            ("chainShortName", "KLAYTN"),
            ("tokenContractAddress", "0xC0"),
            ("orderBy", "totalMarketCap"),
            ("page", "2"),
            ("limit", "50"),
        ],
    );
}

#[test]
fn token_transaction_statistics_request_with_no_optional_argument() {
    let request = client().token_transaction_statistics("0xC0", None, None, None);
    check(
        request,
        "api/v5/explorer/token/transaction-stats",
        &[("chainShortName", "KLAYTN"), ("tokenContractAddress", "0xC0")],
    );
}
