use cosm_bank::amount::Coin;
use cosm_bank::bank::Bank;
use cosm_bank::model::{BankParams, DenomMetadata, DenomUnit, SendEnabled};
use cosm_bank::error::{BankError, ChainError, ErrorKind, TransportError};
use cosm_bank::pagination::PaginationRequest;
use cosmos_sdk_proto::cosmos::bank::v1beta1::{
    QueryAllBalancesRequest, QueryAllBalancesResponse, QueryBalanceRequest, QueryBalanceResponse,
    DenomUnit as ProtoDenomUnit, Metadata, Params, QueryDenomMetadataResponse,
    QueryDenomsMetadataResponse, QueryParamsResponse, QuerySupplyOfResponse, SendEnabled as ProtoSendEnabled,
};
use cosmos_sdk_proto::cosmos::base::query::v1beta1::PageResponse;
use cosmos_sdk_proto::cosmos::base::v1beta1::Coin as ProtoCoin;
use cosmos_sdk_proto::prost::Message;

fn proto_coin(denom: &str, amount: &str) -> ProtoCoin {
    ProtoCoin { denom: denom.to_string(), amount: amount.to_string() }
}

fn transport_failure() -> Result<Vec<u8>, TransportError> {
    Err(TransportError { message: "connection refused".to_string() })
}

#[test]
fn balance_request_marshals_address_and_denom() {
    let q = Bank {}.balance_request("cosmos1abc", "utoken");
    assert_eq!(q.path, "/cosmos.bank.v1beta1.Query/Balance");
    let req = QueryBalanceRequest::decode(q.body.as_slice()).unwrap();
    assert_eq!(req.address, "cosmos1abc");
    assert_eq!(req.denom, "utoken");
}

#[test]
fn balance_response_reads_coin() {
    let bytes = QueryBalanceResponse { balance: Some(proto_coin("utoken", "100")) }.encode_to_vec();
    let r = Bank {}.balance_response("utoken", Ok(bytes)).unwrap();
    assert_eq!(r.balance, Coin { denom: "utoken".to_string(), amount: 100 });
}

#[test]
fn balance_response_missing_coin_is_zero() {
    let bytes = QueryBalanceResponse { balance: None }.encode_to_vec();
    let r = Bank {}.balance_response("ufoo", Ok(bytes)).unwrap();
    assert_eq!(r.balance, Coin { denom: "ufoo".to_string(), amount: 0 });
}

#[test]
fn balance_response_transport_failure() {
    let e = Bank {}.balance_response("utoken", transport_failure()).unwrap_err();
    assert_eq!(
        e,
        BankError::Chain(ChainError::Transport(TransportError {
            message: "connection refused".to_string()
        }))
    );
    assert_eq!(e.kind(), ErrorKind::Transport);
    assert!(e.kind().is_retryable());
}

#[test]
fn balance_response_undecodable_bytes() {
    let e = Bank {}.balance_response("utoken", Ok(vec![0xff, 0xff, 0xff])).unwrap_err();
    assert_eq!(e, BankError::Chain(ChainError::Decode));
    assert_eq!(e.kind(), ErrorKind::Decode);
    assert!(!e.kind().is_retryable());
}

#[test]
fn balance_response_malformed_amount() {
    let bytes = QueryBalanceResponse { balance: Some(proto_coin("utoken", "12x")) }.encode_to_vec();
    let e = Bank {}.balance_response("utoken", Ok(bytes)).unwrap_err();
    assert_eq!(e, BankError::Chain(ChainError::MalformedAmount));
}

#[test]
fn balances_request_carries_pagination() {
    let page = Some(PaginationRequest {
        key: Some(vec![4, 2]),
        offset: None,
        limit: 10,
        count_total: true,
        reverse: false,
    });
    let q = Bank {}.balances_request("cosmos1abc", &page);
    assert_eq!(q.path, "/cosmos.bank.v1beta1.Query/AllBalances");
    let req = QueryAllBalancesRequest::decode(q.body.as_slice()).unwrap();
    assert_eq!(req.address, "cosmos1abc");
    let p = req.pagination.unwrap();
    assert_eq!(p.key, vec![4, 2]);
    assert_eq!(p.limit, 10);
    assert!(p.count_total);
}

#[test]
fn balances_response_reads_page() {
    let bytes = QueryAllBalancesResponse {
        balances: vec![proto_coin("uatom", "5"), proto_coin("utoken", "100")],
        pagination: Some(PageResponse { next_key: vec![1], total: 2 }),
    }
    .encode_to_vec();
    let page = Some(PaginationRequest { key: None, offset: None, limit: 2, count_total: true, reverse: false });
    let r = Bank {}.balances_response(&page, Ok(bytes)).unwrap();
    assert_eq!(r.balances.len(), 2);
    assert_eq!(r.balances[1], Coin { denom: "utoken".to_string(), amount: 100 });
    let next = r.next.unwrap();
    assert_eq!(next.next_key, Some(vec![1]));
    assert_eq!(next.total, Some(2));
}

#[test]
fn balances_response_last_page_has_no_key() {
    let bytes = QueryAllBalancesResponse {
        balances: vec![],
        pagination: Some(PageResponse { next_key: vec![], total: 0 }),
    }
    .encode_to_vec();
    let r = Bank {}.spendable_balances_response(&None, Ok(bytes)).unwrap();
    assert!(r.balances.is_empty());
    let next = r.next.unwrap();
    assert_eq!(next.next_key, None);
    assert_eq!(next.total, None);
}

#[test]
fn total_supply_response_rejects_bad_amount() {
    let bytes = QueryAllBalancesResponse { balances: vec![proto_coin("utoken", "")], pagination: None }
        .encode_to_vec();
    let e = Bank {}.total_supply_response(&None, Ok(bytes)).unwrap_err();
    assert_eq!(e, BankError::Chain(ChainError::MalformedAmount));
}

#[test]
fn supply_response_reads_amount() {
    let bytes = QuerySupplyOfResponse { amount: Some(proto_coin("utoken", "123456789")) }.encode_to_vec();
    let r = Bank {}.supply_response("utoken", Ok(bytes)).unwrap();
    assert_eq!(r.balance.amount, 123456789);
    assert_eq!(Bank {}.supply_request("utoken").path, "/cosmos.bank.v1beta1.Query/SupplyOf");
}

fn proto_metadata(base: &str) -> Metadata {
    Metadata {
        description: "a token".to_string(),
        denom_units: vec![
            ProtoDenomUnit { denom: base.to_string(), exponent: 0, aliases: vec!["micro".to_string()] },
            ProtoDenomUnit { denom: "token".to_string(), exponent: 6, aliases: vec![] },
        ],
        base: base.to_string(),
        display: "token".to_string(),
        name: "Token".to_string(),
        symbol: "TOK".to_string(),
        uri: String::new(),
        uri_hash: String::new(),
    }
}

fn metadata(base: &str) -> DenomMetadata {
    DenomMetadata {
        description: "a token".to_string(),
        denom_units: vec![
            DenomUnit { denom: base.to_string(), exponent: 0, aliases: vec!["micro".to_string()] },
            DenomUnit { denom: "token".to_string(), exponent: 6, aliases: vec![] },
        ],
        base: base.to_string(),
        display: "token".to_string(),
        name: "Token".to_string(),
        symbol: "TOK".to_string(),
        uri: String::new(),
        uri_hash: String::new(),
    }
}

#[test]
fn denom_metadata_response_carries_metadata() {
    let bytes = QueryDenomMetadataResponse { metadata: Some(proto_metadata("utoken")) }.encode_to_vec();
    let r = Bank {}.denom_metadata_response(Ok(bytes)).unwrap();
    assert_eq!(r.meta, Some(metadata("utoken")));
    let bytes = QueryDenomMetadataResponse { metadata: None }.encode_to_vec();
    assert_eq!(Bank {}.denom_metadata_response(Ok(bytes)).unwrap().meta, None);
    let e = Bank {}.denom_metadata_response(transport_failure()).unwrap_err();
    assert_eq!(e.kind(), ErrorKind::Transport);
}

#[test]
fn denoms_metadata_response_keeps_order() {
    let bytes = QueryDenomsMetadataResponse {
        metadatas: vec![proto_metadata("ua"), proto_metadata("ub")],
        pagination: Some(PageResponse { next_key: vec![5], total: 9 }),
    }
    .encode_to_vec();
    let r = Bank {}.denoms_metadata_response(&None, Ok(bytes)).unwrap();
    assert_eq!(r.metas, vec![metadata("ua"), metadata("ub")]);
    let next = r.next.unwrap();
    assert_eq!(next.next_key, Some(vec![5]));
    assert_eq!(next.total, None);
}

#[test]
fn params_request_and_response() {
    let q = Bank {}.params_request();
    assert_eq!(q.path, "/cosmos.bank.v1beta1.Query/Params");
    assert!(q.body.is_empty());
    let params = Params {
        send_enabled: vec![ProtoSendEnabled { denom: "utoken".to_string(), enabled: false }],
        default_send_enabled: true,
    };
    let bytes = QueryParamsResponse { params: Some(params) }.encode_to_vec();
    let expected = BankParams {
        send_enabled: vec![SendEnabled { denom: "utoken".to_string(), enabled: false }],
        default_send_enabled: true,
    };
    assert_eq!(Bank {}.params_response(Ok(bytes)).unwrap().params, Some(expected));
    let e = Bank {}.params_response(Ok(vec![0x0a, 0x05])).unwrap_err();
    assert_eq!(e, BankError::Chain(ChainError::Decode));
}
