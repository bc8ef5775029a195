use std::cell::{Cell, RefCell};

use cosm_bank::amount::Coin;
use cosm_bank::bank::Bank;
use cosm_bank::client::{ChainClient, ChainConfig};
use cosm_bank::error::{BankError, ChainError, ErrorKind, TransportError};
use cosm_bank::tx::{BroadcastReceipt, TxOptions};
use cosmos_sdk_proto::cosmos::auth::v1beta1::{BaseAccount, QueryAccountResponse};
use cosmos_sdk_proto::cosmos::bank::v1beta1::{MsgSend, QueryBalanceResponse};
use cosmos_sdk_proto::cosmos::base::v1beta1::Coin as ProtoCoin;
use cosmos_sdk_proto::cosmos::tx::v1beta1::{AuthInfo, TxBody, TxRaw};
use cosmos_sdk_proto::prost::Message;
use cosmos_sdk_proto::Any;
use cosmrs::crypto::secp256k1::SigningKey;
use cosmrs::AccountId;

/// Answers every query with `reply` and every broadcast with `code`.
struct FakeClient {
    reply: Result<Vec<u8>, TransportError>,
    code: u32,
    queries: Cell<usize>,
    broadcasts: Cell<usize>,
    sent: RefCell<Vec<u8>>,
}

impl FakeClient {
    fn new(reply: Result<Vec<u8>, TransportError>, code: u32) -> FakeClient {
        FakeClient { reply, code, queries: Cell::new(0), broadcasts: Cell::new(0), sent: RefCell::new(vec![]) }
    }
}

impl ChainClient for FakeClient {
    fn query(&self, _path: &str, _body: &[u8]) -> Result<Vec<u8>, TransportError> {
        self.queries.set(self.queries.get() + 1);
        self.reply.clone()
    }

    fn broadcast(&self, tx: &[u8]) -> Result<BroadcastReceipt, TransportError> {
        self.broadcasts.set(self.broadcasts.get() + 1);
        *self.sent.borrow_mut() = tx.to_vec();
        let log = if self.code == 0 { String::new() } else { "insufficient funds".to_string() };
        Ok(BroadcastReceipt { txhash: "F00D".to_string(), code: self.code, log })
    }
}

fn address(byte: u8) -> String {
    AccountId::new("cosmos", &[byte; 20]).unwrap().to_string()
}

fn key() -> SigningKey {
    SigningKey::from_slice(&[3u8; 32]).unwrap()
}

fn cfg() -> ChainConfig {
    ChainConfig { chain_id: "test-1".to_string(), prefix: "cosmos".to_string() }
}

fn account_reply(number: u64, sequence: u64) -> Vec<u8> {
    let acc = BaseAccount { address: address(1), pub_key: None, account_number: number, sequence };
    let any = Any { type_url: "/cosmos.auth.v1beta1.BaseAccount".to_string(), value: acc.encode_to_vec() };
    QueryAccountResponse { account: Some(any) }.encode_to_vec()
}

fn utoken(amount: u128) -> Coin {
    Coin { denom: "utoken".to_string(), amount }
}

#[test]
fn zero_amount_makes_no_client_call() {
    let client = FakeClient::new(Ok(account_reply(7, 3)), 0);
    let r = Bank {}.bank_send(&client, &cfg(), &address(1), &address(2), vec![utoken(0)], &key(), &TxOptions::standard());
    assert_eq!(r.unwrap_err(), BankError::EmptyAmount);
    assert_eq!(client.queries.get(), 0);
    assert_eq!(client.broadcasts.get(), 0);
}

#[test]
fn send_accepted_with_code_zero() {
    let client = FakeClient::new(Ok(account_reply(7, 3)), 0);
    let r = Bank {}
        .bank_send(&client, &cfg(), &address(1), &address(2), vec![utoken(100)], &key(), &TxOptions::standard())
        .unwrap();
    assert_eq!(r.res.code, 0);
    assert_eq!(r.account.sequence, 3);
    assert_eq!(r.account.account_number, 7);
    assert_eq!(r.tx.bytes, *client.sent.borrow());
    assert_eq!(r.res.txhash, "F00D");
    assert_eq!(client.queries.get(), 1);
    assert_eq!(client.broadcasts.get(), 1);
    let raw = TxRaw::decode(client.sent.borrow().as_slice()).unwrap();
    assert_eq!(raw.signatures.len(), 1);
    let body = TxBody::decode(raw.body_bytes.as_slice()).unwrap();
    assert_eq!(body.messages.len(), 1);
    assert_eq!(body.messages[0].type_url, "/cosmos.bank.v1beta1.MsgSend");
    let msg = MsgSend::decode(body.messages[0].value.as_slice()).unwrap();
    assert_eq!(msg.amount, vec![ProtoCoin { denom: "utoken".to_string(), amount: "100".to_string() }]);
    let auth = AuthInfo::decode(raw.auth_info_bytes.as_slice()).unwrap();
    assert_eq!(auth.signer_infos[0].sequence, 3);
}

#[test]
fn send_rejected_with_code_five() {
    let client = FakeClient::new(Ok(account_reply(7, 3)), 5);
    let e = Bank {}
        .bank_send(&client, &cfg(), &address(1), &address(2), vec![utoken(100)], &key(), &TxOptions::standard())
        .unwrap_err();
    assert_eq!(
        e,
        BankError::Chain(ChainError::ChainRejected { code: 5, log: "insufficient funds".to_string() })
    );
    assert_eq!(e.kind(), ErrorKind::ChainRejected);
}

#[test]
fn send_stops_on_account_transport_failure() {
    let client = FakeClient::new(Err(TransportError { message: "unreachable".to_string() }), 0);
    let e = Bank {}
        .bank_send(&client, &cfg(), &address(1), &address(2), vec![utoken(100)], &key(), &TxOptions::standard())
        .unwrap_err();
    assert_eq!(e.kind(), ErrorKind::Transport);
    assert_eq!(client.broadcasts.get(), 0);
}

#[test]
fn query_transport_failure_is_transport_error() {
    let client = FakeClient::new(Err(TransportError { message: "reset".to_string() }), 0);
    let e = Bank {}.bank_query_balance(&client, &address(1), "utoken").unwrap_err();
    assert_eq!(e, BankError::Chain(ChainError::Transport(TransportError { message: "reset".to_string() })));
    let e = Bank {}.bank_query_params(&client).unwrap_err();
    assert_eq!(e.kind(), ErrorKind::Transport);
}

#[test]
fn query_bad_bytes_is_decode_error() {
    let client = FakeClient::new(Ok(vec![0x0a, 0x09, 0x01]), 0);
    let e = Bank {}.bank_query_balances(&client, &address(1), None).unwrap_err();
    assert_eq!(e, BankError::Chain(ChainError::Decode));
    let e = Bank {}.bank_query_denoms_metadata(&client, None).unwrap_err();
    assert_eq!(e, BankError::Chain(ChainError::Decode));
}

#[test]
fn query_balance_through_client() {
    let bytes = QueryBalanceResponse {
        balance: Some(ProtoCoin { denom: "utoken".to_string(), amount: "42".to_string() }),
    }
    .encode_to_vec();
    let client = FakeClient::new(Ok(bytes), 0);
    let r = Bank {}.bank_query_balance(&client, &address(1), "utoken").unwrap();
    assert_eq!(r.balance, utoken(42));
    assert_eq!(client.queries.get(), 1);
}
