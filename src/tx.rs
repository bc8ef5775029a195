use vstd::prelude::*;

use cosmrs::crypto::secp256k1::SigningKey;
use cosmrs::tx::Msg;

use crate::amount::Coin;
use crate::pagination::copy_bytes;
use crate::error::{ChainError, TransportError};
use crate::query::{coins_view, decoded, dispatched, reply_bytes, QueryReply, QueryRequest};
use crate::wire::{
    account_any_of, account_request_of, base_account_of, marshal_account_request,
    unmarshal_account_reply, unmarshal_base_account,
};

verus! {

/// A secp256k1 signing key; only its own methods see the secret.
#[verifier::external_type_specification]
#[verifier::external_body]
pub struct ExSigningKey(SigningKey);

/// A protocol message packed with its type URL.
#[derive(Clone, Debug, PartialEq, Eq)]
pub struct AnyMsg {
    pub type_url: String,
    pub value: Vec<u8>,
}

impl View for AnyMsg {
    type V = (Seq<char>, Seq<u8>);

    open spec fn view(&self) -> (Seq<char>, Seq<u8>) {
        (self.type_url@, self.value@)
    }
}

/// The signer's account number and current sequence.
#[derive(Clone, Copy, Debug, PartialEq, Eq, Structural)]
pub struct AccountInfo {
    pub account_number: u64,
    pub sequence: u64,
}

/// Fee, gas limit, memo and timeout height of a transaction.
#[derive(Clone, Debug, PartialEq, Eq)]
pub struct TxOptions {
    pub fee: Vec<Coin>,
    pub gas_limit: u64,
    pub memo: String,
    /// Block height after which validators drop the transaction; zero for none.
    pub timeout_height: u64,
}

pub const DEFAULT_GAS_LIMIT: u64 = 200_000;

impl TxOptions {
    /// No fee, the default gas limit, no memo and no timeout.
    pub fn standard() -> (r: TxOptions)
        ensures
            r.fee@.len() == 0,
            r.gas_limit == DEFAULT_GAS_LIMIT,
            r.memo@.len() == 0,
            r.timeout_height == 0,
    {
        TxOptions { fee: Vec::new(), gas_limit: DEFAULT_GAS_LIMIT, memo: String::new(), timeout_height: 0 }
    }
}

/// The node's answer to a broadcast.
#[derive(Clone, Debug, PartialEq, Eq)]
pub struct BroadcastReceipt {
    pub txhash: String,
    pub code: u32,
    pub log: String,
}

/// What the transport handed back for a broadcast.
pub type BroadcastReply = Result<BroadcastReceipt, TransportError>;

/// A signed transaction: its parts, the payload that was signed, and the
/// bytes to broadcast.
#[derive(Clone, Debug, PartialEq, Eq)]
pub struct SignedTx {
    pub public_key: Vec<u8>,
    pub body: Vec<u8>,
    pub auth_info: Vec<u8>,
    pub payload: Vec<u8>,
    pub signature: Vec<u8>,
    pub bytes: Vec<u8>,
}

/// A transaction ready to be signed: the signer's public key, the encoded
/// body and auth info, and the sign payload.
#[derive(Clone, Debug, PartialEq, Eq)]
pub struct PreparedTx {
    pub public_key: Vec<u8>,
    pub body: Vec<u8>,
    pub auth_info: Vec<u8>,
    pub payload: Vec<u8>,
}

pub open spec fn opt_seq(o: Option<Vec<u8>>) -> Option<Seq<u8>> {
    match o {
        Some(v) => Some(v@),
        None => None,
    }
}

pub open spec fn msgs_view(v: Seq<AnyMsg>) -> Seq<(Seq<char>, Seq<u8>)> {
    v.map_values(|m: AnyMsg| m@)
}

/// The packed `MsgSend` of a transfer, if the addresses and denominations parse.
pub uninterp spec fn send_msg_of(from: Seq<char>, to: Seq<char>, coins: Seq<(Seq<char>, nat)>) -> Option<(Seq<char>, Seq<u8>)>;

/// The encoded transaction body of messages, memo and timeout height.
pub uninterp spec fn tx_body_of(msgs: Seq<(Seq<char>, Seq<u8>)>, memo: Seq<char>, timeout_height: u64) -> Option<Seq<u8>>;

/// The sign payload: the encoded sign document.
pub uninterp spec fn sign_doc_of(body: Seq<u8>, auth_info: Seq<u8>, chain_id: Seq<char>, account_number: u64) -> Option<Seq<u8>>;

/// The encoded raw transaction of body, auth info and one signature.
pub uninterp spec fn tx_raw_of(body: Seq<u8>, auth_info: Seq<u8>, signature: Seq<u8>) -> Option<Seq<u8>>;

/// Relies on cosmrs: `AccountId` and `Denom` parsing, `MsgSend` and `Msg::to_any`.
#[verifier::external_body]
pub(crate) fn encode_send_msg(from: &str, to: &str, amounts: &Vec<Coin>) -> (r: Option<AnyMsg>)
    ensures
        match r {
            Some(m) => send_msg_of(from@, to@, coins_view(amounts@)) == Some(m@),
            None => send_msg_of(from@, to@, coins_view(amounts@)) is None,
        },
{
    let amount: Option<Vec<cosmrs::Coin>> =
        amounts.iter().map(|c| cosmrs::Coin::new(c.amount, &c.denom).ok()).collect();
    let msg = cosmrs::bank::MsgSend { from_address: from.parse().ok()?, to_address: to.parse().ok()?, amount: amount? };
    let any = msg.to_any().ok()?;
    Some(AnyMsg { type_url: any.type_url, value: any.value })
}

/// Relies on cosmrs `tx::Body::new` and `Body::into_bytes`.
#[verifier::external_body]
fn encode_tx_body(msgs: &Vec<AnyMsg>, memo: &str, timeout_height: u64) -> (r: Option<Vec<u8>>)
    ensures
        opt_seq(r) == tx_body_of(msgs_view(msgs@), memo@, timeout_height),
        r is Some <==> timeout_height <= i64::MAX,
{
    let height = cosmrs::tendermint::block::Height::try_from(timeout_height).ok()?;
    let anys = msgs.iter().map(|m| cosmrs::Any { type_url: m.type_url.clone(), value: m.value.clone() });
    cosmrs::tx::Body::new(anys, memo, height).into_bytes().ok()
}

/// The encoded auth info of one direct-mode signer with this public key and
/// sequence, paying `fee` with `gas_limit`.
pub uninterp spec fn auth_info_of(public_key: Seq<u8>, sequence: u64, fee: Seq<(Seq<char>, nat)>, gas_limit: u64) -> Option<Seq<u8>>;

/// The bech32 address of a secp256k1 public key under a prefix.
pub uninterp spec fn address_of(public_key: Seq<u8>, prefix: Seq<char>) -> Option<Seq<char>>;

/// Relies on cosmrs `SigningKey::public_key` and `PublicKey::to_bytes`: the
/// key's compressed public key, 33 bytes.
#[verifier::external_body]
pub(crate) fn public_key_bytes(key: &SigningKey) -> (r: Vec<u8>)
    ensures
        r@.len() == 33,
{
    key.public_key().to_bytes()
}

/// Relies on cosmrs `PublicKey::try_from` a secp256k1 `PubKey`,
/// `SignerInfo::single_direct`, `auth_info`, `Fee` and `AuthInfo::into_bytes`.
#[verifier::external_body]
fn encode_auth_info(public_key: &Vec<u8>, sequence: u64, fee: &Vec<Coin>, gas_limit: u64) -> (r: Option<Vec<u8>>)
    ensures
        opt_seq(r) == auth_info_of(public_key@, sequence, coins_view(fee@), gas_limit),
{
    let key = cosmrs::proto::cosmos::crypto::secp256k1::PubKey { key: public_key.clone() };
    let pk = cosmrs::crypto::PublicKey::try_from(key).ok()?;
    let amount: Option<Vec<cosmrs::Coin>> =
        fee.iter().map(|c| cosmrs::Coin::new(c.amount, &c.denom).ok()).collect();
    let fee = cosmrs::tx::Fee { amount: amount?, gas_limit, payer: None, granter: None };
    cosmrs::tx::SignerInfo::single_direct(Some(pk), sequence).auth_info(fee).into_bytes().ok()
}

/// Relies on cosmrs `tx::SignDoc::into_bytes`.
#[verifier::external_body]
fn encode_sign_doc(body: &Vec<u8>, auth_info: &Vec<u8>, chain_id: &str, account_number: u64) -> (r: Option<Vec<u8>>)
    ensures
        opt_seq(r) == sign_doc_of(body@, auth_info@, chain_id@, account_number),
        r is Some,
{
    let doc = cosmrs::proto::cosmos::tx::v1beta1::SignDoc {
        body_bytes: body.clone(),
        auth_info_bytes: auth_info.clone(),
        chain_id: chain_id.to_string(),
        account_number,
    };
    cosmrs::tx::SignDoc::from(doc).into_bytes().ok()
}

/// Relies on cosmrs `SigningKey::sign`.
#[verifier::external_body]
pub(crate) fn sign_bytes(key: &SigningKey, payload: &Vec<u8>) -> (r: Option<Vec<u8>>)
{
    key.sign(payload.as_slice()).ok().map(|s| s.to_vec())
}

/// Relies on cosmrs `tx::Raw::to_bytes`.
#[verifier::external_body]
fn encode_tx_raw(body: &Vec<u8>, auth_info: &Vec<u8>, signature: &Vec<u8>) -> (r: Option<Vec<u8>>)
    ensures
        opt_seq(r) == tx_raw_of(body@, auth_info@, signature@),
        r is Some,
{
    let raw = cosmrs::proto::cosmos::tx::v1beta1::TxRaw {
        body_bytes: body.clone(),
        auth_info_bytes: auth_info.clone(),
        signatures: vec![signature.clone()],
    };
    cosmrs::tx::Raw::from(raw).to_bytes().ok()
}

/// Relies on cosmrs `PublicKey::try_from` a secp256k1 `PubKey` and
/// `PublicKey::account_id`: the address of the key under `prefix`.
#[verifier::external_body]
pub(crate) fn encode_address(public_key: &Vec<u8>, prefix: &str) -> (r: Option<String>)
    ensures
        match r {
            Some(a) => address_of(public_key@, prefix@) == Some(a@),
            None => address_of(public_key@, prefix@) is None,
        },
{
    let key = cosmrs::proto::cosmos::crypto::secp256k1::PubKey { key: public_key.clone() };
    let pk = cosmrs::crypto::PublicKey::try_from(key).ok()?;
    pk.account_id(prefix).ok().map(|id| id.to_string())
}

pub const ACCOUNT_PATH: &'static str = "/cosmos.auth.v1beta1.Query/Account";

/// The query for the signer's account number and sequence.
pub fn account_request(address: &str) -> (r: QueryRequest)
    ensures
        r.path@ == ACCOUNT_PATH@,
        r.body@ == account_request_of(address@),
{
    QueryRequest { path: ACCOUNT_PATH.to_string(), body: marshal_account_request(address) }
}

pub open spec fn account_view(r: Result<AccountInfo, ChainError>) -> Result<(u64, u64), ChainError> {
    match r {
        Ok(a) => Ok((a.account_number, a.sequence)),
        Err(e) => Err(e),
    }
}

pub const BASE_ACCOUNT_URL: &'static str = "/cosmos.auth.v1beta1.BaseAccount";

/// The account number and sequence that reply bytes denote: only a base
/// account is read; any other kind of account does not decode here.
pub open spec fn account_of_reply(b: Seq<u8>) -> Option<(u64, u64)> {
    match account_any_of(b) {
        Some(Some(a)) => if a.0 == BASE_ACCOUNT_URL@ {
            base_account_of(a.1)
        } else {
            None
        },
        _ => None,
    }
}

/// The account number and sequence that a reply reports.
pub open spec fn account_outcome(reply: QueryReply) -> Result<(u64, u64), ChainError> {
    dispatched(reply, |b| account_of_reply(b))
}

/// The account that a reply to `account_request` reports.
pub fn account_response(reply: QueryReply) -> (r: Result<AccountInfo, ChainError>)
    ensures
        account_view(r) == account_outcome(reply),
{
    let b = reply_bytes(reply)?;
    let any = match unmarshal_account_reply(b.as_slice()) {
        Some(Some(a)) => a,
        _ => return Err(ChainError::Decode),
    };
    let expected = String::from_str(BASE_ACCOUNT_URL);
    if any.type_url != expected {
        return Err(ChainError::Decode);
    }
    let (account_number, sequence) = decoded(unmarshal_base_account(any.value.as_slice()))?;
    Ok(AccountInfo { account_number, sequence })
}

/// The sign payload of a body and auth info, bound to the chain and account.
pub fn sign_payload(body: &Vec<u8>, auth_info: &Vec<u8>, chain_id: &str, account_number: u64) -> (r: Result<Vec<u8>, ChainError>)
    ensures
        match sign_doc_of(body@, auth_info@, chain_id@, account_number) {
            Some(p) => (r matches Ok(v) && v@ == p),
            None => r == Err::<Vec<u8>, ChainError>(ChainError::Encoding),
        },
        r is Ok,
{
    match encode_sign_doc(body, auth_info, chain_id, account_number) {
        Some(p) => Ok(p),
        None => Err(ChainError::Encoding),
    }
}

/// Body, auth info and sign payload of `msgs` for a signer with this public
/// key and account, or `None` where one of them does not encode.
pub open spec fn prepared_of(
    msgs: Seq<(Seq<char>, Seq<u8>)>,
    public_key: Seq<u8>,
    account: AccountInfo,
    chain_id: Seq<char>,
    options: TxOptions,
) -> Option<(Seq<u8>, Seq<u8>, Seq<u8>)> {
    match tx_body_of(msgs, options.memo@, options.timeout_height) {
        None => None,
        Some(body) => match auth_info_of(
            public_key,
            account.sequence,
            coins_view(options.fee@),
            options.gas_limit,
        ) {
            None => None,
            Some(auth) => match sign_doc_of(body, auth, chain_id, account.account_number) {
                None => None,
                Some(payload) => Some((body, auth, payload)),
            },
        },
    }
}

/// Encodes body and auth info and derives the sign payload; fails with
/// `Encoding` exactly when one of them does not encode.
pub fn prepare_tx(
    msgs: &Vec<AnyMsg>,
    public_key: &Vec<u8>,
    account: AccountInfo,
    chain_id: &str,
    options: &TxOptions,
) -> (r: Result<PreparedTx, ChainError>)
    ensures
        match prepared_of(msgs_view(msgs@), public_key@, account, chain_id@, *options) {
            Some(x) => (r matches Ok(t) && t.public_key@ == public_key@ && (
                t.body@,
                t.auth_info@,
                t.payload@,
            ) == x),
            None => r == Err::<PreparedTx, ChainError>(ChainError::Encoding),
        },
        r is Ok <==> (options.timeout_height <= i64::MAX && auth_info_of(
            public_key@,
            account.sequence,
            coins_view(options.fee@),
            options.gas_limit,
        ) is Some),
{
    let body = match encode_tx_body(msgs, options.memo.as_str(), options.timeout_height) {
        Some(b) => b,
        None => return Err(ChainError::Encoding),
    };
    let auth_info = match encode_auth_info(public_key, account.sequence, &options.fee, options.gas_limit) {
        Some(a) => a,
        None => return Err(ChainError::Encoding),
    };
    let payload = sign_payload(&body, &auth_info, chain_id, account.account_number)?;
    Ok(PreparedTx { public_key: copy_bytes(public_key), body, auth_info, payload })
}

/// Puts a prepared transaction and its signature into the bytes to
/// broadcast; fails with `Encoding` exactly when those do not encode.
pub fn assemble_tx(prepared: PreparedTx, signature: Vec<u8>) -> (r: Result<SignedTx, ChainError>)
    ensures
        match tx_raw_of(prepared.body@, prepared.auth_info@, signature@) {
            Some(b) => (r matches Ok(t) && t.bytes@ == b && t.signature@ == signature@
                && t.public_key@ == prepared.public_key@ && t.body@ == prepared.body@
                && t.auth_info@ == prepared.auth_info@ && t.payload@ == prepared.payload@),
            None => r == Err::<SignedTx, ChainError>(ChainError::Encoding),
        },
        r is Ok,
{
    let bytes = match encode_tx_raw(&prepared.body, &prepared.auth_info, &signature) {
        Some(b) => b,
        None => return Err(ChainError::Encoding),
    };
    Ok(
        SignedTx {
            public_key: prepared.public_key,
            body: prepared.body,
            auth_info: prepared.auth_info,
            payload: prepared.payload,
            signature,
            bytes,
        },
    )
}

/// Signs a prepared transaction with `key` and assembles it. The payload is
/// the only thing handed to the key; the signature goes into the envelope
/// as it came back.
pub fn sign_prepared(key: &SigningKey, prepared: PreparedTx) -> (r: Result<SignedTx, ChainError>)
    ensures
        r matches Ok(t) ==> {
            &&& t.public_key@ == prepared.public_key@
            &&& t.body@ == prepared.body@
            &&& t.auth_info@ == prepared.auth_info@
            &&& t.payload@ == prepared.payload@
            &&& tx_raw_of(t.body@, t.auth_info@, t.signature@) == Some(t.bytes@)
        },
        r matches Err(e) ==> e == ChainError::Signing,
{
    let signature = match sign_bytes(key, &prepared.payload) {
        Some(s) => s,
        None => return Err(ChainError::Signing),
    };
    assemble_tx(prepared, signature)
}

/// Builds, signs and encodes a transaction of `msgs` for the account as it
/// stands now, with the key's public key in the auth info. Every step runs
/// once; nothing is retried.
pub fn sign_tx(
    msgs: &Vec<AnyMsg>,
    key: &SigningKey,
    account: AccountInfo,
    chain_id: &str,
    options: &TxOptions,
) -> (r: Result<SignedTx, ChainError>)
    requires
        msgs@.len() > 0,
    ensures
        r matches Ok(t) ==> {
            &&& prepared_of(msgs_view(msgs@), t.public_key@, account, chain_id@, *options) == Some(
                (t.body@, t.auth_info@, t.payload@),
            )
            &&& tx_raw_of(t.body@, t.auth_info@, t.signature@) == Some(t.bytes@)
        },
        r matches Err(e) ==> (e == ChainError::Encoding || e == ChainError::Signing),
        options.timeout_height > i64::MAX ==> r == Err::<SignedTx, ChainError>(ChainError::Encoding),
        r == Err::<SignedTx, ChainError>(ChainError::Encoding) ==> exists|pk: Seq<u8>|
            pk.len() == 33 && #[trigger] prepared_of(msgs_view(msgs@), pk, account, chain_id@, *options) is None,
        (forall|pk: Seq<u8>|
            pk.len() == 33 ==> #[trigger] prepared_of(msgs_view(msgs@), pk, account, chain_id@, *options) is None)
            ==> r == Err::<SignedTx, ChainError>(ChainError::Encoding),
        r == Err::<SignedTx, ChainError>(ChainError::Signing) ==> exists|pk: Seq<u8>|
            #[trigger] prepared_of(msgs_view(msgs@), pk, account, chain_id@, *options) is Some,
{
    let public_key = public_key_bytes(key);
    let prepared = match prepare_tx(msgs, &public_key, account, chain_id, options) {
        Ok(p) => p,
        Err(e) => {
            assert(prepared_of(msgs_view(msgs@), public_key@, account, chain_id@, *options) is None);
            return Err(e);
        },
    };
    assert(prepared_of(msgs_view(msgs@), public_key@, account, chain_id@, *options) is Some);
    sign_prepared(key, prepared)
}

/// A broadcast succeeds only with result code zero; any other code is a
/// rejection carrying the code and log, and a transport failure stays one.
pub open spec fn broadcast_outcome_spec(reply: BroadcastReply) -> Result<BroadcastReceipt, ChainError> {
    match reply {
        Err(e) => Err(ChainError::Transport(e)),
        Ok(receipt) => if receipt.code == 0 {
            Ok(receipt)
        } else {
            Err(ChainError::ChainRejected { code: receipt.code, log: receipt.log })
        },
    }
}

pub fn broadcast_outcome(reply: BroadcastReply) -> (r: Result<BroadcastReceipt, ChainError>)
    ensures
        r == broadcast_outcome_spec(reply),
{
    match reply {
        Err(e) => Err(ChainError::Transport(e)),
        Ok(receipt) => {
            if receipt.code == 0 {
                Ok(receipt)
            } else {
                Err(ChainError::ChainRejected { code: receipt.code, log: receipt.log })
            }
        },
    }
}

/// The sign payload depends on the messages, the signer's public key, the
/// account number and sequence, the chain id and the options alone: equal
/// inputs give byte-identical payloads.
pub proof fn lemma_sign_payload_deterministic(
    msgs: Seq<(Seq<char>, Seq<u8>)>,
    public_key: Seq<u8>,
    account1: AccountInfo,
    account2: AccountInfo,
    chain_id: Seq<char>,
    options1: TxOptions,
    options2: TxOptions,
)
    requires
        account1.account_number == account2.account_number,
        account1.sequence == account2.sequence,
        options1.memo@ == options2.memo@,
        options1.timeout_height == options2.timeout_height,
        coins_view(options1.fee@) == coins_view(options2.fee@),
        options1.gas_limit == options2.gas_limit,
    ensures
        prepared_of(msgs, public_key, account1, chain_id, options1) == prepared_of(
            msgs,
            public_key,
            account2,
            chain_id,
            options2,
        ),
{
}

} // verus!
