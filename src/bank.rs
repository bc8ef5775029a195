use vstd::prelude::*;


use cosmrs::crypto::secp256k1::SigningKey;

use crate::client::{ChainClient, ChainConfig};
use crate::model::{
    metadata_list, opt_metadata, opt_params, BankParams, DenomMetadata, MetadataView, ParamsView,
};
use crate::amount::{coin_of_wire, Coin, WireCoin};
use crate::error::{BankError, ChainError, TransportError};
use crate::pagination::{PaginationRequest, PaginationResponse, WirePageResponse};
use crate::query::{
    coins_from_wire, coins_of_wire, coins_view, decoded, dispatched, opt_cursor,
    opt_page_request, opt_page_response, page_from_wire, page_to_wire, reply_bytes, QueryReply,
    QueryRequest,
};
use crate::tx::{
    address_of, msgs_view, sign_prepared, ACCOUNT_PATH,
    account_outcome, account_request, account_response, assemble_tx, encode_address, prepare_tx, prepared_of, public_key_bytes, sign_bytes, tx_raw_of, AccountInfo, SignedTx, TxOptions, broadcast_outcome, broadcast_outcome_spec, encode_send_msg, send_msg_of, AnyMsg,
    BroadcastReceipt, BroadcastReply,
};
use crate::wire::{
    account_request_of,    all_balances_reply_of, all_balances_request_of, balance_reply_of, balance_request_of,
    denom_metadata_reply_of, denom_metadata_request_of, denoms_metadata_reply_of,
    denoms_metadata_request_of, marshal_all_balances_request, marshal_balance_request,
    marshal_denom_metadata_request, marshal_denoms_metadata_request, marshal_params_request,
    marshal_spendable_balances_request, marshal_supply_of_request, marshal_total_supply_request,
    opt_wire_coin, params_reply_of, spendable_balances_reply_of, spendable_balances_request_of,
    supply_of_reply_of, supply_of_request_of, total_supply_reply_of, total_supply_request_of,
    unmarshal_all_balances_reply, unmarshal_balance_reply, unmarshal_denom_metadata_reply,
    unmarshal_denoms_metadata_reply, unmarshal_params_reply, unmarshal_spendable_balances_reply,
    unmarshal_supply_of_reply, unmarshal_total_supply_reply, CoinView,
};

verus! {

/// The bank module: funds transfers and balance, supply, metadata and
/// parameter queries.
#[derive(Clone, Debug)]
pub struct Bank {}

/// A single balance or supply amount.
#[derive(Clone, Debug, PartialEq, Eq)]
pub struct BalanceResponse {
    pub balance: Coin,
}

/// A page of balances, with the cursor of the next page if there is one.
#[derive(Clone, Debug, PartialEq, Eq)]
pub struct BalancesResponse {
    pub balances: Vec<Coin>,
    pub next: Option<PaginationResponse>,
}

#[derive(Clone, Debug, PartialEq, Eq)]
pub struct DenomMetadataResponse {
    pub meta: Option<DenomMetadata>,
}

#[derive(Clone, Debug, PartialEq, Eq)]
pub struct DenomsMetadataResponse {
    pub metas: Vec<DenomMetadata>,
    pub next: Option<PaginationResponse>,
}

#[derive(Clone, Debug, PartialEq, Eq)]
pub struct ParamsResponse {
    pub params: Option<BankParams>,
}

/// The node's receipt for an accepted transfer.
#[derive(Clone, Debug, PartialEq, Eq)]
pub struct SendResponse {
    pub res: BroadcastReceipt,
    /// The signer's account as fetched right before signing.
    pub account: AccountInfo,
    /// The transaction that was broadcast.
    pub tx: SignedTx,
}

pub type CoinsPage = (Seq<(Seq<char>, nat)>, Option<(Option<Seq<u8>>, Option<u64>)>);

impl View for BalancesResponse {
    type V = CoinsPage;

    open spec fn view(&self) -> CoinsPage {
        (coins_view(self.balances@), opt_cursor(self.next))
    }
}

pub const BALANCE_PATH: &'static str = "/cosmos.bank.v1beta1.Query/Balance";

pub const ALL_BALANCES_PATH: &'static str = "/cosmos.bank.v1beta1.Query/AllBalances";

pub const SPENDABLE_BALANCES_PATH: &'static str = "/cosmos.bank.v1beta1.Query/SpendableBalances";

pub const SUPPLY_OF_PATH: &'static str = "/cosmos.bank.v1beta1.Query/SupplyOf";

pub const TOTAL_SUPPLY_PATH: &'static str = "/cosmos.bank.v1beta1.Query/TotalSupply";

pub const DENOM_METADATA_PATH: &'static str = "/cosmos.bank.v1beta1.Query/DenomMetadata";

pub const DENOMS_METADATA_PATH: &'static str = "/cosmos.bank.v1beta1.Query/DenomsMetadata";

pub const PARAMS_PATH: &'static str = "/cosmos.bank.v1beta1.Query/Params";

/// Whether a list query asked for the total count.
pub open spec fn asked_total(p: Option<PaginationRequest>) -> bool {
    p matches Some(c) && c.count_total
}

/// The balance a single-coin reply denotes; an absent coin is a zero balance
/// of the denomination asked for.
pub open spec fn single_coin_outcome(
    reply: QueryReply,
    decode: spec_fn(Seq<u8>) -> Option<Option<CoinView>>,
    denom: Seq<char>,
) -> Result<(Seq<char>, nat), BankError> {
    match dispatched(reply, decode) {
        Err(e) => Err(BankError::Chain(e)),
        Ok(None) => Ok((denom, 0)),
        Ok(Some(w)) => match coin_of_wire(w) {
            Some(c) => Ok(c),
            None => Err(BankError::Chain(ChainError::MalformedAmount)),
        },
    }
}

/// The page of coins a list reply denotes.
pub open spec fn coin_list_outcome(
    reply: QueryReply,
    decode: spec_fn(Seq<u8>) -> Option<(Seq<CoinView>, Option<(Seq<u8>, u64)>)>,
    count_total: bool,
) -> Result<CoinsPage, BankError> {
    match dispatched(reply, decode) {
        Err(e) => Err(BankError::Chain(e)),
        Ok(x) => match coins_of_wire(x.0) {
            Some(cs) => Ok((cs, opt_page_response(x.1, count_total))),
            None => Err(BankError::Chain(ChainError::MalformedAmount)),
        },
    }
}

pub open spec fn balance_outcome(reply: QueryReply, denom: Seq<char>) -> Result<(Seq<char>, nat), BankError> {
    single_coin_outcome(reply, |b| balance_reply_of(b), denom)
}

pub open spec fn supply_outcome(reply: QueryReply, denom: Seq<char>) -> Result<(Seq<char>, nat), BankError> {
    single_coin_outcome(reply, |b| supply_of_reply_of(b), denom)
}

pub open spec fn all_balances_outcome(reply: QueryReply, count_total: bool) -> Result<CoinsPage, BankError> {
    coin_list_outcome(reply, |b| all_balances_reply_of(b), count_total)
}

pub open spec fn spendable_balances_outcome(reply: QueryReply, count_total: bool) -> Result<CoinsPage, BankError> {
    coin_list_outcome(reply, |b| spendable_balances_reply_of(b), count_total)
}

pub open spec fn total_supply_outcome(reply: QueryReply, count_total: bool) -> Result<CoinsPage, BankError> {
    coin_list_outcome(reply, |b| total_supply_reply_of(b), count_total)
}

/// The metadata a reply to `denom_metadata_request` reports.
pub open spec fn denom_metadata_outcome(reply: QueryReply) -> Result<Option<MetadataView>, BankError> {
    match dispatched(reply, |b| denom_metadata_reply_of(b)) {
        Ok(m) => Ok(m),
        Err(e) => Err(BankError::Chain(e)),
    }
}

/// The metadata entries and cursor a reply to `denoms_metadata_request` reports.
pub open spec fn denoms_metadata_outcome(reply: QueryReply, count_total: bool) -> Result<
    (Seq<MetadataView>, Option<(Option<Seq<u8>>, Option<u64>)>),
    BankError,
> {
    match dispatched(reply, |b| denoms_metadata_reply_of(b)) {
        Ok(x) => Ok((x.0, opt_page_response(x.1, count_total))),
        Err(e) => Err(BankError::Chain(e)),
    }
}

/// The parameters a reply to `params_request` reports.
pub open spec fn params_outcome(reply: QueryReply) -> Result<Option<ParamsView>, BankError> {
    match dispatched(reply, |b| params_reply_of(b)) {
        Ok(p) => Ok(p),
        Err(e) => Err(BankError::Chain(e)),
    }
}

pub open spec fn metadata_result_view(r: Result<DenomMetadataResponse, BankError>) -> Result<Option<MetadataView>, BankError> {
    match r {
        Ok(m) => Ok(opt_metadata(m.meta)),
        Err(e) => Err(e),
    }
}

pub open spec fn metadata_list_result_view(r: Result<DenomsMetadataResponse, BankError>) -> Result<
    (Seq<MetadataView>, Option<(Option<Seq<u8>>, Option<u64>)>),
    BankError,
> {
    match r {
        Ok(m) => Ok((metadata_list(m.metas@), opt_cursor(m.next))),
        Err(e) => Err(e),
    }
}

pub open spec fn params_result_view(r: Result<ParamsResponse, BankError>) -> Result<Option<ParamsView>, BankError> {
    match r {
        Ok(p) => Ok(opt_params(p.params)),
        Err(e) => Err(e),
    }
}

pub open spec fn coin_result_view(r: Result<BalanceResponse, BankError>) -> Result<(Seq<char>, nat), BankError> {
    match r {
        Ok(b) => Ok(b.balance@),
        Err(e) => Err(e),
    }
}

pub open spec fn list_result_view(r: Result<BalancesResponse, BankError>) -> Result<CoinsPage, BankError> {
    match r {
        Ok(b) => Ok(b@),
        Err(e) => Err(e),
    }
}

/// `tx` is the transfer of `amounts` from `from` to `to`, signed for the
/// account that `client` reported for the key's address, on the chain of `cfg`.
pub open spec fn signed_transfer<C: ChainClient>(
    client: &C,
    from: Seq<char>,
    to: Seq<char>,
    amounts: Seq<(Seq<char>, nat)>,
    cfg: ChainConfig,
    options: TxOptions,
    account: AccountInfo,
    tx: SignedTx,
) -> bool {
    &&& send_msg_of(from, to, amounts) is Some
    &&& address_of(tx.public_key@, cfg.prefix@) is Some
    &&& exists|reply: QueryReply|
        #[trigger] client.answers(
            ACCOUNT_PATH@,
            account_request_of(address_of(tx.public_key@, cfg.prefix@).unwrap()),
            reply,
        ) && account_outcome(reply) == Ok::<(u64, u64), ChainError>(
            (account.account_number, account.sequence),
        )
    &&& prepared_of(
        seq![send_msg_of(from, to, amounts).unwrap()],
        tx.public_key@,
        account,
        cfg.chain_id@,
        options,
    ) == Some((tx.body@, tx.auth_info@, tx.payload@))
    &&& tx_raw_of(tx.body@, tx.auth_info@, tx.signature@) == Some(tx.bytes@)
}

/// `client` was handed the bytes of a transfer signed as `signed_transfer`
/// says, and answered with `receipt`.
pub open spec fn broadcast_transfer<C: ChainClient>(
    client: &C,
    from: Seq<char>,
    to: Seq<char>,
    amounts: Seq<(Seq<char>, nat)>,
    cfg: ChainConfig,
    options: TxOptions,
    receipt: BroadcastReply,
) -> bool {
    exists|account: AccountInfo, tx: SignedTx|
        #[trigger] signed_transfer(client, from, to, amounts, cfg, options, account, tx)
            && client.acknowledges(tx.bytes@, receipt)
}

pub open spec fn has_zero_amount(coins: Seq<Coin>) -> bool {
    exists|i: int| 0 <= i < coins.len() && #[trigger] coins[i].amount == 0
}

fn single_coin(c: Option<WireCoin>, denom: &str) -> (r: Result<BalanceResponse, BankError>)
    ensures
        match opt_wire_coin(c) {
            None => (r matches Ok(b) && b.balance@ == (denom@, 0nat)),
            Some(w) => match coin_of_wire(w) {
                Some(v) => (r matches Ok(b) && b.balance@ == v),
                None => r == Err::<BalanceResponse, BankError>(
                    BankError::Chain(ChainError::MalformedAmount),
                ),
            },
        },
{
    match c {
        None => Ok(BalanceResponse { balance: Coin { denom: denom.to_string(), amount: 0 } }),
        Some(w) => match Coin::from_wire(&w) {
            Ok(balance) => Ok(BalanceResponse { balance }),
            Err(e) => Err(BankError::Chain(e)),
        },
    }
}

fn coin_list(
    x: (Vec<WireCoin>, Option<WirePageResponse>),
    pagination: &Option<PaginationRequest>,
) -> (r: Result<BalancesResponse, BankError>)
    ensures
        match coins_of_wire(crate::query::wire_coins_view(x.0@)) {
            Some(cs) => (r matches Ok(b) && b@ == (
                cs,
                opt_page_response(crate::query::opt_wire_page(x.1), asked_total(*pagination)),
            )),
            None => r == Err::<BalancesResponse, BankError>(
                BankError::Chain(ChainError::MalformedAmount),
            ),
        },
{
    let count_total = match pagination {
        Some(p) => p.count_total,
        None => false,
    };
    match coins_from_wire(&x.0) {
        Ok(balances) => Ok(BalancesResponse { balances, next: page_from_wire(&x.1, count_total) }),
        Err(e) => Err(BankError::Chain(e)),
    }
}

fn query_request(path: &str, body: Vec<u8>) -> (r: QueryRequest)
    ensures
        r.path@ == path@,
        r.body@ == body@,
{
    QueryRequest { path: path.to_string(), body }
}

impl Bank {
    /// The query for the balance of `denom` held by `address`.
    pub fn balance_request(&self, address: &str, denom: &str) -> (r: QueryRequest)
        ensures
            r.path@ == BALANCE_PATH@,
            r.body@ == balance_request_of(address@, denom@),
    {
        query_request(BALANCE_PATH, marshal_balance_request(address, denom))
    }

    /// The balance that a reply to `balance_request` reports.
    pub fn balance_response(&self, denom: &str, reply: QueryReply) -> (r: Result<BalanceResponse, BankError>)
        ensures
            coin_result_view(r) == balance_outcome(reply, denom@),
    {
        let b = match reply_bytes(reply) {
            Ok(b) => b,
            Err(e) => return Err(BankError::Chain(e)),
        };
        match decoded(unmarshal_balance_reply(b.as_slice())) {
            Ok(c) => single_coin(c, denom),
            Err(e) => Err(BankError::Chain(e)),
        }
    }

    /// The query for all balances held by `address`.
    pub fn balances_request(&self, address: &str, pagination: &Option<PaginationRequest>) -> (r: QueryRequest)
        ensures
            r.path@ == ALL_BALANCES_PATH@,
            r.body@ == all_balances_request_of(address@, opt_page_request(*pagination)),
    {
        let page = page_to_wire(pagination);
        query_request(ALL_BALANCES_PATH, marshal_all_balances_request(address, page))
    }

    /// The page of balances that a reply to `balances_request` reports.
    pub fn balances_response(&self, pagination: &Option<PaginationRequest>, reply: QueryReply) -> (r: Result<BalancesResponse, BankError>)
        ensures
            list_result_view(r) == all_balances_outcome(reply, asked_total(*pagination)),
    {
        let b = match reply_bytes(reply) {
            Ok(b) => b,
            Err(e) => return Err(BankError::Chain(e)),
        };
        match decoded(unmarshal_all_balances_reply(b.as_slice())) {
            Ok(x) => coin_list(x, pagination),
            Err(e) => Err(BankError::Chain(e)),
        }
    }

    /// The query for the balances of `address` not locked away.
    pub fn spendable_balances_request(&self, address: &str, pagination: &Option<PaginationRequest>) -> (r: QueryRequest)
        ensures
            r.path@ == SPENDABLE_BALANCES_PATH@,
            r.body@ == spendable_balances_request_of(address@, opt_page_request(*pagination)),
    {
        let page = page_to_wire(pagination);
        query_request(SPENDABLE_BALANCES_PATH, marshal_spendable_balances_request(address, page))
    }

    /// The page of spendable balances that a reply reports.
    pub fn spendable_balances_response(&self, pagination: &Option<PaginationRequest>, reply: QueryReply) -> (r: Result<BalancesResponse, BankError>)
        ensures
            list_result_view(r) == spendable_balances_outcome(reply, asked_total(*pagination)),
    {
        let b = match reply_bytes(reply) {
            Ok(b) => b,
            Err(e) => return Err(BankError::Chain(e)),
        };
        match decoded(unmarshal_spendable_balances_reply(b.as_slice())) {
            Ok(x) => coin_list(x, pagination),
            Err(e) => Err(BankError::Chain(e)),
        }
    }

    /// The query for the global supply of `denom`.
    pub fn supply_request(&self, denom: &str) -> (r: QueryRequest)
        ensures
            r.path@ == SUPPLY_OF_PATH@,
            r.body@ == supply_of_request_of(denom@),
    {
        query_request(SUPPLY_OF_PATH, marshal_supply_of_request(denom))
    }

    /// The supply that a reply to `supply_request` reports.
    pub fn supply_response(&self, denom: &str, reply: QueryReply) -> (r: Result<BalanceResponse, BankError>)
        ensures
            coin_result_view(r) == supply_outcome(reply, denom@),
    {
        let b = match reply_bytes(reply) {
            Ok(b) => b,
            Err(e) => return Err(BankError::Chain(e)),
        };
        match decoded(unmarshal_supply_of_reply(b.as_slice())) {
            Ok(c) => single_coin(c, denom),
            Err(e) => Err(BankError::Chain(e)),
        }
    }

    /// The query for the global supply of every denomination.
    pub fn total_supply_request(&self, pagination: &Option<PaginationRequest>) -> (r: QueryRequest)
        ensures
            r.path@ == TOTAL_SUPPLY_PATH@,
            r.body@ == total_supply_request_of(opt_page_request(*pagination)),
    {
        let page = page_to_wire(pagination);
        query_request(TOTAL_SUPPLY_PATH, marshal_total_supply_request(page))
    }

    /// The page of supplies that a reply to `total_supply_request` reports.
    pub fn total_supply_response(&self, pagination: &Option<PaginationRequest>, reply: QueryReply) -> (r: Result<BalancesResponse, BankError>)
        ensures
            list_result_view(r) == total_supply_outcome(reply, asked_total(*pagination)),
    {
        let b = match reply_bytes(reply) {
            Ok(b) => b,
            Err(e) => return Err(BankError::Chain(e)),
        };
        match decoded(unmarshal_total_supply_reply(b.as_slice())) {
            Ok(x) => coin_list(x, pagination),
            Err(e) => Err(BankError::Chain(e)),
        }
    }

    /// The query for the metadata of `denom`.
    pub fn denom_metadata_request(&self, denom: &str) -> (r: QueryRequest)
        ensures
            r.path@ == DENOM_METADATA_PATH@,
            r.body@ == denom_metadata_request_of(denom@),
    {
        query_request(DENOM_METADATA_PATH, marshal_denom_metadata_request(denom))
    }

    /// The metadata that a reply to `denom_metadata_request` reports.
    pub fn denom_metadata_response(&self, reply: QueryReply) -> (r: Result<DenomMetadataResponse, BankError>)
        ensures
            metadata_result_view(r) == denom_metadata_outcome(reply),
    {
        let b = match reply_bytes(reply) {
            Ok(b) => b,
            Err(e) => return Err(BankError::Chain(e)),
        };
        match decoded(unmarshal_denom_metadata_reply(b.as_slice())) {
            Ok(meta) => Ok(DenomMetadataResponse { meta }),
            Err(e) => Err(BankError::Chain(e)),
        }
    }

    /// The query for the metadata of every denomination.
    pub fn denoms_metadata_request(&self, pagination: &Option<PaginationRequest>) -> (r: QueryRequest)
        ensures
            r.path@ == DENOMS_METADATA_PATH@,
            r.body@ == denoms_metadata_request_of(opt_page_request(*pagination)),
    {
        let page = page_to_wire(pagination);
        query_request(DENOMS_METADATA_PATH, marshal_denoms_metadata_request(page))
    }

    /// The page of metadata that a reply to `denoms_metadata_request` reports.
    pub fn denoms_metadata_response(&self, pagination: &Option<PaginationRequest>, reply: QueryReply) -> (r: Result<DenomsMetadataResponse, BankError>)
        ensures
            metadata_list_result_view(r) == denoms_metadata_outcome(reply, asked_total(*pagination)),
    {
        let b = match reply_bytes(reply) {
            Ok(b) => b,
            Err(e) => return Err(BankError::Chain(e)),
        };
        let count_total = match pagination {
            Some(p) => p.count_total,
            None => false,
        };
        match decoded(unmarshal_denoms_metadata_reply(b.as_slice())) {
            Ok(x) => Ok(DenomsMetadataResponse { next: page_from_wire(&x.1, count_total), metas: x.0 }),
            Err(e) => Err(BankError::Chain(e)),
        }
    }

    /// The query for the bank module's parameters.
    pub fn params_request(&self) -> (r: QueryRequest)
        ensures
            r.path@ == PARAMS_PATH@,
            r.body@.len() == 0,
    {
        query_request(PARAMS_PATH, marshal_params_request())
    }

    /// The parameters that a reply to `params_request` reports.
    pub fn params_response(&self, reply: QueryReply) -> (r: Result<ParamsResponse, BankError>)
        ensures
            params_result_view(r) == params_outcome(reply),
    {
        let b = match reply_bytes(reply) {
            Ok(b) => b,
            Err(e) => return Err(BankError::Chain(e)),
        };
        match decoded(unmarshal_params_reply(b.as_slice())) {
            Ok(params) => Ok(ParamsResponse { params }),
            Err(e) => Err(BankError::Chain(e)),
        }
    }

    /// The message that sends `amounts` from `from` to `to`. No coin may be
    /// zero and at least one is needed; this is checked before anything is
    /// encoded or sent.
    pub fn send_msg(&self, from: &str, to: &str, amounts: Vec<Coin>) -> (r: Result<AnyMsg, BankError>)
        ensures
            (amounts@.len() == 0 || has_zero_amount(amounts@)) ==> r == Err::<AnyMsg, BankError>(
                BankError::EmptyAmount,
            ),
            !(amounts@.len() == 0 || has_zero_amount(amounts@)) ==> match send_msg_of(
                from@,
                to@,
                coins_view(amounts@),
            ) {
                Some(m) => (r matches Ok(x) && x@ == m),
                None => r == Err::<AnyMsg, BankError>(BankError::Chain(ChainError::Encoding)),
            },
    {
        let mut i: usize = 0;
        while i < amounts.len()
            invariant
                i <= amounts@.len(),
                forall|j: int| 0 <= j < i ==> #[trigger] amounts@[j].amount != 0,
            decreases amounts.len() - i,
        {
            if amounts[i].amount == 0 {
                return Err(BankError::EmptyAmount);
            }
            i = i + 1;
        }
        if amounts.len() == 0 {
            return Err(BankError::EmptyAmount);
        }
        match encode_send_msg(from, to, &amounts) {
            Some(m) => Ok(m),
            None => Err(BankError::Chain(ChainError::Encoding)),
        }
    }

    /// The outcome of broadcasting a transfer.
    pub fn send_response(&self, account: AccountInfo, tx: SignedTx, reply: BroadcastReply) -> (r: Result<SendResponse, BankError>)
        ensures
            match broadcast_outcome_spec(reply) {
                Ok(res) => r == Ok::<SendResponse, BankError>((SendResponse { res, account, tx })),
                Err(e) => r == Err::<SendResponse, BankError>(BankError::Chain(e)),
            },
    {
        match broadcast_outcome(reply) {
            Ok(res) => Ok(SendResponse { res, account, tx }),
            Err(e) => Err(BankError::Chain(e)),
        }
    }

    /// Sends `amounts` from `from` to `to`, signed by `key`. The amounts are
    /// checked before the client is called; the signer's account is fetched
    /// right before signing and the payload is built from it; the
    /// transaction is broadcast once.
    pub fn bank_send<C: ChainClient>(
        &self,
        client: &C,
        cfg: &ChainConfig,
        from: &str,
        to: &str,
        amounts: Vec<Coin>,
        key: &SigningKey,
        tx_options: &TxOptions,
    ) -> (r: Result<SendResponse, BankError>)
        ensures
            (r == Err::<SendResponse, BankError>(BankError::EmptyAmount)) <==> (amounts@.len() == 0
                || has_zero_amount(amounts@)),
            !(amounts@.len() == 0 || has_zero_amount(amounts@)) && send_msg_of(
                from@,
                to@,
                coins_view(amounts@),
            ) is None ==> r == Err::<SendResponse, BankError>(BankError::Chain(ChainError::Encoding)),
            r matches Ok(s) ==> {
                &&& s.res.code == 0
                &&& signed_transfer(client, from@, to@, coins_view(amounts@), *cfg, *tx_options, s.account, s.tx)
                &&& client.acknowledges(s.tx.bytes@, Ok::<BroadcastReceipt, TransportError>(s.res))
            },
            r matches Err(BankError::Chain(ChainError::ChainRejected { code, log })) ==> code != 0
                && exists|receipt: BroadcastReceipt|
                receipt.code == code && receipt.log == log && #[trigger] broadcast_transfer(
                    client,
                    from@,
                    to@,
                    coins_view(amounts@),
                    *cfg,
                    *tx_options,
                    Ok::<BroadcastReceipt, TransportError>(receipt),
                ),
    {
        let msg = self.send_msg(from, to, amounts)?;
        let ghost m = msg@;
        let public_key = public_key_bytes(key);
        let sender = match encode_address(&public_key, cfg.prefix.as_str()) {
            Some(a) => a,
            None => return Err(BankError::Chain(ChainError::Encoding)),
        };
        let req = account_request(sender.as_str());
        let reply = client.query(req.path.as_str(), req.body.as_slice());
        let ghost g = reply;
        let account = match account_response(reply) {
            Ok(a) => a,
            Err(e) => return Err(BankError::Chain(e)),
        };
        let msgs = vec![msg];
        assert(msgs_view(msgs@) =~= seq![m]);
        let prepared = match prepare_tx(&msgs, &public_key, account, cfg.chain_id.as_str(), tx_options) {
            Ok(p) => p,
            Err(e) => return Err(BankError::Chain(e)),
        };
        let tx = match sign_prepared(key, prepared) {
            Ok(t) => t,
            Err(e) => return Err(BankError::Chain(e)),
        };
        assert(client.answers(
            ACCOUNT_PATH@,
            account_request_of(address_of(tx.public_key@, cfg.prefix@).unwrap()),
            g,
        ));
        assert(signed_transfer(client, from@, to@, coins_view(amounts@), *cfg, *tx_options, account, tx));
        let receipt = client.broadcast(tx.bytes.as_slice());
        let ghost rc = receipt;
        assert(broadcast_transfer(client, from@, to@, coins_view(amounts@), *cfg, *tx_options, rc));
        self.send_response(account, tx, receipt)
    }

    /// Queries the amount of `denom` held by `address`.
    pub fn bank_query_balance<C: ChainClient>(&self, client: &C, address: &str, denom: &str) -> (r: Result<BalanceResponse, BankError>)
        ensures
            exists|reply: QueryReply|
                #[trigger] client.answers(BALANCE_PATH@, balance_request_of(address@, denom@), reply) && coin_result_view(r) == balance_outcome(reply, denom@),
    {
        let req = self.balance_request(address, denom);
        let reply = client.query(req.path.as_str(), req.body.as_slice());
        let ghost g = reply;
        let r = self.balance_response(denom, reply);
        assert(client.answers(BALANCE_PATH@, balance_request_of(address@, denom@), g) && coin_result_view(r) == balance_outcome(g, denom@));
        r
    }

    /// Queries every balance held by `address`, a page at a time.
    pub fn bank_query_balances<C: ChainClient>(&self, client: &C, address: &str, pagination: Option<PaginationRequest>) -> (r: Result<BalancesResponse, BankError>)
        ensures
            exists|reply: QueryReply|
                #[trigger] client.answers(ALL_BALANCES_PATH@, all_balances_request_of(address@, opt_page_request(pagination)), reply) && list_result_view(r) == all_balances_outcome(reply, asked_total(pagination)),
    {
        let req = self.balances_request(address, &pagination);
        let reply = client.query(req.path.as_str(), req.body.as_slice());
        let ghost g = reply;
        let r = self.balances_response(&pagination, reply);
        assert(client.answers(ALL_BALANCES_PATH@, all_balances_request_of(address@, opt_page_request(pagination)), g) && list_result_view(r) == all_balances_outcome(g, asked_total(pagination)));
        r
    }

    /// Queries the balances of `address` that are not locked away, a page at a time.
    pub fn bank_query_spendable_balances<C: ChainClient>(&self, client: &C, address: &str, pagination: Option<PaginationRequest>) -> (r: Result<BalancesResponse, BankError>)
        ensures
            exists|reply: QueryReply|
                #[trigger] client.answers(SPENDABLE_BALANCES_PATH@, spendable_balances_request_of(address@, opt_page_request(pagination)), reply) && list_result_view(r) == spendable_balances_outcome(reply, asked_total(pagination)),
    {
        let req = self.spendable_balances_request(address, &pagination);
        let reply = client.query(req.path.as_str(), req.body.as_slice());
        let ghost g = reply;
        let r = self.spendable_balances_response(&pagination, reply);
        assert(client.answers(SPENDABLE_BALANCES_PATH@, spendable_balances_request_of(address@, opt_page_request(pagination)), g) && list_result_view(r) == spendable_balances_outcome(g, asked_total(pagination)));
        r
    }

    /// Queries the global supply of `denom`.
    pub fn bank_query_supply<C: ChainClient>(&self, client: &C, denom: &str) -> (r: Result<BalanceResponse, BankError>)
        ensures
            exists|reply: QueryReply|
                #[trigger] client.answers(SUPPLY_OF_PATH@, supply_of_request_of(denom@), reply) && coin_result_view(r) == supply_outcome(reply, denom@),
    {
        let req = self.supply_request(denom);
        let reply = client.query(req.path.as_str(), req.body.as_slice());
        let ghost g = reply;
        let r = self.supply_response(denom, reply);
        assert(client.answers(SUPPLY_OF_PATH@, supply_of_request_of(denom@), g) && coin_result_view(r) == supply_outcome(g, denom@));
        r
    }

    /// Queries the global supply of every denomination, a page at a time.
    pub fn bank_query_total_supply<C: ChainClient>(&self, client: &C, pagination: Option<PaginationRequest>) -> (r: Result<BalancesResponse, BankError>)
        ensures
            exists|reply: QueryReply|
                #[trigger] client.answers(TOTAL_SUPPLY_PATH@, total_supply_request_of(opt_page_request(pagination)), reply) && list_result_view(r) == total_supply_outcome(reply, asked_total(pagination)),
    {
        let req = self.total_supply_request(&pagination);
        let reply = client.query(req.path.as_str(), req.body.as_slice());
        let ghost g = reply;
        let r = self.total_supply_response(&pagination, reply);
        assert(client.answers(TOTAL_SUPPLY_PATH@, total_supply_request_of(opt_page_request(pagination)), g) && list_result_view(r) == total_supply_outcome(g, asked_total(pagination)));
        r
    }

    /// Queries the metadata of `denom`.
    pub fn bank_query_denom_metadata<C: ChainClient>(&self, client: &C, denom: &str) -> (r: Result<DenomMetadataResponse, BankError>)
        ensures
            exists|reply: QueryReply|
                #[trigger] client.answers(DENOM_METADATA_PATH@, denom_metadata_request_of(denom@), reply) && metadata_result_view(r) == denom_metadata_outcome(reply),
    {
        let req = self.denom_metadata_request(denom);
        let reply = client.query(req.path.as_str(), req.body.as_slice());
        let ghost g = reply;
        let r = self.denom_metadata_response(reply);
        assert(client.answers(DENOM_METADATA_PATH@, denom_metadata_request_of(denom@), g) && metadata_result_view(r) == denom_metadata_outcome(g));
        r
    }

    /// Queries the metadata of every denomination, a page at a time.
    pub fn bank_query_denoms_metadata<C: ChainClient>(&self, client: &C, pagination: Option<PaginationRequest>) -> (r: Result<DenomsMetadataResponse, BankError>)
        ensures
            exists|reply: QueryReply|
                #[trigger] client.answers(DENOMS_METADATA_PATH@, denoms_metadata_request_of(opt_page_request(pagination)), reply) && metadata_list_result_view(r) == denoms_metadata_outcome(reply, asked_total(pagination)),
    {
        let req = self.denoms_metadata_request(&pagination);
        let reply = client.query(req.path.as_str(), req.body.as_slice());
        let ghost g = reply;
        let r = self.denoms_metadata_response(&pagination, reply);
        assert(client.answers(DENOMS_METADATA_PATH@, denoms_metadata_request_of(opt_page_request(pagination)), g) && metadata_list_result_view(r) == denoms_metadata_outcome(g, asked_total(pagination)));
        r
    }

    /// Queries the bank module's parameters.
    pub fn bank_query_params<C: ChainClient>(&self, client: &C) -> (r: Result<ParamsResponse, BankError>)
        ensures
            exists|reply: QueryReply|
                #[trigger] client.answers(PARAMS_PATH@, Seq::<u8>::empty(), reply) && params_result_view(r) == params_outcome(reply),
    {
        let req = self.params_request();
        assert(req.body@ =~= Seq::<u8>::empty());
        let reply = client.query(req.path.as_str(), req.body.as_slice());
        let ghost g = reply;
        let r = self.params_response(reply);
        assert(client.answers(PARAMS_PATH@, Seq::<u8>::empty(), g) && params_result_view(r) == params_outcome(g));
        r
    }
}

} // verus!
