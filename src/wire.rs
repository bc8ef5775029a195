use vstd::prelude::*;

use cosmos_sdk_proto::cosmos::auth::v1beta1::{BaseAccount, QueryAccountRequest, QueryAccountResponse};
use cosmos_sdk_proto::cosmos::bank::v1beta1::{
    QueryAllBalancesRequest, QueryAllBalancesResponse, QueryBalanceRequest,
    QueryBalanceResponse, QueryDenomMetadataRequest, QueryDenomMetadataResponse,
    QueryDenomsMetadataRequest, QueryDenomsMetadataResponse, QueryParamsRequest, QueryParamsResponse,
    QuerySpendableBalancesRequest, QuerySpendableBalancesResponse, QuerySupplyOfRequest,
    QuerySupplyOfResponse, QueryTotalSupplyRequest, QueryTotalSupplyResponse,
};
use cosmos_sdk_proto::cosmos::base::query::v1beta1::{PageRequest, PageResponse};
use cosmos_sdk_proto::prost::Message;

use crate::amount::WireCoin;
use crate::tx::AnyMsg;
use crate::model::{
    metadata_list, opt_metadata, opt_params, BankParams, DenomMetadata, DenomUnit, MetadataView,
    ParamsView, SendEnabled,
};
use crate::pagination::{WirePageRequest, WirePageResponse};

verus! {

pub type PageView = (Seq<u8>, u64, u64, bool, bool);

pub type CoinView = (Seq<char>, Seq<char>);

pub open spec fn opt_wire_coin(c: Option<WireCoin>) -> Option<CoinView> {
    match c {
        Some(w) => Some(w@),
        None => None,
    }
}

pub open spec fn opt_wire_request(p: Option<WirePageRequest>) -> Option<PageView> {
    match p {
        Some(w) => Some(w@),
        None => None,
    }
}

pub open spec fn coin_list_view(r: Option<(Vec<WireCoin>, Option<WirePageResponse>)>) -> Option<
    (Seq<CoinView>, Option<(Seq<u8>, u64)>),
> {
    match r {
        Some(x) => Some(
            (crate::query::wire_coins_view(x.0@), crate::query::opt_wire_page(x.1)),
        ),
        None => None,
    }
}

/// The marshaled bytes of each query request, as prost encodes them.
pub uninterp spec fn balance_request_of(address: Seq<char>, denom: Seq<char>) -> Seq<u8>;

pub uninterp spec fn all_balances_request_of(address: Seq<char>, page: Option<PageView>) -> Seq<u8>;

pub uninterp spec fn spendable_balances_request_of(address: Seq<char>, page: Option<PageView>) -> Seq<u8>;

pub uninterp spec fn supply_of_request_of(denom: Seq<char>) -> Seq<u8>;

pub uninterp spec fn total_supply_request_of(page: Option<PageView>) -> Seq<u8>;

pub uninterp spec fn denom_metadata_request_of(denom: Seq<char>) -> Seq<u8>;

pub uninterp spec fn denoms_metadata_request_of(page: Option<PageView>) -> Seq<u8>;

pub uninterp spec fn account_request_of(address: Seq<char>) -> Seq<u8>;

/// What each list or single-coin reply unmarshals to, if it does.
pub uninterp spec fn balance_reply_of(b: Seq<u8>) -> Option<Option<CoinView>>;

pub uninterp spec fn supply_of_reply_of(b: Seq<u8>) -> Option<Option<CoinView>>;

pub uninterp spec fn all_balances_reply_of(b: Seq<u8>) -> Option<(Seq<CoinView>, Option<(Seq<u8>, u64)>)>;

pub uninterp spec fn spendable_balances_reply_of(b: Seq<u8>) -> Option<(Seq<CoinView>, Option<(Seq<u8>, u64)>)>;

pub uninterp spec fn total_supply_reply_of(b: Seq<u8>) -> Option<(Seq<CoinView>, Option<(Seq<u8>, u64)>)>;

/// The metadata a denomination metadata reply holds, if it unmarshals.
pub uninterp spec fn denom_metadata_reply_of(b: Seq<u8>) -> Option<Option<MetadataView>>;

/// The metadata entries, in order, and the cursor of a metadata list reply, if it unmarshals.
pub uninterp spec fn denoms_metadata_reply_of(b: Seq<u8>) -> Option<(Seq<MetadataView>, Option<(Seq<u8>, u64)>)>;

/// The parameters a parameters reply holds, if it unmarshals.
pub uninterp spec fn params_reply_of(b: Seq<u8>) -> Option<Option<ParamsView>>;

/// The packed account (type URL and value) an account reply holds, if it unmarshals.
pub uninterp spec fn account_any_of(b: Seq<u8>) -> Option<Option<(Seq<char>, Seq<u8>)>>;

/// The account number and sequence of an encoded base account, if it unmarshals.
pub uninterp spec fn base_account_of(b: Seq<u8>) -> Option<(u64, u64)>;

/// Relies on prost's `Message::encode_to_vec` for `QueryBalanceRequest`.
#[verifier::external_body]
pub(crate) fn marshal_balance_request(address: &str, denom: &str) -> (r: Vec<u8>)
    ensures
        r@ == balance_request_of(address@, denom@),
{
    QueryBalanceRequest { address: address.to_string(), denom: denom.to_string() }.encode_to_vec()
}

/// Relies on prost's `Message::encode_to_vec` for `QueryAllBalancesRequest`.
#[verifier::external_body]
pub(crate) fn marshal_all_balances_request(address: &str, page: Option<WirePageRequest>) -> (r: Vec<u8>)
    ensures
        r@ == all_balances_request_of(address@, opt_wire_request(page)),
{
    let pagination = page.map(|p| PageRequest {
        key: p.key,
        offset: p.offset,
        limit: p.limit,
        count_total: p.count_total,
        reverse: p.reverse,
    });
    QueryAllBalancesRequest { address: address.to_string(), pagination, resolve_denom: false }.encode_to_vec()
}

/// Relies on prost's `Message::encode_to_vec` for `QuerySpendableBalancesRequest`.
#[verifier::external_body]
pub(crate) fn marshal_spendable_balances_request(address: &str, page: Option<WirePageRequest>) -> (r: Vec<u8>)
    ensures
        r@ == spendable_balances_request_of(address@, opt_wire_request(page)),
{
    let pagination = page.map(|p| PageRequest {
        key: p.key,
        offset: p.offset,
        limit: p.limit,
        count_total: p.count_total,
        reverse: p.reverse,
    });
    QuerySpendableBalancesRequest { address: address.to_string(), pagination }.encode_to_vec()
}

/// Relies on prost's `Message::encode_to_vec` for `QuerySupplyOfRequest`.
#[verifier::external_body]
pub(crate) fn marshal_supply_of_request(denom: &str) -> (r: Vec<u8>)
    ensures
        r@ == supply_of_request_of(denom@),
{
    QuerySupplyOfRequest { denom: denom.to_string() }.encode_to_vec()
}

/// Relies on prost's `Message::encode_to_vec` for `QueryTotalSupplyRequest`.
#[verifier::external_body]
pub(crate) fn marshal_total_supply_request(page: Option<WirePageRequest>) -> (r: Vec<u8>)
    ensures
        r@ == total_supply_request_of(opt_wire_request(page)),
{
    let pagination = page.map(|p| PageRequest {
        key: p.key,
        offset: p.offset,
        limit: p.limit,
        count_total: p.count_total,
        reverse: p.reverse,
    });
    QueryTotalSupplyRequest { pagination }.encode_to_vec()
}

/// Relies on prost's `Message::encode_to_vec` for `QueryDenomMetadataRequest`.
#[verifier::external_body]
pub(crate) fn marshal_denom_metadata_request(denom: &str) -> (r: Vec<u8>)
    ensures
        r@ == denom_metadata_request_of(denom@),
{
    QueryDenomMetadataRequest { denom: denom.to_string() }.encode_to_vec()
}

/// Relies on prost's `Message::encode_to_vec` for `QueryDenomsMetadataRequest`.
#[verifier::external_body]
pub(crate) fn marshal_denoms_metadata_request(page: Option<WirePageRequest>) -> (r: Vec<u8>)
    ensures
        r@ == denoms_metadata_request_of(opt_wire_request(page)),
{
    let pagination = page.map(|p| PageRequest {
        key: p.key,
        offset: p.offset,
        limit: p.limit,
        count_total: p.count_total,
        reverse: p.reverse,
    });
    QueryDenomsMetadataRequest { pagination }.encode_to_vec()
}

/// Relies on prost's `Message::encode_to_vec` for `QueryAccountRequest`.
#[verifier::external_body]
pub(crate) fn marshal_account_request(address: &str) -> (r: Vec<u8>)
    ensures
        r@ == account_request_of(address@),
{
    QueryAccountRequest { address: address.to_string() }.encode_to_vec()
}

/// Relies on prost's `Message::encode_to_vec` for `QueryParamsRequest`, a
/// message without fields, which encodes to no bytes.
#[verifier::external_body]
pub(crate) fn marshal_params_request() -> (r: Vec<u8>)
    ensures
        r@.len() == 0,
{
    QueryParamsRequest {}.encode_to_vec()
}

/// Relies on prost's `Message::decode` for `QueryBalanceResponse`.
#[verifier::external_body]
pub(crate) fn unmarshal_balance_reply(b: &[u8]) -> (r: Option<Option<WireCoin>>)
    ensures
        match r {
            Some(c) => balance_reply_of(b@) == Some(opt_wire_coin(c)),
            None => balance_reply_of(b@) is None,
        },
{
    QueryBalanceResponse::decode(b)
        .ok()
        .map(|r| r.balance.map(|c| WireCoin { denom: c.denom, amount: c.amount }))
}

/// Relies on prost's `Message::decode` for `QuerySupplyOfResponse`.
#[verifier::external_body]
pub(crate) fn unmarshal_supply_of_reply(b: &[u8]) -> (r: Option<Option<WireCoin>>)
    ensures
        match r {
            Some(c) => supply_of_reply_of(b@) == Some(opt_wire_coin(c)),
            None => supply_of_reply_of(b@) is None,
        },
{
    QuerySupplyOfResponse::decode(b)
        .ok()
        .map(|r| r.amount.map(|c| WireCoin { denom: c.denom, amount: c.amount }))
}

/// Relies on prost's `Message::decode` for `QueryAllBalancesResponse`.
#[verifier::external_body]
pub(crate) fn unmarshal_all_balances_reply(b: &[u8]) -> (r: Option<(Vec<WireCoin>, Option<WirePageResponse>)>)
    ensures
        coin_list_view(r) == all_balances_reply_of(b@),
{
    QueryAllBalancesResponse::decode(b).ok().map(|r| (
        r.balances.into_iter().map(|c| WireCoin { denom: c.denom, amount: c.amount }).collect(),
        r.pagination.map(|p: PageResponse| WirePageResponse { next_key: p.next_key, total: p.total }),
    ))
}

/// Relies on prost's `Message::decode` for `QuerySpendableBalancesResponse`.
#[verifier::external_body]
pub(crate) fn unmarshal_spendable_balances_reply(b: &[u8]) -> (r: Option<(Vec<WireCoin>, Option<WirePageResponse>)>)
    ensures
        coin_list_view(r) == spendable_balances_reply_of(b@),
{
    QuerySpendableBalancesResponse::decode(b).ok().map(|r| (
        r.balances.into_iter().map(|c| WireCoin { denom: c.denom, amount: c.amount }).collect(),
        r.pagination.map(|p: PageResponse| WirePageResponse { next_key: p.next_key, total: p.total }),
    ))
}

/// Relies on prost's `Message::decode` for `QueryTotalSupplyResponse`.
#[verifier::external_body]
pub(crate) fn unmarshal_total_supply_reply(b: &[u8]) -> (r: Option<(Vec<WireCoin>, Option<WirePageResponse>)>)
    ensures
        coin_list_view(r) == total_supply_reply_of(b@),
{
    QueryTotalSupplyResponse::decode(b).ok().map(|r| (
        r.supply.into_iter().map(|c| WireCoin { denom: c.denom, amount: c.amount }).collect(),
        r.pagination.map(|p: PageResponse| WirePageResponse { next_key: p.next_key, total: p.total }),
    ))
}

/// Relies on prost's `Message::decode` for `QueryDenomMetadataResponse`.
#[verifier::external_body]
pub(crate) fn unmarshal_denom_metadata_reply(b: &[u8]) -> (r: Option<Option<DenomMetadata>>)
    ensures
        match r {
            Some(m) => denom_metadata_reply_of(b@) == Some(opt_metadata(m)),
            None => denom_metadata_reply_of(b@) is None,
        },
{
    QueryDenomMetadataResponse::decode(b).ok().map(|r| r.metadata.map(|m| DenomMetadata {
        description: m.description,
        denom_units: m.denom_units.into_iter().map(|u| DenomUnit { denom: u.denom, exponent: u.exponent, aliases: u.aliases }).collect(),
        base: m.base, display: m.display, name: m.name, symbol: m.symbol, uri: m.uri, uri_hash: m.uri_hash,
    }))
}

/// Relies on prost's `Message::decode` for `QueryDenomsMetadataResponse`.
#[verifier::external_body]
pub(crate) fn unmarshal_denoms_metadata_reply(b: &[u8]) -> (r: Option<(Vec<DenomMetadata>, Option<WirePageResponse>)>)
    ensures
        match r {
            Some(x) => denoms_metadata_reply_of(b@) == Some(
                (metadata_list(x.0@), crate::query::opt_wire_page(x.1)),
            ),
            None => denoms_metadata_reply_of(b@) is None,
        },
{
    QueryDenomsMetadataResponse::decode(b).ok().map(|r| (
        r.metadatas.into_iter().map(|m| DenomMetadata {
            description: m.description,
            denom_units: m.denom_units.into_iter().map(|u| DenomUnit { denom: u.denom, exponent: u.exponent, aliases: u.aliases }).collect(),
            base: m.base, display: m.display, name: m.name, symbol: m.symbol, uri: m.uri, uri_hash: m.uri_hash,
        }).collect(),
        r.pagination.map(|p: PageResponse| WirePageResponse { next_key: p.next_key, total: p.total }),
    ))
}

/// Relies on prost's `Message::decode` for `QueryParamsResponse`.
#[verifier::external_body]
pub(crate) fn unmarshal_params_reply(b: &[u8]) -> (r: Option<Option<BankParams>>)
    ensures
        match r {
            Some(p) => params_reply_of(b@) == Some(opt_params(p)),
            None => params_reply_of(b@) is None,
        },
{
    QueryParamsResponse::decode(b).ok().map(|r| r.params.map(|p| BankParams {
        send_enabled: p.send_enabled.into_iter().map(|e| SendEnabled { denom: e.denom, enabled: e.enabled }).collect(),
        default_send_enabled: p.default_send_enabled,
    }))
}

/// Relies on prost's `Message::decode` for `QueryAccountResponse`.
#[verifier::external_body]
pub(crate) fn unmarshal_account_reply(b: &[u8]) -> (r: Option<Option<AnyMsg>>)
    ensures
        match r {
            Some(Some(a)) => account_any_of(b@) == Some(Some(a@)),
            Some(None) => account_any_of(b@) == Some(None::<(Seq<char>, Seq<u8>)>),
            None => account_any_of(b@) is None,
        },
{
    QueryAccountResponse::decode(b).ok().map(|r| r.account.map(|a| AnyMsg { type_url: a.type_url, value: a.value }))
}

/// Relies on prost's `Message::decode` for `BaseAccount`.
#[verifier::external_body]
pub(crate) fn unmarshal_base_account(b: &[u8]) -> (r: Option<(u64, u64)>)
    ensures
        r == base_account_of(b@),
{
    BaseAccount::decode(b).ok().map(|acc| (acc.account_number, acc.sequence))
}

} // verus!
