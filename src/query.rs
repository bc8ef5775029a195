use vstd::prelude::*;

use crate::amount::{coin_of_wire, Coin, WireCoin};
use crate::error::{ChainError, TransportError};
use crate::pagination::{
    decode_response_spec, PaginationRequest, PaginationResponse, WirePageRequest,
    WirePageResponse,
};

verus! {

/// A query ready for the transport: the method path and the marshaled request.
#[derive(Clone, Debug, PartialEq, Eq)]
pub struct QueryRequest {
    pub path: String,
    pub body: Vec<u8>,
}

/// What the transport handed back for a query.
pub type QueryReply = Result<Vec<u8>, TransportError>;

/// The outcome of a query whose reply bytes `decode` reads: a transport
/// failure stays one, and bytes that do not unmarshal are a decode error.
pub open spec fn dispatched<T>(reply: QueryReply, decode: spec_fn(Seq<u8>) -> Option<T>) -> Result<
    T,
    ChainError,
> {
    match reply {
        Err(e) => Err(ChainError::Transport(e)),
        Ok(b) => match decode(b@) {
            Some(v) => Ok(v),
            None => Err(ChainError::Decode),
        },
    }
}

/// A transport failure is reported as such, whatever the decoder: the reply
/// holds no bytes to unmarshal.
pub proof fn lemma_transport_failure_surfaces<T>(e: TransportError, decode: spec_fn(Seq<u8>) -> Option<T>)
    ensures
        dispatched(Err(e), decode) == Err::<T, ChainError>(ChainError::Transport(e)),
{
}

/// Bytes that do not unmarshal are a decode error, never a value.
pub proof fn lemma_undecodable_reply_is_decode_error<T>(b: Vec<u8>, decode: spec_fn(Seq<u8>) -> Option<T>)
    requires
        decode(b@) is None,
    ensures
        dispatched(Ok(b), decode) == Err::<T, ChainError>(ChainError::Decode),
{
}

/// Hands the bytes of a reply on, or turns the transport failure into an error.
pub fn reply_bytes(reply: QueryReply) -> (r: Result<Vec<u8>, ChainError>)
    ensures
        match reply {
            Ok(b) => r == Ok::<Vec<u8>, ChainError>(b),
            Err(e) => r == Err::<Vec<u8>, ChainError>(ChainError::Transport(e)),
        },
{
    match reply {
        Ok(b) => Ok(b),
        Err(e) => Err(ChainError::Transport(e)),
    }
}

/// A decoded value, or a decode error where the bytes did not unmarshal.
pub fn decoded<T>(d: Option<T>) -> (r: Result<T, ChainError>)
    ensures
        match d {
            Some(v) => r == Ok::<T, ChainError>(v),
            None => r == Err::<T, ChainError>(ChainError::Decode),
        },
{
    match d {
        Some(v) => Ok(v),
        None => Err(ChainError::Decode),
    }
}

pub open spec fn wire_coins_view(v: Seq<WireCoin>) -> Seq<(Seq<char>, Seq<char>)> {
    v.map_values(|w: WireCoin| w@)
}

pub open spec fn coins_view(v: Seq<Coin>) -> Seq<(Seq<char>, nat)> {
    v.map_values(|c: Coin| c@)
}

pub open spec fn all_coins_valid(ws: Seq<(Seq<char>, Seq<char>)>) -> bool {
    forall|i: int| 0 <= i < ws.len() ==> (#[trigger] coin_of_wire(ws[i])) is Some
}

/// The coins that wire pairs denote, where every amount is valid.
pub open spec fn coins_of_wire(ws: Seq<(Seq<char>, Seq<char>)>) -> Option<Seq<(Seq<char>, nat)>> {
    if all_coins_valid(ws) {
        Some(ws.map_values(|w: (Seq<char>, Seq<char>)| coin_of_wire(w).unwrap()))
    } else {
        None
    }
}

/// Converts every wire coin, failing on the first malformed amount.
pub fn coins_from_wire(ws: &Vec<WireCoin>) -> (r: Result<Vec<Coin>, ChainError>)
    ensures
        match coins_of_wire(wire_coins_view(ws@)) {
            Some(cs) => (r matches Ok(v) && coins_view(v@) == cs),
            None => r == Err::<Vec<Coin>, ChainError>(ChainError::MalformedAmount),
        },
{
    let ghost wv = wire_coins_view(ws@);
    let mut out: Vec<Coin> = Vec::new();
    let mut i: usize = 0;
    while i < ws.len()
        invariant
            i <= ws.len(),
            wv == wire_coins_view(ws@),
            out@.len() == i,
            forall|j: int| 0 <= j < i ==> (#[trigger] coin_of_wire(wv[j])) == Some(out@[j]@),
        decreases ws.len() - i,
    {
        match Coin::from_wire(&ws[i]) {
            Ok(c) => {
                out.push(c);
            },
            Err(e) => {
                assert(coin_of_wire(wv[i as int]) is None);
                assert(!all_coins_valid(wv));
                return Err(e);
            },
        }
        i = i + 1;
    }
    assert(all_coins_valid(wv)) by {
        assert forall|j: int| 0 <= j < wv.len() implies (#[trigger] coin_of_wire(wv[j])) is Some by {
            assert(coin_of_wire(wv[j]) == Some(out@[j]@));
        }
    }
    assert(coins_view(out@) =~= coins_of_wire(wv).unwrap());
    Ok(out)
}

pub open spec fn opt_page_request(p: Option<PaginationRequest>) -> Option<(Seq<u8>, u64, u64, bool, bool)> {
    match p {
        Some(c) => Some(crate::pagination::encode_request_spec(c@)),
        None => None,
    }
}

/// The wire form of an optional request cursor.
pub fn page_to_wire(p: &Option<PaginationRequest>) -> (r: Option<WirePageRequest>)
    ensures
        match r {
            Some(w) => opt_page_request(*p) == Some(w@),
            None => opt_page_request(*p) is None,
        },
{
    match p {
        Some(c) => Some(c.encode_request()),
        None => None,
    }
}

pub open spec fn opt_page_response(p: Option<(Seq<u8>, u64)>, count_total: bool) -> Option<
    (Option<Seq<u8>>, Option<u64>),
> {
    match p {
        Some(w) => Some(decode_response_spec(w, count_total)),
        None => None,
    }
}

pub open spec fn opt_wire_page(p: Option<WirePageResponse>) -> Option<(Seq<u8>, u64)> {
    match p {
        Some(w) => Some(w@),
        None => None,
    }
}

pub open spec fn opt_cursor(p: Option<PaginationResponse>) -> Option<(Option<Seq<u8>>, Option<u64>)> {
    match p {
        Some(c) => Some(c@),
        None => None,
    }
}

/// The response cursor of an optional wire cursor.
pub fn page_from_wire(p: &Option<WirePageResponse>, count_total: bool) -> (r: Option<
    PaginationResponse,
>)
    ensures
        opt_cursor(r) == opt_page_response(opt_wire_page(*p), count_total),
{
    match p {
        Some(w) => Some(PaginationResponse::decode_response(w, count_total)),
        None => None,
    }
}

} // verus!
