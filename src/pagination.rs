use vstd::prelude::*;

verus! {

/// A request cursor for list queries.
#[derive(Clone, Debug, PartialEq, Eq)]
pub struct PaginationRequest {
    /// Opaque key to start from, as handed back by the previous page.
    pub key: Option<Vec<u8>>,
    pub offset: Option<u64>,
    pub limit: u64,
    pub count_total: bool,
    pub reverse: bool,
}

/// A response cursor: the key of the next page and the total, if requested.
#[derive(Clone, Debug, PartialEq, Eq)]
pub struct PaginationResponse {
    pub next_key: Option<Vec<u8>>,
    pub total: Option<u64>,
}

/// The wire form of a request cursor, where an empty key and a zero offset
/// stand for absence.
#[derive(Clone, Debug, PartialEq, Eq)]
pub struct WirePageRequest {
    pub key: Vec<u8>,
    pub offset: u64,
    pub limit: u64,
    pub count_total: bool,
    pub reverse: bool,
}

/// The wire form of a response cursor.
#[derive(Clone, Debug, PartialEq, Eq)]
pub struct WirePageResponse {
    pub next_key: Vec<u8>,
    pub total: u64,
}

pub open spec fn opt_bytes(o: Option<Vec<u8>>) -> Option<Seq<u8>> {
    match o {
        Some(v) => Some(v@),
        None => None,
    }
}

pub open spec fn bytes_or_absent(s: Seq<u8>) -> Option<Seq<u8>> {
    if s.len() == 0 {
        None
    } else {
        Some(s)
    }
}

impl View for PaginationRequest {
    type V = (Option<Seq<u8>>, Option<u64>, u64, bool, bool);

    open spec fn view(&self) -> Self::V {
        (opt_bytes(self.key), self.offset, self.limit, self.count_total, self.reverse)
    }
}

impl View for PaginationResponse {
    type V = (Option<Seq<u8>>, Option<u64>);

    open spec fn view(&self) -> Self::V {
        (opt_bytes(self.next_key), self.total)
    }
}

impl View for WirePageRequest {
    type V = (Seq<u8>, u64, u64, bool, bool);

    open spec fn view(&self) -> Self::V {
        (self.key@, self.offset, self.limit, self.count_total, self.reverse)
    }
}

impl View for WirePageResponse {
    type V = (Seq<u8>, u64);

    open spec fn view(&self) -> Self::V {
        (self.next_key@, self.total)
    }
}

pub open spec fn encode_request_spec(c: (Option<Seq<u8>>, Option<u64>, u64, bool, bool)) -> (
    Seq<u8>,
    u64,
    u64,
    bool,
    bool,
) {
    (
        match c.0 {
            Some(k) => k,
            None => Seq::empty(),
        },
        match c.1 {
            Some(o) => o,
            None => 0,
        },
        c.2,
        c.3,
        c.4,
    )
}

pub open spec fn decode_request_spec(w: (Seq<u8>, u64, u64, bool, bool)) -> (
    Option<Seq<u8>>,
    Option<u64>,
    u64,
    bool,
    bool,
) {
    (bytes_or_absent(w.0), if w.1 == 0 { None } else { Some(w.1) }, w.2, w.3, w.4)
}

pub open spec fn encode_response_spec(c: (Option<Seq<u8>>, Option<u64>)) -> (Seq<u8>, u64) {
    (
        match c.0 {
            Some(k) => k,
            None => Seq::empty(),
        },
        match c.1 {
            Some(t) => t,
            None => 0,
        },
    )
}

pub open spec fn decode_response_spec(w: (Seq<u8>, u64), count_total: bool) -> (
    Option<Seq<u8>>,
    Option<u64>,
) {
    (bytes_or_absent(w.0), if count_total { Some(w.1) } else { None })
}

pub(crate) fn copy_bytes(v: &Vec<u8>) -> (r: Vec<u8>)
    ensures
        r@ == v@,
{
    let r = v.clone();
    assert(r@ =~= v@);
    r
}

fn opt_from_bytes(v: &Vec<u8>) -> (r: Option<Vec<u8>>)
    ensures
        opt_bytes(r) == bytes_or_absent(v@),
{
    if v.len() == 0 {
        None
    } else {
        Some(copy_bytes(v))
    }
}

impl PaginationRequest {
    pub fn encode_request(&self) -> (r: WirePageRequest)
        ensures
            r@ == encode_request_spec(self@),
    {
        let key = match &self.key {
            Some(k) => copy_bytes(k),
            None => Vec::new(),
        };
        let offset = match self.offset {
            Some(o) => o,
            None => 0,
        };
        WirePageRequest {
            key,
            offset,
            limit: self.limit,
            count_total: self.count_total,
            reverse: self.reverse,
        }
    }

    pub fn decode_request(w: &WirePageRequest) -> (r: PaginationRequest)
        ensures
            r@ == decode_request_spec(w@),
    {
        PaginationRequest {
            key: opt_from_bytes(&w.key),
            offset: if w.offset == 0 {
                None
            } else {
                Some(w.offset)
            },
            limit: w.limit,
            count_total: w.count_total,
            reverse: w.reverse,
        }
    }

    /// The request for the page after `resp`, or `None` once the last page is in.
    pub fn next_page(&self, resp: &PaginationResponse) -> (r: Option<PaginationRequest>)
        ensures
            resp.next_key is None <==> r is None,
            r matches Some(n) ==> n@ == (opt_bytes(resp.next_key), None::<u64>, self.limit,
                self.count_total, self.reverse),
    {
        match &resp.next_key {
            None => None,
            Some(k) => Some(
                PaginationRequest {
                    key: Some(copy_bytes(k)),
                    offset: None,
                    limit: self.limit,
                    count_total: self.count_total,
                    reverse: self.reverse,
                },
            ),
        }
    }
}

impl PaginationResponse {
    pub fn encode_response(&self) -> (r: WirePageResponse)
        ensures
            r@ == encode_response_spec(self@),
    {
        WirePageResponse {
            next_key: match &self.next_key {
                Some(k) => copy_bytes(k),
                None => Vec::new(),
            },
            total: match self.total {
                Some(t) => t,
                None => 0,
            },
        }
    }

    /// Reads a wire cursor; the total is kept only where it was asked for.
    pub fn decode_response(w: &WirePageResponse, count_total: bool) -> (r: PaginationResponse)
        ensures
            r@ == decode_response_spec(w@, count_total),
    {
        PaginationResponse {
            next_key: opt_from_bytes(&w.next_key),
            total: if count_total {
                Some(w.total)
            } else {
                None
            },
        }
    }
}

/// A request cursor survives its wire form, where its key is not an empty
/// sequence and its offset not zero (the wire cannot tell those from absence).
pub proof fn lemma_request_round_trip(c: PaginationRequest)
    requires
        c.key matches Some(k) ==> k@.len() > 0,
        c.offset != Some(0u64),
    ensures
        decode_request_spec(encode_request_spec(c@)) == c@,
{
}

/// A response cursor survives its wire form, where its next key is not an
/// empty sequence, when the total is read back as it was asked for.
pub proof fn lemma_response_round_trip(c: PaginationResponse)
    requires
        c.next_key matches Some(k) ==> k@.len() > 0,
    ensures
        decode_response_spec(encode_response_spec(c@), c.total is Some) == c@,
{
}

} // verus!
