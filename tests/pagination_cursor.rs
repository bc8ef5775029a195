use cosm_bank::pagination::{PaginationRequest, PaginationResponse, WirePageResponse};

fn cursor(key: Option<Vec<u8>>, offset: Option<u64>) -> PaginationRequest {
    PaginationRequest { key, offset, limit: 25, count_total: true, reverse: true }
}

#[test]
fn request_round_trip_keeps_fields() {
    for c in [
        cursor(Some(vec![1, 2, 3]), None),
        cursor(None, Some(40)),
        cursor(None, None),
        cursor(Some(vec![0]), Some(1)),
    ] {
        let w = c.encode_request();
        assert_eq!(PaginationRequest::decode_request(&w), c);
    }
}

#[test]
fn request_encoding_fills_absent_fields() {
    let w = cursor(None, None).encode_request();
    assert!(w.key.is_empty());
    assert_eq!(w.offset, 0);
    assert_eq!(w.limit, 25);
    assert!(w.count_total);
    assert!(w.reverse);
}

#[test]
fn response_round_trip_keeps_fields() {
    let r = PaginationResponse { next_key: Some(vec![9, 8]), total: Some(0) };
    let w = r.encode_response();
    assert_eq!(PaginationResponse::decode_response(&w, true), r);
    let r = PaginationResponse { next_key: None, total: None };
    assert_eq!(PaginationResponse::decode_response(&r.encode_response(), false), r);
}

#[test]
fn response_total_only_when_asked() {
    let w = WirePageResponse { next_key: vec![], total: 12 };
    assert_eq!(PaginationResponse::decode_response(&w, false).total, None);
    assert_eq!(PaginationResponse::decode_response(&w, true).total, Some(12));
    assert_eq!(PaginationResponse::decode_response(&w, true).next_key, None);
}

#[test]
fn next_page_follows_key_and_stops_without_one() {
    let req = cursor(None, Some(5));
    let more = PaginationResponse { next_key: Some(vec![7, 7]), total: None };
    let next = req.next_page(&more).unwrap();
    assert_eq!(next.key, Some(vec![7, 7]));
    assert_eq!(next.offset, None);
    assert_eq!(next.limit, 25);
    let done = PaginationResponse { next_key: None, total: Some(3) };
    assert_eq!(req.next_page(&done), None);
}
