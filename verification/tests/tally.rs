use buggle::tally::{count_data_rows, tally_outcome, FetchOutcome};

#[test]
fn empty_body_has_no_rows() {
    assert_eq!(count_data_rows(b""), 0);
}

#[test]
fn header_alone_has_no_rows() {
    assert_eq!(count_data_rows(b"bug_id,summary"), 0);
}

#[test]
fn rows_after_the_header_are_counted() {
    assert_eq!(count_data_rows(b"bug_id,summary\n1,a"), 1);
    assert_eq!(count_data_rows(b"bug_id,summary\n1,a\n2,b\n3,c"), 3);
}

#[test]
fn a_closing_newline_starts_one_more_line() {
    assert_eq!(count_data_rows(b"bug_id,summary\n"), 1);
    assert_eq!(count_data_rows(b"bug_id,summary\n1,a\n"), 2);
    assert_eq!(count_data_rows(b"\n"), 1);
    assert_eq!(count_data_rows(b"\n\n\n"), 3);
}

#[test]
fn count_is_lines_less_the_header() {
    let bodies: [&[u8]; 6] = [b"", b"h", b"h\nr", b"h\r\nr\r\n", b"\n\nx", b"a,b\n1,2\n3,4\n5,6"];
    for body in bodies {
        let lines = body.split(|b| *b == 10u8).count();
        assert_eq!(count_data_rows(body), (lines - 1) as u64);
    }
}

#[test]
fn only_the_newline_byte_ends_a_line() {
    assert_eq!(count_data_rows(b"h\rr\rr"), 0);
    assert_eq!(count_data_rows(&[0u8, 9, 11, 13, 255]), 0);
    assert_eq!(count_data_rows(&[10u8, 0, 10, 255, 10]), 3);
}

#[test]
fn failed_request_has_no_count() {
    assert_eq!(tally_outcome(&FetchOutcome::Failed), None);
}

#[test]
fn success_is_status_200_alone() {
    let body = b"h\n1\n2".to_vec();
    assert_eq!(tally_outcome(&FetchOutcome::Response { status: 200, body: body.clone() }), Some(2));
    for status in [0u16, 100, 199, 201, 204, 301, 404, 500, 65535] {
        assert_eq!(tally_outcome(&FetchOutcome::Response { status, body: body.clone() }), None);
    }
}

#[test]
fn successful_empty_response_counts_zero() {
    assert_eq!(tally_outcome(&FetchOutcome::Response { status: 200, body: vec![] }), Some(0));
}
