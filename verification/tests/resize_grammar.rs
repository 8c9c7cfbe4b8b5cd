use pty_bridge::PtySize;
use pty_bridge::parse_pty_size;

fn size(rows: u16, cols: u16, pixel_width: u16, pixel_height: u16) -> PtySize {
    PtySize { rows, cols, pixel_width, pixel_height }
}

#[test]
fn parses_the_plain_resize_payload() {
    let payload = b"{\"rows\":40,\"cols\":120,\"pixel_width\":0,\"pixel_height\":0}";
    assert_eq!(parse_pty_size(payload), Some(size(40, 120, 0, 0)));
}

#[test]
fn parses_fields_in_any_order_with_whitespace() {
    let payload = b" { \"cols\" : 1 ,\n\t\"rows\" : 2 , \"pixel_height\" : 3 , \"pixel_width\" : 4 } ";
    assert_eq!(parse_pty_size(payload), Some(size(2, 1, 4, 3)));
}

#[test]
fn accepts_the_largest_value() {
    let payload = b"{\"rows\":65535,\"cols\":65535,\"pixel_width\":65535,\"pixel_height\":65535}";
    assert_eq!(parse_pty_size(payload), Some(size(65535, 65535, 65535, 65535)));
}

#[test]
fn rejects_a_value_out_of_range() {
    let payload = b"{\"rows\":65536,\"cols\":120,\"pixel_width\":0,\"pixel_height\":0}";
    assert_eq!(parse_pty_size(payload), None);
}

#[test]
fn rejects_a_missing_field() {
    let payload = b"{\"rows\":40,\"cols\":120,\"pixel_width\":0}";
    assert_eq!(parse_pty_size(payload), None);
}

#[test]
fn rejects_a_repeated_field() {
    let payload = b"{\"rows\":40,\"rows\":41,\"cols\":120,\"pixel_width\":0,\"pixel_height\":0}";
    assert_eq!(parse_pty_size(payload), None);
}

#[test]
fn rejects_an_unknown_key() {
    let payload = b"{\"rows\":40,\"cols\":120,\"pixel_width\":0,\"pixel_depth\":0}";
    assert_eq!(parse_pty_size(payload), None);
}

#[test]
fn rejects_an_empty_object() {
    assert_eq!(parse_pty_size(b"{}"), None);
}

#[test]
fn rejects_an_empty_payload() {
    assert_eq!(parse_pty_size(b""), None);
    assert_eq!(parse_pty_size(b"   "), None);
}

#[test]
fn rejects_a_payload_that_is_no_object() {
    assert_eq!(parse_pty_size(b"40"), None);
    assert_eq!(parse_pty_size(b"\"rows\""), None);
}

#[test]
fn rejects_a_missing_colon() {
    let payload = b"{\"rows\" 40,\"cols\":120,\"pixel_width\":0,\"pixel_height\":0}";
    assert_eq!(parse_pty_size(payload), None);
}

#[test]
fn rejects_a_missing_value() {
    let payload = b"{\"rows\":,\"cols\":120,\"pixel_width\":0,\"pixel_height\":0}";
    assert_eq!(parse_pty_size(payload), None);
}

#[test]
fn rejects_an_unclosed_object() {
    let payload = b"{\"rows\":40,\"cols\":120,\"pixel_width\":0,\"pixel_height\":0";
    assert_eq!(parse_pty_size(payload), None);
}

#[test]
fn rejects_trailing_bytes_after_the_object() {
    let payload = b"{\"rows\":40,\"cols\":120,\"pixel_width\":0,\"pixel_height\":0}x";
    assert_eq!(parse_pty_size(payload), None);
}

#[test]
fn agrees_with_a_general_json_reader_on_the_plain_payload() {
    let payload = b"{\"rows\":40,\"cols\":120,\"pixel_width\":0,\"pixel_height\":0}";
    let v: serde_json::Value = serde_json::from_slice(payload).unwrap();
    let parsed = parse_pty_size(payload).unwrap();
    assert_eq!(v["rows"].as_u64().unwrap(), parsed.rows as u64);
    assert_eq!(v["cols"].as_u64().unwrap(), parsed.cols as u64);
    assert_eq!(v["pixel_width"].as_u64().unwrap(), parsed.pixel_width as u64);
    assert_eq!(v["pixel_height"].as_u64().unwrap(), parsed.pixel_height as u64);
}
