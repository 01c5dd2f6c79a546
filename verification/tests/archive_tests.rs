use tracerbench_serve::archive::{
    decode_archive, ArchiveError, RawArchive, RawLiteral, RawResponse, RawResponseSet,
};

fn expect_err(
    r: Result<tracerbench_serve::response_set::RecordedResponseSets, ArchiveError>,
) -> ArchiveError {
    match r {
        Err(e) => e,
        Ok(_) => panic!("expected the archive to be rejected"),
    }
}

fn empty_set(port: u16) -> RawResponseSet {
    RawResponseSet {
        socks_port: port,
        name: String::from("test-set"),
        entry_key: String::from("GET example.com /x"),
        literals: Vec::new(),
        opcodes: Vec::new(),
        request_key_map: vec![(String::from("GET example.com /x"), 0)],
    }
}

fn small_archive() -> RawArchive {
    RawArchive {
        bodies: vec![b"hello world".to_vec()],
        header_names: vec![String::from("content-type")],
        header_values: vec![String::from("text/html")],
        header_lists: vec![vec![(0, 0)]],
        responses: vec![
            RawResponse { status: 200, headers_index: 0, body_index: Some(0) },
            RawResponse { status: 204, headers_index: 0, body_index: None },
        ],
        sets: vec![empty_set(4000)],
    }
}

#[test]
fn decode_small_archive() {
    let sets = decode_archive(small_archive()).unwrap();
    assert_eq!(sets.len(), 1);

    let set = sets.get(0);
    assert_eq!(set.socks_port(), 4000);
    assert_eq!(set.name(), "test-set");
    assert_eq!(set.entry_key(), "GET example.com /x");
    assert_eq!(set.response_count(), 2);

    let resp = set.get_response("GET example.com /x").unwrap();
    assert_eq!(resp.status_code(), 200);
    assert_eq!(resp.headers().len(), 1);
    assert_eq!(resp.headers()[0].0, "content-type");
    assert_eq!(resp.headers()[0].1, "text/html");
    assert_eq!(resp.body().unwrap().as_slice(), b"hello world");

    assert!(set.get_response("GET example.com /missing").is_none());
}

#[test]
fn decode_runs_empty_program() {
    let sets = decode_archive(small_archive()).unwrap();
    let set = sets.get(0);
    // an empty program leaves the request triple untouched
    let key = set.key_for("GET", "example.com", "/x").unwrap();
    assert_eq!(key, "GET example.com /x");
    let resp = set.response_for("GET", "example.com", "/x").unwrap().unwrap();
    assert_eq!(resp.status_code(), 200);
}

#[test]
fn decode_canonicalizes_header_names() {
    let mut archive = small_archive();
    archive.header_names[0] = String::from("Content-Type");
    let sets = decode_archive(archive).unwrap();
    let resp = sets.get(0).get_response("GET example.com /x").unwrap();
    assert_eq!(resp.headers()[0].0, "content-type");
}

#[test]
fn reject_invalid_header_name() {
    let mut archive = small_archive();
    archive.header_names[0] = String::from("bad header name");
    assert_eq!(expect_err(decode_archive(archive)), ArchiveError::InvalidHeaderName);
}

#[test]
fn reject_invalid_header_value() {
    let mut archive = small_archive();
    archive.header_values[0] = String::from("bad\u{0}value");
    assert_eq!(expect_err(decode_archive(archive)), ArchiveError::InvalidHeaderValue);
}

#[test]
fn reject_dangling_header_index() {
    let mut archive = small_archive();
    archive.header_lists[0][0] = (5, 0);
    assert_eq!(expect_err(decode_archive(archive)), ArchiveError::DanglingIndex);
}

#[test]
fn reject_dangling_body_index() {
    let mut archive = small_archive();
    archive.responses[0].body_index = Some(9);
    assert_eq!(expect_err(decode_archive(archive)), ArchiveError::DanglingIndex);
}

#[test]
fn reject_dangling_key_map_index() {
    let mut archive = small_archive();
    archive.sets[0].request_key_map[0].1 = 7;
    assert_eq!(expect_err(decode_archive(archive)), ArchiveError::DanglingIndex);
}

#[test]
fn reject_invalid_status() {
    let mut archive = small_archive();
    archive.responses[0].status = 99;
    assert_eq!(expect_err(decode_archive(archive)), ArchiveError::InvalidStatus);
}

#[test]
fn reject_bad_regex() {
    let mut archive = small_archive();
    archive.sets[0].literals.push(RawLiteral::Match(String::from("(unclosed")));
    assert_eq!(expect_err(decode_archive(archive)), ArchiveError::BadRegex);
}

#[test]
fn reject_unknown_opcode() {
    let mut archive = small_archive();
    archive.sets[0].opcodes = vec![99, 0, 0, 0];
    assert_eq!(expect_err(decode_archive(archive)), ArchiveError::UnknownOpcode);
}

#[test]
fn reject_wrongly_typed_literal_operand() {
    let mut archive = small_archive();
    archive.sets[0].literals.push(RawLiteral::Str(String::from("GET")));
    // TestValueMatchesRegex needs a Match literal, entry 0 is a Str
    archive.sets[0].opcodes = vec![24, 0, 0, 0];
    assert_eq!(expect_err(decode_archive(archive)), ArchiveError::BadLiteral);
}

#[test]
fn reject_duplicate_request_key() {
    let mut archive = small_archive();
    archive.sets[0]
        .request_key_map
        .push((String::from("GET example.com /x"), 1));
    assert_eq!(expect_err(decode_archive(archive)), ArchiveError::DuplicateKey);
}

#[test]
fn reject_duplicate_port() {
    let mut archive = small_archive();
    archive.sets.push(empty_set(4000));
    assert_eq!(expect_err(decode_archive(archive)), ArchiveError::DuplicatePort);
}

#[test]
fn decode_set_with_program() {
    let mut archive = small_archive();
    archive.sets[0].literals = vec![
        RawLiteral::Str(String::from("GET")),
        RawLiteral::ReplaceAll(String::from("([^\\d])\\d{13}\\b"), String::from("$11546300800000")),
    ];
    // if Method == "GET": rewrite 13-digit runs in PathAndQuery, stop
    archive.sets[0].opcodes = vec![
        12, 0, 0, 0, // MovePartToValue Method
        20, 0, 0, 0, // TestValueEquals literal 0
        1, 7, 0, 0, // JumpUnless past the block
        12, 2, 0, 0, // MovePartToValue PathAndQuery
        31, 1, 0, 0, // ValueRegexReplaceAll literal 1
        13, 2, 0, 0, // MoveValueToPart PathAndQuery
        0, 0, 0, 0, // Stop
    ];
    archive.sets[0].request_key_map =
        vec![(String::from("GET example.com /one?ts=1546300800000"), 0)];
    let sets = decode_archive(archive).unwrap();
    let set = sets.get(0);
    let key = set.key_for("GET", "example.com", "/one?ts=1568844623195").unwrap();
    assert_eq!(key, "GET example.com /one?ts=1546300800000");
    assert!(set.response_for("GET", "example.com", "/one?ts=1568844623195").unwrap().is_some());
}
