use tracerbench_serve::literal_table::{Literal, LiteralTable};
use tracerbench_serve::program::{Program, RequestKey};
use tracerbench_serve::regexes::{RegexReplace, RegexTest};

const OP_STOP: u8 = 0;
const OP_JUMP_UNLESS: u8 = 1;
const OP_CLEAR_VALUE: u8 = 10;
const OP_MOVE_STRING_TO_VALUE: u8 = 11;
const OP_MOVE_PART_TO_VALUE: u8 = 12;
const OP_MOVE_VALUE_TO_PART: u8 = 13;
const OP_TEST_EQUALS: u8 = 20;
const OP_TEST_STARTS_WITH: u8 = 21;
const OP_TEST_ENDS_WITH: u8 = 22;
const OP_TEST_INCLUDES: u8 = 23;
const OP_TEST_MATCHES: u8 = 24;
const OP_REPLACE: u8 = 30;
const OP_REPLACE_ALL: u8 = 31;

const PART_METHOD: usize = 0;
const PART_AUTHORITY: usize = 1;
const PART_PATH_AND_QUERY: usize = 2;
const PART_PATH: usize = 3;
const PART_QUERY: usize = 4;

struct ProgramBuilder {
    literals: Vec<Literal>,
    bytes: Vec<u8>,
}

impl ProgramBuilder {
    fn new() -> ProgramBuilder {
        ProgramBuilder { literals: Vec::new(), bytes: Vec::new() }
    }

    fn push(&mut self, op: u8, operand: usize) -> usize {
        let at = self.bytes.len();
        self.bytes.push(op);
        self.bytes.push((operand & 0xFF) as u8);
        self.bytes.push(((operand >> 8) & 0xFF) as u8);
        self.bytes.push(((operand >> 16) & 0xFF) as u8);
        at
    }

    fn push_str(&mut self, text: &str) -> usize {
        self.literals.push(Literal::Str(text.to_string()));
        self.literals.len() - 1
    }

    fn stop(&mut self) {
        self.push(OP_STOP, 0);
    }

    fn clear_value(&mut self) {
        self.push(OP_CLEAR_VALUE, 0);
    }

    fn drop_part(&mut self, part: usize) {
        self.clear_value();
        self.push(OP_MOVE_VALUE_TO_PART, part);
    }

    fn replace_part_with_string(&mut self, part: usize, text: &str) {
        let index = self.push_str(text);
        self.push(OP_MOVE_STRING_TO_VALUE, index);
        self.push(OP_MOVE_VALUE_TO_PART, part);
    }

    fn regex_replace_part(&mut self, part: usize, search: &str, replacement: &str, all: bool) {
        self.push(OP_MOVE_PART_TO_VALUE, part);
        let regex = RegexReplace::new(search, replacement).unwrap();
        if all {
            self.literals.push(Literal::ReplaceAll(regex));
            let index = self.literals.len() - 1;
            self.push(OP_REPLACE_ALL, index);
        } else {
            self.literals.push(Literal::Replace(regex));
            let index = self.literals.len() - 1;
            self.push(OP_REPLACE, index);
        }
        self.push(OP_MOVE_VALUE_TO_PART, part);
    }

    fn if_part<F>(&mut self, part: usize, test_op: u8, literal: &str, body: F)
    where
        F: FnOnce(&mut ProgramBuilder),
    {
        self.push(OP_MOVE_PART_TO_VALUE, part);
        if test_op == OP_TEST_MATCHES {
            self.literals.push(Literal::Match(RegexTest::new(literal).unwrap()));
            let index = self.literals.len() - 1;
            self.push(test_op, index);
        } else {
            let index = self.push_str(literal);
            self.push(test_op, index);
        }
        let jump = self.push(OP_JUMP_UNLESS, 0);
        body(self);
        let addr = self.bytes.len() / 4;
        self.bytes[jump + 1] = (addr & 0xFF) as u8;
        self.bytes[jump + 2] = ((addr >> 8) & 0xFF) as u8;
        self.bytes[jump + 3] = ((addr >> 16) & 0xFF) as u8;
    }

    fn build(self) -> RequestKey {
        let table = LiteralTable::new(self.literals);
        RequestKey::new(Program::new(table, self.bytes.as_slice()).unwrap())
    }
}

#[test]
fn test_empty() {
    let request_key = ProgramBuilder::new().build();

    let key = request_key.key_for("POST", "example.com", "/path/to/something?query=2").unwrap();

    assert_eq!(key, String::from("POST example.com /path/to/something?query=2"));
}

#[test]
fn test_match_drop_query() {
    let mut builder = ProgramBuilder::new();
    builder.if_part(PART_METHOD, OP_TEST_EQUALS, "GET", |builder| {
        builder.if_part(PART_AUTHORITY, OP_TEST_EQUALS, "example.com", |builder| {
            builder.drop_part(PART_QUERY);
            builder.stop();
        });
    });

    let request_key = builder.build();

    assert_eq!(
        request_key.key_for("POST", "example.com", "/path/to/something?query=2").unwrap(),
        String::from("POST example.com /path/to/something?query=2")
    );

    assert_eq!(
        request_key.key_for("GET", "example.com", "/path/to/something?query=2").unwrap(),
        String::from("GET example.com /path/to/something")
    );

    assert_eq!(
        request_key.key_for("GET", "foo.com", "/path/to/something?query=2").unwrap(),
        String::from("GET foo.com /path/to/something?query=2")
    );
}

#[test]
fn test_match_swap_path() {
    let mut builder = ProgramBuilder::new();
    builder.if_part(PART_PATH, OP_TEST_STARTS_WITH, "/one", |builder| {
        builder.replace_part_with_string(PART_PATH, "/two");
        builder.stop(); // stop program here, next rule wont run
    });
    builder.if_part(PART_PATH, OP_TEST_ENDS_WITH, "/two", |builder| {
        builder.replace_part_with_string(PART_PATH, "/one");
        builder.stop();
    });

    let request_key = builder.build();

    assert_eq!(
        request_key.key_for("POST", "example.com", "/one/two?query=2").unwrap(),
        String::from("POST example.com /two?query=2")
    );

    assert_eq!(
        request_key.key_for("GET", "example.com", "/three/two?query=2").unwrap(),
        String::from("GET example.com /one?query=2")
    );
}

#[test]
fn test_match_and_regex_replace() {
    let mut builder = ProgramBuilder::new();
    builder.if_part(PART_PATH, OP_TEST_MATCHES, "(one|two)", |builder| {
        builder.regex_replace_part(
            PART_PATH_AND_QUERY,
            "([^\\d])\\d{13}\\b",
            "$11546300800000",
            true,
        );
        builder.stop(); // stop program here, next rule wont run
    });

    let request_key = builder.build();

    assert_eq!(
        request_key.key_for("POST", "example.com", "/one?ts=1568844623195").unwrap(),
        String::from("POST example.com /one?ts=1546300800000")
    );

    assert_eq!(
        request_key.key_for("GET", "example.com", "/1568844623195/two?query=2").unwrap(),
        String::from("GET example.com /1546300800000/two?query=2")
    );

    assert_eq!(
        request_key
            .key_for("GET", "example.com", "/1568844623195/two?query=1568844623195")
            .unwrap(),
        String::from("GET example.com /1546300800000/two?query=1546300800000")
    );
}

#[test]
fn test_includes_and_replace_all() {
    let mut builder = ProgramBuilder::new();
    builder.if_part(PART_PATH, OP_TEST_INCLUDES, "/foo/", |builder| {
        builder.regex_replace_part(PART_PATH_AND_QUERY, "(one).+?(two)", "$1/$2", false);
        builder.stop(); // stop program here, next rule wont run
    });

    let request_key = builder.build();

    assert_eq!(
        request_key.key_for("GET", "example.com", "/one/foo/two/one/and/two").unwrap(),
        String::from("GET example.com /one/two/one/and/two")
    );
}

#[test]
fn test_key_for_is_deterministic() {
    let mut builder = ProgramBuilder::new();
    builder.if_part(PART_PATH, OP_TEST_STARTS_WITH, "/one", |builder| {
        builder.replace_part_with_string(PART_PATH, "/two");
        builder.stop();
    });
    let request_key = builder.build();

    let first = request_key.key_for("GET", "example.com", "/one?a=1").unwrap();
    let second = request_key.key_for("GET", "example.com", "/one?a=1").unwrap();
    assert_eq!(first, second);
}

#[test]
fn test_part_to_other_part_faults() {
    let table = LiteralTable::new(Vec::new());
    // MovePartToValue Method, then MoveValueToPart Path: unsupported
    let bytes: Vec<u8> = vec![12, 0, 0, 0, 13, 3, 0, 0];
    let request_key = RequestKey::new(Program::new(table, bytes.as_slice()).unwrap());
    assert!(request_key.key_for("GET", "example.com", "/p").is_err());
}

#[test]
fn test_jump_past_end_halts() {
    let mut builder = ProgramBuilder::new();
    // a failing test followed by a jump far past the program's end
    builder.if_part(PART_METHOD, OP_TEST_EQUALS, "NEVER", |builder| {
        builder.replace_part_with_string(PART_PATH, "/unreachable");
    });
    let jump_far = ProgramBuilder {
        literals: builder.literals,
        bytes: {
            let mut b = builder.bytes;
            b.extend_from_slice(&[1, 0xFF, 0xFF, 0x00]);
            b
        },
    };
    let request_key = jump_far.build();
    assert_eq!(
        request_key.key_for("GET", "example.com", "/p").unwrap(),
        "GET example.com /p"
    );
}

#[test]
fn test_unknown_opcode_rejected() {
    let table = LiteralTable::new(Vec::new());
    // operation code 99 does not exist
    let bytes: Vec<u8> = vec![99, 0, 0, 0];
    assert!(Program::new(table, bytes.as_slice()).is_err());
}

#[test]
fn test_dangling_literal_rejected() {
    let table = LiteralTable::new(Vec::new());
    // TestValueEquals points at literal 0 of an empty table
    let bytes: Vec<u8> = vec![20, 0, 0, 0];
    assert!(Program::new(table, bytes.as_slice()).is_err());
}

#[test]
fn test_unknown_part_rejected() {
    let table = LiteralTable::new(Vec::new());
    // MovePartToValue with part id 7
    let bytes: Vec<u8> = vec![12, 7, 0, 0];
    assert!(Program::new(table, bytes.as_slice()).is_err());
}
