//! Validation and materialization of a decoded archive.
//!
//! The serialized archive arrives as plain tables: byte bodies, header names,
//! header values, header lists of `(name, value)` index pairs, responses of
//! `(status, headers index, optional body index)`, and per-set program and
//! key-map data.  Later tables refer to earlier ones by index.  This decoder
//! rejects an archive if and only if some index dangles, a header is
//! syntactically invalid, a status code is out of range, a regex does not
//! compile, an instruction is meaningless, a key map repeats a key, or two
//! sets claim one port; on success every stored request key resolves to a
//! materialized response.

use vstd::prelude::*;
use vstd::string::*;

use crate::literal_table::{Literal, LiteralTable, LiteralView};
use crate::opcode::{decoded_ops, opcodes_decodable};
use crate::program::{program_wf, Program, ProgramError, ProgramView, RequestKey};
use crate::regexes::{
    regex_capture_count, regex_compiles, RegexReplace, RegexReplaceView, RegexTest,
};
use crate::replacement::normalize_replacement;
use crate::response_set::{
    clone_header_pairs, copy_bytes, RecordedResponse, RecordedResponseSet, RecordedResponseSets,
    RecordedResponseView, ResponseSetView,
};
use crate::text::str_eq;

verus! {

/// What the canonical form of a header name is, if the name is valid.
/// Standard names come back as themselves; custom names come back lowercased.
pub uninterp spec fn header_name_parse(s: Seq<char>) -> Option<Seq<char>>;

/// Whether a header value is syntactically acceptable.
pub uninterp spec fn header_value_ok(s: Seq<char>) -> bool;

/// Relies on http::HeaderName::from_str: acceptance and the canonical
/// (lowercased) form depend on the name alone.
#[verifier::external_body]
fn parse_header_name(s: &str) -> (r: Option<String>)
    ensures
        r is Some <==> header_name_parse(s@) is Some,
        r matches Some(t) ==> header_name_parse(s@) == Some(t@),
{
    match s.parse::<http::header::HeaderName>() {
        Ok(name) => Some(name.as_str().to_owned()),
        Err(_) => None,
    }
}

/// Relies on http::HeaderValue::from_str: acceptance depends on the value
/// alone.
#[verifier::external_body]
fn check_header_value(s: &str) -> (r: bool)
    ensures
        r == header_value_ok(s@),
{
    s.parse::<http::header::HeaderValue>().is_ok()
}

/// One tagged literal as stored in the archive.
pub enum RawLiteral {
    Str(String),
    Match(String),
    Replace(String, String),
    ReplaceAll(String, String),
}

/// One response row: status, header-list index, optional body index.
pub struct RawResponse {
    pub status: u16,
    pub headers_index: usize,
    pub body_index: Option<usize>,
}

/// One response set as stored in the archive.
pub struct RawResponseSet {
    pub socks_port: u16,
    pub name: String,
    pub entry_key: String,
    pub literals: Vec<RawLiteral>,
    pub opcodes: Vec<u8>,
    pub request_key_map: Vec<(String, usize)>,
}

/// The archive's six tables, in their mandatory decode order.
pub struct RawArchive {
    pub bodies: Vec<Vec<u8>>,
    pub header_names: Vec<String>,
    pub header_values: Vec<String>,
    pub header_lists: Vec<Vec<(usize, usize)>>,
    pub responses: Vec<RawResponse>,
    pub sets: Vec<RawResponseSet>,
}

/// Why an archive was rejected.
#[derive(Clone, Copy, PartialEq, Eq, Structural, Debug)]
pub enum ArchiveError {
    InvalidHeaderName,
    InvalidHeaderValue,
    DanglingIndex,
    InvalidStatus,
    BadRegex,
    UnknownOpcode,
    BadLiteral,
    DuplicateKey,
    DuplicatePort,
}

/// A literal is valid when any regex in it compiles.
pub open spec fn literal_valid(l: RawLiteral) -> bool {
    match l {
        RawLiteral::Str(_) => true,
        RawLiteral::Match(p) => regex_compiles(p@),
        RawLiteral::Replace(p, _) => regex_compiles(p@),
        RawLiteral::ReplaceAll(p, _) => regex_compiles(p@),
    }
}

/// The compiled form of a literal.
pub open spec fn literal_view(l: RawLiteral) -> LiteralView {
    match l {
        RawLiteral::Str(s) => LiteralView::Str(s@),
        RawLiteral::Match(p) => LiteralView::Match(p@),
        RawLiteral::Replace(p, r) => LiteralView::Replace(
            (RegexReplaceView {
                pattern: p@,
                replacement: normalize_replacement(r@, regex_capture_count(p@)),
            }),
        ),
        RawLiteral::ReplaceAll(p, r) => LiteralView::ReplaceAll(
            (RegexReplaceView {
                pattern: p@,
                replacement: normalize_replacement(r@, regex_capture_count(p@)),
            }),
        ),
    }
}

/// The compiled program of one raw set.
pub open spec fn set_program_view(s: RawResponseSet) -> ProgramView {
    ProgramView {
        literals: s.literals@.map_values(|l: RawLiteral| literal_view(l)),
        ops: decoded_ops(s.opcodes@),
    }
}

/// A raw set is valid when its literals compile, its opcode bytes decode,
/// the decoded instructions point at literals of the right kind, and its key
/// map points into the response table without repeating a key.
pub open spec fn set_valid(s: RawResponseSet, n_responses: int) -> bool {
    &&& forall|j: int| 0 <= j < s.literals@.len() ==> literal_valid(#[trigger] s.literals@[j])
    &&& opcodes_decodable(s.opcodes@)
    &&& program_wf(set_program_view(s))
    &&& forall|j: int|
        0 <= j < s.request_key_map@.len() ==> (#[trigger] s.request_key_map@[j]).1 < n_responses
    &&& forall|i: int, j: int|
        0 <= i < j < s.request_key_map@.len() ==> (#[trigger] s.request_key_map@[i]).0@ != (
        #[trigger] s.request_key_map@[j]).0@
}

/// A response row is valid when its status is a real HTTP status and its
/// indices point into the header-list and body tables.
pub open spec fn response_valid(r: RawResponse, n_lists: int, n_bodies: int) -> bool {
    &&& 100 <= r.status < 1000
    &&& r.headers_index < n_lists
    &&& match r.body_index {
        Some(b) => b < n_bodies,
        None => true,
    }
}

/// The loader's acceptance condition, table by table.
pub open spec fn archive_valid(a: RawArchive) -> bool {
    &&& forall|i: int|
        0 <= i < a.header_names@.len() ==> header_name_parse(
            (#[trigger] a.header_names@[i])@,
        ) is Some
    &&& forall|i: int|
        0 <= i < a.header_values@.len() ==> header_value_ok((#[trigger] a.header_values@[i])@)
    &&& forall|i: int, j: int|
        0 <= i < a.header_lists@.len() && 0 <= j < a.header_lists@[i]@.len() ==> (
        #[trigger] a.header_lists@[i]@[j]).0 < a.header_names@.len() && a.header_lists@[i]@[j].1
            < a.header_values@.len()
    &&& forall|i: int|
        0 <= i < a.responses@.len() ==> response_valid(
            #[trigger] a.responses@[i],
            a.header_lists@.len() as int,
            a.bodies@.len() as int,
        )
    &&& forall|i: int|
        0 <= i < a.sets@.len() ==> set_valid(#[trigger] a.sets@[i], a.responses@.len() as int)
    &&& forall|i: int, j: int|
        0 <= i < j < a.sets@.len() ==> a.sets@[i].socks_port != a.sets@[j].socks_port
}

/// The canonical form of a valid header name.
pub open spec fn canon_name(s: Seq<char>) -> Seq<char> {
    match header_name_parse(s) {
        Some(t) => t,
        None => Seq::empty(),
    }
}

/// Header list `li`, with both indices resolved and names canonicalized.
pub open spec fn resolved_headers(a: RawArchive, li: int) -> Seq<(Seq<char>, Seq<char>)> {
    a.header_lists@[li]@.map_values(
        |p: (usize, usize)| (canon_name(a.header_names@[p.0 as int]@), a.header_values@[p.1 as int]@),
    )
}

/// Response row `ri`, fully materialized.
pub open spec fn resolved_response(a: RawArchive, ri: int) -> RecordedResponseView {
    let r = a.responses@[ri];
    RecordedResponseView {
        status: r.status,
        headers: resolved_headers(a, r.headers_index as int),
        body: match r.body_index {
            Some(b) => Some(a.bodies@[b as int]@),
            None => None,
        },
    }
}

/// Set `si`, fully materialized: its program compiled and every response row
/// available to its key map.
pub open spec fn resolved_set(a: RawArchive, si: int) -> ResponseSetView {
    let s = a.sets@[si];
    ResponseSetView {
        socks_port: s.socks_port,
        name: s.name@,
        entry_key: s.entry_key@,
        program: set_program_view(s),
        responses: Seq::new(a.responses@.len(), |ri: int| resolved_response(a, ri)),
        key_map: s.request_key_map@.map_values(|e: (String, usize)| (e.0@, e.1 as int)),
    }
}

/// Canonicalizes every header name, rejecting the table on the first invalid
/// one.
fn canonicalize_names(names: &Vec<String>) -> (r: Option<Vec<String>>)
    ensures
        r is Some <==> (forall|i: int|
            0 <= i < names@.len() ==> header_name_parse((#[trigger] names@[i])@) is Some),
        r matches Some(out) ==> out@.len() == names@.len() && (forall|i: int|
            0 <= i < names@.len() ==> (#[trigger] out@[i])@ == canon_name(names@[i]@)),
{
    let n = names.len();
    let mut out: Vec<String> = Vec::with_capacity(n);
    let mut i: usize = 0;
    while i < n
        invariant
            0 <= i <= n,
            n == names@.len(),
            out@.len() == i,
            forall|j: int| 0 <= j < i ==> header_name_parse((#[trigger] names@[j])@) is Some,
            forall|j: int| 0 <= j < i ==> (#[trigger] out@[j])@ == canon_name(names@[j]@),
        decreases n - i,
    {
        match parse_header_name(names[i].as_str()) {
            Some(t) => out.push(t),
            None => {
                return None;
            },
        }
        i = i + 1;
    }
    Some(out)
}

/// Checks every header value's syntax.
fn check_values(values: &Vec<String>) -> (r: bool)
    ensures
        r == (forall|i: int|
            0 <= i < values@.len() ==> header_value_ok((#[trigger] values@[i])@)),
{
    let n = values.len();
    let mut i: usize = 0;
    while i < n
        invariant
            0 <= i <= n,
            n == values@.len(),
            forall|j: int| 0 <= j < i ==> header_value_ok((#[trigger] values@[j])@),
        decreases n - i,
    {
        if !check_header_value(values[i].as_str()) {
            return false;
        }
        i = i + 1;
    }
    true
}

/// Resolves one header list against the canonical name and value tables.
fn resolve_header_list(
    a: &RawArchive,
    canon: &Vec<String>,
    li: usize,
) -> (r: Option<Vec<(String, String)>>)
    requires
        li < a.header_lists@.len(),
        canon@.len() == a.header_names@.len(),
        forall|i: int|
            0 <= i < canon@.len() ==> (#[trigger] canon@[i])@ == canon_name(a.header_names@[i]@),
    ensures
        r is Some <==> (forall|j: int|
            0 <= j < a.header_lists@[li as int]@.len() ==> (
            #[trigger] a.header_lists@[li as int]@[j]).0 < a.header_names@.len()
                && a.header_lists@[li as int]@[j].1 < a.header_values@.len()),
        r matches Some(out) ==> out@.map_values(|h: (String, String)| (h.0@, h.1@))
            == resolved_headers(*a, li as int),
{
    let list = &a.header_lists[li];
    let n = list.len();
    let mut out: Vec<(String, String)> = Vec::with_capacity(n);
    let mut j: usize = 0;
    while j < n
        invariant
            0 <= j <= n,
            li < a.header_lists@.len(),
            n == a.header_lists@[li as int]@.len(),
            list@ == a.header_lists@[li as int]@,
            canon@.len() == a.header_names@.len(),
            forall|i: int|
                0 <= i < canon@.len() ==> (#[trigger] canon@[i])@ == canon_name(
                    a.header_names@[i]@,
                ),
            out@.len() == j,
            forall|k: int|
                0 <= k < j ==> (#[trigger] a.header_lists@[li as int]@[k]).0
                    < a.header_names@.len() && a.header_lists@[li as int]@[k].1
                    < a.header_values@.len(),
            forall|k: int|
                0 <= k < j ==> ((#[trigger] out@[k]).0@, out@[k].1@) == resolved_headers(
                    *a,
                    li as int,
                )[k],
        decreases n - j,
    {
        let (ni, vi) = list[j];
        if ni >= canon.len() || vi >= a.header_values.len() {
            return None;
        }
        let name = canon[ni].clone();
        let value = a.header_values[vi].clone();
        out.push((name, value));
        j = j + 1;
    }
    proof {
        assert(out@.map_values(|h: (String, String)| (h.0@, h.1@)) =~= resolved_headers(
            *a,
            li as int,
        ));
    }
    Some(out)
}

/// Compiles one raw literal.
fn compile_literal(l: &RawLiteral) -> (r: Option<Literal>)
    ensures
        r is Some <==> literal_valid(*l),
        r matches Some(lit) ==> lit@ == literal_view(*l),
{
    match l {
        RawLiteral::Str(s) => Some(Literal::Str(s.clone())),
        RawLiteral::Match(p) => match RegexTest::new(p.as_str()) {
            Some(t) => Some(Literal::Match(t)),
            None => None,
        },
        RawLiteral::Replace(p, rep) => match RegexReplace::new(p.as_str(), rep.as_str()) {
            Some(t) => Some(Literal::Replace(t)),
            None => None,
        },
        RawLiteral::ReplaceAll(p, rep) => match RegexReplace::new(p.as_str(), rep.as_str()) {
            Some(t) => Some(Literal::ReplaceAll(t)),
            None => None,
        },
    }
}

/// Compiles one raw set's literals, program and key map.
fn build_set(
    set: &RawResponseSet,
    responses: &Vec<RecordedResponse>,
    Ghost(a): Ghost<RawArchive>,
    Ghost(si): Ghost<int>,
) -> (r: Result<RecordedResponseSet, ArchiveError>)
    requires
        0 <= si < a.sets@.len(),
        a.sets@[si] == *set,
        responses@.len() == a.responses@.len(),
        forall|ri: int|
            0 <= ri < responses@.len() ==> (#[trigger] responses@[ri])@ == resolved_response(a, ri),
    ensures
        r is Ok <==> set_valid(a.sets@[si], a.responses@.len() as int),
        r matches Ok(out) ==> out@ == resolved_set(a, si),
        match r {
            Ok(_) => true,
            Err(ArchiveError::BadRegex) => exists|j: int|
                0 <= j < a.sets@[si].literals@.len() && !literal_valid(
                    #[trigger] a.sets@[si].literals@[j],
                ),
            Err(ArchiveError::UnknownOpcode) => !opcodes_decodable(a.sets@[si].opcodes@),
            Err(ArchiveError::BadLiteral) => opcodes_decodable(a.sets@[si].opcodes@)
                && !program_wf(set_program_view(a.sets@[si])),
            Err(ArchiveError::DanglingIndex) => exists|j: int|
                0 <= j < a.sets@[si].request_key_map@.len() && (
                #[trigger] a.sets@[si].request_key_map@[j]).1 >= a.responses@.len(),
            Err(ArchiveError::DuplicateKey) => exists|i: int, j: int|
                0 <= i < j < a.sets@[si].request_key_map@.len() && (
                #[trigger] a.sets@[si].request_key_map@[i]).0@ == (
                #[trigger] a.sets@[si].request_key_map@[j]).0@,
            Err(_) => false,
        },
{
    let n_lit = set.literals.len();
    let mut lits: Vec<Literal> = Vec::with_capacity(n_lit);
    let mut i: usize = 0;
    while i < n_lit
        invariant
            0 <= i <= n_lit,
            0 <= si < a.sets@.len(),
            a.sets@[si] == *set,
            n_lit == set.literals@.len(),
            lits@.len() == i,
            forall|j: int| 0 <= j < i ==> literal_valid(#[trigger] set.literals@[j]),
            forall|j: int| 0 <= j < i ==> (#[trigger] lits@[j])@ == literal_view(set.literals@[j]),
        decreases n_lit - i,
    {
        match compile_literal(&set.literals[i]) {
            Some(lit) => lits.push(lit),
            None => {
                return Err(ArchiveError::BadRegex);
            },
        }
        i = i + 1;
    }
    let table = LiteralTable::new(lits);
    proof {
        assert(table@ =~= set_program_view(a.sets@[si]).literals);
    }
    let program = match Program::new(table, set.opcodes.as_slice()) {
        Ok(p) => p,
        Err(ProgramError::UnknownOpcode) => {
            return Err(ArchiveError::UnknownOpcode);
        },
        Err(ProgramError::BadLiteral) => {
            return Err(ArchiveError::BadLiteral);
        },
    };
    let request_key = RequestKey::new(program);

    let n_map = set.request_key_map.len();
    let mut key_map: Vec<(String, usize)> = Vec::with_capacity(n_map);
    let mut j: usize = 0;
    while j < n_map
        invariant
            0 <= j <= n_map,
            0 <= si < a.sets@.len(),
            a.sets@[si] == *set,
            n_map == set.request_key_map@.len(),
            responses@.len() == a.responses@.len(),
            key_map@.len() == j,
            forall|k: int|
                0 <= k < j ==> (#[trigger] set.request_key_map@[k]).1 < a.responses@.len(),
            forall|k: int|
                0 <= k < j ==> (#[trigger] key_map@[k]).0@ == set.request_key_map@[k].0@
                    && key_map@[k].1 == set.request_key_map@[k].1,
            forall|a: int, b: int|
                0 <= a < b < j ==> (#[trigger] set.request_key_map@[a]).0@ != (
                #[trigger] set.request_key_map@[b]).0@,
        decreases n_map - j,
    {
        let (key, idx) = (set.request_key_map[j].0.clone(), set.request_key_map[j].1);
        if idx >= responses.len() {
            return Err(ArchiveError::DanglingIndex);
        }
        let mut d: usize = 0;
        while d < j
            invariant
                0 <= d <= j < n_map,
                0 <= si < a.sets@.len(),
                a.sets@[si] == *set,
                n_map == set.request_key_map@.len(),
                key@ == set.request_key_map@[j as int].0@,
                key_map@.len() == j,
                forall|k: int|
                    0 <= k < j ==> (#[trigger] key_map@[k]).0@ == set.request_key_map@[k].0@,
                forall|b: int|
                    0 <= b < d ==> (#[trigger] set.request_key_map@[b]).0@ != set.request_key_map@[
                        j as int
                    ].0@,
            decreases j - d,
        {
            if str_eq(key_map[d].0.as_str(), key.as_str()) {
                return Err(ArchiveError::DuplicateKey);
            }
            d = d + 1;
        }
        key_map.push((key, idx));
        j = j + 1;
    }

    let n_resp = responses.len();
    let mut own_responses: Vec<RecordedResponse> = Vec::with_capacity(n_resp);
    let mut k: usize = 0;
    while k < n_resp
        invariant
            0 <= k <= n_resp,
            n_resp == responses@.len(),
            own_responses@.len() == k,
            forall|m: int|
                0 <= m < k ==> (#[trigger] own_responses@[m])@ == responses@[m]@,
        decreases n_resp - k,
    {
        own_responses.push(responses[k].duplicate());
        k = k + 1;
    }

    let out = RecordedResponseSet::new(
        set.socks_port,
        set.name.clone(),
        set.entry_key.clone(),
        request_key,
        own_responses,
        key_map,
    );
    proof {
        assert(out@.responses =~= resolved_set(a, si).responses);
        assert(out@.key_map =~= resolved_set(a, si).key_map);
        assert(out@ =~= resolved_set(a, si));
    }
    Ok(out)
}

/// Decodes a raw archive into materialized response sets.
///
/// Acceptance is exact: the archive is rejected if and only if some table
/// breaks `archive_valid`, and an accepted archive yields, for every set,
/// precisely its resolved form.
pub fn decode_archive(archive: RawArchive) -> (r: Result<RecordedResponseSets, ArchiveError>)
    ensures
        r is Ok <==> archive_valid(archive),
        r matches Ok(sets) ==> sets@.len() == archive.sets@.len() && (forall|si: int|
            0 <= si < archive.sets@.len() ==> sets@[si] == resolved_set(archive, si)),
        match r {
            Ok(_) => true,
            Err(ArchiveError::DuplicatePort) => exists|x: int, y: int|
                0 <= x < y < archive.sets@.len() && (#[trigger] archive.sets@[x]).socks_port == (
                #[trigger] archive.sets@[y]).socks_port,
            Err(ArchiveError::InvalidHeaderName) => exists|i: int|
                0 <= i < archive.header_names@.len() && header_name_parse(
                    (#[trigger] archive.header_names@[i])@,
                ) is None,
            Err(ArchiveError::InvalidHeaderValue) => exists|i: int|
                0 <= i < archive.header_values@.len() && !header_value_ok(
                    (#[trigger] archive.header_values@[i])@,
                ),
            Err(ArchiveError::InvalidStatus) => exists|i: int|
                0 <= i < archive.responses@.len() && !(100 <= (
                #[trigger] archive.responses@[i]).status < 1000),
            Err(ArchiveError::DanglingIndex) => {
                ||| exists|i: int, j: int|
                    0 <= i < archive.header_lists@.len() && 0 <= j < archive.header_lists@[i]@.len()
                        && ((#[trigger] archive.header_lists@[i]@[j]).0
                        >= archive.header_names@.len() || archive.header_lists@[i]@[j].1
                        >= archive.header_values@.len())
                ||| exists|i: int|
                    0 <= i < archive.responses@.len() && ((
                    #[trigger] archive.responses@[i]).headers_index >= archive.header_lists@.len()
                        || match archive.responses@[i].body_index {
                        Some(b) => b >= archive.bodies@.len(),
                        None => false,
                    })
                ||| exists|si: int, j: int|
                    0 <= si < archive.sets@.len() && 0 <= j < archive.sets@[
                        si
                    ].request_key_map@.len() && (#[trigger] archive.sets@[si].request_key_map@[
                        j
                    ]).1 >= archive.responses@.len()
            },
            Err(ArchiveError::DuplicateKey) => exists|si: int, i: int, j: int|
                0 <= si < archive.sets@.len() && 0 <= i < j < archive.sets@[
                    si
                ].request_key_map@.len() && (#[trigger] archive.sets@[si].request_key_map@[
                    i
                ]).0@ == (#[trigger] archive.sets@[si].request_key_map@[j]).0@,
            Err(ArchiveError::BadRegex) => exists|si: int, j: int|
                0 <= si < archive.sets@.len() && 0 <= j < archive.sets@[si].literals@.len()
                    && !literal_valid(#[trigger] archive.sets@[si].literals@[j]),
            Err(ArchiveError::UnknownOpcode) => exists|si: int|
                0 <= si < archive.sets@.len() && !opcodes_decodable(
                    (#[trigger] archive.sets@[si]).opcodes@,
                ),
            Err(ArchiveError::BadLiteral) => exists|si: int|
                0 <= si < archive.sets@.len() && opcodes_decodable(
                    (#[trigger] archive.sets@[si]).opcodes@,
                ) && !program_wf(set_program_view(archive.sets@[si])),
        },
{
    // Ports must be unique across the archive.
    let n_sets = archive.sets.len();
    let mut i: usize = 0;
    while i < n_sets
        invariant
            0 <= i <= n_sets,
            n_sets == archive.sets@.len(),
            forall|x: int, y: int|
                0 <= x < y < i ==> archive.sets@[x].socks_port != archive.sets@[y].socks_port,
        decreases n_sets - i,
    {
        let mut j: usize = 0;
        while j < i
            invariant
                0 <= j <= i < n_sets,
                n_sets == archive.sets@.len(),
                forall|y: int| 0 <= y < j ==> archive.sets@[y].socks_port != archive.sets@[
                    i as int
                ].socks_port,
            decreases i - j,
        {
            if archive.sets[j].socks_port == archive.sets[i].socks_port {
                return Err(ArchiveError::DuplicatePort);
            }
            j = j + 1;
        }
        i = i + 1;
    }

    // Header names and values must be syntactically valid.
    let canon = match canonicalize_names(&archive.header_names) {
        Some(c) => c,
        None => {
            return Err(ArchiveError::InvalidHeaderName);
        },
    };
    if !check_values(&archive.header_values) {
        return Err(ArchiveError::InvalidHeaderValue);
    }

    // Resolve every header list.
    let n_lists = archive.header_lists.len();
    let mut lists: Vec<Vec<(String, String)>> = Vec::with_capacity(n_lists);
    let mut li: usize = 0;
    while li < n_lists
        invariant
            0 <= li <= n_lists,
            n_lists == archive.header_lists@.len(),
            canon@.len() == archive.header_names@.len(),
            forall|i2: int|
                0 <= i2 < canon@.len() ==> (#[trigger] canon@[i2])@ == canon_name(
                    archive.header_names@[i2]@,
                ),
            lists@.len() == li,
            forall|x: int, j: int|
                0 <= x < li && 0 <= j < archive.header_lists@[x]@.len() ==> (
                #[trigger] archive.header_lists@[x]@[j]).0 < archive.header_names@.len()
                    && archive.header_lists@[x]@[j].1 < archive.header_values@.len(),
            forall|x: int|
                0 <= x < li ==> (#[trigger] lists@[x])@.map_values(
                    |h: (String, String)| (h.0@, h.1@),
                ) == resolved_headers(archive, x),
        decreases n_lists - li,
    {
        match resolve_header_list(&archive, &canon, li) {
            Some(resolved) => lists.push(resolved),
            None => {
                return Err(ArchiveError::DanglingIndex);
            },
        }
        li = li + 1;
    }

    // Materialize every response row.
    let n_resp = archive.responses.len();
    let mut responses: Vec<RecordedResponse> = Vec::with_capacity(n_resp);
    let mut ri: usize = 0;
    while ri < n_resp
        invariant
            0 <= ri <= n_resp,
            n_resp == archive.responses@.len(),
            n_lists == archive.header_lists@.len(),
            lists@.len() == n_lists,
            forall|x: int|
                0 <= x < n_lists ==> (#[trigger] lists@[x])@.map_values(
                    |h: (String, String)| (h.0@, h.1@),
                ) == resolved_headers(archive, x),
            responses@.len() == ri,
            forall|x: int|
                0 <= x < ri ==> response_valid(
                    #[trigger] archive.responses@[x],
                    archive.header_lists@.len() as int,
                    archive.bodies@.len() as int,
                ),
            forall|x: int|
                0 <= x < ri ==> (#[trigger] responses@[x])@ == resolved_response(archive, x),
        decreases n_resp - ri,
    {
        let row = &archive.responses[ri];
        if row.status < 100 || row.status >= 1000 {
            return Err(ArchiveError::InvalidStatus);
        }
        if row.headers_index >= n_lists {
            return Err(ArchiveError::DanglingIndex);
        }
        let body = match row.body_index {
            Some(bi) => {
                if bi >= archive.bodies.len() {
                    return Err(ArchiveError::DanglingIndex);
                }
                Some(copy_bytes(&archive.bodies[bi]))
            },
            None => None,
        };
        let headers = clone_header_pairs(&lists[row.headers_index]);
        let resp = RecordedResponse::new(row.status, headers, body);
        proof {
            assert(resp@.headers =~= resolved_response(archive, ri as int).headers);
            assert(resp@ =~= resolved_response(archive, ri as int));
        }
        responses.push(resp);
        ri = ri + 1;
    }

    // Compile every set.
    let mut sets: Vec<RecordedResponseSet> = Vec::with_capacity(n_sets);
    let mut si: usize = 0;
    while si < n_sets
        invariant
            0 <= si <= n_sets,
            n_sets == archive.sets@.len(),
            n_resp == archive.responses@.len(),
            responses@.len() == n_resp,
            forall|x: int|
                0 <= x < n_resp ==> (#[trigger] responses@[x])@ == resolved_response(archive, x),
            sets@.len() == si,
            forall|x: int|
                0 <= x < si ==> set_valid(#[trigger] archive.sets@[x], n_resp as int),
            forall|x: int| 0 <= x < si ==> (#[trigger] sets@[x])@ == resolved_set(archive, x),
        decreases n_sets - si,
    {
        match build_set(&archive.sets[si], &responses, Ghost(archive), Ghost(si as int)) {
            Ok(set) => sets.push(set),
            Err(e) => {
                return Err(e);
            },
        }
        si = si + 1;
    }

    let out = RecordedResponseSets::new(sets);
    Ok(out)
}

} // verus!
