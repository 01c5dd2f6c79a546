//! Materialized response sets.
//!
//! A set owns a table of recorded responses and a key map from canonical
//! request keys into that table.  Lookups run the set's request-key program
//! over the request triple and search the map for the resulting key.

use vstd::prelude::*;

use crate::program::{
    faults, init_state, out_of_fuel, program_wf, runs_to, ProgramView, RequestKey,
};
use crate::state::{StateView, VmFault};
use crate::text::str_eq;

verus! {

/// One recorded response: a status, a header list in order, and an optional
/// body.
pub struct RecordedResponse {
    status: u16,
    headers: Vec<(String, String)>,
    body: Option<Vec<u8>>,
}

/// Mathematical model of a recorded response.
#[verifier::ext_equal]
pub ghost struct RecordedResponseView {
    pub status: u16,
    pub headers: Seq<(Seq<char>, Seq<char>)>,
    pub body: Option<Seq<u8>>,
}

impl View for RecordedResponse {
    type V = RecordedResponseView;

    closed spec fn view(&self) -> RecordedResponseView {
        RecordedResponseView {
            status: self.status,
            headers: self.headers@.map_values(|h: (String, String)| (h.0@, h.1@)),
            body: match &self.body {
                Some(b) => Some(b@),
                None => None,
            },
        }
    }
}

impl RecordedResponse {
    /// Wraps an already-validated status, header list and body.
    pub fn new(status: u16, headers: Vec<(String, String)>, body: Option<Vec<u8>>) -> (r:
        RecordedResponse)
        ensures
            r@.status == status,
            r@.headers.len() == headers@.len(),
            forall|i: int|
                0 <= i < headers@.len() ==> r@.headers[i] == (headers@[i].0@, headers@[i].1@),
            match body {
                Some(b) => r@.body == Some(b@),
                None => r@.body is None,
            },
    {
        RecordedResponse { status, headers, body }
    }

    pub fn status_code(&self) -> (r: u16)
        ensures
            r == self@.status,
    {
        self.status
    }

    pub fn headers(&self) -> (r: &Vec<(String, String)>)
        ensures
            r@.len() == self@.headers.len(),
            forall|i: int| 0 <= i < r@.len() ==> (r@[i].0@, r@[i].1@) == self@.headers[i],
    {
        &self.headers
    }

    pub fn body(&self) -> (r: Option<&Vec<u8>>)
        ensures
            match r {
                Some(b) => self@.body == Some(b@),
                None => self@.body is None,
            },
    {
        match &self.body {
            Some(b) => Some(b),
            None => None,
        }
    }

    /// A fresh copy of the response; sets own their response tables.
    pub fn duplicate(&self) -> (r: RecordedResponse)
        ensures
            r@ == self@,
    {
        let headers = clone_header_pairs(&self.headers);
        let body = match &self.body {
            Some(b) => Some(copy_bytes(b)),
            None => None,
        };
        let r = RecordedResponse { status: self.status, headers, body };
        proof {
            assert(r@.headers =~= self@.headers);
            assert(r@ =~= self@);
        }
        r
    }

    /// Copies the response into plain parts.
    pub fn to_parts(&self) -> (r: (u16, Vec<(String, String)>, Option<Vec<u8>>))
        ensures
            r.0 == self@.status,
            r.1@.map_values(|h: (String, String)| (h.0@, h.1@)) == self@.headers,
            match r.2 {
                Some(b) => self@.body == Some(b@),
                None => self@.body is None,
            },
    {
        let headers = clone_header_pairs(&self.headers);
        let body = match &self.body {
            Some(b) => Some(copy_bytes(b)),
            None => None,
        };
        proof {
            assert(headers@.map_values(|h: (String, String)| (h.0@, h.1@)) =~= self@.headers);
        }
        (self.status, headers, body)
    }
}

/// Copies a header list pair by pair.
pub fn clone_header_pairs(v: &Vec<(String, String)>) -> (r: Vec<(String, String)>)
    ensures
        r@.len() == v@.len(),
        forall|i: int| 0 <= i < v@.len() ==> r@[i].0@ == v@[i].0@ && r@[i].1@ == v@[i].1@,
{
    let mut out: Vec<(String, String)> = Vec::with_capacity(v.len());
    let mut i: usize = 0;
    while i < v.len()
        invariant
            0 <= i <= v@.len(),
            out@.len() == i,
            forall|j: int| 0 <= j < i ==> out@[j].0@ == v@[j].0@ && out@[j].1@ == v@[j].1@,
        decreases v@.len() - i,
    {
        let name = v[i].0.clone();
        let value = v[i].1.clone();
        out.push((name, value));
        i = i + 1;
    }
    out
}

/// Copies a byte buffer.
pub fn copy_bytes(v: &Vec<u8>) -> (r: Vec<u8>)
    ensures
        r@ == v@,
{
    let mut out: Vec<u8> = Vec::with_capacity(v.len());
    let mut i: usize = 0;
    while i < v.len()
        invariant
            0 <= i <= v@.len(),
            out@.len() == i,
            forall|j: int| 0 <= j < i ==> out@[j] == v@[j],
        decreases v@.len() - i,
    {
        out.push(v[i]);
        i = i + 1;
    }
    proof {
        assert(out@ =~= v@);
    }
    out
}

/// Mathematical model of a response set.
#[verifier::ext_equal]
pub ghost struct ResponseSetView {
    pub socks_port: u16,
    pub name: Seq<char>,
    pub entry_key: Seq<char>,
    pub program: ProgramView,
    pub responses: Seq<RecordedResponseView>,
    pub key_map: Seq<(Seq<char>, int)>,
}

/// No two entries carry the same key, as befits a map.
pub open spec fn keys_distinct(entries: Seq<(Seq<char>, int)>) -> bool {
    forall|i: int, j: int|
        0 <= i < j < entries.len() ==> (#[trigger] entries[i]).0 != (#[trigger] entries[j]).0
}

impl ResponseSetView {
    /// Every key-map entry points into the response table, the keys are
    /// pairwise distinct, and the program's operands point into its literal
    /// table.
    pub open spec fn wf(self) -> bool {
        &&& program_wf(self.program)
        &&& forall|j: int|
            0 <= j < self.key_map.len() ==> 0 <= #[trigger] self.key_map[j].1
                < self.responses.len()
        &&& keys_distinct(self.key_map)
    }
}

/// First key-map entry at or after `i` whose key is `key`.
pub open spec fn find_key(entries: Seq<(Seq<char>, int)>, key: Seq<char>, i: int) -> Option<int>
    decreases entries.len() - i,
{
    if i < 0 || i >= entries.len() {
        None
    } else if entries[i].0 == key {
        Some(i)
    } else {
        find_key(entries, key, i + 1)
    }
}

/// A named set of recorded responses behind one endpoint.
pub struct RecordedResponseSet {
    socks_port: u16,
    name: String,
    entry_key: String,
    request_key: RequestKey,
    responses: Vec<RecordedResponse>,
    key_map: Vec<(String, usize)>,
}

impl View for RecordedResponseSet {
    type V = ResponseSetView;

    closed spec fn view(&self) -> ResponseSetView {
        ResponseSetView {
            socks_port: self.socks_port,
            name: self.name@,
            entry_key: self.entry_key@,
            program: self.request_key@,
            responses: self.responses@.map_values(|r: RecordedResponse| r@),
            key_map: self.key_map@.map_values(|e: (String, usize)| (e.0@, e.1 as int)),
        }
    }
}

impl RecordedResponseSet {
    /// Assembles a set from already-validated parts.
    pub fn new(
        socks_port: u16,
        name: String,
        entry_key: String,
        request_key: RequestKey,
        responses: Vec<RecordedResponse>,
        key_map: Vec<(String, usize)>,
    ) -> (r: RecordedResponseSet)
        requires
            program_wf(request_key@),
            forall|j: int| 0 <= j < key_map@.len() ==> #[trigger] key_map@[j].1 < responses@.len(),
            forall|i: int, j: int|
                0 <= i < j < key_map@.len() ==> (#[trigger] key_map@[i]).0@ != (
                #[trigger] key_map@[j]).0@,
        ensures
            r@.socks_port == socks_port,
            r@.name == name@,
            r@.entry_key == entry_key@,
            r@.program == request_key@,
            r@.responses.len() == responses@.len(),
            forall|i: int| 0 <= i < responses@.len() ==> r@.responses[i] == responses@[i]@,
            r@.key_map.len() == key_map@.len(),
            forall|i: int|
                0 <= i < key_map@.len() ==> r@.key_map[i] == (key_map@[i].0@, key_map@[i].1 as int),
            r@.wf(),
    {
        let r = RecordedResponseSet {
            socks_port,
            name,
            entry_key,
            request_key,
            responses,
            key_map,
        };
        proof {
            assert forall|j: int| 0 <= j < r@.key_map.len() implies 0 <= #[trigger] r@.key_map[j].1
                < r@.responses.len() by {
            }
            assert forall|i: int, j: int| 0 <= i < j < r@.key_map.len() implies (
            #[trigger] r@.key_map[i]).0 != (#[trigger] r@.key_map[j]).0 by {
                assert(r@.key_map[i].0 == key_map@[i].0@);
                assert(r@.key_map[j].0 == key_map@[j].0@);
            }
        }
        r
    }

    pub fn socks_port(&self) -> (r: u16)
        ensures
            r == self@.socks_port,
    {
        self.socks_port
    }

    pub fn name(&self) -> (r: &str)
        ensures
            r@ == self@.name,
    {
        self.name.as_str()
    }

    pub fn entry_key(&self) -> (r: &str)
        ensures
            r@ == self@.entry_key,
    {
        self.entry_key.as_str()
    }

    pub fn request_key(&self) -> (r: &RequestKey)
        ensures
            r@ == self@.program,
    {
        &self.request_key
    }

    /// Number of recorded responses.
    pub fn response_count(&self) -> (r: usize)
        ensures
            r == self@.responses.len(),
    {
        self.responses.len()
    }

    /// The stored request keys and their response-table indices.
    pub fn requests(&self) -> (r: &Vec<(String, usize)>)
        ensures
            r@.map_values(|e: (String, usize)| (e.0@, e.1 as int)) == self@.key_map,
    {
        &self.key_map
    }

    /// Looks a canonical key up in the map.
    pub fn get_response(&self, key: &str) -> (r: Option<&RecordedResponse>)
        requires
            self@.wf(),
        ensures
            match find_key(self@.key_map, key@, 0) {
                Some(j) => r matches Some(resp) && resp@ == self@.responses[self@.key_map[j].1],
                None => r is None,
            },
    {
        let n = self.key_map.len();
        let mut i: usize = 0;
        while i < n
            invariant
                0 <= i <= n,
                n == self@.key_map.len(),
                self@.wf(),
                n == self.key_map@.len(),
                find_key(self@.key_map, key@, 0) == find_key(self@.key_map, key@, i as int),
            decreases n - i,
        {
            if str_eq(self.key_map[i].0.as_str(), key) {
                proof {
                    assert(self@.key_map[i as int].1 == self.key_map@[i as int].1 as int);
                    assert(0 <= self@.key_map[i as int].1 < self@.responses.len());
                    assert(self@.responses.len() == self.responses@.len());
                }
                return Some(&self.responses[self.key_map[i].1]);
            }
            i = i + 1;
        }
        None
    }

    /// Canonicalizes a request triple with the set's program.
    pub fn key_for(&self, method: &str, authority: &str, path_and_query: &str) -> (r: Result<
        String,
        VmFault,
    >)
        requires
            self@.wf(),
        ensures
            ({
                let s0 = init_state(
                    method@,
                    authority@,
                    path_and_query@,
                    self@.program.ops.len() as int,
                );
                match r {
                    Ok(k) => exists|sf: StateView|
                        #[trigger] runs_to(self@.program, s0, sf) && k@ == sf.parts.key(),
                    Err(VmFault::MovePartToPart) => faults(self@.program, s0),
                    Err(VmFault::StepLimit) => out_of_fuel(self@.program, s0),
                }
            }),
    {
        self.request_key.key_for(method, authority, path_and_query)
    }

    /// Runs the program over the request triple and looks the key up.
    pub fn response_for(&self, method: &str, authority: &str, path_and_query: &str) -> (r: Result<
        Option<&RecordedResponse>,
        VmFault,
    >)
        requires
            self@.wf(),
        ensures
            ({
                let s0 = init_state(
                    method@,
                    authority@,
                    path_and_query@,
                    self@.program.ops.len() as int,
                );
                match r {
                    Ok(found) => exists|sf: StateView|
                        #[trigger] runs_to(self@.program, s0, sf) && (match find_key(
                            self@.key_map,
                            sf.parts.key(),
                            0,
                        ) {
                            Some(j) => found matches Some(resp) && resp@ == self@.responses[
                                self@.key_map[j].1
                            ],
                            None => found is None,
                        }),
                    Err(VmFault::MovePartToPart) => faults(self@.program, s0),
                    Err(VmFault::StepLimit) => out_of_fuel(self@.program, s0),
                }
            }),
    {
        match self.key_for(method, authority, path_and_query) {
            Ok(key) => Ok(self.get_response(key.as_str())),
            Err(fault) => Err(fault),
        }
    }
}

/// All response sets of one archive.
pub struct RecordedResponseSets {
    sets: Vec<RecordedResponseSet>,
}

impl View for RecordedResponseSets {
    type V = Seq<ResponseSetView>;

    closed spec fn view(&self) -> Seq<ResponseSetView> {
        self.sets@.map_values(|s: RecordedResponseSet| s@)
    }
}

impl RecordedResponseSets {
    pub fn new(sets: Vec<RecordedResponseSet>) -> (r: RecordedResponseSets)
        ensures
            r@.len() == sets@.len(),
            forall|i: int| 0 <= i < sets@.len() ==> r@[i] == sets@[i]@,
    {
        RecordedResponseSets { sets }
    }

    pub fn len(&self) -> (r: usize)
        ensures
            r == self@.len(),
    {
        self.sets.len()
    }

    pub fn get(&self, i: usize) -> (r: &RecordedResponseSet)
        requires
            i < self@.len(),
        ensures
            r@ == self@[i as int],
    {
        &self.sets[i]
    }

    /// Hands the sets out for per-endpoint ownership.
    pub fn into_sets(self) -> (r: Vec<RecordedResponseSet>)
        ensures
            r@.map_values(|s: RecordedResponseSet| s@) == self@,
    {
        self.sets
    }
}

} // verus!
