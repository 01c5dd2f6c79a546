//! The five named URL parts a request-key program may read and write.
//!
//! `RequestParts` keeps the request triple `(method, authority,
//! path-and-query)` together with the position of the `?` that separates path
//! from query.  `Path` and `Query` are virtual parts carved out of
//! `path_and_query` at that position.

use vstd::prelude::*;
use vstd::string::*;

use crate::text::{find_char, str_find_char, str_slice_owned};

verus! {

/// One of the five URL-derived fields of a request.
#[derive(Clone, Copy, PartialEq, Eq, Structural, Debug)]
pub enum RequestPart {
    Method,
    Authority,
    PathAndQuery,
    Path,
    Query,
}

impl RequestPart {
    /// The part named by an instruction operand, if the operand is in range.
    pub fn from_id(id: usize) -> (r: Option<RequestPart>)
        ensures
            r == RequestPart::id_spec(id as int),
    {
        match id {
            0 => Some(RequestPart::Method),
            1 => Some(RequestPart::Authority),
            2 => Some(RequestPart::PathAndQuery),
            3 => Some(RequestPart::Path),
            4 => Some(RequestPart::Query),
            _ => None,
        }
    }

    /// Which part an operand value denotes.
    pub open spec fn id_spec(id: int) -> Option<RequestPart> {
        if id == 0 {
            Some(RequestPart::Method)
        } else if id == 1 {
            Some(RequestPart::Authority)
        } else if id == 2 {
            Some(RequestPart::PathAndQuery)
        } else if id == 3 {
            Some(RequestPart::Path)
        } else if id == 4 {
            Some(RequestPart::Query)
        } else {
            None
        }
    }
}

/// Mathematical model of `RequestParts`.
#[verifier::ext_equal]
pub ghost struct PartsView {
    pub method: Seq<char>,
    pub authority: Seq<char>,
    pub path_and_query: Seq<char>,
    pub query_index: Option<int>,
}

impl PartsView {
    /// The recorded `?` position, when present, points at a `?` inside
    /// `path_and_query`.
    pub open spec fn wf(self) -> bool {
        match self.query_index {
            Some(i) => 0 <= i < self.path_and_query.len() && self.path_and_query[i] == '?',
            None => true,
        }
    }

    /// The path half of `path_and_query`.
    pub open spec fn path(self) -> Seq<char> {
        match self.query_index {
            Some(i) => self.path_and_query.subrange(0, i),
            None => self.path_and_query,
        }
    }

    /// The query half of `path_and_query`, without its leading `?`.
    pub open spec fn query(self) -> Option<Seq<char>> {
        match self.query_index {
            Some(i) => Some(
                self.path_and_query.subrange(i + 1, self.path_and_query.len() as int),
            ),
            None => None,
        }
    }

    /// What reading `part` yields; `Query` is the only part that can be absent.
    pub open spec fn read(self, part: RequestPart) -> Option<Seq<char>> {
        match part {
            RequestPart::Method => Some(self.method),
            RequestPart::Authority => Some(self.authority),
            RequestPart::PathAndQuery => Some(self.path_and_query),
            RequestPart::Path => Some(self.path()),
            RequestPart::Query => self.query(),
        }
    }

    pub open spec fn with_method(self, v: Option<Seq<char>>) -> PartsView {
        PartsView {
            method: match v {
                Some(s) => s,
                None => seq!['*'],
            },
            ..self
        }
    }

    pub open spec fn with_authority(self, v: Option<Seq<char>>) -> PartsView {
        PartsView {
            authority: match v {
                Some(s) => s,
                None => seq!['*'],
            },
            ..self
        }
    }

    pub open spec fn with_path_and_query(self, v: Option<Seq<char>>) -> PartsView {
        match v {
            Some(s) => PartsView { path_and_query: s, query_index: find_char(s, '?'), ..self },
            None => PartsView { path_and_query: seq!['/'], query_index: None, ..self },
        }
    }

    pub open spec fn with_path(self, v: Option<Seq<char>>) -> PartsView {
        let p = match v {
            Some(s) => s,
            None => seq!['/'],
        };
        match self.query_index {
            Some(i) => PartsView {
                path_and_query: p + self.path_and_query.subrange(
                    i,
                    self.path_and_query.len() as int,
                ),
                query_index: Some(p.len() as int),
                ..self
            },
            None => PartsView { path_and_query: p, ..self },
        }
    }

    pub open spec fn with_query(self, v: Option<Seq<char>>) -> PartsView {
        match v {
            Some(q) => match self.query_index {
                Some(i) => PartsView {
                    path_and_query: self.path_and_query.subrange(0, i + 1) + q,
                    ..self
                },
                None => PartsView {
                    path_and_query: self.path_and_query + seq!['?'] + q,
                    query_index: Some(self.path_and_query.len() as int),
                    ..self
                },
            },
            None => match self.query_index {
                Some(i) => PartsView {
                    path_and_query: self.path_and_query.subrange(0, i),
                    query_index: None,
                    ..self
                },
                None => self,
            },
        }
    }

    /// What writing `v` into `part` yields.
    pub open spec fn write(self, part: RequestPart, v: Option<Seq<char>>) -> PartsView {
        match part {
            RequestPart::Method => self.with_method(v),
            RequestPart::Authority => self.with_authority(v),
            RequestPart::PathAndQuery => self.with_path_and_query(v),
            RequestPart::Path => self.with_path(v),
            RequestPart::Query => self.with_query(v),
        }
    }

    /// The canonical lookup key: the three main parts joined by single spaces.
    pub open spec fn key(self) -> Seq<char> {
        self.method + seq![' '] + self.authority + seq![' '] + self.path_and_query
    }
}

/// A request's mutable parts, as the request-key program sees them.
pub struct RequestParts {
    method: String,
    authority: String,
    path_and_query: String,
    query_index: Option<usize>,
}

impl View for RequestParts {
    type V = PartsView;

    closed spec fn view(&self) -> PartsView {
        PartsView {
            method: self.method@,
            authority: self.authority@,
            path_and_query: self.path_and_query@,
            query_index: match self.query_index {
                Some(i) => Some(i as int),
                None => None,
            },
        }
    }
}

impl RequestParts {
    /// Captures the incoming request triple; the `?` position is found once
    /// here and maintained by every setter.
    pub fn new(method: &str, authority: &str, path_and_query: &str) -> (r: RequestParts)
        ensures
            r@.method == method@,
            r@.authority == authority@,
            r@.path_and_query == path_and_query@,
            r@.query_index == find_char(path_and_query@, '?'),
            r@.wf(),
    {
        let query_index = str_find_char(path_and_query, '?');
        proof {
            lemma_find_char_in_range(path_and_query@, '?');
        }
        RequestParts {
            method: method.to_owned(),
            authority: authority.to_owned(),
            path_and_query: path_and_query.to_owned(),
            query_index,
        }
    }

    /// Reads one part; `Query` alone can be absent.
    pub fn get_part(&self, part: RequestPart) -> (r: Option<&str>)
        requires
            self@.wf(),
        ensures
            match r {
                Some(s) => self@.read(part) == Some(s@),
                None => self@.read(part) is None,
            },
    {
        match part {
            RequestPart::Method => Some(self.method.as_str()),
            RequestPart::Authority => Some(self.authority.as_str()),
            RequestPart::PathAndQuery => Some(self.path_and_query.as_str()),
            RequestPart::Path => Some(self.get_path()),
            RequestPart::Query => self.get_query(),
        }
    }

    /// Writes one part; `None` resets it to its default (`*` for method and
    /// authority, `/` for paths, absent for the query).
    pub fn set_part(&mut self, part: RequestPart, value: Option<&str>)
        requires
            old(self)@.wf(),
        ensures
            final(self)@ == old(self)@.write(part, view_opt(value)),
            final(self)@.wf(),
    {
        match part {
            RequestPart::Method => self.set_method(value),
            RequestPart::Authority => self.set_authority(value),
            RequestPart::PathAndQuery => self.set_path_and_query(value),
            RequestPart::Path => self.set_path(value),
            RequestPart::Query => self.set_query(value),
        }
    }

    /// Renders the canonical key `"{method} {authority} {path_and_query}"`.
    pub fn key(&self) -> (r: String)
        ensures
            r@ == self@.key(),
    {
        proof {
            reveal_strlit(" ");
        }
        let mut out = self.method.clone();
        out.append(" ");
        out.append(self.authority.as_str());
        out.append(" ");
        out.append(self.path_and_query.as_str());
        proof {
            assert(out@ =~= self@.key());
        }
        out
    }

    /// The path half of `path_and_query`.
    pub fn get_path(&self) -> (r: &str)
        requires
            self@.wf(),
        ensures
            r@ == self@.path(),
    {
        match self.query_index {
            Some(i) => self.path_and_query.as_str().substring_char(0, i),
            None => self.path_and_query.as_str(),
        }
    }

    /// The query half of `path_and_query`, without its leading `?`.
    pub fn get_query(&self) -> (r: Option<&str>)
        requires
            self@.wf(),
        ensures
            match r {
                Some(s) => self@.query() == Some(s@),
                None => self@.query() is None,
            },
    {
        let n = self.path_and_query.as_str().unicode_len();
        match self.query_index {
            Some(i) => Some(self.path_and_query.as_str().substring_char(i + 1, n)),
            None => None,
        }
    }

    pub fn set_authority(&mut self, replacement: Option<&str>)
        ensures
            final(self)@ == old(self)@.with_authority(view_opt(replacement)),
    {
        proof {
            reveal_strlit("*");
            assert("*"@ =~= seq!['*']);
        }
        let authority = match replacement {
            Some(s) => s,
            None => "*",
        };
        self.authority = authority.to_owned();
    }

    pub fn set_method(&mut self, replacement: Option<&str>)
        ensures
            final(self)@ == old(self)@.with_method(view_opt(replacement)),
    {
        proof {
            reveal_strlit("*");
            assert("*"@ =~= seq!['*']);
        }
        let method = match replacement {
            Some(s) => s,
            None => "*",
        };
        self.method = method.to_owned();
    }

    pub fn set_path_and_query(&mut self, replacement: Option<&str>)
        ensures
            final(self)@ == old(self)@.with_path_and_query(view_opt(replacement)),
            final(self)@.wf(),
    {
        proof {
            reveal_strlit("/");
            assert("/"@ =~= seq!['/']);
        }
        match replacement {
            Some(path_and_query) => {
                let query_index = str_find_char(path_and_query, '?');
                proof {
                    lemma_find_char_in_range(path_and_query@, '?');
                }
                self.path_and_query = path_and_query.to_owned();
                self.query_index = query_index;
            },
            None => {
                self.path_and_query = "/".to_owned();
                self.query_index = None;
            },
        }
    }

    pub fn set_path(&mut self, replacement: Option<&str>)
        requires
            old(self)@.wf(),
        ensures
            final(self)@ == old(self)@.with_path(view_opt(replacement)),
            final(self)@.wf(),
    {
        proof {
            reveal_strlit("/");
            assert("/"@ =~= seq!['/']);
        }
        let path = match replacement {
            Some(s) => s,
            None => "/",
        };
        let n = self.path_and_query.as_str().unicode_len();
        match self.query_index {
            Some(i) => {
                let path_len = path.unicode_len();
                let mut joined = path.to_owned();
                let suffix = self.path_and_query.as_str().substring_char(i, n);
                joined.append(suffix);
                self.path_and_query = joined;
                self.query_index = Some(path_len);
            },
            None => {
                self.path_and_query = path.to_owned();
            },
        }
    }

    pub fn set_query(&mut self, replacement: Option<&str>)
        requires
            old(self)@.wf(),
        ensures
            final(self)@ == old(self)@.with_query(view_opt(replacement)),
            final(self)@.wf(),
    {
        proof {
            reveal_strlit("?");
            assert("?"@ =~= seq!['?']);
        }
        let n = self.path_and_query.as_str().unicode_len();
        match replacement {
            Some(query) => {
                match self.query_index {
                    Some(i) => {
                        let mut joined = str_slice_owned(self.path_and_query.as_str(), 0, i + 1);
                        joined.append(query);
                        self.path_and_query = joined;
                    },
                    None => {
                        self.path_and_query.append("?");
                        self.path_and_query.append(query);
                        self.query_index = Some(n);
                        proof {
                            assert(self@.path_and_query
                                =~= old(self)@.path_and_query + seq!['?'] + query@);
                        }
                    },
                }
            },
            None => {
                match self.query_index {
                    Some(i) => {
                        self.path_and_query = str_slice_owned(self.path_and_query.as_str(), 0, i);
                        self.query_index = None;
                    },
                    None => {},
                }
            },
        }
    }
}

/// The view of an optional borrowed string.
pub open spec fn view_opt(v: Option<&str>) -> Option<Seq<char>> {
    match v {
        Some(s) => Some(s@),
        None => None,
    }
}

/// A found character index lies inside the string.
pub proof fn lemma_find_char_in_range(s: Seq<char>, c: char)
    ensures
        match find_char(s, c) {
            Some(i) => 0 <= i < s.len() && s[i] == c,
            None => true,
        },
{
    lemma_find_char_from_in_range(s, c, 0);
}

proof fn lemma_find_char_from_in_range(s: Seq<char>, c: char, i: int)
    ensures
        match crate::text::find_char_from(s, c, i) {
            Some(j) => 0 <= j < s.len() && s[j] == c,
            None => true,
        },
    decreases s.len() - i,
{
    if 0 <= i < s.len() && s[i] != c {
        lemma_find_char_from_in_range(s, c, i + 1);
    }
}

} // verus!
