//! Routing for the line-oriented control listener: which of the few
//! requests a received line is.  Reading the socket, serving files and
//! decoding a serialized control message are outside work; only the routing
//! decision lives here.

use crate::strutil;
use crate::strutil::first_index_of;
use crate::strutil::is_prefix;
use crate::strutil::lemma_first_index_of;
use vstd::prelude::*;
use vstd::string::StrSliceExecFns;
use vstd::string::StringExecFns;

verus! {

/// What a received request line asks for.
#[derive(Debug, Clone, PartialEq)]
pub enum ServerRoute {
    /// Serve the index page.
    Index,
    /// Toggle playback; answers the fixed play/pause request.
    InstancePlay,
    /// Serve the icon under this request path.
    Icon(String),
    /// Decode the line as a serialized control message.
    Control,
}

/// The text between the first space and the second space or the end; empty
/// when there is no space.
pub open spec fn second_token(s: Seq<char>) -> Seq<char> {
    match first_index_of(s, ' ') {
        None => Seq::<char>::empty(),
        Some(i) => {
            let rest = s.subrange(i + 1, s.len() as int);
            match first_index_of(rest, ' ') {
                None => rest,
                Some(j) => rest.subrange(0, j),
            }
        },
    }
}

/// The kinds of route a request line can take.
#[derive(Debug, Clone, Copy, PartialEq, Eq, Structural)]
pub enum RouteKind {
    Index,
    InstancePlay,
    Icon,
    Control,
}

/// The kind of route a request line takes.
pub open spec fn route_kind(s: Seq<char>) -> RouteKind {
    if s == "GET / HTTP/1.1"@ {
        RouteKind::Index
    } else if s == "GET /instance/play HTTP/1.1"@ {
        RouteKind::InstancePlay
    } else if is_prefix("GET /icons"@, s) {
        RouteKind::Icon
    } else {
        RouteKind::Control
    }
}

pub struct Server;

impl Server {
    /// Routes one request line: the index page, the fixed play/pause
    /// request, an icon (with its request path), or a control message to
    /// be decoded by the caller.
    pub fn route_request(line: &str) -> (r: ServerRoute)
        ensures
            match route_kind(line@) {
                RouteKind::Index => r == ServerRoute::Index,
                RouteKind::InstancePlay => r == ServerRoute::InstancePlay,
                RouteKind::Icon => r matches ServerRoute::Icon(p) && p@ == second_token(line@),
                RouteKind::Control => r == ServerRoute::Control,
            },
    {
        if strutil::str_eq(line, "GET / HTTP/1.1") {
            ServerRoute::Index
        } else if strutil::str_eq(line, "GET /instance/play HTTP/1.1") {
            ServerRoute::InstancePlay
        } else if strutil::str_starts_with(line, "GET /icons") {
            let path = Server::token_after_space(line);
            ServerRoute::Icon(String::from_str(path))
        } else {
            ServerRoute::Control
        }
    }

    /// The second space-separated token of the line.
    fn token_after_space(line: &str) -> (r: &str)
        ensures
            r@ == second_token(line@),
    {
        let n = line.unicode_len();
        proof {
            lemma_first_index_of(line@, ' ');
        }
        match strutil::find_char(line, ' ') {
            None => {
                let e = line.substring_char(0, 0);
                proof {
                    assert(e@ =~= second_token(line@));
                }
                e
            },
            Some(i) => {
                let ghost rest = line@.subrange(i + 1, line@.len() as int);
                proof {
                    lemma_first_index_of(rest, ' ');
                }
                match strutil::find_char_from(line, ' ', i + 1) {
                    None => {
                        proof {
                            match first_index_of(rest, ' ') {
                                Some(k) => {
                                    assert(rest[k] == ' ');
                                    assert(line@[i + 1 + k] == ' ');
                                },
                                None => {},
                            }
                        }
                        line.substring_char(i + 1, n)
                    },
                    Some(j) => {
                        proof {
                            assert(rest[j - i - 1] == ' ');
                            match first_index_of(rest, ' ') {
                                Some(k) => {
                                    assert(forall|x: int|
                                        i + 1 <= x < j ==> line@[x] == rest[x - i - 1]
                                            && line@[x] != ' ');
                                    assert(k == j - i - 1);
                                },
                                None => {
                                    assert(false);
                                },
                            }
                        }
                        let p = line.substring_char(i + 1, j);
                        proof {
                            assert(p@ =~= rest.subrange(0, j - i - 1));
                        }
                        p
                    },
                }
            },
        }
    }
}

} // verus!
