//! The notification call method: a closed tagged variant, parsed from and
//! rendered to the token stored in the database's `method` column.

use vstd::prelude::*;
use vstd::string::StrSliceExecFns;
use vstd::string::StringExecFns;
use crate::errors::KvError;

verus! {

/// How a notification target is called.  `NONE` marks a row without a
/// registered call method; it never causes a dispatch.
#[derive(Debug, Clone, Copy, PartialEq, Eq, Structural)]
pub enum Method {
    GET,
    POST,
    NONE,
}

/// The token under which a method is stored: `"get"`, `"post"`, or the empty
/// string for `NONE`.
pub open spec fn token_view(m: Method) -> Seq<char> {
    match m {
        Method::GET => "get"@,
        Method::POST => "post"@,
        Method::NONE => Seq::<char>::empty(),
    }
}

/// The method a stored token denotes, or `None` for an unrecognized token.
pub open spec fn spec_parse_method(s: Seq<char>) -> Option<Method> {
    if s.len() == 0 {
        Some(Method::NONE)
    } else if s == "get"@ {
        Some(Method::GET)
    } else if s == "post"@ {
        Some(Method::POST)
    } else {
        None
    }
}

/// Parses a method token from external input.  Unrecognized tokens are
/// rejected with `KvError::Config` before any I/O occurs; the empty token
/// denotes `NONE`.
pub fn parse_method(s: &str) -> (r: Result<Method, KvError>)
    ensures
        match spec_parse_method(s@) {
            Some(m) => r == Ok::<Method, KvError>(m),
            None => r matches Err(e) && e is Config,
        },
{
    proof {
        reveal_strlit("get");
        reveal_strlit("post");
    }
    if s.is_empty() {
        Ok(Method::NONE)
    } else if s.unicode_len() == 3 && s.get_char(0) == 'g' && s.get_char(1) == 'e' && s.get_char(
        2,
    ) == 't' {
        proof {
            assert(s@ =~= "get"@);
        }
        Ok(Method::GET)
    } else if s.unicode_len() == 4 && s.get_char(0) == 'p' && s.get_char(1) == 'o' && s.get_char(
        2,
    ) == 's' && s.get_char(3) == 't' {
        proof {
            assert(s@ =~= "post"@);
        }
        Ok(Method::POST)
    } else {
        Err(KvError::Config(String::from_str("method not supported")))
    }
}

impl Method {
    /// The token under which this method is stored.
    pub fn token(&self) -> (r: &'static str)
        ensures
            r@ == token_view(*self),
    {
        proof {
            reveal_strlit("get");
            reveal_strlit("post");
            reveal_strlit("");
        }
        match self {
            Method::GET => "get",
            Method::POST => "post",
            Method::NONE => {
                proof {
                    assert(""@ =~= Seq::<char>::empty());
                }
                ""
            },
        }
    }
}

/// Rendering a method to its token and parsing it back yields the method:
/// the stored `method` column round-trips.
pub proof fn lemma_method_token_round_trip(m: Method)
    ensures
        spec_parse_method(token_view(m)) == Some(m),
{
    reveal_strlit("get");
    reveal_strlit("post");
}

} // verus!
