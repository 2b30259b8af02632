//! The recognized HTTP verbs and the submission-time error taxonomy.

use crate::text::str_eq;
use vstd::prelude::*;

verus! {

/// An HTTP verb the tool recognizes. A submission with any other verb text
/// is rejected before any work starts.
#[derive(Clone, Copy, Debug, PartialEq, Eq, Structural)]
pub enum Method {
    Get,
    Post,
}

/// A failure detected synchronously at submission time.
#[derive(Clone, Copy, Debug, PartialEq, Eq, Structural)]
pub enum SubmitError {
    /// The verb text does not name a recognized method.
    InvalidMethod,
}

/// Which verb, if any, the given free text names. The match is exact and
/// case-sensitive.
pub open spec fn method_of_text(s: Seq<char>) -> Option<Method> {
    if s == "GET"@ {
        Some(Method::Get)
    } else if s == "POST"@ {
        Some(Method::Post)
    } else {
        None
    }
}

/// Whether the verb semantically carries a request payload.
pub open spec fn spec_carries_payload(m: Method) -> bool {
    m is Post
}

impl Method {
    /// Parse free verb text; unrecognized text fails with `InvalidMethod`.
    pub fn from_text(s: &str) -> (r: Result<Method, SubmitError>)
        ensures
            r is Ok <==> method_of_text(s@) is Some,
            r matches Ok(m) ==> Some(m) == method_of_text(s@),
            r matches Err(e) ==> e is InvalidMethod,
    {
        if str_eq(s, "GET") {
            Ok(Method::Get)
        } else if str_eq(s, "POST") {
            Ok(Method::Post)
        } else {
            Err(SubmitError::InvalidMethod)
        }
    }

    /// Whether the verb semantically carries a request payload.
    pub fn carries_payload(&self) -> (r: bool)
        ensures
            r == spec_carries_payload(*self),
    {
        match self {
            Method::Post => true,
            Method::Get => false,
        }
    }

    /// The verb's canonical text.
    pub fn as_text(&self) -> (r: &'static str)
        ensures
            Some(*self) == method_of_text(r@),
    {
        broadcast use vstd::string::group_string_axioms;

        proof {
            reveal_strlit("GET");
            reveal_strlit("POST");
            // the two verb texts differ, so each arm lands in its own
            // branch of `method_of_text`
            assert("GET"@.len() == 3);
            assert("POST"@.len() == 4);
        }
        match self {
            Method::Get => "GET",
            Method::Post => "POST",
        }
    }
}

} // verus!
