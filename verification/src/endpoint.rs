//! The closed sets of values that a request can be built from.

use vstd::prelude::*;
use vstd::string::*;

verus! {

/// The kind of query, as a segment of the request path.
#[derive(Debug, Clone, Copy, PartialEq, Eq)]
pub enum Endpoint {
    TopHeadlines,
}

impl Endpoint {
    /// The path segment that selects this endpoint.
    pub open spec fn text(self) -> Seq<char> {
        match self {
            Endpoint::TopHeadlines => "top-headlines"@,
        }
    }

    /// The path segment that selects this endpoint.
    pub fn to_string(&self) -> (segment: String)
        ensures
            segment@ == self.text(),
    {
        match self {
            Endpoint::TopHeadlines => String::from_str("top-headlines"),
        }
    }
}

/// The region whose headlines are asked for.
#[derive(Debug, Clone, Copy, PartialEq, Eq)]
pub enum Country {
    In,
}

impl Country {
    /// The two-letter code of this country.
    pub open spec fn text(self) -> Seq<char> {
        match self {
            Country::In => "in"@,
        }
    }

    /// The two-letter code of this country.
    pub fn to_string(&self) -> (code: String)
        ensures
            code@ == self.text(),
    {
        match self {
            Country::In => String::from_str("in"),
        }
    }
}

} // verus!
