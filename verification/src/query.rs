//! The query-string capability a request-parameter type exposes.

use vstd::prelude::*;

verus! {

/// A request-parameter set that renders itself as a URL query fragment.
pub trait QueryParams {
    /// What the rendered fragment must read, character for character.
    spec fn query_string_spec(&self) -> Seq<char>;

    /// Renders the `key=value` fragments joined with `&`, with no leading
    /// `?` and no percent-encoding: values are assumed already query-safe,
    /// callers escape where needed.
    fn to_query_string(&self) -> (r: String)
        ensures
            r@ == self.query_string_spec(),
    ;
}

} // verus!
