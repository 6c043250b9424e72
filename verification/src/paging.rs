//! Pagination: the opaque cursor token and the request-parameter encoder.

use crate::query::QueryParams;
use vstd::prelude::*;

verus! {

/// An opaque pagination token returned by the server and replayed verbatim
/// in a later request: stored and compared, never parsed, never mutated.
#[derive(Debug, Eq, PartialEq, Ord, PartialOrd, Hash, Clone)]
pub struct PagingCursor(String);

impl View for PagingCursor {
    type V = Seq<char>;

    closed spec fn view(&self) -> Seq<char> {
        self.0@
    }
}

impl PagingCursor {
    /// Wraps a raw token.
    pub fn new(token: String) -> (r: Self)
        ensures
            r@ == token@,
    {
        PagingCursor(token)
    }

    /// The raw token, unchanged.
    pub fn as_str(&self) -> (r: &str)
        ensures
            r@ == self@,
    {
        self.0.as_str()
    }
}

/// Optional parameters of a paginated request. Each field is independently
/// optional: absence means "not specified", not zero or the empty string.
#[derive(Debug, Eq, PartialEq, Clone)]
pub struct Paging {
    /// Resume reading from this cursor; absent means start at the beginning.
    pub start_cursor: Option<PagingCursor>,
    /// How many results to return; absent means the server's default.
    pub page_size: Option<u8>,
}

impl Default for Paging {
    /// Both parameters left unspecified.
    fn default() -> (r: Self)
        ensures
            r.start_cursor is None,
            r.page_size is None,
    {
        Paging { start_cursor: None, page_size: None }
    }
}

/// A paginated request value: consuming `start_from` returns the same
/// request aimed at the given cursor, or at the beginning for `None`.
pub trait Pageable: Sized {
    fn start_from(self, starting_point: Option<PagingCursor>) -> Self;
}

/// One decimal digit as text.
pub open spec fn digit_text(d: int) -> Seq<char> {
    if d == 0 {
        "0"@
    } else if d == 1 {
        "1"@
    } else if d == 2 {
        "2"@
    } else if d == 3 {
        "3"@
    } else if d == 4 {
        "4"@
    } else if d == 5 {
        "5"@
    } else if d == 6 {
        "6"@
    } else if d == 7 {
        "7"@
    } else if d == 8 {
        "8"@
    } else {
        "9"@
    }
}

/// The decimal digits of `n`, most significant first, without leading
/// zeros (a lone `0` for zero).
pub open spec fn u8_decimal(n: u8) -> Seq<char> {
    if n < 10 {
        digit_text(n as int)
    } else if n < 100 {
        digit_text(n as int / 10) + digit_text(n as int % 10)
    } else {
        digit_text(n as int / 100) + digit_text((n as int / 10) % 10) + digit_text(n as int % 10)
    }
}

fn digit_str(d: u8) -> (r: &'static str)
    requires
        d < 10,
    ensures
        r@ == digit_text(d as int),
{
    if d == 0 {
        "0"
    } else if d == 1 {
        "1"
    } else if d == 2 {
        "2"
    } else if d == 3 {
        "3"
    } else if d == 4 {
        "4"
    } else if d == 5 {
        "5"
    } else if d == 6 {
        "6"
    } else if d == 7 {
        "7"
    } else if d == 8 {
        "8"
    } else {
        "9"
    }
}

/// Renders `n` in decimal, as `u8_decimal` describes.
pub fn u8_to_decimal(n: u8) -> (r: String)
    ensures
        r@ == u8_decimal(n),
{
    let mut s = String::new();
    if n < 10 {
        s.append(digit_str(n));
    } else if n < 100 {
        s.append(digit_str(n / 10));
        s.append(digit_str(n % 10));
    } else {
        s.append(digit_str(n / 100));
        s.append(digit_str((n / 10) % 10));
        s.append(digit_str(n % 10));
    }
    proof {
        assert(s@ =~= u8_decimal(n));
    }
    s
}

/// The query fragment for `p`: `start_cursor=<token>` if the cursor is
/// present, then `page_size=<n>` if the size is present, in that fixed
/// order, joined with `&`; empty when both are absent.
pub open spec fn paging_query_string(p: Paging) -> Seq<char> {
    match (p.start_cursor, p.page_size) {
        (Option::None, Option::None) => Seq::<char>::empty(),
        (Option::Some(c), Option::None) => "start_cursor="@ + c@,
        (Option::None, Option::Some(n)) => "page_size="@ + u8_decimal(n),
        (Option::Some(c), Option::Some(n)) => "start_cursor="@ + c@ + "&page_size="@ + u8_decimal(
            n,
        ),
    }
}

impl QueryParams for Paging {
    open spec fn query_string_spec(&self) -> Seq<char> {
        paging_query_string(*self)
    }

    fn to_query_string(&self) -> (r: String) {
        let mut s = String::new();
        if let Some(c) = &self.start_cursor {
            s.append("start_cursor=");
            s.append(c.as_str());
        }
        if let Some(n) = &self.page_size {
            if self.start_cursor.is_some() {
                s.append("&page_size=");
            } else {
                s.append("page_size=");
            }
            let d = u8_to_decimal(*n);
            s.append(d.as_str());
        }
        proof {
            assert(s@ =~= paging_query_string(*self));
        }
        s
    }
}

} // verus!
