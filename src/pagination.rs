//! Paging parameters of the question listing.
use vstd::prelude::*;
use crate::digits::{parse_u32, parse_u32_spec};
use crate::error::Error;
use crate::text::same_text;

verus! {

/// Which slice of the listing to return: at most `limit` questions (all
/// where absent), skipping the first `offset`.
#[derive(Debug, Clone, Copy, PartialEq, Eq, Structural)]
pub struct Pagination {
    pub limit: Option<u32>,
    pub offset: u32,
}

impl Default for Pagination {
    /// No limit, no offset: the whole listing.
    fn default() -> (r: Pagination)
        ensures
            r == (Pagination { limit: None, offset: 0 }),
    {
        Pagination { limit: None, offset: 0 }
    }
}

/// The value of the first query parameter named `key`.
pub open spec fn lookup(params: Seq<(String, String)>, key: Seq<char>) -> Option<Seq<char>>
    decreases params.len(),
{
    if params.len() == 0 {
        None
    } else if params[0].0@ == key {
        Some(params[0].1@)
    } else {
        lookup(params.drop_first(), key)
    }
}

/// Paging read from query parameters: both `limit` and `offset` must be
/// present (else `MissingParameters`) and read as decimal `u32`s, `limit`
/// first (else the first parse failure).
pub open spec fn pagination_spec(params: Seq<(String, String)>) -> Result<Pagination, Error> {
    match (lookup(params, "limit"@), lookup(params, "offset"@)) {
        (Some(l), Some(o)) => match parse_u32_spec(l) {
            Err(e) => Err(Error::ParseError(e)),
            Ok(limit) => match parse_u32_spec(o) {
                Err(e) => Err(Error::ParseError(e)),
                Ok(offset) => Ok(Pagination { limit: Some(limit), offset }),
            },
        },
        _ => Err(Error::MissingParameters),
    }
}

/// The position of the first parameter named `key`.
fn find_param(params: &Vec<(String, String)>, key: &str) -> (r: Option<usize>)
    ensures
        match r {
            Some(i) => i < params@.len() && lookup(params@, key@) == Some(params@[i as int].1@),
            None => lookup(params@, key@) is None,
        },
{
    let mut i: usize = 0;
    assert(params@.subrange(0, params@.len() as int) =~= params@);
    while i < params.len()
        invariant
            i <= params@.len(),
            lookup(params@, key@) == lookup(params@.subrange(i as int, params@.len() as int), key@),
        decreases params@.len() - i,
    {
        let ghost rest = params@.subrange(i as int, params@.len() as int);
        assert(rest.drop_first() =~= params@.subrange(i + 1, params@.len() as int));
        if same_text(params[i].0.as_str(), key) {
            return Some(i);
        }
        i = i + 1;
    }
    None
}

/// Reads paging from the query parameters of the listing.
pub fn extract_pagination(params: &Vec<(String, String)>) -> (r: Result<Pagination, Error>)
    ensures
        r == pagination_spec(params@),
{
    let li = find_param(params, "limit");
    let oi = find_param(params, "offset");
    match (li, oi) {
        (Some(li), Some(oi)) => {
            let limit = match parse_u32(params[li].1.as_str()) {
                Ok(v) => v,
                Err(e) => return Err(Error::ParseError(e)),
            };
            let offset = match parse_u32(params[oi].1.as_str()) {
                Ok(v) => v,
                Err(e) => return Err(Error::ParseError(e)),
            };
            Ok(Pagination { limit: Some(limit), offset })
        },
        _ => Err(Error::MissingParameters),
    }
}

/// Paging for a listing request: the whole listing where the query is
/// empty, else what `extract_pagination` reads.
pub fn pagination_from_query(params: &Vec<(String, String)>) -> (r: Result<Pagination, Error>)
    ensures
        params@.len() == 0 ==> r == Ok::<Pagination, Error>(Pagination { limit: None, offset: 0 }),
        params@.len() > 0 ==> r == pagination_spec(params@),
{
    if params.len() == 0 {
        Ok(Pagination::default())
    } else {
        extract_pagination(params)
    }
}

} // verus!
