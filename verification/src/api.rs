//! The operations offered to the routing layer: what each one checks of
//! its input, and the envelope in which it returns its result.

pub mod cache;
pub mod country;
pub mod movie;

use vstd::prelude::*;
use crate::errors::AppError;
use crate::models::{Movie, MovieResponse, PaginationInfo};
use crate::text::{decimal, push_decimal, push_str, string_of};

verus! {

/// The number of movies on a listing page of the origin.
pub const PER_PAGE: u32 = 24;

/// The status of every envelope that carries a result.
pub const SUCCESS: &'static str = "success";

/// Where page `page` stands: the totals are unknown, since the origin does
/// not tell them.
pub fn pagination(page: u32) -> (r: PaginationInfo)
    ensures
        r == (PaginationInfo {
            current_page: page,
            per_page: PER_PAGE,
            total_items: None,
            total_pages: None,
        }),
{
    PaginationInfo { current_page: page, per_page: PER_PAGE, total_items: None, total_pages: None }
}

/// Accepts an identifier that is not empty; an empty one is invalid input,
/// reported with `complaint`.
pub fn require_id(id: &str, complaint: &str) -> (r: Result<(), AppError>)
    ensures
        match r {
            Ok(_) => id@.len() > 0,
            Err(e) => id@.len() == 0 && (e matches AppError::InvalidInput(m) && m@ == complaint@),
        },
{
    if id.is_empty() {
        Err(AppError::InvalidInput(String::from_str(complaint)))
    } else {
        Ok(())
    }
}

/// The message of a page envelope: `before`, the page number, `after`.
pub open spec fn page_message(before: Seq<char>, page: u32, after: Seq<char>) -> Seq<char> {
    before + decimal(page as nat) + after
}

/// The envelope of page `page` of a listing, with the message made of
/// `before`, the page number and `after`.
pub fn listing_response(before: &str, page: u32, after: &str, movies: Vec<Movie>) -> (r:
    MovieResponse)
    ensures
        r.status@ == SUCCESS@,
        r.message@ == page_message(before@, page, after@),
        r.pagination == (PaginationInfo {
            current_page: page,
            per_page: PER_PAGE,
            total_items: None,
            total_pages: None,
        }),
        r.data == movies,
{
    let mut message: Vec<char> = Vec::new();
    push_str(before, &mut message);
    push_decimal(page as u64, &mut message);
    push_str(after, &mut message);
    assert(message@ =~= page_message(before@, page, after@));
    MovieResponse {
        status: String::from_str(SUCCESS),
        message: string_of(&message),
        pagination: pagination(page),
        data: movies,
    }
}

} // verus!
