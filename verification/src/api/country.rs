//! The country operations.

use vstd::prelude::*;
use crate::api::{listing_response, page_message, require_id, PER_PAGE, SUCCESS};
use crate::catalog::FilmapikScraper;
use crate::errors::AppError;
use crate::models::{CountryResponse, Movie, MovieResponse, PaginationInfo};
use crate::reference::country_list;

verus! {

/// The page asked for by a query.
#[derive(Clone, Copy, Debug, PartialEq, Eq, Structural)]
pub struct PaginationParams {
    pub page: u32,
}

/// The page that a query without a page number asks for.
pub fn default_page() -> (page: u32)
    ensures
        page == 1,
{
    1
}

impl PaginationParams {
    /// The parameters of a query that names `page`, or no page.
    pub fn new(page: Option<u32>) -> (r: Self)
        ensures
            r.page == match page {
                Some(p) => p,
                None => 1,
            },
    {
        match page {
            Some(p) => PaginationParams { page: p },
            None => PaginationParams { page: default_page() },
        }
    }
}

/// Accepts the identifier of a country that is not empty.
pub fn check_country_id(country_id: &str) -> (r: Result<(), AppError>)
    ensures
        match r {
            Ok(_) => country_id@.len() > 0,
            Err(e) => country_id@.len() == 0 && (e matches AppError::InvalidInput(m) && m@
                == "Country ID tidak valid"@),
        },
{
    require_id(country_id, "Country ID tidak valid")
}

/// The country list in its envelope.
pub fn get_countries(scraper: &mut FilmapikScraper, now: u64) -> (r: CountryResponse)
    requires
        old(scraper).wf(),
    ensures
        final(scraper).wf(),
        final(scraper).same_origin(old(scraper)),
        final(scraper).cache.movies@ == old(scraper).cache.movies@,
        final(scraper).cache.genres@ == old(scraper).cache.genres@,
        final(scraper).cache.details@ == old(scraper).cache.details@,
        r.status@ == SUCCESS@,
        r.message@ == "Daftar negara film berhasil didapatkan"@,
        r.data.deep_view() == country_list(old(scraper).base_url@),
{
    crate::api::movie::get_countries(scraper, now)
}

/// The envelope of page `page` of the movies of the country `country_id`.
pub fn get_movies_by_country(country_id: &str, page: u32, movies: Vec<Movie>) -> (r:
    MovieResponse)
    ensures
        r.status@ == SUCCESS@,
        r.message@ == page_message(
            "Film negara "@ + country_id@ + " halaman "@,
            page,
            " berhasil didapatkan"@,
        ),
        r.pagination == (PaginationInfo {
            current_page: page,
            per_page: PER_PAGE,
            total_items: None,
            total_pages: None,
        }),
        r.data == movies,
{
    let before = String::from_str("Film negara ").concat(country_id).concat(" halaman ");
    listing_response(before.as_str(), page, " berhasil didapatkan", movies)
}

} // verus!
