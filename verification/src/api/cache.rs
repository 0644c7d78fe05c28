//! The cache operations.

use vstd::prelude::*;
use crate::api::SUCCESS;
use crate::cache::CacheStats;
use crate::catalog::{FilmapikScraper, COUNTRIES_KEY, GENRES_KEY};
use crate::errors::{AppError, ErrorKind};
use crate::models::{Country, Genre};
use crate::reference::{country_list, genre_list};

verus! {

/// The envelope of an operation that returns nothing.
#[derive(Clone, Debug, PartialEq, Eq)]
pub struct SuccessResponse {
    pub status: String,
    pub message: String,
}

/// The envelope of the cache statistics.
#[derive(Clone, Debug, PartialEq, Eq)]
pub struct CacheStatsResponse {
    pub status: String,
    pub message: String,
    pub data: CacheStats,
}

/// The number of live entries of each namespace at `now`, in its envelope.
pub fn get_cache_stats(scraper: &FilmapikScraper, now: u64) -> (r: CacheStatsResponse)
    ensures
        r.status@ == SUCCESS@,
        r.message@ == "Statistik cache berhasil didapatkan"@,
        (r.data.movies as nat, r.data.genres as nat, r.data.countries as nat, r.data.details as nat)
            == scraper.cache.live_counts(now),
{
    CacheStatsResponse {
        status: String::from_str(SUCCESS),
        message: String::from_str("Statistik cache berhasil didapatkan"),
        data: scraper.get_cache_stats(now),
    }
}

/// Clears every namespace of the cache.
pub fn clear_cache(scraper: &mut FilmapikScraper) -> (r: SuccessResponse)
    requires
        old(scraper).wf(),
    ensures
        final(scraper).wf(),
        final(scraper).same_origin(old(scraper)),
        forall|now: u64| #[trigger]
            final(scraper).cache.live_counts(now) == (0nat, 0nat, 0nat, 0nat),
        r.status@ == SUCCESS@,
        r.message@ == "Cache berhasil dihapus"@,
{
    scraper.clear_cache();
    SuccessResponse {
        status: String::from_str(SUCCESS),
        message: String::from_str("Cache berhasil dihapus"),
    }
}

/// Rebuilds the genre or the country namespace, as `cache_type` says
/// (`"genres"` or `"countries"`), and leaves the other namespaces as they
/// are. Any other name is invalid input and changes nothing.
pub fn refresh_cache(scraper: &mut FilmapikScraper, cache_type: &str, now: u64) -> (r: Result<
    SuccessResponse,
    AppError,
>)
    requires
        old(scraper).wf(),
    ensures
        final(scraper).wf(),
        final(scraper).same_origin(old(scraper)),
        final(scraper).cache.movies@ == old(scraper).cache.movies@,
        final(scraper).cache.details@ == old(scraper).cache.details@,
        if cache_type@ == "genres"@ {
            final(scraper).cache.countries@ == old(scraper).cache.countries@ && exists|
                stored: Vec<Genre>,
            | #[trigger]
                stored.deep_view() == genre_list(old(scraper).base_url@) && final(scraper).cache.genres@ == old(scraper).cache.genres@.clear().put(GENRES_KEY@, stored, now)
        } else if cache_type@ == "countries"@ {
            final(scraper).cache.genres@ == old(scraper).cache.genres@ && exists|
                stored: Vec<Country>,
            | #[trigger]
                stored.deep_view() == country_list(old(scraper).base_url@) && final(scraper).cache.countries@ == old(scraper).cache.countries@.clear().put(
                    COUNTRIES_KEY@,
                    stored,
                    now,
                )
        } else {
            final(scraper).cache.genres@ == old(scraper).cache.genres@ && final(scraper).cache.countries@ == old(scraper).cache.countries@
        },
        match r {
            Ok(response) => (cache_type@ == "genres"@ || cache_type@ == "countries"@)
                && response.status@ == SUCCESS@ && response.message@ == "Cache tipe "@
                + cache_type@ + " berhasil diperbarui"@,
            Err(e) => cache_type@ != "genres"@ && cache_type@ != "countries"@ && e.kind()
                == ErrorKind::InvalidInput,
        },
{
    match scraper.refresh_cache(cache_type, now) {
        Ok(_) => Ok(
            SuccessResponse {
                status: String::from_str(SUCCESS),
                message: String::from_str("Cache tipe ").concat(cache_type).concat(
                    " berhasil diperbarui",
                ),
            },
        ),
        Err(e) => Err(e),
    }
}

} // verus!
