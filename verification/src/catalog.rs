//! The catalog service: for each query it consults the cache and, on a
//! miss, says what to fetch; given the answer it extracts, caches and
//! returns the result.
//!
//! The service never waits. A query is answered in one step when the cache
//! holds its result, and in two steps otherwise: the first hands out the
//! request, the second takes the outcome of that request. Nothing is held
//! between the two steps, so any number of queries may be under way at
//! once; when two of them miss the same key, both fetch, and the one that
//! completes last leaves its result in the cache.

use vstd::prelude::*;
use crate::cache::{
    law_expired_is_absent, law_put_then_get, lemma_lookup_entry, lemma_put_entries, CacheStats, CacheStore, NamespaceKind,
    CACHE_MAX_CAPACITY, CACHE_REFERENCE_CAPACITY, CACHE_TTL_COUNTRIES, CACHE_TTL_DETAILS,
    CACHE_TTL_GENRES, CACHE_TTL_MOVIES,
};
use crate::client::{
    answered_status, browser_header_set, browser_headers, check_response, failure_message,
    page_body, FetchOutcome, UpstreamRequest, UpstreamRequestView,
};
use crate::config::Config;
use crate::errors::{AppError, ErrorKind};
use crate::extract::{detail_outcome, listing_outcome, parse_latest_movies, parse_movie_detail};
use crate::models::{
    copy_countries, copy_genres, copy_movies, copy_text, Country, Genre, Movie, MovieDetail,
};
use crate::reference::{countries_of, country_list, genre_list, genres_of};
use crate::text::{
    decimal, lemma_decimal, lemma_decimal_injective, lemma_digit_suffix_unique, lemma_same_prefix,
    lemma_same_suffix, push_decimal, push_str, str_eq, string_of,
};

verus! {

/// The key of the genre list in its namespace.
pub const GENRES_KEY: &'static str = "all_genres";

/// The key of the country list in its namespace.
pub const COUNTRIES_KEY: &'static str = "all_countries";

/// The kinds of listing.
#[derive(Clone, Debug, PartialEq, Eq)]
pub enum Listing {
    /// The movies added last.
    Latest,
    /// The movies rated best.
    Popular,
    /// The movies of the genre with this identifier.
    Genre(String),
    /// The movies of the country with this identifier.
    Country(String),
}

/// What a `Listing` holds, as mathematical values.
pub ghost enum ListingView {
    Latest,
    Popular,
    Genre(Seq<char>),
    Country(Seq<char>),
}

impl DeepView for Listing {
    type V = ListingView;

    open spec fn deep_view(&self) -> ListingView {
        match self {
            Listing::Latest => ListingView::Latest,
            Listing::Popular => ListingView::Popular,
            Listing::Genre(id) => ListingView::Genre(id@),
            Listing::Country(id) => ListingView::Country(id@),
        }
    }
}

impl View for Listing {
    type V = ListingView;

    open spec fn view(&self) -> ListingView {
        self.deep_view()
    }
}

/// How a query goes on.
pub enum Step<T> {
    /// The cache held the result.
    Ready(T),
    /// The result has to be fetched with this request.
    Fetch(UpstreamRequest),
}

/// The part of the origin's addresses that is particular to a listing.
pub open spec fn section_of(kind: ListingView) -> Seq<char> {
    match kind {
        ListingView::Latest => Seq::empty(),
        ListingView::Popular => "/best-rating"@,
        ListingView::Genre(id) => "/genre/"@ + id,
        ListingView::Country(id) => "/country/"@ + id,
    }
}

/// The address of page `page` of a listing. Pages zero and one are the
/// listing's front page.
pub open spec fn listing_url(base: Seq<char>, kind: ListingView, page: u32) -> Seq<char> {
    if page > 1 {
        base + section_of(kind) + "/page/"@ + decimal(page as nat) + "/"@
    } else {
        base + section_of(kind) + "/"@
    }
}

/// The address that a request for page `page` of a listing claims to come
/// from: the page before it, or the site's root for the front page.
pub open spec fn listing_referer(base: Seq<char>, kind: ListingView, page: u32) -> Seq<char> {
    if page > 1 {
        base + section_of(kind) + "/page/"@ + decimal((page - 1) as nat) + "/"@
    } else if kind is Latest {
        base
    } else {
        base + "/"@
    }
}

/// The key of page `page` of a listing in the listing namespace.
pub open spec fn listing_key(kind: ListingView, page: u32) -> Seq<char> {
    match kind {
        ListingView::Latest => "latest_movies_page_"@ + decimal(page as nat),
        ListingView::Popular => "popular_movies_page_"@ + decimal(page as nat),
        ListingView::Genre(id) => "genre_"@ + id + "_page_"@ + decimal(page as nat),
        ListingView::Country(id) => "country_"@ + id + "_page_"@ + decimal(page as nat),
    }
}

/// The request for page `page` of a listing.
pub open spec fn listing_request(
    base: Seq<char>,
    kind: ListingView,
    page: u32,
) -> UpstreamRequestView {
    UpstreamRequestView {
        url: listing_url(base, kind, page),
        referer: listing_referer(base, kind, page),
        headers: browser_header_set(),
    }
}

/// The key of a movie's page in the detail namespace.
pub open spec fn detail_key(movie_id: Seq<char>) -> Seq<char> {
    "movie_detail_"@ + movie_id
}

/// The address of a movie's page.
pub open spec fn detail_url(base: Seq<char>, movie_id: Seq<char>) -> Seq<char> {
    base + "/"@ + movie_id + "/"@
}

/// The request for a movie's page; it claims to come from the site's root.
pub open spec fn detail_request(base: Seq<char>, movie_id: Seq<char>) -> UpstreamRequestView {
    UpstreamRequestView {
        url: detail_url(base, movie_id),
        referer: base + "/"@,
        headers: browser_header_set(),
    }
}

fn push_section(kind: &Listing, out: &mut Vec<char>)
    ensures
        final(out)@ == old(out)@ + section_of(kind@),
{
    match kind {
        Listing::Latest => {
            assert(out@ =~= old(out)@ + Seq::<char>::empty());
        },
        Listing::Popular => {
            push_str("/best-rating", out);
        },
        Listing::Genre(id) => {
            push_str("/genre/", out);
            push_str(id.as_str(), out);
            assert(out@ =~= old(out)@ + ("/genre/"@ + id@));
        },
        Listing::Country(id) => {
            push_str("/country/", out);
            push_str(id.as_str(), out);
            assert(out@ =~= old(out)@ + ("/country/"@ + id@));
        },
    }
}

/// The address of page `page` of a listing.
pub fn listing_url_of(base: &str, kind: &Listing, page: u32) -> (r: String)
    ensures
        r@ == listing_url(base@, kind@, page),
{
    let mut out: Vec<char> = Vec::new();
    push_str(base, &mut out);
    push_section(kind, &mut out);
    if page > 1 {
        push_str("/page/", &mut out);
        push_decimal(page as u64, &mut out);
    }
    push_str("/", &mut out);
    assert(out@ =~= listing_url(base@, kind@, page));
    string_of(&out)
}

/// The address that a request for page `page` of a listing claims to come
/// from.
pub fn listing_referer_of(base: &str, kind: &Listing, page: u32) -> (r: String)
    ensures
        r@ == listing_referer(base@, kind@, page),
{
    let mut out: Vec<char> = Vec::new();
    push_str(base, &mut out);
    if page > 1 {
        push_section(kind, &mut out);
        push_str("/page/", &mut out);
        push_decimal((page - 1) as u64, &mut out);
        push_str("/", &mut out);
    } else {
        match kind {
            Listing::Latest => {},
            _ => {
                push_str("/", &mut out);
            },
        }
    }
    assert(out@ =~= listing_referer(base@, kind@, page));
    string_of(&out)
}

/// The key of page `page` of a listing.
pub fn listing_key_of(kind: &Listing, page: u32) -> (r: String)
    ensures
        r@ == listing_key(kind@, page),
{
    let mut out: Vec<char> = Vec::new();
    match kind {
        Listing::Latest => {
            push_str("latest_movies_page_", &mut out);
        },
        Listing::Popular => {
            push_str("popular_movies_page_", &mut out);
        },
        Listing::Genre(id) => {
            push_str("genre_", &mut out);
            push_str(id.as_str(), &mut out);
            push_str("_page_", &mut out);
        },
        Listing::Country(id) => {
            push_str("country_", &mut out);
            push_str(id.as_str(), &mut out);
            push_str("_page_", &mut out);
        },
    }
    push_decimal(page as u64, &mut out);
    assert(out@ =~= listing_key(kind@, page));
    string_of(&out)
}

/// The key of a movie's page.
pub fn detail_key_of(movie_id: &str) -> (r: String)
    ensures
        r@ == detail_key(movie_id@),
{
    String::from_str("movie_detail_").concat(movie_id)
}

/// The address of a movie's page.
pub fn detail_url_of(base: &str, movie_id: &str) -> (r: String)
    ensures
        r@ == detail_url(base@, movie_id@),
{
    String::from_str(base).concat("/").concat(movie_id).concat("/")
}

/// The catalog service.
pub struct FilmapikScraper {
    /// The address of the origin, without a slash at its end.
    pub base_url: String,
    /// The cache store, for the lifetime of the service. It is open to be
    /// read; it is written through the operations of the service, which
    /// keep `wf`.
    pub cache: CacheStore,
}

impl FilmapikScraper {
    /// Whether each namespace has the time to live and the capacity of its
    /// kind: listing pages half an hour and a thousand entries, movie pages
    /// an hour and a thousand, the two reference lists a day and a hundred.
    pub open spec fn has_policy(&self) -> bool {
        &&& self.cache.movies@.ttl == CACHE_TTL_MOVIES
        &&& self.cache.movies@.capacity == CACHE_MAX_CAPACITY
        &&& self.cache.details@.ttl == CACHE_TTL_DETAILS
        &&& self.cache.details@.capacity == CACHE_MAX_CAPACITY
        &&& self.cache.genres@.ttl == CACHE_TTL_GENRES
        &&& self.cache.genres@.capacity == CACHE_REFERENCE_CAPACITY
        &&& self.cache.countries@.ttl == CACHE_TTL_COUNTRIES
        &&& self.cache.countries@.capacity == CACHE_REFERENCE_CAPACITY
    }

    /// Whether the genre namespace holds nothing but the fixed genre list,
    /// under its key.
    pub open spec fn genres_are_fixed(&self) -> bool {
        forall|i: int|
            0 <= i < self.cache.genres@.entries.len() ==> (#[trigger] self.cache.genres@.entries[i]).key
                == GENRES_KEY@ && self.cache.genres@.entries[i].value.deep_view() == genre_list(
                self.base_url@,
            )
    }

    /// Whether the country namespace holds nothing but the fixed country
    /// list, under its key.
    pub open spec fn countries_are_fixed(&self) -> bool {
        forall|i: int|
            0 <= i < self.cache.countries@.entries.len() ==> (
            #[trigger] self.cache.countries@.entries[i]).key == COUNTRIES_KEY@
                && self.cache.countries@.entries[i].value.deep_view() == country_list(
                self.base_url@,
            )
    }

    /// Whether the service is well formed: its cache is, each namespace has
    /// the policy of its kind, and the reference namespaces hold the fixed
    /// lists only. Every operation keeps it so.
    pub open spec fn wf(&self) -> bool {
        &&& self.cache.wf()
        &&& self.has_policy()
        &&& self.genres_are_fixed()
        &&& self.countries_are_fixed()
    }

    /// Whether `other` differs from `self` in the cache at most.
    pub open spec fn same_origin(&self, other: &Self) -> bool {
        self.base_url@ == other.base_url@
    }

    /// A service for the origin that `config` names, with an empty cache
    /// whose namespaces have the policy of their kind.
    pub fn new(config: &Config) -> (r: Self)
        ensures
            r.wf(),
            r.has_policy(),
            r.base_url@ == config.filmapik_url@,
            r.cache.is_empty(),
    {
        FilmapikScraper { base_url: copy_text(&config.filmapik_url), cache: CacheStore::new() }
    }

    /// The first step of a listing query: the cached page when it is live
    /// at `now`, the request for it otherwise.
    pub fn list_movies(&self, kind: &Listing, page: u32, now: u64) -> (r: Step<Vec<Movie>>)
        ensures
            match self.cache.movies@.lookup(listing_key(kind@, page), now) {
                Some(cached) => r matches Step::Ready(movies) && movies.deep_view()
                    == cached.deep_view(),
                None => r matches Step::Fetch(request) && request@ == listing_request(
                    self.base_url@,
                    kind@,
                    page,
                ),
            },
    {
        let key = listing_key_of(kind, page);
        match self.cache.movies.get(key.as_str(), now) {
            Some(cached) => Step::Ready(copy_movies(cached)),
            None => Step::Fetch(
                UpstreamRequest {
                    url: listing_url_of(self.base_url.as_str(), kind, page),
                    referer: listing_referer_of(self.base_url.as_str(), kind, page),
                    headers: browser_headers(),
                },
            ),
        }
    }

    /// The second step of a listing query: judges the outcome of the
    /// request, extracts the movies of the page, caches and returns them.
    ///
    /// An upstream or extraction error leaves the cache as it was.
    pub fn accept_listing(
        &mut self,
        kind: &Listing,
        page: u32,
        outcome: FetchOutcome,
        now: u64,
    ) -> (r: Result<Vec<Movie>, AppError>)
        requires
            old(self).wf(),
        ensures
            final(self).wf(),
            final(self).same_origin(old(self)),
            final(self).cache.genres@ == old(self).cache.genres@,
            final(self).cache.countries@ == old(self).cache.countries@,
            final(self).cache.details@ == old(self).cache.details@,
            match page_body(outcome) {
                None => r matches Err(AppError::UpstreamError { status, message }) && status
                    == answered_status(outcome) && message@ == failure_message(outcome)
                    && final(self).cache.movies@ == old(self).cache.movies@,
                Some(body) => match listing_outcome(body) {
                    Err(words) => r matches Err(AppError::ExtractionError(m)) && m@ == words
                        && final(self).cache.movies@ == old(self).cache.movies@,
                    Ok(found) => r matches Ok(movies) && movies.deep_view() == found && exists|
                        stored: Vec<Movie>,
                    | #[trigger]
                        stored.deep_view() == found && final(self).cache.movies@ == old(self).cache.movies@.put(listing_key(kind@, page), stored, now),
                },
            },
    {
        let body = match check_response(outcome) {
            Ok(body) => body,
            Err(e) => {
                return Err(e);
            },
        };
        let movies = match parse_latest_movies(body.as_str()) {
            Ok(movies) => movies,
            Err(e) => {
                return Err(e);
            },
        };
        let key = listing_key_of(kind, page);
        let stored = copy_movies(&movies);
        self.cache.movies.put(key, stored, now);
        assert(stored.deep_view() == movies.deep_view());
        Ok(movies)
    }

    /// The latest movies, page `page`: first step.
    pub fn get_latest_movies(&self, page: u32, now: u64) -> (r: Step<Vec<Movie>>)
        ensures
            match self.cache.movies@.lookup(listing_key(ListingView::Latest, page), now) {
                Some(cached) => r matches Step::Ready(movies) && movies.deep_view()
                    == cached.deep_view(),
                None => r matches Step::Fetch(request) && request@ == listing_request(
                    self.base_url@,
                    ListingView::Latest,
                    page,
                ),
            },
    {
        self.list_movies(&Listing::Latest, page, now)
    }

    /// The best rated movies, page `page`: first step.
    pub fn get_popular_movies(&self, page: u32, now: u64) -> (r: Step<Vec<Movie>>)
        ensures
            match self.cache.movies@.lookup(listing_key(ListingView::Popular, page), now) {
                Some(cached) => r matches Step::Ready(movies) && movies.deep_view()
                    == cached.deep_view(),
                None => r matches Step::Fetch(request) && request@ == listing_request(
                    self.base_url@,
                    ListingView::Popular,
                    page,
                ),
            },
    {
        self.list_movies(&Listing::Popular, page, now)
    }

    /// The movies of a genre, page `page`: first step.
    pub fn get_movies_by_genre(&self, genre_id: &str, page: u32, now: u64) -> (r: Step<
        Vec<Movie>,
    >)
        ensures
            match self.cache.movies@.lookup(listing_key(ListingView::Genre(genre_id@), page), now) {
                Some(cached) => r matches Step::Ready(movies) && movies.deep_view()
                    == cached.deep_view(),
                None => r matches Step::Fetch(request) && request@ == listing_request(
                    self.base_url@,
                    ListingView::Genre(genre_id@),
                    page,
                ),
            },
    {
        self.list_movies(&Listing::Genre(String::from_str(genre_id)), page, now)
    }

    /// The movies of a country, page `page`: first step.
    pub fn get_movies_by_country(&self, country_id: &str, page: u32, now: u64) -> (r: Step<
        Vec<Movie>,
    >)
        ensures
            match self.cache.movies@.lookup(
                listing_key(ListingView::Country(country_id@), page),
                now,
            ) {
                Some(cached) => r matches Step::Ready(movies) && movies.deep_view()
                    == cached.deep_view(),
                None => r matches Step::Fetch(request) && request@ == listing_request(
                    self.base_url@,
                    ListingView::Country(country_id@),
                    page,
                ),
            },
    {
        self.list_movies(&Listing::Country(String::from_str(country_id)), page, now)
    }

    /// The page of the movie `movie_id`: first step.
    pub fn get_movie_detail(&self, movie_id: &str, now: u64) -> (r: Step<MovieDetail>)
        ensures
            match self.cache.details@.lookup(detail_key(movie_id@), now) {
                Some(cached) => r matches Step::Ready(detail) && detail@ == cached@,
                None => r matches Step::Fetch(request) && request@ == detail_request(
                    self.base_url@,
                    movie_id@,
                ),
            },
    {
        let key = detail_key_of(movie_id);
        match self.cache.details.get(key.as_str(), now) {
            Some(cached) => Step::Ready(cached.duplicate()),
            None => Step::Fetch(
                UpstreamRequest {
                    url: detail_url_of(self.base_url.as_str(), movie_id),
                    referer: String::from_str(self.base_url.as_str()).concat("/"),
                    headers: browser_headers(),
                },
            ),
        }
    }

    /// The page of the movie `movie_id`: second step. Judges the outcome of
    /// the request, extracts the movie, caches and returns it.
    ///
    /// An upstream or extraction error leaves the cache as it was.
    pub fn accept_detail(&mut self, movie_id: &str, outcome: FetchOutcome, now: u64) -> (r: Result<
        MovieDetail,
        AppError,
    >)
        requires
            old(self).wf(),
        ensures
            final(self).wf(),
            final(self).same_origin(old(self)),
            final(self).cache.movies@ == old(self).cache.movies@,
            final(self).cache.genres@ == old(self).cache.genres@,
            final(self).cache.countries@ == old(self).cache.countries@,
            match page_body(outcome) {
                None => r matches Err(AppError::UpstreamError { status, message }) && status
                    == answered_status(outcome) && message@ == failure_message(outcome)
                    && final(self).cache.details@ == old(self).cache.details@,
                Some(body) => match detail_outcome(
                    body,
                    movie_id@,
                    detail_url(old(self).base_url@, movie_id@),
                ) {
                    Err(words) => r matches Err(AppError::ExtractionError(m)) && m@ == words
                        && final(self).cache.details@ == old(self).cache.details@,
                    Ok(found) => r matches Ok(detail) && detail@ == found && exists|
                        stored: MovieDetail,
                    | #[trigger]
                        stored.deep_view() == found && final(self).cache.details@ == old(self).cache.details@.put(detail_key(movie_id@), stored, now),
                },
            },
    {
        let body = match check_response(outcome) {
            Ok(body) => body,
            Err(e) => {
                return Err(e);
            },
        };
        let url = detail_url_of(self.base_url.as_str(), movie_id);
        let detail = match parse_movie_detail(body.as_str(), movie_id, url.as_str()) {
            Ok(detail) => detail,
            Err(e) => {
                return Err(e);
            },
        };
        let key = detail_key_of(movie_id);
        let stored = detail.duplicate();
        self.cache.details.put(key, stored, now);
        assert(stored.deep_view() == detail@);
        Ok(detail)
    }

    /// The genre list: always the fixed list. It is read from the cache when
    /// an entry is live at `now`, and built and cached otherwise.
    pub fn get_genres(&mut self, now: u64) -> (r: Vec<Genre>)
        requires
            old(self).wf(),
        ensures
            final(self).wf(),
            final(self).same_origin(old(self)),
            final(self).cache.movies@ == old(self).cache.movies@,
            final(self).cache.countries@ == old(self).cache.countries@,
            final(self).cache.details@ == old(self).cache.details@,
            r.deep_view() == genre_list(old(self).base_url@),
            match old(self).cache.genres@.lookup(GENRES_KEY@, now) {
                Some(_) => final(self).cache.genres@ == old(self).cache.genres@,
                None => exists|stored: Vec<Genre>| #[trigger]
                    stored.deep_view() == genre_list(old(self).base_url@) && final(self).cache.genres@ == old(self).cache.genres@.put(GENRES_KEY@, stored, now),
            },
    {
        let ghost before = self.cache.genres@;
        match self.cache.genres.get(GENRES_KEY, now) {
            Some(cached) => {
                proof {
                    let j = lemma_lookup_entry(before, GENRES_KEY@, now);
                    assert(before.entries[j].value == *cached);
                }
                return copy_genres(cached);
            },
            None => {},
        }
        let genres = genres_of(self.base_url.as_str());
        let stored = copy_genres(&genres);
        self.cache.genres.put(String::from_str(GENRES_KEY), stored, now);
        assert(stored.deep_view() == genres.deep_view());
        proof {
            let after = self.cache.genres@;
            assert forall|i: int| 0 <= i < after.entries.len() implies (
            #[trigger] after.entries[i]).key == GENRES_KEY@ && after.entries[i].value.deep_view()
                == genre_list(self.base_url@) by {
                let j = lemma_put_entries(before, GENRES_KEY@, stored, now, i);
                if i < after.entries.len() - 1 {
                    assert(before.entries[j].key == GENRES_KEY@);
                }
            }
        }
        genres
    }

    /// The country list: always the fixed list. It is read from the cache
    /// when an entry is live at `now`, and built and cached otherwise.
    pub fn get_countries(&mut self, now: u64) -> (r: Vec<Country>)
        requires
            old(self).wf(),
        ensures
            final(self).wf(),
            final(self).same_origin(old(self)),
            final(self).cache.movies@ == old(self).cache.movies@,
            final(self).cache.genres@ == old(self).cache.genres@,
            final(self).cache.details@ == old(self).cache.details@,
            r.deep_view() == country_list(old(self).base_url@),
            match old(self).cache.countries@.lookup(COUNTRIES_KEY@, now) {
                Some(_) => final(self).cache.countries@ == old(self).cache.countries@,
                None => exists|stored: Vec<Country>| #[trigger]
                    stored.deep_view() == country_list(old(self).base_url@) && final(self).cache.countries@ == old(self).cache.countries@.put(
                        COUNTRIES_KEY@,
                        stored,
                        now,
                    ),
            },
    {
        let ghost before = self.cache.countries@;
        match self.cache.countries.get(COUNTRIES_KEY, now) {
            Some(cached) => {
                proof {
                    let j = lemma_lookup_entry(before, COUNTRIES_KEY@, now);
                    assert(before.entries[j].value == *cached);
                }
                return copy_countries(cached);
            },
            None => {},
        }
        let countries = countries_of(self.base_url.as_str());
        let stored = copy_countries(&countries);
        self.cache.countries.put(String::from_str(COUNTRIES_KEY), stored, now);
        assert(stored.deep_view() == countries.deep_view());
        proof {
            let after = self.cache.countries@;
            assert forall|i: int| 0 <= i < after.entries.len() implies (
            #[trigger] after.entries[i]).key == COUNTRIES_KEY@
                && after.entries[i].value.deep_view() == country_list(self.base_url@) by {
                let j = lemma_put_entries(before, COUNTRIES_KEY@, stored, now, i);
                if i < after.entries.len() - 1 {
                    assert(before.entries[j].key == COUNTRIES_KEY@);
                }
            }
        }
        countries
    }

    /// Clears every namespace of the cache.
    pub fn clear_cache(&mut self)
        requires
            old(self).wf(),
        ensures
            final(self).wf(),
            final(self).same_origin(old(self)),
            final(self).cache.is_empty(),
            forall|now: u64| #[trigger]
                final(self).cache.live_counts(now) == (0nat, 0nat, 0nat, 0nat),
    {
        self.cache.invalidate_all();
    }

    /// Rebuilds one of the two reference namespaces: `"genres"` or
    /// `"countries"`. The namespace then holds the fixed list, written at
    /// `now`, and nothing else; the other namespaces stay as they are. Any
    /// other name is invalid input and changes nothing.
    pub fn refresh_cache(&mut self, cache_type: &str, now: u64) -> (r: Result<(), AppError>)
        requires
            old(self).wf(),
        ensures
            final(self).wf(),
            final(self).same_origin(old(self)),
            final(self).cache.movies@ == old(self).cache.movies@,
            final(self).cache.details@ == old(self).cache.details@,
            if cache_type@ == "genres"@ {
                r is Ok && final(self).cache.countries@ == old(self).cache.countries@ && exists|
                    stored: Vec<Genre>,
                | #[trigger]
                    stored.deep_view() == genre_list(old(self).base_url@) && final(self).cache.genres@ == old(self).cache.genres@.clear().put(
                        GENRES_KEY@,
                        stored,
                        now,
                    )
            } else if cache_type@ == "countries"@ {
                r is Ok && final(self).cache.genres@ == old(self).cache.genres@ && exists|
                    stored: Vec<Country>,
                | #[trigger]
                    stored.deep_view() == country_list(old(self).base_url@) && final(self).cache.countries@ == old(self).cache.countries@.clear().put(
                        COUNTRIES_KEY@,
                        stored,
                        now,
                    )
            } else {
                r matches Err(e) && e.kind() == ErrorKind::InvalidInput && final(self).cache.genres@ == old(self).cache.genres@ && final(self).cache.countries@
                    == old(self).cache.countries@
            },
    {
        if str_eq(cache_type, "genres") {
            let stored = genres_of(self.base_url.as_str());
            self.cache.invalidate_namespace(NamespaceKind::Genres);
            self.cache.genres.put(String::from_str(GENRES_KEY), stored, now);
            assert(stored.deep_view() == genre_list(old(self).base_url@));
            Ok(())
        } else if str_eq(cache_type, "countries") {
            let stored = countries_of(self.base_url.as_str());
            self.cache.invalidate_namespace(NamespaceKind::Countries);
            self.cache.countries.put(String::from_str(COUNTRIES_KEY), stored, now);
            assert(stored.deep_view() == country_list(old(self).base_url@));
            Ok(())
        } else {
            Err(
                AppError::InvalidInput(
                    String::from_str("Tipe cache tidak dikenali: ").concat(cache_type),
                ),
            )
        }
    }

    /// The number of live entries of each namespace at `now`.
    pub fn get_cache_stats(&self, now: u64) -> (r: CacheStats)
        ensures
            (r.movies as nat, r.genres as nat, r.countries as nat, r.details as nat)
                == self.cache.live_counts(now),
    {
        self.cache.stats(now)
    }
}


/// Two listing queries that differ, in kind, identifier or page, have
/// different keys: no query is ever answered with the page of another.
pub proof fn law_listing_keys_distinct(kind1: ListingView, page1: u32, kind2: ListingView, page2: u32)
    requires
        kind1 != kind2 || page1 != page2,
    ensures
        listing_key(kind1, page1) != listing_key(kind2, page2),
{
    reveal_strlit("latest_movies_page_");
    reveal_strlit("popular_movies_page_");
    reveal_strlit("genre_");
    reveal_strlit("country_");
    reveal_strlit("_page_");
    let k1 = listing_key(kind1, page1);
    let k2 = listing_key(kind2, page2);
    let d1 = decimal(page1 as nat);
    let d2 = decimal(page2 as nat);
    lemma_decimal(page1 as nat);
    lemma_decimal(page2 as nat);
    if k1 == k2 {
        assert(k1[0] == k2[0]);
        match (kind1, kind2) {
            (ListingView::Latest, ListingView::Latest) => {
                lemma_same_prefix("latest_movies_page_"@, d1, d2);
                lemma_decimal_injective(page1 as nat, page2 as nat);
            },
            (ListingView::Popular, ListingView::Popular) => {
                lemma_same_prefix("popular_movies_page_"@, d1, d2);
                lemma_decimal_injective(page1 as nat, page2 as nat);
            },
            (ListingView::Genre(a), ListingView::Genre(b)) => {
                let h1 = "genre_"@ + a + "_page_"@;
                let h2 = "genre_"@ + b + "_page_"@;
                assert(h1.last() == '_');
                assert(h2.last() == '_');
                lemma_digit_suffix_unique(h1, d1, h2, d2);
                lemma_decimal_injective(page1 as nat, page2 as nat);
                lemma_same_suffix("genre_"@ + a, "genre_"@ + b, "_page_"@);
                lemma_same_prefix("genre_"@, a, b);
            },
            (ListingView::Country(a), ListingView::Country(b)) => {
                let h1 = "country_"@ + a + "_page_"@;
                let h2 = "country_"@ + b + "_page_"@;
                assert(h1.last() == '_');
                assert(h2.last() == '_');
                lemma_digit_suffix_unique(h1, d1, h2, d2);
                lemma_decimal_injective(page1 as nat, page2 as nat);
                lemma_same_suffix("country_"@ + a, "country_"@ + b, "_page_"@);
                lemma_same_prefix("country_"@, a, b);
            },
            _ => {
                assert("latest_movies_page_"@[0] == 'l');
                assert("popular_movies_page_"@[0] == 'p');
                assert("genre_"@[0] == 'g');
                assert("country_"@[0] == 'c');
                assert(("genre_"@ + kind1->Genre_0 + "_page_"@ + d1)[0] == 'g' || !(kind1 is Genre));
                assert(("genre_"@ + kind2->Genre_0 + "_page_"@ + d2)[0] == 'g' || !(kind2 is Genre));
                assert(("country_"@ + kind1->Country_0 + "_page_"@ + d1)[0] == 'c' || !(kind1
                    is Country));
                assert(("country_"@ + kind2->Country_0 + "_page_"@ + d2)[0] == 'c' || !(kind2
                    is Country));
                assert(("latest_movies_page_"@ + d1)[0] == 'l');
                assert(("latest_movies_page_"@ + d2)[0] == 'l');
                assert(("popular_movies_page_"@ + d1)[0] == 'p');
                assert(("popular_movies_page_"@ + d2)[0] == 'p');
            },
        }
    }
}

/// Two movies that differ have different keys.
pub proof fn law_detail_keys_distinct(movie1: Seq<char>, movie2: Seq<char>)
    requires
        movie1 != movie2,
    ensures
        detail_key(movie1) != detail_key(movie2),
{
    if detail_key(movie1) == detail_key(movie2) {
        lemma_same_prefix("movie_detail_"@, movie1, movie2);
    }
}


/// A listing page that was accepted at `now` is what the next query for it
/// is answered with, without a fetch, as long as half an hour has not
/// passed; from then on the query asks for a fetch again, though nothing
/// removed the page.
///
/// `before` and `after` are the service before and after `accept_listing`
/// stored `stored`; what `list_movies` returns at `later` follows what is
/// read under the key then.
pub proof fn law_accepted_listing_is_served(
    before: FilmapikScraper,
    after: FilmapikScraper,
    kind: ListingView,
    page: u32,
    stored: Vec<Movie>,
    now: u64,
    later: u64,
)
    requires
        before.wf(),
        after.cache.movies@ == before.cache.movies@.put(listing_key(kind, page), stored, now),
    ensures
        later < now + 1800 ==> after.cache.movies@.lookup(listing_key(kind, page), later) == Some(
            stored,
        ),
        later >= now + 1800 ==> after.cache.movies@.lookup(listing_key(kind, page), later)
            is None,
{
    let key = listing_key(kind, page);
    if later < now + 1800 {
        law_put_then_get(before.cache.movies@, key, stored, now, later);
    } else {
        law_expired_is_absent(before.cache.movies@, key, stored, now, later);
    }
}

/// A movie's page that was accepted at `now` is what the next query for
/// the movie is answered with, without a fetch, as long as an hour has not
/// passed; from then on the query asks for a fetch again, though nothing
/// removed the page.
///
/// `before` and `after` are the service before and after `accept_detail`
/// stored `stored`; what `get_movie_detail` returns at `later` follows what
/// is read under the key then.
pub proof fn law_accepted_detail_is_served(
    before: FilmapikScraper,
    after: FilmapikScraper,
    movie_id: Seq<char>,
    stored: MovieDetail,
    now: u64,
    later: u64,
)
    requires
        before.wf(),
        after.cache.details@ == before.cache.details@.put(detail_key(movie_id), stored, now),
    ensures
        later < now + 3600 ==> after.cache.details@.lookup(detail_key(movie_id), later) == Some(
            stored,
        ),
        later >= now + 3600 ==> after.cache.details@.lookup(detail_key(movie_id), later)
            is None,
{
    let key = detail_key(movie_id);
    if later < now + 3600 {
        law_put_then_get(before.cache.details@, key, stored, now, later);
    } else {
        law_expired_is_absent(before.cache.details@, key, stored, now, later);
    }
}

/// A new service has an empty cache with the policy of each kind: listing
/// pages live 1800 seconds and movie pages 3600, a thousand of each at
/// most; the genre and the country list live 86400 seconds, in namespaces
/// of a hundred entries.
pub proof fn law_policy_of_a_service(service: FilmapikScraper)
    requires
        service.wf(),
    ensures
        service.cache.movies@.ttl == 1800 && service.cache.movies@.capacity == 1000,
        service.cache.details@.ttl == 3600 && service.cache.details@.capacity == 1000,
        service.cache.genres@.ttl == 86400 && service.cache.genres@.capacity == 100,
        service.cache.countries@.ttl == 86400 && service.cache.countries@.capacity == 100,
{
}

} // verus!
