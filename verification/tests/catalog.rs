use filmapik::cache::CacheStats;
use filmapik::catalog::{
    detail_key_of, detail_url_of, listing_key_of, listing_referer_of, listing_url_of,
    FilmapikScraper, Listing, Step, COUNTRIES_KEY, GENRES_KEY,
};
use filmapik::client::{FetchOutcome, UpstreamRequest};
use filmapik::config::Config;
use filmapik::errors::{AppError, ErrorKind};
use filmapik::models::{Movie, MovieDetail};

const BASE: &str = "http://origin.test";

const LISTING: &str = r##"<div id="gmr-main-load">
<article class="item-infinite"><h2 class="entry-title"><a href="http://origin.test/inception-2010/">Inception (2010)</a></h2></article>
<article class="item-infinite"><h2 class="entry-title"><a href="http://origin.test/heat-1995/">Heat (1995)</a></h2></article>
</div>"##;

const OTHER_LISTING: &str = r##"<div id="gmr-main-load">
<article class="item-infinite"><h2 class="entry-title"><a href="http://origin.test/tenet-2020/">Tenet (2020)</a></h2></article>
</div>"##;

const DETAIL: &str = r##"<h1 class="entry-title">Inception (2010)</h1>
<iframe src="https://embed.test/v/abc"></iframe>"##;

fn service() -> FilmapikScraper {
    FilmapikScraper::new(&Config::resolve(None, None, Some(BASE.to_string())))
}

fn answered(status: u16, body: &str) -> FetchOutcome {
    FetchOutcome::Answered { status, body: body.to_string() }
}

fn request_of<T>(step: Step<T>) -> UpstreamRequest {
    match step {
        Step::Fetch(request) => request,
        Step::Ready(_) => panic!("the cache should not hold this yet"),
    }
}

fn ready<T>(step: Step<T>) -> T {
    match step {
        Step::Ready(value) => value,
        Step::Fetch(_) => panic!("the cache should hold this"),
    }
}

fn ids(movies: &[Movie]) -> Vec<&str> {
    movies.iter().map(|m| m.id.as_str()).collect()
}

#[test]
fn addresses_of_listing_pages() {
    let genre = Listing::Genre("action".to_string());
    let country = Listing::Country("usa".to_string());
    let cases = [
        (&Listing::Latest, 1, "http://origin.test/", "http://origin.test"),
        (&Listing::Latest, 0, "http://origin.test/", "http://origin.test"),
        (&Listing::Latest, 2, "http://origin.test/page/2/", "http://origin.test/page/1/"),
        (&Listing::Latest, 10, "http://origin.test/page/10/", "http://origin.test/page/9/"),
        (&Listing::Popular, 1, "http://origin.test/best-rating/", "http://origin.test/"),
        (
            &Listing::Popular,
            3,
            "http://origin.test/best-rating/page/3/",
            "http://origin.test/best-rating/page/2/",
        ),
        (&genre, 1, "http://origin.test/genre/action/", "http://origin.test/"),
        (
            &genre,
            2,
            "http://origin.test/genre/action/page/2/",
            "http://origin.test/genre/action/page/1/",
        ),
        (&country, 1, "http://origin.test/country/usa/", "http://origin.test/"),
        (
            &country,
            4294967295,
            "http://origin.test/country/usa/page/4294967295/",
            "http://origin.test/country/usa/page/4294967294/",
        ),
    ];
    for (kind, page, url, referer) in cases {
        assert_eq!(listing_url_of(BASE, kind, page), url);
        assert_eq!(listing_referer_of(BASE, kind, page), referer);
    }
}

#[test]
fn keys_of_queries() {
    assert_eq!(listing_key_of(&Listing::Latest, 1), "latest_movies_page_1");
    assert_eq!(listing_key_of(&Listing::Latest, 0), "latest_movies_page_0");
    assert_eq!(listing_key_of(&Listing::Popular, 12), "popular_movies_page_12");
    assert_eq!(listing_key_of(&Listing::Genre("action".to_string()), 2), "genre_action_page_2");
    assert_eq!(listing_key_of(&Listing::Country("usa".to_string()), 3), "country_usa_page_3");
    assert_eq!(detail_key_of("inception-2010"), "movie_detail_inception-2010");
    assert_eq!(detail_url_of(BASE, "inception-2010"), "http://origin.test/inception-2010/");
    assert_eq!(GENRES_KEY, "all_genres");
    assert_eq!(COUNTRIES_KEY, "all_countries");
}

#[test]
fn keys_of_different_queries_differ() {
    let kinds = [
        Listing::Latest,
        Listing::Popular,
        Listing::Genre("a".to_string()),
        Listing::Genre("a_page_1".to_string()),
        Listing::Genre("".to_string()),
        Listing::Country("a".to_string()),
        Listing::Country("a_page_1".to_string()),
        Listing::Genre("1".to_string()),
        Listing::Genre("_page_".to_string()),
    ];
    let pages = [0u32, 1, 2, 10, 11, 12];
    let mut seen: Vec<String> = Vec::new();
    for kind in &kinds {
        for page in pages {
            let key = listing_key_of(kind, page);
            assert!(!seen.contains(&key), "{:?} page {} collides: {}", kind, page, key);
            seen.push(key);
        }
    }
}

#[test]
fn a_miss_hands_out_the_request() {
    let svc = service();
    let request = request_of(svc.get_latest_movies(2, 0));
    assert_eq!(request.url, "http://origin.test/page/2/");
    assert_eq!(request.referer, "http://origin.test/page/1/");
    assert_eq!(request.headers.len(), 11);
    assert_eq!(request.headers[0].name, "user-agent");
    assert!(request.headers[0].value.starts_with("Mozilla/5.0"));
    let names: Vec<&str> = request.headers.iter().map(|h| h.name.as_str()).collect();
    assert_eq!(
        names,
        vec![
            "user-agent",
            "accept",
            "accept-language",
            "cache-control",
            "connection",
            "dnt",
            "upgrade-insecure-requests",
            "sec-fetch-dest",
            "sec-fetch-mode",
            "sec-fetch-site",
            "sec-fetch-user"
        ]
    );
    assert_eq!(request.headers[7].value, "document");
    assert_eq!(request.headers[8].value, "navigate");

    let request = request_of(svc.get_popular_movies(1, 0));
    assert_eq!(request.url, "http://origin.test/best-rating/");
    let request = request_of(svc.get_movies_by_genre("horror", 1, 0));
    assert_eq!(request.url, "http://origin.test/genre/horror/");
    let request = request_of(svc.get_movies_by_country("japan", 3, 0));
    assert_eq!(request.url, "http://origin.test/country/japan/page/3/");
    assert_eq!(request.referer, "http://origin.test/country/japan/page/2/");
    let request = request_of(svc.get_movie_detail("inception-2010", 0));
    assert_eq!(request.url, "http://origin.test/inception-2010/");
    assert_eq!(request.referer, "http://origin.test/");
}

#[test]
fn an_accepted_page_is_cached_until_it_expires() {
    let mut svc = service();
    let movies = svc.accept_listing(&Listing::Latest, 1, answered(200, LISTING), 100).unwrap();
    assert_eq!(ids(&movies), vec!["inception-2010", "heat-1995"]);
    let cached = ready(svc.get_latest_movies(1, 100));
    assert_eq!(cached, movies);
    assert_eq!(ready(svc.get_latest_movies(1, 1899)), movies);
    request_of(svc.get_latest_movies(1, 1900));
    request_of(svc.get_latest_movies(2, 100));
    request_of(svc.get_popular_movies(1, 100));
    assert_eq!(
        svc.get_cache_stats(100),
        CacheStats { movies: 1, genres: 0, countries: 0, details: 0 }
    );
}

#[test]
fn each_listing_kind_has_its_own_entry() {
    let mut svc = service();
    let genre = Listing::Genre("action".to_string());
    let country = Listing::Country("action".to_string());
    svc.accept_listing(&Listing::Latest, 1, answered(200, LISTING), 0).unwrap();
    svc.accept_listing(&Listing::Popular, 1, answered(200, OTHER_LISTING), 0).unwrap();
    svc.accept_listing(&genre, 1, answered(200, LISTING), 0).unwrap();
    svc.accept_listing(&country, 1, answered(200, OTHER_LISTING), 0).unwrap();
    assert_eq!(svc.get_cache_stats(0).movies, 4);
    assert_eq!(ids(&ready(svc.get_latest_movies(1, 0))), vec!["inception-2010", "heat-1995"]);
    assert_eq!(ids(&ready(svc.get_popular_movies(1, 0))), vec!["tenet-2020"]);
    assert_eq!(
        ids(&ready(svc.get_movies_by_genre("action", 1, 0))),
        vec!["inception-2010", "heat-1995"]
    );
    assert_eq!(ids(&ready(svc.get_movies_by_country("action", 1, 0))), vec!["tenet-2020"]);
}

#[test]
fn a_failed_request_is_an_upstream_error_and_caches_nothing() {
    let mut svc = service();
    let failed = FetchOutcome::Failed { reason: "connection refused".to_string() };
    let e = svc.accept_listing(&Listing::Latest, 1, failed, 0).unwrap_err();
    assert_eq!(
        e,
        AppError::UpstreamError { status: None, message: "connection refused".to_string() }
    );
    assert_eq!(e.status_code(), 502);
    request_of(svc.get_latest_movies(1, 0));
    assert_eq!(svc.get_cache_stats(0).movies, 0);
}

#[test]
fn an_error_status_is_kept_in_the_error() {
    let mut svc = service();
    for status in [404u16, 500, 301, 199, 300, 0, 65535] {
        let e = svc.accept_listing(&Listing::Latest, 1, answered(status, LISTING), 0).unwrap_err();
        assert_eq!(
            e,
            AppError::UpstreamError {
                status: Some(status),
                message: format!("Status HTTP error: {}", status)
            }
        );
        let e = svc.accept_detail("x", answered(status, DETAIL), 0).unwrap_err();
        assert_eq!(e.error_kind(), ErrorKind::Upstream);
    }
    assert_eq!(svc.get_cache_stats(0), CacheStats { movies: 0, genres: 0, countries: 0, details: 0 });
    for status in [200u16, 204, 299] {
        assert!(svc.accept_listing(&Listing::Latest, 1, answered(status, LISTING), 0).is_ok());
    }
}

#[test]
fn detail_in_two_steps() {
    let mut svc = service();
    request_of(svc.get_movie_detail("inception-2010", 0));
    let detail = svc.accept_detail("inception-2010", answered(200, DETAIL), 0).unwrap();
    assert_eq!(detail.id, "inception-2010");
    assert_eq!(detail.url, "http://origin.test/inception-2010/");
    assert_eq!(detail.title, "Inception (2010)");
    assert_eq!(detail.watch_url.as_deref(), Some("https://embed.test/v/abc"));
    assert_eq!(ready(svc.get_movie_detail("inception-2010", 3599)), detail);
    request_of(svc.get_movie_detail("inception-2010", 3600));
    request_of(svc.get_movie_detail("inception-2011", 0));
    assert_eq!(svc.get_cache_stats(0).details, 1);
    assert_eq!(svc.get_cache_stats(0).movies, 0);
}

#[test]
fn two_queries_that_miss_the_same_movie_both_complete() {
    let mut svc = service();
    let first = request_of(svc.get_movie_detail("inception-2010", 0));
    let second = request_of(svc.get_movie_detail("inception-2010", 0));
    assert_eq!(first, second);
    let a: MovieDetail = svc.accept_detail("inception-2010", answered(200, DETAIL), 1).unwrap();
    let later = DETAIL.replace("abc", "xyz");
    let b: MovieDetail = svc.accept_detail("inception-2010", answered(200, &later), 2).unwrap();
    assert_eq!(a.watch_url.as_deref(), Some("https://embed.test/v/abc"));
    assert_eq!(b.watch_url.as_deref(), Some("https://embed.test/v/xyz"));
    assert_eq!(ready(svc.get_movie_detail("inception-2010", 2)), b);
    assert_eq!(svc.get_cache_stats(2).details, 1);
}

#[test]
fn genre_list_is_the_fixed_one() {
    let mut svc = service();
    let genres = svc.get_genres(0);
    assert_eq!(genres.len(), 17);
    assert_eq!(genres[0].id, "action");
    assert_eq!(genres[0].name, "Action");
    assert_eq!(genres[0].url, "http://origin.test/genre/action/");
    assert_eq!(genres[14].id, "science-fiction");
    assert_eq!(genres[14].name, "Science Fiction");
    assert_eq!(genres[16].id, "war");
    let ids: Vec<&str> = genres.iter().map(|g| g.id.as_str()).collect();
    assert_eq!(
        ids,
        vec![
            "action",
            "adventure",
            "animation",
            "comedy",
            "crime",
            "documentary",
            "drama",
            "family",
            "fantasy",
            "history",
            "horror",
            "music",
            "mystery",
            "romance",
            "science-fiction",
            "thriller",
            "war"
        ]
    );
    assert_eq!(svc.get_cache_stats(0).genres, 1);
    assert_eq!(svc.get_genres(86399), genres);
    assert_eq!(svc.get_genres(86400), genres);
    assert_eq!(svc.get_cache_stats(86400).genres, 1);
}

#[test]
fn country_list_is_the_fixed_one() {
    let mut svc = service();
    let countries = svc.get_countries(0);
    assert_eq!(countries.len(), 24);
    let ids: Vec<&str> = countries.iter().map(|c| c.id.as_str()).collect();
    assert_eq!(
        ids,
        vec![
            "usa",
            "india",
            "china",
            "korea",
            "philippines",
            "japan",
            "thailand",
            "indonesia",
            "malaysia",
            "france",
            "germany",
            "uk",
            "italy",
            "spain",
            "russia",
            "australia",
            "canada",
            "brazil",
            "mexico",
            "taiwan",
            "hongkong",
            "vietnam",
            "turkey",
            "singapore"
        ]
    );
    assert_eq!(countries[11].name, "United Kingdom");
    assert_eq!(countries[20].name, "Hong Kong");
    assert_eq!(countries[0].url, "http://origin.test/country/usa/");
    assert_eq!(svc.get_cache_stats(0).countries, 1);
    assert_eq!(svc.get_cache_stats(0).genres, 0);
}

#[test]
fn clear_cache_makes_every_count_zero() {
    let mut svc = service();
    svc.accept_listing(&Listing::Latest, 1, answered(200, LISTING), 0).unwrap();
    svc.accept_detail("inception-2010", answered(200, DETAIL), 0).unwrap();
    svc.get_genres(0);
    svc.get_countries(0);
    assert_eq!(
        svc.get_cache_stats(0),
        CacheStats { movies: 1, genres: 1, countries: 1, details: 1 }
    );
    svc.clear_cache();
    assert_eq!(
        svc.get_cache_stats(0),
        CacheStats { movies: 0, genres: 0, countries: 0, details: 0 }
    );
    request_of(svc.get_latest_movies(1, 0));
}

#[test]
fn refresh_of_genres_leaves_the_other_namespaces() {
    let mut svc = service();
    svc.accept_listing(&Listing::Latest, 1, answered(200, LISTING), 0).unwrap();
    svc.accept_detail("inception-2010", answered(200, DETAIL), 0).unwrap();
    svc.get_countries(0);
    svc.get_genres(0);
    let movies = ready(svc.get_latest_movies(1, 50));
    let detail = ready(svc.get_movie_detail("inception-2010", 50));
    let countries = svc.get_countries(50);

    assert_eq!(svc.refresh_cache("genres", 50), Ok(()));

    assert_eq!(
        svc.get_cache_stats(50),
        CacheStats { movies: 1, genres: 1, countries: 1, details: 1 }
    );
    assert_eq!(svc.cache.genres.get("all_genres", 50).map(|g| g.len()), Some(17));
    assert_eq!(svc.get_genres(50).len(), 17);
    assert_eq!(ready(svc.get_latest_movies(1, 50)), movies);
    assert_eq!(ready(svc.get_movie_detail("inception-2010", 50)), detail);
    assert_eq!(svc.get_countries(50), countries);
    assert_eq!(svc.get_cache_stats(86449).genres, 1);
    assert_eq!(svc.get_cache_stats(86450).genres, 0);
}

#[test]
fn refresh_of_countries_writes_the_fixed_list_anew() {
    let mut svc = service();
    svc.get_countries(0);
    assert_eq!(svc.refresh_cache("countries", 1000), Ok(()));
    assert_eq!(svc.get_cache_stats(86400).countries, 1);
    assert_eq!(svc.cache.countries.get("all_countries", 1000).map(|c| c.len()), Some(24));
    assert_eq!(svc.get_cache_stats(0).genres, 0);
}

#[test]
fn refresh_of_anything_else_is_invalid_input() {
    let mut svc = service();
    svc.get_genres(0);
    for kind in ["movies", "details", "", "Genres", "genres ", "all"] {
        let e = svc.refresh_cache(kind, 10).unwrap_err();
        assert_eq!(e.error_kind(), ErrorKind::InvalidInput, "{:?}", kind);
        assert_eq!(e.status_code(), 400);
    }
    assert_eq!(
        svc.get_cache_stats(10),
        CacheStats { movies: 0, genres: 1, countries: 0, details: 0 }
    );
}

#[test]
fn new_service_has_the_policy_of_each_kind() {
    let svc = service();
    assert_eq!((svc.cache.movies.ttl(), svc.cache.movies.capacity()), (1800, 1000));
    assert_eq!((svc.cache.details.ttl(), svc.cache.details.capacity()), (3600, 1000));
    assert_eq!((svc.cache.genres.ttl(), svc.cache.genres.capacity()), (86400, 100));
    assert_eq!((svc.cache.countries.ttl(), svc.cache.countries.capacity()), (86400, 100));
    assert_eq!(
        svc.get_cache_stats(0),
        CacheStats { movies: 0, genres: 0, countries: 0, details: 0 }
    );
    assert_eq!(svc.base_url, "http://origin.test");
}

#[test]
fn an_expired_page_is_fetched_and_replaced() {
    let mut svc = service();
    svc.accept_listing(&Listing::Latest, 1, answered(200, LISTING), 0).unwrap();
    let request = request_of(svc.get_latest_movies(1, 1800));
    assert_eq!(request.url, "http://origin.test/");
    let fresh = svc.accept_listing(&Listing::Latest, 1, answered(200, OTHER_LISTING), 1800).unwrap();
    assert_eq!(ids(&fresh), vec!["tenet-2020"]);
    assert_eq!(ready(svc.get_latest_movies(1, 1801)), fresh);
    assert_eq!(svc.get_cache_stats(1801).movies, 1);
}

#[test]
fn the_listing_namespace_holds_a_thousand_pages() {
    let mut svc = service();
    for page in 0..1001u32 {
        svc.accept_listing(&Listing::Latest, page, answered(200, OTHER_LISTING), 0).unwrap();
    }
    assert_eq!(svc.get_cache_stats(0).movies, 1000);
    request_of(svc.get_latest_movies(0, 0));
    ready(svc.get_latest_movies(1, 0));
    ready(svc.get_latest_movies(1000, 0));
}

#[test]
fn genre_list_is_the_same_on_a_hit_and_on_a_miss() {
    let mut svc = service();
    let miss = svc.get_genres(0);
    let hit = svc.get_genres(1);
    let after_expiry = svc.get_genres(86400);
    assert_eq!(miss, hit);
    assert_eq!(miss, after_expiry);
    assert_eq!(miss.len(), 17);
    let countries = svc.get_countries(0);
    assert_eq!(svc.get_countries(1), countries);
    assert_eq!(countries.len(), 24);
}
