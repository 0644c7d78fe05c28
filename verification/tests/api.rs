use filmapik::api::cache::{clear_cache, get_cache_stats, refresh_cache};
use filmapik::api::country::{check_country_id, get_movies_by_country};
use filmapik::api::movie::{
    check_genre_id, check_movie_id, get_genres, get_latest_movies, get_movie_detail,
    get_movie_watch_url, get_movies_by_genre, get_popular_movies,
};
use filmapik::api::{listing_response, pagination, require_id, PER_PAGE, SUCCESS};
use filmapik::cache::CacheStats;
use filmapik::catalog::FilmapikScraper;
use filmapik::config::{Config, DEFAULT_HOST, DEFAULT_ORIGIN, DEFAULT_PORT};
use filmapik::errors::{AppError, ErrorKind};
use filmapik::models::{Movie, MovieDetail, PaginationInfo};

fn movie(id: &str) -> Movie {
    Movie {
        id: id.to_string(),
        title: id.to_string(),
        poster: String::new(),
        year: None,
        rating: None,
        quality: None,
        genres: Vec::new(),
        url: String::new(),
    }
}

fn detail(title: &str, watch_url: Option<&str>) -> MovieDetail {
    MovieDetail {
        id: "inception-2010".to_string(),
        title: title.to_string(),
        poster: String::new(),
        rating: None,
        rating_count: None,
        description: None,
        views: None,
        genres: Vec::new(),
        quality: None,
        year: None,
        duration: None,
        country: None,
        release_date: None,
        language: None,
        director: None,
        actors: Vec::new(),
        url: String::new(),
        watch_url: watch_url.map(|u| u.to_string()),
        related_movies: Vec::new(),
    }
}

fn service() -> FilmapikScraper {
    FilmapikScraper::new(&Config::resolve(None, None, None))
}

#[test]
fn default_page_is_the_first() {
    assert_eq!(filmapik::api::movie::default_page(), 1);
    assert_eq!(filmapik::api::country::default_page(), 1);
    assert_eq!(filmapik::api::movie::PaginationParams::new(None).page, 1);
    assert_eq!(filmapik::api::movie::PaginationParams::new(Some(7)).page, 7);
    assert_eq!(filmapik::api::country::PaginationParams::new(None).page, 1);
    assert_eq!(filmapik::api::country::PaginationParams::new(Some(0)).page, 0);
}

#[test]
fn pagination_has_no_totals() {
    assert_eq!(
        pagination(3),
        PaginationInfo { current_page: 3, per_page: 24, total_items: None, total_pages: None }
    );
    assert_eq!(PER_PAGE, 24);
}

#[test]
fn envelopes_of_listings() {
    let r = get_latest_movies(2, vec![movie("a")]);
    assert_eq!(r.status, "success");
    assert_eq!(r.message, "Film terbaru halaman 2 berhasil didapatkan");
    assert_eq!(r.pagination, pagination(2));
    assert_eq!(r.data, vec![movie("a")]);
    let r = get_popular_movies(1, Vec::new());
    assert_eq!(r.message, "Film populer (rating tertinggi) halaman 1 berhasil didapatkan");
    let r = get_movies_by_genre("action", 10, Vec::new());
    assert_eq!(r.message, "Film genre action halaman 10 berhasil didapatkan");
    assert_eq!(r.pagination.current_page, 10);
    let r = get_movies_by_country("usa", 4294967295, Vec::new());
    assert_eq!(r.message, "Film negara usa halaman 4294967295 berhasil didapatkan");
    let r = listing_response("a", 0, "b", Vec::new());
    assert_eq!(r.message, "a0b");
    assert_eq!(SUCCESS, "success");
}

#[test]
fn envelopes_of_reference_lists() {
    let mut svc = service();
    let r = get_genres(&mut svc, 0);
    assert_eq!(r.status, "success");
    assert_eq!(r.message, "Daftar genre film berhasil didapatkan");
    assert_eq!(r.data.len(), 17);
    assert_eq!(r.data[0].url, "http://194.102.105.201/genre/action/");
    let r = filmapik::api::movie::get_countries(&mut svc, 0);
    assert_eq!(r.message, "Daftar negara film berhasil didapatkan");
    assert_eq!(r.data.len(), 24);
    let r = filmapik::api::country::get_countries(&mut svc, 0);
    assert_eq!(r.status, "success");
    assert_eq!(r.data.len(), 24);
}

#[test]
fn envelope_of_a_detail() {
    let r = get_movie_detail(detail("Inception (2010)", None));
    assert_eq!(r.status, "success");
    assert_eq!(r.message, "Detail film Inception (2010) berhasil didapatkan");
    assert_eq!(r.data, detail("Inception (2010)", None));
}

#[test]
fn empty_identifiers_are_invalid_input() {
    for check in [check_genre_id, check_movie_id, check_country_id] {
        assert_eq!(check("action"), Ok(()));
        assert_eq!(check(" "), Ok(()));
        let e = check("").unwrap_err();
        assert_eq!(e.error_kind(), ErrorKind::InvalidInput);
        assert_eq!(e.status_code(), 400);
    }
    assert_eq!(check_genre_id(""), Err(AppError::InvalidInput("Genre ID tidak valid".to_string())));
    assert_eq!(check_movie_id(""), Err(AppError::InvalidInput("Movie ID tidak valid".to_string())));
    assert_eq!(
        check_country_id(""),
        Err(AppError::InvalidInput("Country ID tidak valid".to_string()))
    );
    assert_eq!(require_id("", "why"), Err(AppError::InvalidInput("why".to_string())));
    assert_eq!(require_id("x", "why"), Ok(()));
}

#[test]
fn watch_page_embeds_the_proxy() {
    let page =
        get_movie_watch_url("inception-2010", &detail("Inception", Some("https://e.test/v")))
            .unwrap();
    assert!(page.starts_with("<!DOCTYPE html>\n<html lang=\"id\">"));
    assert!(page.contains("<title>Inception - FilmApik API</title>"));
    assert!(page
        .contains("<iframe src=\"/api/movie/inception-2010/watch/proxy\" allowfullscreen></iframe>"));
    assert!(page.contains("Menonton: <strong>Inception</strong> | FilmApik API"));
    assert!(page.contains("        body, html {\n            margin: 0;"));
    assert!(page.ends_with("</body>\n</html>"));
    assert!(!page.contains("https://e.test/v"));
    assert_eq!(page.matches("Inception").count(), 2);
}

#[test]
fn watch_page_of_a_movie_without_watch_address_is_not_found() {
    let e = get_movie_watch_url("inception-2010", &detail("Inception", None)).unwrap_err();
    assert_eq!(e, AppError::NotFound("URL video tidak ditemukan".to_string()));
    assert_eq!(e.status_code(), 404);
}

#[test]
fn cache_operations() {
    let mut svc = service();
    get_genres(&mut svc, 0);
    let r = get_cache_stats(&svc, 0);
    assert_eq!(r.status, "success");
    assert_eq!(r.message, "Statistik cache berhasil didapatkan");
    assert_eq!(r.data, CacheStats { movies: 0, genres: 1, countries: 0, details: 0 });

    let r = refresh_cache(&mut svc, "countries", 0).unwrap();
    assert_eq!(r.status, "success");
    assert_eq!(r.message, "Cache tipe countries berhasil diperbarui");
    assert_eq!(get_cache_stats(&svc, 0).data.countries, 1);
    let r = refresh_cache(&mut svc, "genres", 0).unwrap();
    assert_eq!(r.message, "Cache tipe genres berhasil diperbarui");

    let e = refresh_cache(&mut svc, "movies", 0).unwrap_err();
    assert_eq!(e.error_kind(), ErrorKind::InvalidInput);
    assert_eq!(get_cache_stats(&svc, 0).data.genres, 1);

    let r = clear_cache(&mut svc);
    assert_eq!(r.status, "success");
    assert_eq!(r.message, "Cache berhasil dihapus");
    assert_eq!(
        get_cache_stats(&svc, 0).data,
        CacheStats { movies: 0, genres: 0, countries: 0, details: 0 }
    );
}

#[test]
fn errors_have_a_status_and_a_message() {
    let cases = [
        (
            AppError::UpstreamError { status: Some(503), message: "down".to_string() },
            ErrorKind::Upstream,
            502,
            "Error saat request HTTP: down",
        ),
        (
            AppError::ExtractionError("selector".to_string()),
            ErrorKind::Extraction,
            502,
            "Error saat scraping: selector",
        ),
        (
            AppError::InvalidInput("Movie ID tidak valid".to_string()),
            ErrorKind::InvalidInput,
            400,
            "Permintaan tidak valid: Movie ID tidak valid",
        ),
        (
            AppError::NotFound("URL video tidak ditemukan".to_string()),
            ErrorKind::NotFound,
            404,
            "Tidak ditemukan: URL video tidak ditemukan",
        ),
    ];
    for (error, kind, status, message) in cases {
        assert_eq!(error.error_kind(), kind);
        assert_eq!(error.status_code(), status);
        assert_eq!(error.message(), message);
        let body = error.error_response();
        assert_eq!(body.status, "error");
        assert_eq!(body.message, message);
    }
}

#[test]
fn configuration_takes_defaults_for_what_is_missing() {
    let c = Config::resolve(None, None, None);
    assert_eq!(c.app_host, "127.0.0.1");
    assert_eq!(c.app_port, 8080);
    assert_eq!(c.filmapik_url, "http://194.102.105.201");
    assert_eq!((DEFAULT_HOST, DEFAULT_PORT), ("127.0.0.1", 8080));
    assert_eq!(DEFAULT_ORIGIN, "http://194.102.105.201");
    let c = Config::resolve(
        Some("0.0.0.0".to_string()),
        Some("9000".to_string()),
        Some("http://origin.test".to_string()),
    );
    assert_eq!(c.app_host, "0.0.0.0");
    assert_eq!(c.app_port, 9000);
    assert_eq!(c.filmapik_url, "http://origin.test");
}

#[test]
fn unreadable_port_is_the_default() {
    for (text, port) in [
        ("80", 80u16),
        ("+80", 80),
        ("65535", 65535),
        ("65536", 8080),
        ("", 8080),
        ("http", 8080),
        ("-1", 8080),
        (" 80", 8080),
        ("0", 0),
    ] {
        assert_eq!(Config::resolve(None, Some(text.to_string()), None).app_port, port, "{:?}", text);
        assert_eq!(text.parse::<u16>().unwrap_or(8080), port);
    }
}
