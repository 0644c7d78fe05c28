//! The movie operations.

use vstd::prelude::*;
use crate::api::{listing_response, page_message, require_id, PER_PAGE, SUCCESS};
use crate::catalog::FilmapikScraper;
use crate::errors::AppError;
use crate::models::{
    CountryResponse, GenreResponse, Movie, MovieDetail, MovieDetailResponse, MovieResponse,
    PaginationInfo,
};
use crate::reference::{country_list, genre_list};

verus! {

/// The page asked for by a query.
#[derive(Clone, Copy, Debug, PartialEq, Eq, Structural)]
pub struct PaginationParams {
    pub page: u32,
}

/// The page that a query without a page number asks for.
pub fn default_page() -> (page: u32)
    ensures
        page == 1,
{
    1
}

impl PaginationParams {
    /// The parameters of a query that names `page`, or no page.
    pub fn new(page: Option<u32>) -> (r: Self)
        ensures
            r.page == match page {
                Some(p) => p,
                None => 1,
            },
    {
        match page {
            Some(p) => PaginationParams { page: p },
            None => PaginationParams { page: default_page() },
        }
    }
}

/// The head of the page that shows a movie's player, up to the title.
pub const WATCH_PAGE_HEAD: &'static str = r#"<!DOCTYPE html>
<html lang="id">
<head>
    <meta charset="UTF-8">
    <meta name="viewport" content="width=device-width, initial-scale=1.0">
    <title>"#;

/// What stands between the title and the address of the player.
pub const WATCH_PAGE_FRAME: &'static str = r#" - FilmApik API</title>
    <style>
        body, html {
            margin: 0;
            padding: 0;
            width: 100%;
            height: 100%;
            overflow: hidden;
            background-color: #000;
            font-family: Arial, sans-serif;
        }
        .container {
            display: flex;
            flex-direction: column;
            width: 100%;
            height: 100%;
        }
        .video-container {
            flex: 1;
            position: relative;
            width: 100%;
            height: 100%;
        }
        iframe {
            position: absolute;
            top: 0;
            left: 0;
            width: 100%;
            height: 100%;
            border: none;
        }
        .info-bar {
            padding: 10px;
            background-color: #222;
            color: white;
            text-align: center;
            font-size: 14px;
        }
        .info-bar a {
            color: #4CAF50;
            text-decoration: none;
        }
        .info-bar a:hover {
            text-decoration: underline;
        }
    </style>
</head>
<body>
    <div class="container">
        <div class="video-container">
            <iframe src=""#;

/// What stands between the address of the player and the caption.
pub const WATCH_PAGE_CAPTION: &'static str = r#"" allowfullscreen></iframe>
        </div>
        <div class="info-bar">
            Menonton: <strong>"#;

/// The end of the page.
pub const WATCH_PAGE_TAIL: &'static str = r#"</strong> | FilmApik API
        </div>
    </div>
</body>
</html>"#;

/// The address, on this service, of the proxied player of a movie.
pub open spec fn proxy_path(movie_id: Seq<char>) -> Seq<char> {
    "/api/movie/"@ + movie_id + "/watch/proxy"@
}

/// The page that shows the player of the movie `movie_id`, titled `title`,
/// in an inline frame fed by the proxy.
pub open spec fn watch_page(title: Seq<char>, movie_id: Seq<char>) -> Seq<char> {
    WATCH_PAGE_HEAD@ + title + WATCH_PAGE_FRAME@ + proxy_path(movie_id) + WATCH_PAGE_CAPTION@
        + title + WATCH_PAGE_TAIL@
}

/// The envelope of page `page` of the latest movies.
pub fn get_latest_movies(page: u32, movies: Vec<Movie>) -> (r: MovieResponse)
    ensures
        r.status@ == SUCCESS@,
        r.message@ == page_message("Film terbaru halaman "@, page, " berhasil didapatkan"@),
        r.pagination == (PaginationInfo {
            current_page: page,
            per_page: PER_PAGE,
            total_items: None,
            total_pages: None,
        }),
        r.data == movies,
{
    listing_response("Film terbaru halaman ", page, " berhasil didapatkan", movies)
}

/// The envelope of page `page` of the best rated movies.
pub fn get_popular_movies(page: u32, movies: Vec<Movie>) -> (r: MovieResponse)
    ensures
        r.status@ == SUCCESS@,
        r.message@ == page_message(
            "Film populer (rating tertinggi) halaman "@,
            page,
            " berhasil didapatkan"@,
        ),
        r.pagination == (PaginationInfo {
            current_page: page,
            per_page: PER_PAGE,
            total_items: None,
            total_pages: None,
        }),
        r.data == movies,
{
    listing_response("Film populer (rating tertinggi) halaman ", page, " berhasil didapatkan", movies)
}

/// Accepts the identifier of a genre that is not empty.
pub fn check_genre_id(genre_id: &str) -> (r: Result<(), AppError>)
    ensures
        match r {
            Ok(_) => genre_id@.len() > 0,
            Err(e) => genre_id@.len() == 0 && (e matches AppError::InvalidInput(m) && m@
                == "Genre ID tidak valid"@),
        },
{
    require_id(genre_id, "Genre ID tidak valid")
}

/// Accepts the identifier of a movie that is not empty.
pub fn check_movie_id(movie_id: &str) -> (r: Result<(), AppError>)
    ensures
        match r {
            Ok(_) => movie_id@.len() > 0,
            Err(e) => movie_id@.len() == 0 && (e matches AppError::InvalidInput(m) && m@
                == "Movie ID tidak valid"@),
        },
{
    require_id(movie_id, "Movie ID tidak valid")
}

/// The envelope of page `page` of the movies of the genre `genre_id`.
pub fn get_movies_by_genre(genre_id: &str, page: u32, movies: Vec<Movie>) -> (r: MovieResponse)
    ensures
        r.status@ == SUCCESS@,
        r.message@ == page_message(
            "Film genre "@ + genre_id@ + " halaman "@,
            page,
            " berhasil didapatkan"@,
        ),
        r.pagination == (PaginationInfo {
            current_page: page,
            per_page: PER_PAGE,
            total_items: None,
            total_pages: None,
        }),
        r.data == movies,
{
    let before = String::from_str("Film genre ").concat(genre_id).concat(" halaman ");
    listing_response(before.as_str(), page, " berhasil didapatkan", movies)
}

/// The genre list in its envelope.
pub fn get_genres(scraper: &mut FilmapikScraper, now: u64) -> (r: GenreResponse)
    requires
        old(scraper).wf(),
    ensures
        final(scraper).wf(),
        final(scraper).same_origin(old(scraper)),
        final(scraper).cache.movies@ == old(scraper).cache.movies@,
        final(scraper).cache.countries@ == old(scraper).cache.countries@,
        final(scraper).cache.details@ == old(scraper).cache.details@,
        r.status@ == SUCCESS@,
        r.message@ == "Daftar genre film berhasil didapatkan"@,
        r.data.deep_view() == genre_list(old(scraper).base_url@),
{
    let data = scraper.get_genres(now);
    GenreResponse {
        status: String::from_str(SUCCESS),
        message: String::from_str("Daftar genre film berhasil didapatkan"),
        data: data,
    }
}

/// The country list in its envelope.
pub fn get_countries(scraper: &mut FilmapikScraper, now: u64) -> (r: CountryResponse)
    requires
        old(scraper).wf(),
    ensures
        final(scraper).wf(),
        final(scraper).same_origin(old(scraper)),
        final(scraper).cache.movies@ == old(scraper).cache.movies@,
        final(scraper).cache.genres@ == old(scraper).cache.genres@,
        final(scraper).cache.details@ == old(scraper).cache.details@,
        r.status@ == SUCCESS@,
        r.message@ == "Daftar negara film berhasil didapatkan"@,
        r.data.deep_view() == country_list(old(scraper).base_url@),
{
    let data = scraper.get_countries(now);
    CountryResponse {
        status: String::from_str(SUCCESS),
        message: String::from_str("Daftar negara film berhasil didapatkan"),
        data: data,
    }
}

/// A movie's page in its envelope.
pub fn get_movie_detail(detail: MovieDetail) -> (r: MovieDetailResponse)
    ensures
        r.status@ == SUCCESS@,
        r.message@ == "Detail film "@ + detail.title@ + " berhasil didapatkan"@,
        r.data == detail,
{
    let message = String::from_str("Detail film ").concat(detail.title.as_str()).concat(
        " berhasil didapatkan",
    );
    MovieDetailResponse { status: String::from_str(SUCCESS), message: message, data: detail }
}

/// The page that shows the player of a movie through the proxy. A movie
/// whose page has no watch address is not found.
pub fn get_movie_watch_url(movie_id: &str, detail: &MovieDetail) -> (r: Result<String, AppError>)
    ensures
        match detail@.watch_url {
            Some(_) => r matches Ok(page) && page@ == watch_page(detail.title@, movie_id@),
            None => r matches Err(AppError::NotFound(m)) && m@ == "URL video tidak ditemukan"@,
        },
{
    match &detail.watch_url {
        Some(_) => {
            let proxy = String::from_str("/api/movie/").concat(movie_id).concat("/watch/proxy");
            let page = String::from_str(WATCH_PAGE_HEAD).concat(detail.title.as_str()).concat(
                WATCH_PAGE_FRAME,
            ).concat(proxy.as_str()).concat(WATCH_PAGE_CAPTION).concat(
                detail.title.as_str(),
            ).concat(WATCH_PAGE_TAIL);
            Ok(page)
        },
        None => Err(AppError::NotFound(String::from_str("URL video tidak ditemukan"))),
    }
}

} // verus!
