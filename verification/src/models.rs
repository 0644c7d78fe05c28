//! The catalog entities and the envelopes in which they are returned.
//!
//! Each entity has a ghost counterpart (`MovieView`, `GenreView`, ...) made
//! of mathematical values; contracts across the crate speak of those.

use vstd::prelude::*;

verus! {

/// A rating as a decimal number: `mantissa / 10^scale`.
///
/// `7.5` is `Rating { mantissa: 75, scale: 1 }`.
#[derive(Clone, Copy, Debug, PartialEq, Eq, Structural)]
pub struct Rating {
    pub mantissa: u64,
    pub scale: u32,
}

/// One entry of a listing page.
#[derive(Clone, Debug, PartialEq, Eq)]
pub struct Movie {
    pub id: String,
    pub title: String,
    pub poster: String,
    pub year: Option<i32>,
    pub rating: Option<Rating>,
    pub quality: Option<String>,
    pub genres: Vec<String>,
    pub url: String,
}

/// What a `Movie` holds, as mathematical values.
pub ghost struct MovieView {
    pub id: Seq<char>,
    pub title: Seq<char>,
    pub poster: Seq<char>,
    pub year: Option<i32>,
    pub rating: Option<Rating>,
    pub quality: Option<Seq<char>>,
    pub genres: Seq<Seq<char>>,
    pub url: Seq<char>,
}

impl DeepView for Movie {
    type V = MovieView;

    open spec fn deep_view(&self) -> MovieView {
        MovieView {
            id: self.id@,
            title: self.title@,
            poster: self.poster@,
            year: self.year,
            rating: self.rating,
            quality: self.quality.deep_view(),
            genres: self.genres.deep_view(),
            url: self.url@,
        }
    }
}

impl View for Movie {
    type V = MovieView;

    open spec fn view(&self) -> MovieView {
        self.deep_view()
    }
}

/// Where a listing page stands in its sequence of pages.
#[derive(Clone, Copy, Debug, PartialEq, Eq, Structural)]
pub struct PaginationInfo {
    pub current_page: u32,
    pub per_page: u32,
    pub total_items: Option<u32>,
    pub total_pages: Option<u32>,
}

/// The envelope of a listing page.
#[derive(Clone, Debug, PartialEq, Eq)]
pub struct MovieResponse {
    pub status: String,
    pub message: String,
    pub pagination: PaginationInfo,
    pub data: Vec<Movie>,
}

/// A genre of the fixed genre list.
#[derive(Clone, Debug, PartialEq, Eq)]
pub struct Genre {
    pub id: String,
    pub name: String,
    pub url: String,
}

/// What a `Genre` holds, as mathematical values.
pub ghost struct GenreView {
    pub id: Seq<char>,
    pub name: Seq<char>,
    pub url: Seq<char>,
}

impl DeepView for Genre {
    type V = GenreView;

    open spec fn deep_view(&self) -> GenreView {
        GenreView { id: self.id@, name: self.name@, url: self.url@ }
    }
}

impl View for Genre {
    type V = GenreView;

    open spec fn view(&self) -> GenreView {
        self.deep_view()
    }
}

/// The envelope of the genre list.
#[derive(Clone, Debug, PartialEq, Eq)]
pub struct GenreResponse {
    pub status: String,
    pub message: String,
    pub data: Vec<Genre>,
}

/// A movie's own page.
#[derive(Clone, Debug, PartialEq, Eq)]
pub struct MovieDetail {
    pub id: String,
    pub title: String,
    pub poster: String,
    pub rating: Option<Rating>,
    pub rating_count: Option<u32>,
    pub description: Option<String>,
    pub views: Option<u32>,
    pub genres: Vec<String>,
    pub quality: Option<String>,
    pub year: Option<i32>,
    pub duration: Option<String>,
    pub country: Option<String>,
    pub release_date: Option<String>,
    pub language: Option<String>,
    pub director: Option<String>,
    pub actors: Vec<String>,
    pub url: String,
    pub watch_url: Option<String>,
    pub related_movies: Vec<Movie>,
}

/// What a `MovieDetail` holds, as mathematical values.
pub ghost struct MovieDetailView {
    pub id: Seq<char>,
    pub title: Seq<char>,
    pub poster: Seq<char>,
    pub rating: Option<Rating>,
    pub rating_count: Option<u32>,
    pub description: Option<Seq<char>>,
    pub views: Option<u32>,
    pub genres: Seq<Seq<char>>,
    pub quality: Option<Seq<char>>,
    pub year: Option<i32>,
    pub duration: Option<Seq<char>>,
    pub country: Option<Seq<char>>,
    pub release_date: Option<Seq<char>>,
    pub language: Option<Seq<char>>,
    pub director: Option<Seq<char>>,
    pub actors: Seq<Seq<char>>,
    pub url: Seq<char>,
    pub watch_url: Option<Seq<char>>,
    pub related_movies: Seq<MovieView>,
}

impl DeepView for MovieDetail {
    type V = MovieDetailView;

    open spec fn deep_view(&self) -> MovieDetailView {
        MovieDetailView {
            id: self.id@,
            title: self.title@,
            poster: self.poster@,
            rating: self.rating,
            rating_count: self.rating_count,
            description: self.description.deep_view(),
            views: self.views,
            genres: self.genres.deep_view(),
            quality: self.quality.deep_view(),
            year: self.year,
            duration: self.duration.deep_view(),
            country: self.country.deep_view(),
            release_date: self.release_date.deep_view(),
            language: self.language.deep_view(),
            director: self.director.deep_view(),
            actors: self.actors.deep_view(),
            url: self.url@,
            watch_url: self.watch_url.deep_view(),
            related_movies: self.related_movies.deep_view(),
        }
    }
}

impl View for MovieDetail {
    type V = MovieDetailView;

    open spec fn view(&self) -> MovieDetailView {
        self.deep_view()
    }
}

/// The envelope of a movie's page.
#[derive(Clone, Debug, PartialEq, Eq)]
pub struct MovieDetailResponse {
    pub status: String,
    pub message: String,
    pub data: MovieDetail,
}

/// A country of the fixed country list.
#[derive(Clone, Debug, PartialEq, Eq)]
pub struct Country {
    pub id: String,
    pub name: String,
    pub url: String,
}

/// What a `Country` holds, as mathematical values.
pub ghost struct CountryView {
    pub id: Seq<char>,
    pub name: Seq<char>,
    pub url: Seq<char>,
}

impl DeepView for Country {
    type V = CountryView;

    open spec fn deep_view(&self) -> CountryView {
        CountryView { id: self.id@, name: self.name@, url: self.url@ }
    }
}

impl View for Country {
    type V = CountryView;

    open spec fn view(&self) -> CountryView {
        self.deep_view()
    }
}

/// The envelope of the country list.
#[derive(Clone, Debug, PartialEq, Eq)]
pub struct CountryResponse {
    pub status: String,
    pub message: String,
    pub data: Vec<Country>,
}

/// A copy of `s`.
pub fn copy_text(s: &String) -> (r: String)
    ensures
        r@ == s@,
{
    s.clone()
}

/// A copy of `s`.
pub fn copy_opt_text(s: &Option<String>) -> (r: Option<String>)
    ensures
        r.deep_view() == s.deep_view(),
{
    match s {
        Some(t) => Some(t.clone()),
        None => None,
    }
}

/// A copy of `v`.
pub fn copy_texts(v: &Vec<String>) -> (r: Vec<String>)
    ensures
        r.deep_view() == v.deep_view(),
{
    let mut r: Vec<String> = Vec::new();
    let mut i: usize = 0;
    while i < v.len()
        invariant
            i <= v.len(),
            r.len() == i,
            forall|j: int| 0 <= j < i ==> r@[j]@ == v@[j]@,
        decreases v.len() - i,
    {
        r.push(v[i].clone());
        i += 1;
    }
    assert(r.deep_view() =~= v.deep_view());
    r
}

impl Movie {
    /// A copy that holds the same values.
    pub fn duplicate(&self) -> (r: Movie)
        ensures
            r@ == self@,
    {
        Movie {
            id: copy_text(&self.id),
            title: copy_text(&self.title),
            poster: copy_text(&self.poster),
            year: self.year,
            rating: self.rating,
            quality: copy_opt_text(&self.quality),
            genres: copy_texts(&self.genres),
            url: copy_text(&self.url),
        }
    }
}

/// A copy of `v`.
pub fn copy_movies(v: &Vec<Movie>) -> (r: Vec<Movie>)
    ensures
        r.deep_view() == v.deep_view(),
{
    let mut r: Vec<Movie> = Vec::new();
    let mut i: usize = 0;
    while i < v.len()
        invariant
            i <= v.len(),
            r.len() == i,
            forall|j: int| 0 <= j < i ==> r@[j]@ == v@[j]@,
        decreases v.len() - i,
    {
        r.push(v[i].duplicate());
        i += 1;
    }
    assert(r.deep_view() =~= v.deep_view());
    r
}

impl Genre {
    /// A copy that holds the same values.
    pub fn duplicate(&self) -> (r: Genre)
        ensures
            r@ == self@,
    {
        Genre { id: copy_text(&self.id), name: copy_text(&self.name), url: copy_text(&self.url) }
    }
}

/// A copy of `v`.
pub fn copy_genres(v: &Vec<Genre>) -> (r: Vec<Genre>)
    ensures
        r.deep_view() == v.deep_view(),
{
    let mut r: Vec<Genre> = Vec::new();
    let mut i: usize = 0;
    while i < v.len()
        invariant
            i <= v.len(),
            r.len() == i,
            forall|j: int| 0 <= j < i ==> r@[j]@ == v@[j]@,
        decreases v.len() - i,
    {
        r.push(v[i].duplicate());
        i += 1;
    }
    assert(r.deep_view() =~= v.deep_view());
    r
}

impl Country {
    /// A copy that holds the same values.
    pub fn duplicate(&self) -> (r: Country)
        ensures
            r@ == self@,
    {
        Country { id: copy_text(&self.id), name: copy_text(&self.name), url: copy_text(&self.url) }
    }
}

/// A copy of `v`.
pub fn copy_countries(v: &Vec<Country>) -> (r: Vec<Country>)
    ensures
        r.deep_view() == v.deep_view(),
{
    let mut r: Vec<Country> = Vec::new();
    let mut i: usize = 0;
    while i < v.len()
        invariant
            i <= v.len(),
            r.len() == i,
            forall|j: int| 0 <= j < i ==> r@[j]@ == v@[j]@,
        decreases v.len() - i,
    {
        r.push(v[i].duplicate());
        i += 1;
    }
    assert(r.deep_view() =~= v.deep_view());
    r
}

impl MovieDetail {
    /// A copy that holds the same values.
    pub fn duplicate(&self) -> (r: MovieDetail)
        ensures
            r@ == self@,
    {
        MovieDetail {
            id: copy_text(&self.id),
            title: copy_text(&self.title),
            poster: copy_text(&self.poster),
            rating: self.rating,
            rating_count: self.rating_count,
            description: copy_opt_text(&self.description),
            views: self.views,
            genres: copy_texts(&self.genres),
            quality: copy_opt_text(&self.quality),
            year: self.year,
            duration: copy_opt_text(&self.duration),
            country: copy_opt_text(&self.country),
            release_date: copy_opt_text(&self.release_date),
            language: copy_opt_text(&self.language),
            director: copy_opt_text(&self.director),
            actors: copy_texts(&self.actors),
            url: copy_text(&self.url),
            watch_url: copy_opt_text(&self.watch_url),
            related_movies: copy_movies(&self.related_movies),
        }
    }
}

} // verus!
