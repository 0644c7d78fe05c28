//! The reference data: the genres and the countries of the catalog.
//!
//! Both lists are fixed and maintained by hand, because the origin offers
//! no page from which they could be read. They are authoritative as they
//! stand; only the addresses depend on where the origin is.

use vstd::prelude::*;
use crate::models::{Country, CountryView, Genre, GenreView};

verus! {

/// An identifier and the name shown for it.
pub struct Name {
    pub id: &'static str,
    pub name: &'static str,
}

/// What a `Name` holds, as mathematical values.
pub ghost struct NameView {
    pub id: Seq<char>,
    pub name: Seq<char>,
}

impl DeepView for Name {
    type V = NameView;

    open spec fn deep_view(&self) -> NameView {
        NameView { id: self.id@, name: self.name@ }
    }
}

/// The genres, in the order in which they are listed.
pub open spec fn genre_table() -> Seq<NameView> {
    seq![
        NameView { id: "action"@, name: "Action"@ },
        NameView { id: "adventure"@, name: "Adventure"@ },
        NameView { id: "animation"@, name: "Animation"@ },
        NameView { id: "comedy"@, name: "Comedy"@ },
        NameView { id: "crime"@, name: "Crime"@ },
        NameView { id: "documentary"@, name: "Documentary"@ },
        NameView { id: "drama"@, name: "Drama"@ },
        NameView { id: "family"@, name: "Family"@ },
        NameView { id: "fantasy"@, name: "Fantasy"@ },
        NameView { id: "history"@, name: "History"@ },
        NameView { id: "horror"@, name: "Horror"@ },
        NameView { id: "music"@, name: "Music"@ },
        NameView { id: "mystery"@, name: "Mystery"@ },
        NameView { id: "romance"@, name: "Romance"@ },
        NameView { id: "science-fiction"@, name: "Science Fiction"@ },
        NameView { id: "thriller"@, name: "Thriller"@ },
        NameView { id: "war"@, name: "War"@ },
    ]
}

/// The countries, in the order in which they are listed.
pub open spec fn country_table() -> Seq<NameView> {
    seq![
        NameView { id: "usa"@, name: "USA"@ },
        NameView { id: "india"@, name: "India"@ },
        NameView { id: "china"@, name: "China"@ },
        NameView { id: "korea"@, name: "Korea"@ },
        NameView { id: "philippines"@, name: "Philippines"@ },
        NameView { id: "japan"@, name: "Japan"@ },
        NameView { id: "thailand"@, name: "Thailand"@ },
        NameView { id: "indonesia"@, name: "Indonesia"@ },
        NameView { id: "malaysia"@, name: "Malaysia"@ },
        NameView { id: "france"@, name: "France"@ },
        NameView { id: "germany"@, name: "Germany"@ },
        NameView { id: "uk"@, name: "United Kingdom"@ },
        NameView { id: "italy"@, name: "Italy"@ },
        NameView { id: "spain"@, name: "Spain"@ },
        NameView { id: "russia"@, name: "Russia"@ },
        NameView { id: "australia"@, name: "Australia"@ },
        NameView { id: "canada"@, name: "Canada"@ },
        NameView { id: "brazil"@, name: "Brazil"@ },
        NameView { id: "mexico"@, name: "Mexico"@ },
        NameView { id: "taiwan"@, name: "Taiwan"@ },
        NameView { id: "hongkong"@, name: "Hong Kong"@ },
        NameView { id: "vietnam"@, name: "Vietnam"@ },
        NameView { id: "turkey"@, name: "Turkey"@ },
        NameView { id: "singapore"@, name: "Singapore"@ },
    ]
}

/// The address under `base` of the entry `id` of the section `section`.
pub open spec fn reference_url(base: Seq<char>, section: Seq<char>, id: Seq<char>) -> Seq<char> {
    base + section + id + "/"@
}

/// The genre list of an origin at `base`.
pub open spec fn genre_list(base: Seq<char>) -> Seq<GenreView> {
    Seq::new(
        genre_table().len(),
        |i: int|
            GenreView {
                id: genre_table()[i].id,
                name: genre_table()[i].name,
                url: reference_url(base, "/genre/"@, genre_table()[i].id),
            },
    )
}

/// The country list of an origin at `base`.
pub open spec fn country_list(base: Seq<char>) -> Seq<CountryView> {
    Seq::new(
        country_table().len(),
        |i: int|
            CountryView {
                id: country_table()[i].id,
                name: country_table()[i].name,
                url: reference_url(base, "/country/"@, country_table()[i].id),
            },
    )
}

fn entry(id: &'static str, name: &'static str) -> (r: Name)
    ensures
        r.deep_view() == (NameView { id: id@, name: name@ }),
{
    Name { id, name }
}

/// The genres, in the order in which they are listed.
pub fn genre_names() -> (r: Vec<Name>)
    ensures
        r.deep_view() == genre_table(),
{
    let mut r: Vec<Name> = Vec::new();
    r.push(entry("action", "Action"));
    r.push(entry("adventure", "Adventure"));
    r.push(entry("animation", "Animation"));
    r.push(entry("comedy", "Comedy"));
    r.push(entry("crime", "Crime"));
    r.push(entry("documentary", "Documentary"));
    r.push(entry("drama", "Drama"));
    r.push(entry("family", "Family"));
    r.push(entry("fantasy", "Fantasy"));
    r.push(entry("history", "History"));
    r.push(entry("horror", "Horror"));
    r.push(entry("music", "Music"));
    r.push(entry("mystery", "Mystery"));
    r.push(entry("romance", "Romance"));
    r.push(entry("science-fiction", "Science Fiction"));
    r.push(entry("thriller", "Thriller"));
    r.push(entry("war", "War"));
    assert(r.deep_view() =~= genre_table());
    r
}

/// The countries, in the order in which they are listed.
pub fn country_names() -> (r: Vec<Name>)
    ensures
        r.deep_view() == country_table(),
{
    let mut r: Vec<Name> = Vec::new();
    r.push(entry("usa", "USA"));
    r.push(entry("india", "India"));
    r.push(entry("china", "China"));
    r.push(entry("korea", "Korea"));
    r.push(entry("philippines", "Philippines"));
    r.push(entry("japan", "Japan"));
    r.push(entry("thailand", "Thailand"));
    r.push(entry("indonesia", "Indonesia"));
    r.push(entry("malaysia", "Malaysia"));
    r.push(entry("france", "France"));
    r.push(entry("germany", "Germany"));
    r.push(entry("uk", "United Kingdom"));
    r.push(entry("italy", "Italy"));
    r.push(entry("spain", "Spain"));
    r.push(entry("russia", "Russia"));
    r.push(entry("australia", "Australia"));
    r.push(entry("canada", "Canada"));
    r.push(entry("brazil", "Brazil"));
    r.push(entry("mexico", "Mexico"));
    r.push(entry("taiwan", "Taiwan"));
    r.push(entry("hongkong", "Hong Kong"));
    r.push(entry("vietnam", "Vietnam"));
    r.push(entry("turkey", "Turkey"));
    r.push(entry("singapore", "Singapore"));
    assert(r.deep_view() =~= country_table());
    r
}

/// The address under `base` of the entry `id` of the section `section`.
pub fn url_of(base: &str, section: &str, id: &str) -> (r: String)
    ensures
        r@ == reference_url(base@, section@, id@),
{
    String::from_str(base).concat(section).concat(id).concat("/")
}

/// The genre list of an origin at `base`.
pub fn genres_of(base: &str) -> (r: Vec<Genre>)
    ensures
        r.deep_view() == genre_list(base@),
{
    let names = genre_names();
    let mut r: Vec<Genre> = Vec::new();
    let mut i: usize = 0;
    while i < names.len()
        invariant
            i <= names.len(),
            names.deep_view() == genre_table(),
            r.len() == i,
            forall|j: int| 0 <= j < i ==> r@[j]@ == genre_list(base@)[j],
        decreases names.len() - i,
    {
        assert(names.deep_view()[i as int] == names@[i as int].deep_view());
        let n = &names[i];
        r.push(
            Genre {
                id: String::from_str(n.id),
                name: String::from_str(n.name),
                url: url_of(base, "/genre/", n.id),
            },
        );
        i += 1;
    }
    assert(names.deep_view().len() == names@.len());
    assert(r.deep_view() =~= genre_list(base@));
    r
}

/// The country list of an origin at `base`.
pub fn countries_of(base: &str) -> (r: Vec<Country>)
    ensures
        r.deep_view() == country_list(base@),
{
    let names = country_names();
    let mut r: Vec<Country> = Vec::new();
    let mut i: usize = 0;
    while i < names.len()
        invariant
            i <= names.len(),
            names.deep_view() == country_table(),
            r.len() == i,
            forall|j: int| 0 <= j < i ==> r@[j]@ == country_list(base@)[j],
        decreases names.len() - i,
    {
        assert(names.deep_view()[i as int] == names@[i as int].deep_view());
        let n = &names[i];
        r.push(
            Country {
                id: String::from_str(n.id),
                name: String::from_str(n.name),
                url: url_of(base, "/country/", n.id),
            },
        );
        i += 1;
    }
    assert(names.deep_view().len() == names@.len());
    assert(r.deep_view() =~= country_list(base@));
    r
}


/// There are seventeen genres and twenty-four countries, wherever the
/// origin is.
pub proof fn law_reference_lists(base: Seq<char>)
    ensures
        genre_list(base).len() == 17,
        country_list(base).len() == 24,
{
}

} // verus!
