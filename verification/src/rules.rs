//! The field rules of the extraction pipeline.
//!
//! A page is first reduced to raw records: the texts and attribute values
//! that the selectors found, untouched. The rules here turn raw records
//! into entities. They never fail: a field whose text is missing or cannot
//! be read is absent.

use vstd::prelude::*;
use crate::models::{Movie, MovieDetail, MovieDetailView, MovieView, Rating};
use crate::text::{
    all_digits, chars_of, digits_value, find, find_char, find_text, has_prefix, index_of, join,
    joined, last_segment, last_segment_of, lemma_find_in_range, nth_field, occurs_at, parse_i32,
    parse_signed, parse_u32, parse_unsigned, push_chars, read_digits, remove_char, slice_of,
    split_field, starts_with, string_of, strip_trailing, strip_trailing_chars, trim, trimmed,
    views, without,
};

verus! {

/// What was found of an anchor: its first text node and its `href`.
#[derive(Clone, Debug, PartialEq, Eq)]
pub struct RawAnchor {
    pub text: Option<String>,
    pub href: Option<String>,
}

/// What a `RawAnchor` holds, as mathematical values.
pub ghost struct RawAnchorView {
    pub text: Option<Seq<char>>,
    pub href: Option<Seq<char>>,
}

impl DeepView for RawAnchor {
    type V = RawAnchorView;

    open spec fn deep_view(&self) -> RawAnchorView {
        RawAnchorView { text: self.text.deep_view(), href: self.href.deep_view() }
    }
}

/// What was found in one item container of a listing page.
#[derive(Clone, Debug, PartialEq, Eq)]
pub struct RawListingItem {
    /// The title anchor, when the item has one.
    pub title: Option<RawAnchor>,
    /// The `src` of the thumbnail image.
    pub poster_src: Option<String>,
    /// The first text node of the rating badge.
    pub rating_text: Option<String>,
    /// The first text node of the quality badge.
    pub quality_text: Option<String>,
    /// The first text node of each genre anchor, `None` for an anchor
    /// without text.
    pub genre_texts: Vec<Option<String>>,
}

/// What a `RawListingItem` holds, as mathematical values.
pub ghost struct RawListingItemView {
    pub title: Option<RawAnchorView>,
    pub poster_src: Option<Seq<char>>,
    pub rating_text: Option<Seq<char>>,
    pub quality_text: Option<Seq<char>>,
    pub genre_texts: Seq<Option<Seq<char>>>,
}

impl DeepView for RawListingItem {
    type V = RawListingItemView;

    open spec fn deep_view(&self) -> RawListingItemView {
        RawListingItemView {
            title: self.title.deep_view(),
            poster_src: self.poster_src.deep_view(),
            rating_text: self.rating_text.deep_view(),
            quality_text: self.quality_text.deep_view(),
            genre_texts: self.genre_texts.deep_view(),
        }
    }
}

/// The text, or the empty text where there is none.
pub open spec fn text_or_empty(t: Option<Seq<char>>) -> Seq<char> {
    match t {
        Some(s) => s,
        None => Seq::empty(),
    }
}

/// The text without the white space around it.
pub open spec fn trimmed_opt(t: Option<Seq<char>>) -> Option<Seq<char>> {
    match t {
        Some(s) => Some(trimmed(s)),
        None => None,
    }
}

/// The rating that `s` writes: a decimal number, with an optional `+` in
/// front.
///
/// A rating is a number from zero up, written out in full. So a text with a
/// `-` in front is absent, and so is one with an exponent (`8e0`), one that
/// names infinity or no number (`inf`, `NaN`), and one with white space or
/// any other character among its digits.
pub open spec fn parse_rating(s: Seq<char>) -> Option<Rating> {
    if s.len() > 0 && s[0] == '+' {
        parse_decimal(s.drop_first())
    } else {
        parse_decimal(s)
    }
}

/// The decimal number that `s` writes: digits, with at most one point among
/// them and at least one digit in all. `None` for any other text, and where
/// the digits do not fit the mantissa.
pub open spec fn parse_decimal(s: Seq<char>) -> Option<Rating> {
    let dot = index_of(s, '.');
    let whole = s.subrange(0, dot);
    let frac = if dot < s.len() {
        s.subrange(dot + 1, s.len() as int)
    } else {
        Seq::empty()
    };
    let digits = whole + frac;
    if digits.len() > 0 && all_digits(digits) && digits_value(digits) <= u64::MAX && frac.len()
        <= u32::MAX {
        Some(Rating { mantissa: digits_value(digits) as u64, scale: frac.len() as u32 })
    } else {
        None
    }
}

/// The rating that a badge text stands for.
pub open spec fn rating_of(text: Option<Seq<char>>) -> Option<Rating> {
    match text {
        Some(t) => parse_rating(trimmed(t)),
        None => None,
    }
}

/// The year that a title carries in parentheses: what follows the first
/// `(`, up to the next one, without closing parentheses at its end, read as
/// an integer.
pub open spec fn year_in_title(title: Seq<char>) -> Option<i32> {
    match split_field(title, '(', 1) {
        Some(f) => match parse_signed(strip_trailing(f, ')')) {
            Some(n) => Some(n as i32),
            None => None,
        },
        None => None,
    }
}

/// The trimmed texts of `texts` in order, leaving out the anchors without
/// text and, unless `keep_empty`, the texts that are empty once trimmed.
pub open spec fn names_of(texts: Seq<Option<Seq<char>>>, keep_empty: bool) -> Seq<Seq<char>>
    decreases texts.len(),
{
    if texts.len() == 0 {
        Seq::empty()
    } else {
        let rest = names_of(texts.drop_last(), keep_empty);
        match texts.last() {
            Some(t) => if keep_empty || trimmed(t).len() > 0 {
                rest.push(trimmed(t))
            } else {
                rest
            },
            None => rest,
        }
    }
}

/// The movie that a listing item describes; `None` for a container without
/// a title anchor.
pub open spec fn movie_of(item: RawListingItemView) -> Option<MovieView> {
    match item.title {
        Some(anchor) => {
            let title = trimmed(text_or_empty(anchor.text));
            let url = text_or_empty(anchor.href);
            Some(
                MovieView {
                    id: last_segment(url, '/'),
                    title: title,
                    poster: text_or_empty(item.poster_src),
                    year: year_in_title(title),
                    rating: rating_of(item.rating_text),
                    quality: trimmed_opt(item.quality_text),
                    genres: names_of(item.genre_texts, true),
                    url: url,
                },
            )
        },
        None => None,
    }
}

/// The movies of a listing page, in the order of their containers.
pub open spec fn listing_movies(items: Seq<RawListingItemView>) -> Seq<MovieView>
    decreases items.len(),
{
    if items.len() == 0 {
        Seq::empty()
    } else {
        let rest = listing_movies(items.drop_last());
        match movie_of(items.last()) {
            Some(m) => rest.push(m),
            None => rest,
        }
    }
}

/// The characters of the text, or none where there is no text.
pub fn chars_or_empty(t: &Option<String>) -> (r: Vec<char>)
    ensures
        r@ == text_or_empty(t.deep_view()),
{
    match t {
        Some(s) => chars_of(s.as_str()),
        None => Vec::new(),
    }
}

/// The text without the white space around it.
pub fn trim_text(s: &str) -> (r: String)
    ensures
        r@ == trimmed(s@),
{
    let v = chars_of(s);
    let t = trim(&v);
    string_of(&t)
}

/// The text, where there is one, without the white space around it.
pub fn trim_opt_text(t: &Option<String>) -> (r: Option<String>)
    ensures
        r.deep_view() == trimmed_opt(t.deep_view()),
{
    match t {
        Some(s) => Some(trim_text(s.as_str())),
        None => None,
    }
}

/// Reads `v` as a rating.
pub fn read_rating(v: &Vec<char>) -> (r: Option<Rating>)
    ensures
        r == parse_rating(v@),
{
    if v.len() > 0 && v[0] == '+' {
        let body = slice_of(v, 1, v.len());
        assert(body@ =~= v@.drop_first());
        read_decimal(&body)
    } else {
        read_decimal(v)
    }
}

/// Reads `v` as a decimal number.
pub fn read_decimal(v: &Vec<char>) -> (r: Option<Rating>)
    ensures
        r == parse_decimal(v@),
{
    let n: usize = v.len();
    assert(v@.subrange(0, n as int) =~= v@);
    let dot: usize = find_char(v, '.', 0);
    let mut digits: Vec<char> = slice_of(v, 0, dot);
    let ghost whole = v@.subrange(0, dot as int);
    let frac_len: usize = if dot < n {
        let frac = slice_of(v, dot + 1, n);
        push_chars(&frac, &mut digits);
        n - dot - 1
    } else {
        assert(digits@ =~= whole + Seq::<char>::empty());
        0
    };
    assert(digits@.subrange(0, digits.len() as int) =~= digits@);
    if frac_len > 0xffff_ffff {
        return None;
    }
    match read_digits(&digits, 0, u64::MAX) {
        Some(m) => Some(Rating { mantissa: m, scale: frac_len as u32 }),
        None => None,
    }
}

/// The rating that a badge text stands for.
pub fn rating_from_text(text: &Option<String>) -> (r: Option<Rating>)
    ensures
        r == rating_of(text.deep_view()),
{
    match text {
        Some(t) => {
            let v = chars_of(t.as_str());
            let w = trim(&v);
            read_rating(&w)
        },
        None => None,
    }
}

/// The year that a title carries in parentheses.
pub fn year_from_title(title: &Vec<char>) -> (r: Option<i32>)
    ensures
        r == year_in_title(title@),
{
    match nth_field(title, '(', 1) {
        Some(f) => {
            let g = strip_trailing_chars(&f, ')');
            parse_i32(&g)
        },
        None => None,
    }
}

/// The trimmed texts of `texts`, as `names_of` states.
pub fn collect_names(texts: &Vec<Option<String>>, keep_empty: bool) -> (r: Vec<String>)
    ensures
        r.deep_view() == names_of(texts.deep_view(), keep_empty),
{
    let mut r: Vec<String> = Vec::new();
    let mut i: usize = 0;
    let ghost all = texts.deep_view();
    assert(all.subrange(0, 0) =~= Seq::<Option<Seq<char>>>::empty());
    assert(r.deep_view() =~= Seq::<Seq<char>>::empty());
    while i < texts.len()
        invariant
            i <= texts.len(),
            all == texts.deep_view(),
            r.deep_view() == names_of(all.subrange(0, i as int), keep_empty),
        decreases texts.len() - i,
    {
        let ghost before = r.deep_view();
        assert(all.subrange(0, i + 1).drop_last() =~= all.subrange(0, i as int));
        assert(all.subrange(0, i + 1).last() == texts@[i as int].deep_view());
        match &texts[i] {
            Some(t) => {
                let name = trim_text(t.as_str());
                if keep_empty || !name.as_str().is_empty() {
                    r.push(name);
                    assert(r.deep_view() =~= before.push(trimmed(t@)));
                }
            },
            None => {},
        }
        i += 1;
    }
    assert(all.subrange(0, i as int) =~= all);
    r
}

/// The movie that a listing item describes.
pub fn movie_from_raw(item: &RawListingItem) -> (r: Option<Movie>)
    ensures
        r.deep_view() == movie_of(item.deep_view()),
{
    match &item.title {
        Some(anchor) => {
            let title = trim(&chars_or_empty(&anchor.text));
            let url = chars_or_empty(&anchor.href);
            let id = last_segment_of(&url, '/');
            let poster = chars_or_empty(&item.poster_src);
            Some(
                Movie {
                    id: string_of(&id),
                    title: string_of(&title),
                    poster: string_of(&poster),
                    year: year_from_title(&title),
                    rating: rating_from_text(&item.rating_text),
                    quality: trim_opt_text(&item.quality_text),
                    genres: collect_names(&item.genre_texts, true),
                    url: string_of(&url),
                },
            )
        },
        None => None,
    }
}

/// The movies of a listing page, in the order of their containers. A
/// container without a title anchor gives no movie.
pub fn movies_from_raw(items: &Vec<RawListingItem>) -> (r: Vec<Movie>)
    ensures
        r.deep_view() == listing_movies(items.deep_view()),
{
    let mut r: Vec<Movie> = Vec::new();
    let mut i: usize = 0;
    let ghost all = items.deep_view();
    assert(all.subrange(0, 0) =~= Seq::<RawListingItemView>::empty());
    assert(r.deep_view() =~= Seq::<MovieView>::empty());
    while i < items.len()
        invariant
            i <= items.len(),
            all == items.deep_view(),
            r.deep_view() == listing_movies(all.subrange(0, i as int)),
        decreases items.len() - i,
    {
        let ghost before = r.deep_view();
        assert(all.subrange(0, i + 1).drop_last() =~= all.subrange(0, i as int));
        assert(all.subrange(0, i + 1).last() == items@[i as int].deep_view());
        match movie_from_raw(&items[i]) {
            Some(m) => {
                r.push(m);
                assert(r.deep_view() =~= before.push(m.deep_view()));
            },
            None => {},
        }
        i += 1;
    }
    assert(all.subrange(0, i as int) =~= all);
    r
}


/// What was found in one item of the "related" section of a movie's page.
#[derive(Clone, Debug, PartialEq, Eq)]
pub struct RawRelated {
    /// The title anchor, when the item has one.
    pub title: Option<RawAnchor>,
    /// The `src` of the item's image.
    pub poster_src: Option<String>,
}

/// What a `RawRelated` holds, as mathematical values.
pub ghost struct RawRelatedView {
    pub title: Option<RawAnchorView>,
    pub poster_src: Option<Seq<char>>,
}

impl DeepView for RawRelated {
    type V = RawRelatedView;

    open spec fn deep_view(&self) -> RawRelatedView {
        RawRelatedView { title: self.title.deep_view(), poster_src: self.poster_src.deep_view() }
    }
}

/// What was found on a movie's page.
#[derive(Clone, Debug, PartialEq, Eq)]
pub struct RawDetailPage {
    /// The first text node of the title element.
    pub title_text: Option<String>,
    /// The `src` of the poster image.
    pub poster_src: Option<String>,
    /// The text nodes of the description paragraph, when there is one.
    pub description: Option<Vec<String>>,
    /// The first text node of the rating value.
    pub rating_text: Option<String>,
    /// The `src` of the first inline frame.
    pub watch_src: Option<String>,
    /// The text nodes of each labelled block, block by block.
    pub meta: Vec<Vec<String>>,
    /// The first text node of each genre anchor.
    pub genre_texts: Vec<Option<String>>,
    /// The first text node of each cast entry.
    pub actor_texts: Vec<Option<String>>,
    /// The items of the "related" section.
    pub related: Vec<RawRelated>,
}

/// What a `RawDetailPage` holds, as mathematical values.
pub ghost struct RawDetailPageView {
    pub title_text: Option<Seq<char>>,
    pub poster_src: Option<Seq<char>>,
    pub description: Option<Seq<Seq<char>>>,
    pub rating_text: Option<Seq<char>>,
    pub watch_src: Option<Seq<char>>,
    pub meta: Seq<Seq<Seq<char>>>,
    pub genre_texts: Seq<Option<Seq<char>>>,
    pub actor_texts: Seq<Option<Seq<char>>>,
    pub related: Seq<RawRelatedView>,
}

impl DeepView for RawDetailPage {
    type V = RawDetailPageView;

    open spec fn deep_view(&self) -> RawDetailPageView {
        RawDetailPageView {
            title_text: self.title_text.deep_view(),
            poster_src: self.poster_src.deep_view(),
            description: self.description.deep_view(),
            rating_text: self.rating_text.deep_view(),
            watch_src: self.watch_src.deep_view(),
            meta: self.meta.deep_view(),
            genre_texts: self.genre_texts.deep_view(),
            actor_texts: self.actor_texts.deep_view(),
            related: self.related.deep_view(),
        }
    }
}

/// The fields that the labelled blocks of a movie's page give.
#[derive(Clone, Debug, PartialEq, Eq)]
pub struct MetaFields {
    pub views: Option<u32>,
    pub quality: Option<String>,
    pub year: Option<i32>,
    pub duration: Option<String>,
    pub country: Option<String>,
    pub release_date: Option<String>,
    pub language: Option<String>,
    pub director: Option<String>,
}

/// What a `MetaFields` holds, as mathematical values.
pub ghost struct MetaFieldsView {
    pub views: Option<u32>,
    pub quality: Option<Seq<char>>,
    pub year: Option<i32>,
    pub duration: Option<Seq<char>>,
    pub country: Option<Seq<char>>,
    pub release_date: Option<Seq<char>>,
    pub language: Option<Seq<char>>,
    pub director: Option<Seq<char>>,
}

impl DeepView for MetaFields {
    type V = MetaFieldsView;

    open spec fn deep_view(&self) -> MetaFieldsView {
        MetaFieldsView {
            views: self.views,
            quality: self.quality.deep_view(),
            year: self.year,
            duration: self.duration.deep_view(),
            country: self.country.deep_view(),
            release_date: self.release_date.deep_view(),
            language: self.language.deep_view(),
            director: self.director.deep_view(),
        }
    }
}

/// The block that carries the view count begins with this word ...
pub const LABEL_POSTED: &'static str = "Diposting";

/// ... and the count follows this one.
pub const LABEL_VIEWS: &'static str = "dilihat";

/// The label of the block that gives the quality.
pub const LABEL_QUALITY: &'static str = "Kualitas:";

/// The label of the block that gives the year.
pub const LABEL_YEAR: &'static str = "Tahun:";

/// The label of the block that gives the duration.
pub const LABEL_DURATION: &'static str = "Durasi:";

/// The label of the block that gives the country.
pub const LABEL_COUNTRY: &'static str = "Negara:";

/// The label of the block that gives the release date.
pub const LABEL_RELEASE: &'static str = "Rilis:";

/// The label of the block that gives the language.
pub const LABEL_LANGUAGE: &'static str = "Bahasa:";

/// The label of the block that gives the director.
pub const LABEL_DIRECTOR: &'static str = "Direksi:";

/// The title given to a page that has none.
pub const UNKNOWN_TITLE: &'static str = "Unknown Title";

/// No field known.
pub open spec fn no_fields() -> MetaFieldsView {
    MetaFieldsView {
        views: None,
        quality: None,
        year: None,
        duration: None,
        country: None,
        release_date: None,
        language: None,
        director: None,
    }
}

/// The text of a block: its text nodes joined by single spaces, trimmed.
pub open spec fn block_text(texts: Seq<Seq<char>>) -> Seq<char> {
    trimmed(joined(texts, " "@))
}

/// What follows the label `label` in `text`, trimmed.
pub open spec fn remainder(text: Seq<char>, label: Seq<char>) -> Seq<char> {
    trimmed(text.subrange(label.len() as int, text.len() as int))
}

/// The view count of a block's text: what follows the first `dilihat`,
/// trimmed and without its commas, read as an unsigned integer.
pub open spec fn views_in(text: Seq<char>) -> Option<u32> {
    match find(text, LABEL_VIEWS@) {
        Some(i) => {
            let rest = trimmed(text.subrange(i + LABEL_VIEWS@.len(), text.len() as int));
            match parse_unsigned(without(rest, ','), 0xffff_ffff) {
                Some(n) => Some(n as u32),
                None => None,
            }
        },
        None => None,
    }
}

/// The year that `text` writes.
pub open spec fn year_of(text: Seq<char>) -> Option<i32> {
    match parse_signed(text) {
        Some(n) => Some(n as i32),
        None => None,
    }
}

/// The fields after the block with text `text` has been read: the first
/// label that the text begins with decides which field it sets; a text that
/// begins with no known label changes nothing.
pub open spec fn apply_block(fields: MetaFieldsView, text: Seq<char>) -> MetaFieldsView {
    if has_prefix(text, LABEL_POSTED@) && find(text, LABEL_VIEWS@) is Some {
        MetaFieldsView { views: views_in(text), ..fields }
    } else if has_prefix(text, LABEL_QUALITY@) {
        MetaFieldsView { quality: Some(remainder(text, LABEL_QUALITY@)), ..fields }
    } else if has_prefix(text, LABEL_YEAR@) {
        MetaFieldsView { year: year_of(remainder(text, LABEL_YEAR@)), ..fields }
    } else if has_prefix(text, LABEL_DURATION@) {
        MetaFieldsView { duration: Some(remainder(text, LABEL_DURATION@)), ..fields }
    } else if has_prefix(text, LABEL_COUNTRY@) {
        MetaFieldsView { country: Some(remainder(text, LABEL_COUNTRY@)), ..fields }
    } else if has_prefix(text, LABEL_RELEASE@) {
        MetaFieldsView { release_date: Some(remainder(text, LABEL_RELEASE@)), ..fields }
    } else if has_prefix(text, LABEL_LANGUAGE@) {
        MetaFieldsView { language: Some(remainder(text, LABEL_LANGUAGE@)), ..fields }
    } else if has_prefix(text, LABEL_DIRECTOR@) {
        MetaFieldsView { director: Some(remainder(text, LABEL_DIRECTOR@)), ..fields }
    } else {
        fields
    }
}

/// The fields that the labelled blocks give, read in order: a later block
/// with the same label overrides an earlier one.
pub open spec fn meta_fields(blocks: Seq<Seq<Seq<char>>>) -> MetaFieldsView
    decreases blocks.len(),
{
    if blocks.len() == 0 {
        no_fields()
    } else {
        apply_block(meta_fields(blocks.drop_last()), block_text(blocks.last()))
    }
}

/// The movie that an item of the "related" section describes: it needs a
/// title anchor with a text and an address, and carries title, address and
/// poster only.
pub open spec fn related_of(item: RawRelatedView) -> Option<MovieView> {
    match item.title {
        Some(anchor) => match (anchor.text, anchor.href) {
            (Some(t), Some(u)) => Some(
                MovieView {
                    id: last_segment(u, '/'),
                    title: trimmed(t),
                    poster: text_or_empty(item.poster_src),
                    year: None,
                    rating: None,
                    quality: None,
                    genres: Seq::empty(),
                    url: u,
                },
            ),
            _ => None,
        },
        None => None,
    }
}

/// The movies of the "related" section, in order.
pub open spec fn related_movies(items: Seq<RawRelatedView>) -> Seq<MovieView>
    decreases items.len(),
{
    if items.len() == 0 {
        Seq::empty()
    } else {
        let rest = related_movies(items.drop_last());
        match related_of(items.last()) {
            Some(m) => rest.push(m),
            None => rest,
        }
    }
}

/// The movie that the page found at `url` for `movie_id` describes.
pub open spec fn detail_of(
    page: RawDetailPageView,
    movie_id: Seq<char>,
    url: Seq<char>,
) -> MovieDetailView {
    let meta = meta_fields(page.meta);
    MovieDetailView {
        id: movie_id,
        title: match page.title_text {
            Some(t) => trimmed(t),
            None => UNKNOWN_TITLE@,
        },
        poster: text_or_empty(page.poster_src),
        rating: rating_of(page.rating_text),
        rating_count: None,
        description: match page.description {
            Some(texts) => Some(block_text(texts)),
            None => None,
        },
        views: meta.views,
        genres: names_of(page.genre_texts, false),
        quality: meta.quality,
        year: meta.year,
        duration: meta.duration,
        country: meta.country,
        release_date: meta.release_date,
        language: meta.language,
        director: meta.director,
        actors: names_of(page.actor_texts, false),
        url: url,
        watch_url: page.watch_src,
        related_movies: related_movies(page.related),
    }
}

/// The text of a block.
pub fn text_of_block(texts: &Vec<String>) -> (r: Vec<char>)
    ensures
        r@ == block_text(texts.deep_view()),
{
    let all = join(texts, " ");
    assert(texts.deep_view() =~= views(texts@));
    trim(&all)
}

/// What follows the first `label.len()` characters of `text`, trimmed.
fn text_after(text: &Vec<char>, label: &Vec<char>) -> (r: Vec<char>)
    requires
        label.len() <= text.len(),
    ensures
        r@ == remainder(text@, label@),
{
    let rest = slice_of(text, label.len(), text.len());
    trim(&rest)
}

/// The view count of a block's text.
fn views_from(text: &Vec<char>) -> (r: Option<u32>)
    ensures
        r == views_in(text@),
{
    let label = chars_of(LABEL_VIEWS);
    match find_text(text, &label) {
        Some(i) => {
            proof {
                lemma_find_in_range(text@, label@, 0);
                assert(occurs_at(text@, label@, i as int));
                assert(i + label.len() <= text.len());
            }
            let rest = slice_of(text, i + label.len(), text.len());
            let t = trim(&rest);
            let digits = remove_char(&t, ',');
            parse_u32(&digits)
        },
        None => None,
    }
}

/// The fields after one more block has been read.
pub fn read_block(fields: MetaFields, text: &Vec<char>) -> (r: MetaFields)
    ensures
        r.deep_view() == apply_block(fields.deep_view(), text@),
{
    let mut fields = fields;
    let posted = chars_of(LABEL_POSTED);
    let views = chars_of(LABEL_VIEWS);
    let quality = chars_of(LABEL_QUALITY);
    let year = chars_of(LABEL_YEAR);
    let duration = chars_of(LABEL_DURATION);
    let country = chars_of(LABEL_COUNTRY);
    let release = chars_of(LABEL_RELEASE);
    let language = chars_of(LABEL_LANGUAGE);
    let director = chars_of(LABEL_DIRECTOR);
    if starts_with(text, &posted) && find_text(text, &views).is_some() {
        fields.views = views_from(text);
    } else if starts_with(text, &quality) {
        fields.quality = Some(string_of(&text_after(text, &quality)));
    } else if starts_with(text, &year) {
        fields.year = parse_i32(&text_after(text, &year));
    } else if starts_with(text, &duration) {
        fields.duration = Some(string_of(&text_after(text, &duration)));
    } else if starts_with(text, &country) {
        fields.country = Some(string_of(&text_after(text, &country)));
    } else if starts_with(text, &release) {
        fields.release_date = Some(string_of(&text_after(text, &release)));
    } else if starts_with(text, &language) {
        fields.language = Some(string_of(&text_after(text, &language)));
    } else if starts_with(text, &director) {
        fields.director = Some(string_of(&text_after(text, &director)));
    }
    fields
}

/// The fields that the labelled blocks give.
pub fn read_meta(blocks: &Vec<Vec<String>>) -> (r: MetaFields)
    ensures
        r.deep_view() == meta_fields(blocks.deep_view()),
{
    let mut fields = MetaFields {
        views: None,
        quality: None,
        year: None,
        duration: None,
        country: None,
        release_date: None,
        language: None,
        director: None,
    };
    let mut i: usize = 0;
    let ghost all = blocks.deep_view();
    assert(all.subrange(0, 0) =~= Seq::<Seq<Seq<char>>>::empty());
    while i < blocks.len()
        invariant
            i <= blocks.len(),
            all == blocks.deep_view(),
            fields.deep_view() == meta_fields(all.subrange(0, i as int)),
        decreases blocks.len() - i,
    {
        assert(all.subrange(0, i + 1).drop_last() =~= all.subrange(0, i as int));
        assert(all.subrange(0, i + 1).last() == blocks@[i as int].deep_view());
        let text = text_of_block(&blocks[i]);
        fields = read_block(fields, &text);
        i += 1;
    }
    assert(all.subrange(0, i as int) =~= all);
    fields
}

/// The movie that an item of the "related" section describes.
pub fn related_from_raw(item: &RawRelated) -> (r: Option<Movie>)
    ensures
        r.deep_view() == related_of(item.deep_view()),
{
    match &item.title {
        Some(anchor) => match (&anchor.text, &anchor.href) {
            (Some(t), Some(u)) => {
                let url = chars_of(u.as_str());
                let id = last_segment_of(&url, '/');
                let poster = chars_or_empty(&item.poster_src);
                let genres: Vec<String> = Vec::new();
                assert(genres.deep_view() =~= Seq::<Seq<char>>::empty());
                Some(
                    Movie {
                        id: string_of(&id),
                        title: trim_text(t.as_str()),
                        poster: string_of(&poster),
                        year: None,
                        rating: None,
                        quality: None,
                        genres: genres,
                        url: string_of(&url),
                    },
                )
            },
            _ => None,
        },
        None => None,
    }
}

/// The movies of the "related" section, in order.
pub fn related_from_raws(items: &Vec<RawRelated>) -> (r: Vec<Movie>)
    ensures
        r.deep_view() == related_movies(items.deep_view()),
{
    let mut r: Vec<Movie> = Vec::new();
    let mut i: usize = 0;
    let ghost all = items.deep_view();
    assert(all.subrange(0, 0) =~= Seq::<RawRelatedView>::empty());
    assert(r.deep_view() =~= Seq::<MovieView>::empty());
    while i < items.len()
        invariant
            i <= items.len(),
            all == items.deep_view(),
            r.deep_view() == related_movies(all.subrange(0, i as int)),
        decreases items.len() - i,
    {
        let ghost before = r.deep_view();
        assert(all.subrange(0, i + 1).drop_last() =~= all.subrange(0, i as int));
        assert(all.subrange(0, i + 1).last() == items@[i as int].deep_view());
        match related_from_raw(&items[i]) {
            Some(m) => {
                r.push(m);
                assert(r.deep_view() =~= before.push(m.deep_view()));
            },
            None => {},
        }
        i += 1;
    }
    assert(all.subrange(0, i as int) =~= all);
    r
}

/// The movie that a page describes. `movie_id` and `url` are those under
/// which the page was asked for; they are kept as they are.
pub fn detail_from_raw(page: &RawDetailPage, movie_id: &str, url: &str) -> (r: MovieDetail)
    ensures
        r.deep_view() == detail_of(page.deep_view(), movie_id@, url@),
{
    let meta = read_meta(&page.meta);
    let title = match &page.title_text {
        Some(t) => trim_text(t.as_str()),
        None => String::from_str(UNKNOWN_TITLE),
    };
    let description = match &page.description {
        Some(texts) => Some(string_of(&text_of_block(texts))),
        None => None,
    };
    MovieDetail {
        id: String::from_str(movie_id),
        title: title,
        poster: string_of(&chars_or_empty(&page.poster_src)),
        rating: rating_from_text(&page.rating_text),
        rating_count: None,
        description: description,
        views: meta.views,
        genres: collect_names(&page.genre_texts, false),
        quality: meta.quality,
        year: meta.year,
        duration: meta.duration,
        country: meta.country,
        release_date: meta.release_date,
        language: meta.language,
        director: meta.director,
        actors: collect_names(&page.actor_texts, false),
        url: String::from_str(url),
        watch_url: crate::models::copy_opt_text(&page.watch_src),
        related_movies: related_from_raws(&page.related),
    }
}


/// A listing item is a movie exactly when it has a title anchor; whatever
/// else it lacks only leaves a field absent or empty. In particular an item
/// without a rating badge is a movie without a rating.
pub proof fn law_missing_badge_is_absent(item: RawListingItemView)
    ensures
        movie_of(item) is Some <==> item.title is Some,
        item.title is Some && item.rating_text is None ==> movie_of(item).unwrap().rating is None,
        item.title is Some && item.quality_text is None ==> movie_of(item).unwrap().quality
            is None,
        item.title is Some && item.poster_src is None ==> movie_of(item).unwrap().poster.len()
            == 0,
{
}

/// The identifier of a movie is derived from its address and from nothing
/// else: two listing items with the same address give the same identifier.
pub proof fn law_id_follows_address(a: RawListingItemView, b: RawListingItemView)
    requires
        a.title is Some,
        b.title is Some,
        a.title.unwrap().href == b.title.unwrap().href,
    ensures
        movie_of(a).unwrap().url == movie_of(b).unwrap().url,
        movie_of(a).unwrap().id == movie_of(b).unwrap().id,
        movie_of(a).unwrap().id == last_segment(movie_of(a).unwrap().url, '/'),
{
}

/// A listing has at most one movie for each item container.
pub proof fn law_listing_bounded(items: Seq<RawListingItemView>)
    ensures
        listing_movies(items).len() <= items.len(),
    decreases items.len(),
{
    if items.len() > 0 {
        law_listing_bounded(items.drop_last());
    }
}

/// A page without an inline frame gives a movie without a watch address,
/// and no labelled block or other text can supply one.
pub proof fn law_no_frame_no_watch_address(
    page: RawDetailPageView,
    movie_id: Seq<char>,
    url: Seq<char>,
)
    ensures
        detail_of(page, movie_id, url).watch_url == page.watch_src,
        page.watch_src is None ==> detail_of(page, movie_id, url).watch_url is None,
        detail_of(page, movie_id, url).id == movie_id,
        detail_of(page, movie_id, url).url == url,
{
}

} // verus!
