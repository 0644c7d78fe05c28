//! The extraction pipeline: from the text of a page to entities.
//!
//! Extraction runs in two steps. The first applies the structural selectors
//! and keeps, as raw records, the texts and attribute values found. The
//! second applies the field rules of `rules` to the raw records. Only the
//! first step can fail: when the page is too large to be parsed, and when a
//! selector cannot be compiled.

use vstd::prelude::*;
use crate::errors::AppError;
use crate::html::{
    attribute_of, compile_selector, compiled_selector, document_matches, element_attribute,
    element_matches, element_texts, is_catalog_selector, page_fits, parse_document,
    parsed_document,
    select_in_document, select_in_element, selector_error_message, selector_error_text, texts_of,
    MAX_PAGE_BYTES,
};
use crate::models::{Movie, MovieDetail, MovieDetailView, MovieView};
use crate::rules::{
    detail_from_raw, detail_of, listing_movies, movies_from_raw, RawAnchor, RawAnchorView,
    RawDetailPage, RawDetailPageView, RawListingItem, RawListingItemView, RawRelated,
    RawRelatedView,
};

verus! {

/// Selects the item containers of a listing page.
pub const LISTING_ITEM: &'static str = "#gmr-main-load article.item-infinite";

/// Selects, in an item, the anchor that carries title and address.
pub const LISTING_TITLE: &'static str = ".entry-title a";

/// Selects, in an item, the thumbnail image.
pub const LISTING_POSTER: &'static str = ".content-thumbnail img";

/// Selects, in an item, the quality badge.
pub const LISTING_QUALITY: &'static str = ".gmr-quality-item a";

/// Selects, in an item, the rating badge.
pub const LISTING_RATING: &'static str = ".gmr-rating-item";

/// Selects the genre anchors of an item or of a page.
pub const GENRE_TAGS: &'static str = ".gmr-movie-on a";

/// The compiled selectors of a listing page.
pub struct ListingSelectors {
    pub item: scraper::Selector,
    pub title: scraper::Selector,
    pub poster: scraper::Selector,
    pub quality: scraper::Selector,
    pub rating: scraper::Selector,
    pub genre: scraper::Selector,
}

impl ListingSelectors {
    /// Whether each selector is one of the catalog.
    pub open spec fn is_catalog(self) -> bool {
        &&& is_catalog_selector(self.item)
        &&& is_catalog_selector(self.title)
        &&& is_catalog_selector(self.poster)
        &&& is_catalog_selector(self.quality)
        &&& is_catalog_selector(self.rating)
        &&& is_catalog_selector(self.genre)
    }
}

/// The selector texts of the catalog: all that are ever matched against a
/// page.
pub open spec fn catalog_selectors() -> Seq<Seq<char>> {
    seq![
        LISTING_ITEM@,
        LISTING_TITLE@,
        LISTING_POSTER@,
        LISTING_QUALITY@,
        LISTING_RATING@,
        GENRE_TAGS@,
        DETAIL_TITLE@,
        DETAIL_POSTER@,
        DETAIL_DESCRIPTION@,
        DETAIL_RATING@,
        DETAIL_META@,
        DETAIL_FRAME@,
        DETAIL_CAST@,
        DETAIL_RELATED@,
        RELATED_TITLE@,
        RELATED_POSTER@,
    ]
}

/// What entry `i` of the catalog compiles to, if it compiles, is a selector
/// of the catalog.
pub proof fn lemma_catalog_selector(i: int)
    requires
        0 <= i < catalog_selectors().len(),
    ensures
        compiled_selector(catalog_selectors()[i]) matches Ok(s) ==> is_catalog_selector(s),
{
}

/// The error of the first of `results` that is one.
pub open spec fn first_error(
    results: Seq<Result<scraper::Selector, scraper::error::SelectorErrorKind>>,
) -> Option<scraper::error::SelectorErrorKind>
    decreases results.len(),
{
    if results.len() == 0 {
        None
    } else {
        match results[0] {
            Err(e) => Some(e),
            Ok(_) => first_error(results.drop_first()),
        }
    }
}

/// What compiling each selector of a listing page gives.
pub open spec fn listing_results() -> Seq<
    Result<scraper::Selector, scraper::error::SelectorErrorKind>,
> {
    seq![
        compiled_selector(LISTING_ITEM@),
        compiled_selector(LISTING_TITLE@),
        compiled_selector(LISTING_POSTER@),
        compiled_selector(LISTING_QUALITY@),
        compiled_selector(LISTING_RATING@),
        compiled_selector(GENRE_TAGS@),
    ]
}

/// The selectors of a listing page, when every one of them compiles;
/// otherwise the error of the first that does not.
pub open spec fn compiled_listing_selectors() -> Result<
    ListingSelectors,
    scraper::error::SelectorErrorKind,
> {
    match first_error(listing_results()) {
        Some(e) => Err(e),
        None => Ok(
            ListingSelectors {
                item: compiled_selector(LISTING_ITEM@).unwrap(),
                title: compiled_selector(LISTING_TITLE@).unwrap(),
                poster: compiled_selector(LISTING_POSTER@).unwrap(),
                quality: compiled_selector(LISTING_QUALITY@).unwrap(),
                rating: compiled_selector(LISTING_RATING@).unwrap(),
                genre: compiled_selector(GENRE_TAGS@).unwrap(),
            },
        ),
    }
}

/// Where the first `k` of `results` are selectors, the first error is that
/// of `results[k]` if it is one, and there is none if `k` is the length.
pub proof fn lemma_first_error(
    results: Seq<Result<scraper::Selector, scraper::error::SelectorErrorKind>>,
    k: int,
)
    requires
        0 <= k <= results.len(),
        forall|i: int| 0 <= i < k ==> (#[trigger] results[i]) is Ok,
    ensures
        k == results.len() ==> first_error(results) is None,
        k < results.len() && results[k] is Err ==> first_error(results) == Some(
            results[k]->Err_0,
        ),
    decreases k,
{
    if k > 0 {
        let rest = results.drop_first();
        assert(results[0] is Ok);
        assert forall|i: int| 0 <= i < k - 1 implies (#[trigger] rest[i]) is Ok by {
            assert(rest[i] == results[i + 1]);
        }
        lemma_first_error(rest, k - 1);
        if k < results.len() {
            assert(rest[k - 1] == results[k]);
        }
    }
}

/// Where there is no first error, every one of `results` is a selector.
pub proof fn lemma_no_error(
    results: Seq<Result<scraper::Selector, scraper::error::SelectorErrorKind>>,
)
    ensures
        first_error(results) is None ==> forall|i: int|
            0 <= i < results.len() ==> (#[trigger] results[i]) is Ok,
    decreases results.len(),
{
    if results.len() > 0 {
        let rest = results.drop_first();
        lemma_no_error(rest);
        if first_error(results) is None {
            assert forall|i: int| 0 <= i < results.len() implies (#[trigger] results[i]) is Ok by {
                if i > 0 {
                    assert(rest[i - 1] == results[i]);
                }
            }
        }
    }
}

/// The selectors of a listing page are selectors of the catalog.
pub proof fn lemma_listing_selectors()
    ensures
        compiled_listing_selectors() matches Ok(sel) ==> sel.is_catalog(),
{
    let all = listing_results();
    lemma_no_error(all);
    if first_error(all) is None {
        assert(all[0] is Ok && all[1] is Ok && all[2] is Ok && all[3] is Ok && all[4] is Ok
            && all[5] is Ok);
        lemma_catalog_selector(0);
        lemma_catalog_selector(1);
        lemma_catalog_selector(2);
        lemma_catalog_selector(3);
        lemma_catalog_selector(4);
        lemma_catalog_selector(5);
    }
}

/// The first of `texts`.
pub open spec fn first_text(texts: Seq<Seq<char>>) -> Option<Seq<char>> {
    if texts.len() > 0 {
        Some(texts[0])
    } else {
        None
    }
}

/// The first text node of the first element of `found`.
pub open spec fn first_text_in(found: Seq<scraper::ElementRef<'static>>) -> Option<Seq<char>> {
    if found.len() > 0 {
        first_text(element_texts(found[0]))
    } else {
        None
    }
}

/// The attribute `name` of the first element of `found`.
pub open spec fn first_attribute_in(
    found: Seq<scraper::ElementRef<'static>>,
    name: Seq<char>,
) -> Option<Seq<char>> {
    if found.len() > 0 {
        element_attribute(found[0], name)
    } else {
        None
    }
}

/// First text node and `href` of the first element of `found`.
pub open spec fn first_anchor_in(found: Seq<scraper::ElementRef<'static>>) -> Option<
    RawAnchorView,
> {
    if found.len() > 0 {
        Some(
            RawAnchorView {
                text: first_text(element_texts(found[0])),
                href: element_attribute(found[0], "href"@),
            },
        )
    } else {
        None
    }
}

/// The first text node of each element of `found`.
pub open spec fn first_texts_of(found: Seq<scraper::ElementRef<'static>>) -> Seq<
    Option<Seq<char>>,
> {
    Seq::new(found.len(), |i: int| first_text(element_texts(found[i])))
}

/// What the selectors find in the item container `item`.
pub open spec fn raw_item(
    item: scraper::ElementRef<'static>,
    sel: ListingSelectors,
) -> RawListingItemView {
    RawListingItemView {
        title: first_anchor_in(element_matches(item, sel.title)),
        poster_src: first_attribute_in(element_matches(item, sel.poster), "src"@),
        rating_text: first_text_in(element_matches(item, sel.rating)),
        quality_text: first_text_in(element_matches(item, sel.quality)),
        genre_texts: first_texts_of(element_matches(item, sel.genre)),
    }
}

/// The raw records of a listing page, one for each item container.
pub open spec fn raw_listing(doc: scraper::Html, sel: ListingSelectors) -> Seq<
    RawListingItemView,
> {
    let items = document_matches(doc, sel.item);
    Seq::new(items.len(), |i: int| raw_item(items[i], sel))
}

/// Compiles a selector. A text that is no selector group is an extraction
/// error, which says what the compiler reported.
pub fn require_selector(css: &str) -> (r: Result<scraper::Selector, AppError>)
    ensures
        match compiled_selector(css@) {
            Ok(selector) => r == Ok::<scraper::Selector, AppError>(selector),
            Err(e) => r matches Err(AppError::ExtractionError(m)) && m@ == selector_error_text(e),
        },
{
    match compile_selector(css) {
        Ok(selector) => Ok(selector),
        Err(e) => Err(AppError::ExtractionError(selector_error_message(&e))),
    }
}

/// Compiles the selectors of a listing page, in the order of
/// `listing_results`, up to the first that does not compile.
pub fn listing_selectors() -> (r: Result<ListingSelectors, AppError>)
    ensures
        match compiled_listing_selectors() {
            Ok(sel) => r == Ok::<ListingSelectors, AppError>(sel),
            Err(e) => r matches Err(AppError::ExtractionError(m)) && m@ == selector_error_text(e),
        },
{
    let ghost all = listing_results();
    let item = match require_selector(LISTING_ITEM) {
        Ok(s) => s,
        Err(e) => {
            proof {
                lemma_first_error(all, 0);
            }
            return Err(e);
        },
    };
    let title = match require_selector(LISTING_TITLE) {
        Ok(s) => s,
        Err(e) => {
            proof {
                lemma_first_error(all, 1);
            }
            return Err(e);
        },
    };
    let poster = match require_selector(LISTING_POSTER) {
        Ok(s) => s,
        Err(e) => {
            proof {
                lemma_first_error(all, 2);
            }
            return Err(e);
        },
    };
    let quality = match require_selector(LISTING_QUALITY) {
        Ok(s) => s,
        Err(e) => {
            proof {
                lemma_first_error(all, 3);
            }
            return Err(e);
        },
    };
    let rating = match require_selector(LISTING_RATING) {
        Ok(s) => s,
        Err(e) => {
            proof {
                lemma_first_error(all, 4);
            }
            return Err(e);
        },
    };
    let genre = match require_selector(GENRE_TAGS) {
        Ok(s) => s,
        Err(e) => {
            proof {
                lemma_first_error(all, 5);
            }
            return Err(e);
        },
    };
    proof {
        lemma_first_error(all, 6);
    }
    Ok(ListingSelectors { item, title, poster, quality, rating, genre })
}

/// The first of `texts`.
fn take_first_text(texts: &Vec<String>) -> (r: Option<String>)
    ensures
        r.deep_view() == first_text(texts.deep_view()),
{
    if texts.len() > 0 {
        Some(texts[0].clone())
    } else {
        None
    }
}

/// The first text node of the first element of `found`.
fn find_first_text<'a>(found: &Vec<scraper::ElementRef<'a>>) -> (r: Option<String>)
    ensures
        r.deep_view() == first_text_in(found@),
{
    if found.len() > 0 {
        let texts = texts_of(&found[0]);
        take_first_text(&texts)
    } else {
        None
    }
}

/// The attribute `name` of the first element of `found`.
fn find_first_attribute<'a>(found: &Vec<scraper::ElementRef<'a>>, name: &str) -> (r: Option<
    String,
>)
    ensures
        r.deep_view() == first_attribute_in(found@, name@),
{
    if found.len() > 0 {
        attribute_of(&found[0], name)
    } else {
        None
    }
}

/// First text node and `href` of the first element of `found`.
fn find_first_anchor<'a>(found: &Vec<scraper::ElementRef<'a>>) -> (r: Option<RawAnchor>)
    ensures
        r.deep_view() == first_anchor_in(found@),
{
    if found.len() > 0 {
        let texts = texts_of(&found[0]);
        Some(RawAnchor { text: take_first_text(&texts), href: attribute_of(&found[0], "href") })
    } else {
        None
    }
}

/// The first text node of each element of `found`.
fn collect_first_texts<'a>(found: &Vec<scraper::ElementRef<'a>>) -> (r: Vec<Option<String>>)
    ensures
        r.deep_view() == first_texts_of(found@),
{
    let mut r: Vec<Option<String>> = Vec::new();
    let mut i: usize = 0;
    while i < found.len()
        invariant
            i <= found.len(),
            r.len() == i,
            forall|j: int| 0 <= j < i ==> r@[j].deep_view() == first_text(element_texts(found@[j])),
        decreases found.len() - i,
    {
        let texts = texts_of(&found[i]);
        r.push(take_first_text(&texts));
        i += 1;
    }
    assert(r.deep_view() =~= first_texts_of(found@));
    r
}

/// What the selectors find in one item container.
fn collect_item<'a>(item: &scraper::ElementRef<'a>, sel: &ListingSelectors) -> (r: RawListingItem)
    requires
        sel.is_catalog(),
    ensures
        r.deep_view() == raw_item(*item, *sel),
{
    let titles = select_in_element(item, &sel.title);
    let posters = select_in_element(item, &sel.poster);
    let ratings = select_in_element(item, &sel.rating);
    let qualities = select_in_element(item, &sel.quality);
    let genres = select_in_element(item, &sel.genre);
    RawListingItem {
        title: find_first_anchor(&titles),
        poster_src: find_first_attribute(&posters, "src"),
        rating_text: find_first_text(&ratings),
        quality_text: find_first_text(&qualities),
        genre_texts: collect_first_texts(&genres),
    }
}

/// The raw records of a listing page, for the selectors of the catalog.
pub fn collect_listing(doc: &scraper::Html, sel: &ListingSelectors) -> (r: Vec<RawListingItem>)
    requires
        sel.is_catalog(),
    ensures
        r.deep_view() == raw_listing(*doc, *sel),
{
    let items = select_in_document(doc, &sel.item);
    let mut r: Vec<RawListingItem> = Vec::new();
    let mut i: usize = 0;
    while i < items.len()
        invariant
            i <= items.len(),
            r.len() == i,
            sel.is_catalog(),
            items@ == document_matches(*doc, sel.item),
            forall|j: int| 0 <= j < i ==> r@[j].deep_view() == raw_item(items@[j], *sel),
        decreases items.len() - i,
    {
        r.push(collect_item(&items[i], sel));
        i += 1;
    }
    assert(r.deep_view() =~= raw_listing(*doc, *sel));
    r
}

/// What is said of a page that is too large to be parsed.
pub const PAGE_TOO_LARGE: &'static str = "Halaman terlalu besar untuk diurai";

/// Whether a page of this text is small enough to be parsed.
pub fn fits(html: &str) -> (r: bool)
    ensures
        r == page_fits(html@),
{
    html.as_bytes().len() <= MAX_PAGE_BYTES
}

/// What extraction gives for a listing page with the text `html`: the
/// movies, or the words of the extraction error. A page that is too large
/// is refused before anything else; then the selectors must compile.
pub open spec fn listing_outcome(html: Seq<char>) -> Result<Seq<MovieView>, Seq<char>> {
    if !page_fits(html) {
        Err(PAGE_TOO_LARGE@)
    } else {
        match compiled_listing_selectors() {
            Ok(sel) => Ok(listing_movies(raw_listing(parsed_document(html), sel))),
            Err(e) => Err(selector_error_text(e)),
        }
    }
}

/// Extracts the movies of a listing page. The four listing kinds (latest,
/// popular, by genre, by country) share this structure.
///
/// Fails only for a page of more than `MAX_PAGE_BYTES` bytes and when a
/// selector does not compile. An item container without a title anchor is
/// left out; any other missing piece leaves a field absent or empty.
pub fn parse_latest_movies(html: &str) -> (r: Result<Vec<Movie>, AppError>)
    ensures
        match listing_outcome(html@) {
            Ok(movies) => r matches Ok(found) && found.deep_view() == movies,
            Err(words) => r matches Err(AppError::ExtractionError(m)) && m@ == words,
        },
{
    if !fits(html) {
        return Err(AppError::ExtractionError(String::from_str(PAGE_TOO_LARGE)));
    }
    match listing_selectors() {
        Ok(sel) => {
            proof {
                lemma_listing_selectors();
            }
            let doc = parse_document(html);
            let raw = collect_listing(&doc, &sel);
            Ok(movies_from_raw(&raw))
        },
        Err(e) => Err(e),
    }
}

/// Selects the title of a movie's page.
pub const DETAIL_TITLE: &'static str = ".entry-title";

/// Selects the poster image of a movie's page.
pub const DETAIL_POSTER: &'static str = ".gmr-movie-data img";

/// Selects the description paragraphs of a movie's page.
pub const DETAIL_DESCRIPTION: &'static str = ".gmr-movie-content p";

/// Selects the rating value of a movie's page.
pub const DETAIL_RATING: &'static str = "div.gmr-meta-rating > span[itemprop=\"ratingValue\"]";

/// Selects the labelled blocks of a movie's page.
pub const DETAIL_META: &'static str = ".gmr-moviedata";

/// Selects the inline frames of a movie's page.
pub const DETAIL_FRAME: &'static str = "iframe";

/// Selects the cast entries of a movie's page.
pub const DETAIL_CAST: &'static str = ".gmr-castcrew li";

/// Selects the items of the "related" section.
pub const DETAIL_RELATED: &'static str = ".gmr-related-movie .row .item-related";

/// Selects, in a related item, the anchor that carries title and address.
pub const RELATED_TITLE: &'static str = "h3 a";

/// Selects, in a related item, the image.
pub const RELATED_POSTER: &'static str = "img";

/// The compiled selectors of a movie's page. The page cannot be read
/// without the first eight. The last three only add to it: where the cast
/// selector does not compile, the movie has no actors, and where one of
/// the two selectors of a related item does not, it has no related movies.
pub struct DetailSelectors {
    pub title: scraper::Selector,
    pub poster: scraper::Selector,
    pub description: scraper::Selector,
    pub rating: scraper::Selector,
    pub meta: scraper::Selector,
    pub genre: scraper::Selector,
    pub frame: scraper::Selector,
    pub related: scraper::Selector,
    pub cast: Option<scraper::Selector>,
    pub related_title: Option<scraper::Selector>,
    pub related_poster: Option<scraper::Selector>,
}

impl DetailSelectors {
    /// Whether each selector is one of the catalog.
    pub open spec fn is_catalog(self) -> bool {
        &&& is_catalog_selector(self.title)
        &&& is_catalog_selector(self.poster)
        &&& is_catalog_selector(self.description)
        &&& is_catalog_selector(self.rating)
        &&& is_catalog_selector(self.meta)
        &&& is_catalog_selector(self.genre)
        &&& is_catalog_selector(self.frame)
        &&& is_catalog_selector(self.related)
        &&& self.cast matches Some(s) ==> is_catalog_selector(s)
        &&& self.related_title matches Some(s) ==> is_catalog_selector(s)
        &&& self.related_poster matches Some(s) ==> is_catalog_selector(s)
    }
}

/// What compiling each of the selectors gives without which a movie's page
/// cannot be read.
pub open spec fn detail_results() -> Seq<
    Result<scraper::Selector, scraper::error::SelectorErrorKind>,
> {
    seq![
        compiled_selector(DETAIL_TITLE@),
        compiled_selector(DETAIL_POSTER@),
        compiled_selector(DETAIL_DESCRIPTION@),
        compiled_selector(DETAIL_RATING@),
        compiled_selector(DETAIL_META@),
        compiled_selector(GENRE_TAGS@),
        compiled_selector(DETAIL_FRAME@),
        compiled_selector(DETAIL_RELATED@),
    ]
}

/// The selector that `css` compiles to, if it compiles.
pub open spec fn compiled_if_any(css: Seq<char>) -> Option<scraper::Selector> {
    match compiled_selector(css) {
        Ok(s) => Some(s),
        Err(_) => None,
    }
}

/// The selectors of a movie's page, when each of the first eight compiles;
/// otherwise the error of the first of them that does not.
pub open spec fn compiled_detail_selectors() -> Result<
    DetailSelectors,
    scraper::error::SelectorErrorKind,
> {
    match first_error(detail_results()) {
        Some(e) => Err(e),
        None => Ok(
            DetailSelectors {
                title: compiled_selector(DETAIL_TITLE@).unwrap(),
                poster: compiled_selector(DETAIL_POSTER@).unwrap(),
                description: compiled_selector(DETAIL_DESCRIPTION@).unwrap(),
                rating: compiled_selector(DETAIL_RATING@).unwrap(),
                meta: compiled_selector(DETAIL_META@).unwrap(),
                genre: compiled_selector(GENRE_TAGS@).unwrap(),
                frame: compiled_selector(DETAIL_FRAME@).unwrap(),
                related: compiled_selector(DETAIL_RELATED@).unwrap(),
                cast: compiled_if_any(DETAIL_CAST@),
                related_title: compiled_if_any(RELATED_TITLE@),
                related_poster: compiled_if_any(RELATED_POSTER@),
            },
        ),
    }
}

/// The selectors of a movie's page are selectors of the catalog.
pub proof fn lemma_detail_selectors()
    ensures
        compiled_detail_selectors() matches Ok(sel) ==> sel.is_catalog(),
{
    let all = detail_results();
    lemma_no_error(all);
    if first_error(all) is None {
        assert(all[0] is Ok && all[1] is Ok && all[2] is Ok && all[3] is Ok && all[4] is Ok
            && all[5] is Ok && all[6] is Ok && all[7] is Ok);
        lemma_catalog_selector(6);
        lemma_catalog_selector(7);
        lemma_catalog_selector(8);
        lemma_catalog_selector(9);
        lemma_catalog_selector(10);
        lemma_catalog_selector(5);
        lemma_catalog_selector(11);
        lemma_catalog_selector(13);
        lemma_catalog_selector(12);
        lemma_catalog_selector(14);
        lemma_catalog_selector(15);
    }
}

/// The text nodes of the first element of `found`.
pub open spec fn first_texts_in(found: Seq<scraper::ElementRef<'static>>) -> Option<
    Seq<Seq<char>>,
> {
    if found.len() > 0 {
        Some(element_texts(found[0]))
    } else {
        None
    }
}

/// The text nodes of each element of `found`.
pub open spec fn texts_of_each(found: Seq<scraper::ElementRef<'static>>) -> Seq<Seq<Seq<char>>> {
    Seq::new(found.len(), |i: int| element_texts(found[i]))
}

/// What the two selectors of a related item find in `item`.
pub open spec fn raw_related(
    item: scraper::ElementRef<'static>,
    title: scraper::Selector,
    poster: scraper::Selector,
) -> RawRelatedView {
    RawRelatedView {
        title: first_anchor_in(element_matches(item, title)),
        poster_src: first_attribute_in(element_matches(item, poster), "src"@),
    }
}

/// The raw records of the related items `items`; none where one of the two
/// selectors is missing.
pub open spec fn raw_related_items(
    items: Seq<scraper::ElementRef<'static>>,
    sel: DetailSelectors,
) -> Seq<RawRelatedView> {
    match (sel.related_title, sel.related_poster) {
        (Some(title), Some(poster)) => Seq::new(
            items.len(),
            |i: int| raw_related(items[i], title, poster),
        ),
        _ => Seq::empty(),
    }
}

/// The first text node of each cast entry; none where the cast selector is
/// missing.
pub open spec fn raw_cast(doc: scraper::Html, sel: DetailSelectors) -> Seq<Option<Seq<char>>> {
    match sel.cast {
        Some(cast) => first_texts_of(document_matches(doc, cast)),
        None => Seq::empty(),
    }
}

/// The raw record of a movie's page.
pub open spec fn raw_detail(doc: scraper::Html, sel: DetailSelectors) -> RawDetailPageView {
    RawDetailPageView {
        title_text: first_text_in(document_matches(doc, sel.title)),
        poster_src: first_attribute_in(document_matches(doc, sel.poster), "src"@),
        description: first_texts_in(document_matches(doc, sel.description)),
        rating_text: first_text_in(document_matches(doc, sel.rating)),
        watch_src: first_attribute_in(document_matches(doc, sel.frame), "src"@),
        meta: texts_of_each(document_matches(doc, sel.meta)),
        genre_texts: first_texts_of(document_matches(doc, sel.genre)),
        actor_texts: raw_cast(doc, sel),
        related: raw_related_items(document_matches(doc, sel.related), sel),
    }
}

/// Compiles a selector that a page can be read without.
pub fn optional_selector(css: &str) -> (r: Option<scraper::Selector>)
    ensures
        r == compiled_if_any(css@),
{
    match compile_selector(css) {
        Ok(selector) => Some(selector),
        Err(_) => None,
    }
}

/// Compiles the selectors of a movie's page: those of `detail_results` in
/// their order, up to the first that does not compile, then the three that
/// the page can be read without.
pub fn detail_selectors() -> (r: Result<DetailSelectors, AppError>)
    ensures
        match compiled_detail_selectors() {
            Ok(sel) => r == Ok::<DetailSelectors, AppError>(sel),
            Err(e) => r matches Err(AppError::ExtractionError(m)) && m@ == selector_error_text(e),
        },
{
    let ghost all = detail_results();
    let title = match require_selector(DETAIL_TITLE) {
        Ok(s) => s,
        Err(e) => {
            proof {
                lemma_first_error(all, 0);
            }
            return Err(e);
        },
    };
    let poster = match require_selector(DETAIL_POSTER) {
        Ok(s) => s,
        Err(e) => {
            proof {
                lemma_first_error(all, 1);
            }
            return Err(e);
        },
    };
    let description = match require_selector(DETAIL_DESCRIPTION) {
        Ok(s) => s,
        Err(e) => {
            proof {
                lemma_first_error(all, 2);
            }
            return Err(e);
        },
    };
    let rating = match require_selector(DETAIL_RATING) {
        Ok(s) => s,
        Err(e) => {
            proof {
                lemma_first_error(all, 3);
            }
            return Err(e);
        },
    };
    let meta = match require_selector(DETAIL_META) {
        Ok(s) => s,
        Err(e) => {
            proof {
                lemma_first_error(all, 4);
            }
            return Err(e);
        },
    };
    let genre = match require_selector(GENRE_TAGS) {
        Ok(s) => s,
        Err(e) => {
            proof {
                lemma_first_error(all, 5);
            }
            return Err(e);
        },
    };
    let frame = match require_selector(DETAIL_FRAME) {
        Ok(s) => s,
        Err(e) => {
            proof {
                lemma_first_error(all, 6);
            }
            return Err(e);
        },
    };
    let related = match require_selector(DETAIL_RELATED) {
        Ok(s) => s,
        Err(e) => {
            proof {
                lemma_first_error(all, 7);
            }
            return Err(e);
        },
    };
    proof {
        lemma_first_error(all, 8);
    }
    Ok(
        DetailSelectors {
            title,
            poster,
            description,
            rating,
            meta,
            genre,
            frame,
            related,
            cast: optional_selector(DETAIL_CAST),
            related_title: optional_selector(RELATED_TITLE),
            related_poster: optional_selector(RELATED_POSTER),
        },
    )
}

/// The text nodes of the first element of `found`.
fn find_first_texts<'a>(found: &Vec<scraper::ElementRef<'a>>) -> (r: Option<Vec<String>>)
    ensures
        r.deep_view() == first_texts_in(found@),
{
    if found.len() > 0 {
        Some(texts_of(&found[0]))
    } else {
        None
    }
}

/// The text nodes of each element of `found`.
fn collect_texts<'a>(found: &Vec<scraper::ElementRef<'a>>) -> (r: Vec<Vec<String>>)
    ensures
        r.deep_view() == texts_of_each(found@),
{
    let mut r: Vec<Vec<String>> = Vec::new();
    let mut i: usize = 0;
    while i < found.len()
        invariant
            i <= found.len(),
            r.len() == i,
            forall|j: int| 0 <= j < i ==> r@[j].deep_view() == element_texts(found@[j]),
        decreases found.len() - i,
    {
        r.push(texts_of(&found[i]));
        i += 1;
    }
    assert(r.deep_view() =~= texts_of_each(found@));
    r
}

/// What the two selectors of a related item find in one item.
fn collect_related<'a>(
    item: &scraper::ElementRef<'a>,
    title: &scraper::Selector,
    poster: &scraper::Selector,
) -> (r: RawRelated)
    requires
        is_catalog_selector(*title),
        is_catalog_selector(*poster),
    ensures
        r.deep_view() == raw_related(*item, *title, *poster),
{
    let titles = select_in_element(item, title);
    let posters = select_in_element(item, poster);
    RawRelated {
        title: find_first_anchor(&titles),
        poster_src: find_first_attribute(&posters, "src"),
    }
}

/// The raw records of the related items.
fn collect_related_items<'a>(items: &Vec<scraper::ElementRef<'a>>, sel: &DetailSelectors) -> (r:
    Vec<RawRelated>)
    requires
        sel.is_catalog(),
    ensures
        r.deep_view() == raw_related_items(items@, *sel),
{
    let mut related: Vec<RawRelated> = Vec::new();
    match (&sel.related_title, &sel.related_poster) {
        (Some(title), Some(poster)) => {
            let mut i: usize = 0;
            while i < items.len()
                invariant
                    i <= items.len(),
                    related.len() == i,
                    is_catalog_selector(*title),
                    is_catalog_selector(*poster),
                    forall|j: int|
                        0 <= j < i ==> related@[j].deep_view() == raw_related(
                            items@[j],
                            *title,
                            *poster,
                        ),
                decreases items.len() - i,
            {
                related.push(collect_related(&items[i], title, poster));
                i += 1;
            }
            assert(related.deep_view() =~= raw_related_items(items@, *sel));
        },
        _ => {
            assert(related.deep_view() =~= raw_related_items(items@, *sel));
        },
    }
    related
}

/// The first text node of each cast entry.
fn collect_cast(doc: &scraper::Html, sel: &DetailSelectors) -> (r: Vec<Option<String>>)
    requires
        sel.is_catalog(),
    ensures
        r.deep_view() == raw_cast(*doc, *sel),
{
    match &sel.cast {
        Some(cast) => {
            let entries = select_in_document(doc, cast);
            collect_first_texts(&entries)
        },
        None => {
            let r: Vec<Option<String>> = Vec::new();
            assert(r.deep_view() =~= raw_cast(*doc, *sel));
            r
        },
    }
}

/// The raw record of a movie's page, for the selectors of the catalog.
pub fn collect_detail(doc: &scraper::Html, sel: &DetailSelectors) -> (r: RawDetailPage)
    requires
        sel.is_catalog(),
    ensures
        r.deep_view() == raw_detail(*doc, *sel),
{
    let titles = select_in_document(doc, &sel.title);
    let posters = select_in_document(doc, &sel.poster);
    let descriptions = select_in_document(doc, &sel.description);
    let ratings = select_in_document(doc, &sel.rating);
    let frames = select_in_document(doc, &sel.frame);
    let blocks = select_in_document(doc, &sel.meta);
    let genres = select_in_document(doc, &sel.genre);
    let items = select_in_document(doc, &sel.related);
    RawDetailPage {
        title_text: find_first_text(&titles),
        poster_src: find_first_attribute(&posters, "src"),
        description: find_first_texts(&descriptions),
        rating_text: find_first_text(&ratings),
        watch_src: find_first_attribute(&frames, "src"),
        meta: collect_texts(&blocks),
        genre_texts: collect_first_texts(&genres),
        actor_texts: collect_cast(doc, sel),
        related: collect_related_items(&items, sel),
    }
}

/// What extraction gives for a movie's page with the text `html`, asked
/// for as `movie_id` at `url`: the movie, or the words of the extraction
/// error. A page that is too large is refused before anything else; then
/// the selectors must compile without which the page cannot be read.
pub open spec fn detail_outcome(html: Seq<char>, movie_id: Seq<char>, url: Seq<char>) -> Result<
    MovieDetailView,
    Seq<char>,
> {
    if !page_fits(html) {
        Err(PAGE_TOO_LARGE@)
    } else {
        match compiled_detail_selectors() {
            Ok(sel) => Ok(detail_of(raw_detail(parsed_document(html), sel), movie_id, url)),
            Err(e) => Err(selector_error_text(e)),
        }
    }
}

/// Extracts a movie from its page. `movie_id` and `url` are those under
/// which the page was asked for.
///
/// Fails only for a page of more than `MAX_PAGE_BYTES` bytes and when one
/// of the selectors does not compile without which the page cannot be
/// read. Whatever the page lacks is absent in the result; in particular a
/// page without an inline frame has no watch address.
pub fn parse_movie_detail(html: &str, movie_id: &str, url: &str) -> (r: Result<
    MovieDetail,
    AppError,
>)
    ensures
        match detail_outcome(html@, movie_id@, url@) {
            Ok(detail) => r matches Ok(found) && found.deep_view() == detail,
            Err(words) => r matches Err(AppError::ExtractionError(m)) && m@ == words,
        },
{
    if !fits(html) {
        return Err(AppError::ExtractionError(String::from_str(PAGE_TOO_LARGE)));
    }
    match detail_selectors() {
        Ok(sel) => {
            proof {
                lemma_detail_selectors();
            }
            let doc = parse_document(html);
            let raw = collect_detail(&doc, &sel);
            Ok(detail_from_raw(&raw, movie_id, url))
        },
        Err(e) => Err(e),
    }
}

/// On a listing page, an item container in which the rating selector finds
/// nothing has no rating text, and the movie made of it has no rating.
pub proof fn law_item_without_badge(doc: scraper::Html, sel: ListingSelectors, i: int)
    requires
        0 <= i < document_matches(doc, sel.item).len(),
        element_matches(document_matches(doc, sel.item)[i], sel.rating).len() == 0,
    ensures
        raw_listing(doc, sel)[i].rating_text is None,
        crate::rules::movie_of(raw_listing(doc, sel)[i]) matches Some(m) ==> m.rating is None,
{
}

/// On a movie's page on which the frame selector finds nothing, the raw
/// record has no watch address, and neither has the movie made of it.
pub proof fn law_page_without_frame(
    doc: scraper::Html,
    sel: DetailSelectors,
    movie_id: Seq<char>,
    url: Seq<char>,
)
    requires
        document_matches(doc, sel.frame).len() == 0,
    ensures
        raw_detail(doc, sel).watch_src is None,
        detail_of(raw_detail(doc, sel), movie_id, url).watch_url is None,
{
}

} // verus!
