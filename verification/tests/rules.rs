use filmapik::models::Rating;
use filmapik::rules::{
    collect_names, detail_from_raw, movie_from_raw, movies_from_raw, rating_from_text, read_block,
    read_meta, read_rating, related_from_raw, text_of_block, trim_opt_text, trim_text,
    year_from_title, MetaFields, RawAnchor, RawDetailPage, RawListingItem, RawRelated,
};

fn chars(s: &str) -> Vec<char> {
    s.chars().collect()
}

fn some(s: &str) -> Option<String> {
    Some(s.to_string())
}

fn anchor(title: &str, href: &str) -> Option<RawAnchor> {
    Some(RawAnchor { text: some(title), href: some(href) })
}

fn item(title: &str, href: &str) -> RawListingItem {
    RawListingItem {
        title: anchor(title, href),
        poster_src: None,
        rating_text: None,
        quality_text: None,
        genre_texts: Vec::new(),
    }
}

fn no_fields() -> MetaFields {
    MetaFields {
        views: None,
        quality: None,
        year: None,
        duration: None,
        country: None,
        release_date: None,
        language: None,
        director: None,
    }
}

fn empty_page() -> RawDetailPage {
    RawDetailPage {
        title_text: None,
        poster_src: None,
        description: None,
        rating_text: None,
        watch_src: None,
        meta: Vec::new(),
        genre_texts: Vec::new(),
        actor_texts: Vec::new(),
        related: Vec::new(),
    }
}

#[test]
fn title_with_year_and_address_give_id_and_year() {
    let movie = movie_from_raw(&item("Inception (2010)", "http://origin.test/inception-2010/"))
        .expect("an item with a title anchor is a movie");
    assert_eq!(movie.id, "inception-2010");
    assert_eq!(movie.year, Some(2010));
    assert_eq!(movie.title, "Inception (2010)");
    assert_eq!(movie.url, "http://origin.test/inception-2010/");
}

#[test]
fn item_without_rating_badge_has_no_rating() {
    let movie = movie_from_raw(&item("Heat (1995)", "/heat-1995/")).unwrap();
    assert_eq!(movie.rating, None);
    assert_ne!(movie.rating, Some(Rating { mantissa: 0, scale: 0 }));
}

#[test]
fn item_without_title_anchor_is_no_movie() {
    let mut raw = item("x", "/x/");
    raw.title = None;
    raw.rating_text = some("7.0");
    assert_eq!(movie_from_raw(&raw), None);
}

#[test]
fn missing_pieces_leave_fields_absent_or_empty() {
    let raw = RawListingItem {
        title: Some(RawAnchor { text: None, href: None }),
        poster_src: None,
        rating_text: None,
        quality_text: None,
        genre_texts: vec![None],
    };
    let movie = movie_from_raw(&raw).unwrap();
    assert_eq!(movie.id, "");
    assert_eq!(movie.title, "");
    assert_eq!(movie.poster, "");
    assert_eq!(movie.url, "");
    assert_eq!(movie.year, None);
    assert_eq!(movie.rating, None);
    assert_eq!(movie.quality, None);
    assert!(movie.genres.is_empty());
}

#[test]
fn every_field_of_a_full_item() {
    let raw = RawListingItem {
        title: anchor("\n  The Matrix (1999)  ", "http://origin.test/the-matrix-1999/"),
        poster_src: some("http://img.test/matrix.jpg"),
        rating_text: some(" 8.7 "),
        quality_text: some(" HD "),
        genre_texts: vec![some("Action"), None, some("  Sci-Fi "), some("   ")],
    };
    let movie = movie_from_raw(&raw).unwrap();
    assert_eq!(movie.id, "the-matrix-1999");
    assert_eq!(movie.title, "The Matrix (1999)");
    assert_eq!(movie.poster, "http://img.test/matrix.jpg");
    assert_eq!(movie.year, Some(1999));
    assert_eq!(movie.rating, Some(Rating { mantissa: 87, scale: 1 }));
    assert_eq!(movie.quality, some("HD"));
    assert_eq!(movie.genres, vec!["Action".to_string(), "Sci-Fi".to_string(), "".to_string()]);
    assert_eq!(movie.url, "http://origin.test/the-matrix-1999/");
}

#[test]
fn listing_keeps_order_and_skips_items_without_title() {
    let mut second = item("b", "/b/");
    second.title = None;
    let raws = vec![item("a", "/a/"), second, item("c", "/c/")];
    let movies = movies_from_raw(&raws);
    let ids: Vec<&str> = movies.iter().map(|m| m.id.as_str()).collect();
    assert_eq!(ids, vec!["a", "c"]);
    assert!(movies_from_raw(&Vec::new()).is_empty());
}

#[test]
fn year_is_read_after_the_first_parenthesis() {
    let cases = [
        ("Inception (2010)", Some(2010)),
        ("Inception (2010))", Some(2010)),
        ("Inception", None),
        ("Inception (2010", Some(2010)),
        ("Inception (2010) (Extended)", None),
        ("Inception ( 2010)", None),
        ("Inception ()", None),
        ("(1999)", Some(1999)),
        ("Movie (-5)", Some(-5)),
        ("Movie (99999999999)", None),
    ];
    for (title, year) in cases {
        assert_eq!(year_from_title(&chars(title)), year, "{:?}", title);
    }
}

#[test]
fn rating_is_a_decimal_number_or_absent() {
    let cases = [
        ("7.5", Some(Rating { mantissa: 75, scale: 1 })),
        ("7", Some(Rating { mantissa: 7, scale: 0 })),
        ("7.", Some(Rating { mantissa: 7, scale: 0 })),
        (".5", Some(Rating { mantissa: 5, scale: 1 })),
        ("10.00", Some(Rating { mantissa: 1000, scale: 2 })),
        ("0.0", Some(Rating { mantissa: 0, scale: 1 })),
        ("0", Some(Rating { mantissa: 0, scale: 0 })),
        ("", None),
        (".", None),
        ("N/A", None),
        ("7,5", None),
        ("7.5.1", None),
        ("+8.5", Some(Rating { mantissa: 85, scale: 1 })),
        ("+8", Some(Rating { mantissa: 8, scale: 0 })),
        ("+.5", Some(Rating { mantissa: 5, scale: 1 })),
        ("+", None),
        ("++8", None),
        ("+-8", None),
        ("8+", None),
        ("-7.5", None),
        ("-0", None),
        ("8e0", None),
        ("1E1", None),
        ("inf", None),
        ("NaN", None),
        ("7.5 ", None),
        ("184467440737095516.15", Some(Rating { mantissa: u64::MAX, scale: 2 })),
        ("184467440737095516.16", None),
    ];
    for (text, rating) in cases {
        assert_eq!(read_rating(&chars(text)), rating, "{:?}", text);
    }
}

#[test]
fn rating_text_is_trimmed_before_it_is_read() {
    assert_eq!(rating_from_text(&some("\n 6.4\t")), Some(Rating { mantissa: 64, scale: 1 }));
    assert_eq!(rating_from_text(&some(" +9.1 ")), Some(Rating { mantissa: 91, scale: 1 }));
    assert_eq!(rating_from_text(&some("+ 9.1")), None);
    assert_eq!(rating_from_text(&some("  ")), None);
    assert_eq!(rating_from_text(&None), None);
}

#[test]
fn trimming_of_texts() {
    assert_eq!(trim_text("  HD \n"), "HD");
    assert_eq!(trim_opt_text(&some(" CAM ")), some("CAM"));
    assert_eq!(trim_opt_text(&None), None);
}

#[test]
fn names_leave_out_anchors_without_text() {
    let texts = vec![some(" Drama "), None, some(" "), some("Crime")];
    assert_eq!(
        collect_names(&texts, true),
        vec!["Drama".to_string(), "".to_string(), "Crime".to_string()]
    );
    assert_eq!(collect_names(&texts, false), vec!["Drama".to_string(), "Crime".to_string()]);
}

#[test]
fn block_text_joins_with_spaces_and_trims() {
    let texts = vec![" Kualitas:".to_string(), "HD".to_string(), "\n".to_string()];
    let joined: String = text_of_block(&texts).iter().collect();
    assert_eq!(joined, "Kualitas: HD");
}

#[test]
fn each_label_sets_its_field() {
    let cases: [(&str, fn(&MetaFields) -> bool); 9] = [
        ("Kualitas: HD", |f| f.quality.as_deref() == Some("HD")),
        ("Tahun: 2010", |f| f.year == Some(2010)),
        ("Tahun: soon", |f| f.year.is_none()),
        ("Durasi: 148 Min", |f| f.duration.as_deref() == Some("148 Min")),
        ("Negara: USA", |f| f.country.as_deref() == Some("USA")),
        ("Rilis: 16 Jul 2010", |f| f.release_date.as_deref() == Some("16 Jul 2010")),
        ("Bahasa: English", |f| f.language.as_deref() == Some("English")),
        ("Direksi: Christopher Nolan", |f| f.director.as_deref() == Some("Christopher Nolan")),
        ("Diposting pada 1 Jan 2024, dilihat 1,234,567", |f| f.views == Some(1234567)),
    ];
    for (text, check) in cases {
        let fields = read_block(no_fields(), &chars(text));
        assert!(check(&fields), "{:?} gave {:?}", text, fields);
    }
}

#[test]
fn a_label_takes_the_whole_remainder() {
    let fields = read_block(no_fields(), &chars("Durasi: 2:28:00"));
    assert_eq!(fields.duration.as_deref(), Some("2:28:00"));
    let fields = read_block(no_fields(), &chars("Kualitas:"));
    assert_eq!(fields.quality.as_deref(), Some(""));
}

#[test]
fn unknown_labels_change_nothing() {
    let before = read_block(no_fields(), &chars("Kualitas: HD"));
    for text in ["", "Sutradara: X", "kualitas: CAM", " Kualitas: CAM", "Diposting pada 1 Jan"] {
        assert_eq!(read_block(before.clone(), &chars(text)), before, "{:?}", text);
    }
}

#[test]
fn the_view_count_needs_both_words() {
    assert_eq!(read_block(no_fields(), &chars("dilihat 12")).views, None);
    assert_eq!(read_block(no_fields(), &chars("Diposting, dilihat 12")).views, Some(12));
    assert_eq!(read_block(no_fields(), &chars("Diposting, dilihat banyak")).views, None);
    let mut known = no_fields();
    known.views = Some(5);
    assert_eq!(read_block(known, &chars("Diposting, dilihat banyak")).views, None);
}

#[test]
fn later_blocks_override_earlier_ones() {
    let blocks = vec![
        vec!["Tahun: 2009".to_string()],
        vec!["Kualitas:".to_string(), "HD".to_string()],
        vec!["Tahun:".to_string(), "2010".to_string()],
        vec!["Sesuatu: lain".to_string()],
    ];
    let fields = read_meta(&blocks);
    assert_eq!(fields.year, Some(2010));
    assert_eq!(fields.quality.as_deref(), Some("HD"));
    assert_eq!(fields.duration, None);
    assert_eq!(read_meta(&Vec::new()), no_fields());
}

#[test]
fn related_item_needs_title_text_and_address() {
    let full = RawRelated { title: anchor(" Tenet ", "/tenet-2020/"), poster_src: some("/t.jpg") };
    let movie = related_from_raw(&full).unwrap();
    assert_eq!(movie.id, "tenet-2020");
    assert_eq!(movie.title, "Tenet");
    assert_eq!(movie.poster, "/t.jpg");
    assert_eq!(movie.url, "/tenet-2020/");
    assert_eq!(movie.year, None);
    assert_eq!(movie.rating, None);
    assert_eq!(movie.quality, None);
    assert!(movie.genres.is_empty());

    let no_text =
        RawRelated { title: Some(RawAnchor { text: None, href: some("/x/") }), poster_src: None };
    assert_eq!(related_from_raw(&no_text), None);
    let no_href =
        RawRelated { title: Some(RawAnchor { text: some("x"), href: None }), poster_src: None };
    assert_eq!(related_from_raw(&no_href), None);
    assert_eq!(related_from_raw(&RawRelated { title: None, poster_src: some("/p.jpg") }), None);
    let no_poster = RawRelated { title: anchor("x", "/x/"), poster_src: None };
    assert_eq!(related_from_raw(&no_poster).unwrap().poster, "");
}

#[test]
fn empty_page_gives_defaults() {
    let detail = detail_from_raw(&empty_page(), "inception-2010", "http://o.test/inception-2010/");
    assert_eq!(detail.id, "inception-2010");
    assert_eq!(detail.url, "http://o.test/inception-2010/");
    assert_eq!(detail.title, "Unknown Title");
    assert_eq!(detail.poster, "");
    assert_eq!(detail.rating, None);
    assert_eq!(detail.rating_count, None);
    assert_eq!(detail.description, None);
    assert_eq!(detail.views, None);
    assert_eq!(detail.quality, None);
    assert_eq!(detail.year, None);
    assert_eq!(detail.duration, None);
    assert_eq!(detail.country, None);
    assert_eq!(detail.release_date, None);
    assert_eq!(detail.language, None);
    assert_eq!(detail.director, None);
    assert_eq!(detail.watch_url, None);
    assert!(detail.genres.is_empty());
    assert!(detail.actors.is_empty());
    assert!(detail.related_movies.is_empty());
}

#[test]
fn full_page_gives_every_field() {
    let page = RawDetailPage {
        title_text: some(" Inception (2010) "),
        poster_src: some("/inception.jpg"),
        description: Some(vec![" A thief".to_string(), "steals secrets. ".to_string()]),
        rating_text: some(" 8.8 "),
        watch_src: some("https://embed.test/v/abc"),
        meta: vec![
            vec!["Diposting pada 1 Jan, dilihat 9,001".to_string()],
            vec!["Kualitas: ".to_string(), "HD".to_string()],
            vec!["Tahun: ".to_string(), "2010".to_string()],
            vec!["Durasi: 148 Min".to_string()],
            vec!["Negara: ".to_string(), "USA".to_string()],
            vec!["Rilis: 16 Jul 2010".to_string()],
            vec!["Bahasa: English".to_string()],
            vec!["Direksi: ".to_string(), "Christopher Nolan".to_string()],
        ],
        genre_texts: vec![some("Action"), some(" "), None, some("Thriller")],
        actor_texts: vec![some(" Leonardo DiCaprio "), some(""), some("Elliot Page")],
        related: vec![
            RawRelated { title: anchor("Tenet", "/tenet-2020/"), poster_src: None },
            RawRelated { title: None, poster_src: None },
        ],
    };
    let detail = detail_from_raw(&page, "inception-2010", "http://o.test/inception-2010/");
    assert_eq!(detail.title, "Inception (2010)");
    assert_eq!(detail.poster, "/inception.jpg");
    assert_eq!(detail.description.as_deref(), Some("A thief steals secrets."));
    assert_eq!(detail.rating, Some(Rating { mantissa: 88, scale: 1 }));
    assert_eq!(detail.rating_count, None);
    assert_eq!(detail.watch_url.as_deref(), Some("https://embed.test/v/abc"));
    assert_eq!(detail.views, Some(9001));
    assert_eq!(detail.quality.as_deref(), Some("HD"));
    assert_eq!(detail.year, Some(2010));
    assert_eq!(detail.duration.as_deref(), Some("148 Min"));
    assert_eq!(detail.country.as_deref(), Some("USA"));
    assert_eq!(detail.release_date.as_deref(), Some("16 Jul 2010"));
    assert_eq!(detail.language.as_deref(), Some("English"));
    assert_eq!(detail.director.as_deref(), Some("Christopher Nolan"));
    assert_eq!(detail.genres, vec!["Action".to_string(), "Thriller".to_string()]);
    assert_eq!(detail.actors, vec!["Leonardo DiCaprio".to_string(), "Elliot Page".to_string()]);
    assert_eq!(detail.related_movies.len(), 1);
    assert_eq!(detail.related_movies[0].id, "tenet-2020");
}

#[test]
fn page_without_frame_has_no_watch_address() {
    let mut page = empty_page();
    page.title_text = some("Heat (1995)");
    page.meta = vec![vec!["Kualitas: https://embed.test/v/abc".to_string()]];
    let detail = detail_from_raw(&page, "heat-1995", "http://o.test/heat-1995/");
    assert_eq!(detail.watch_url, None);
}
