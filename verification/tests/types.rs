use midoku::types::{
    Chapter, ContentRating, Filter, FilterSort, FilterTitle, Manga, Page, ReadingMode, Status,
};

fn sample_manga() -> Manga {
    Manga {
        id: "m1".to_string(),
        title: "Title".to_string(),
        url: "https://example.invalid/m1".to_string(),
        description: "".to_string(),
        cover_url: "".to_string(),
        author_name: "Author".to_string(),
        artist_name: "Artist".to_string(),
        categories: vec!["action".to_string()],
        status: Status::Ongoing,
        content_rating: ContentRating::Safe,
        reading_mode: ReadingMode::RightToLeft,
    }
}

#[test]
fn manga_record_round_trip() {
    let manga = sample_manga();
    let copy = manga.clone();
    assert_eq!(copy, manga);
    assert_eq!(copy.status, Status::Ongoing);
    assert_ne!(copy.status, Status::Completed);
}

#[test]
fn chapter_carries_number_bits() {
    let chapter = Chapter {
        id: "c1".to_string(),
        title: "One".to_string(),
        volume: 0x3f800000, // bit pattern of 1.0f32
        chapter: 0x40000000, // bit pattern of 2.0f32
        date_updated: 1700000000,
        scanlator: "".to_string(),
        url: "".to_string(),
        language: "en".to_string(),
    };
    assert_eq!(f32::from_bits(chapter.volume), 1.0f32);
    assert_eq!(f32::from_bits(chapter.chapter), 2.0f32);
}

#[test]
fn page_and_filters() {
    let page = Page { index: 0, url: "https://example.invalid/p0".to_string(), base64: vec![] };
    assert_eq!(page.index, 0);

    let by_title = Filter::Title(FilterTitle { query: "solo".to_string() });
    let by_sort = Filter::Sort(FilterSort { option_index: 2, option_reversed: true });
    assert_ne!(by_title, by_sort);

    match by_title {
        Filter::Title(t) => assert_eq!(t.query, "solo"),
        Filter::Sort(_) => panic!("expected a title filter"),
    }
}
