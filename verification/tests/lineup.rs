use art_display::aic::{
    collect_aic, default_iiif_url, fetch_aic_artwork, normalize_aic, AicArtwork, AicConfig,
    AicSearch, AicSearchResponse,
};
use art_display::candidate::Candidate;
use art_display::cma::{
    collect_cma, fetch_cma_artwork, normalize_cma, CmaArtwork, CmaCreator, CmaImageVariant,
    CmaImages, CmaSearch, CmaSearchResponse,
};
use art_display::http::{ImageReply, JsonReply};
use art_display::image::data_uri;
use art_display::lineup::{Lineup, LineupDownload, LineupStep};
use art_display::FetchError;

fn candidate(n: usize) -> Candidate {
    Candidate {
        id: format!("aic-{n}"),
        title: format!("Work {n}"),
        artist: "Unknown Artist".to_string(),
        date: String::new(),
        medium: String::new(),
        source: "Art Institute of Chicago".to_string(),
        image_url: format!("https://www.artic.edu/iiif/2/img{n}/full/843,/0/default.jpg"),
    }
}

fn lineup(n: usize) -> Lineup {
    Lineup {
        candidates: (0..n).map(candidate).collect(),
        exhausted: "Could not find AIC artwork with valid image".to_string(),
    }
}

fn good() -> ImageReply {
    ImageReply::Response { status: 200, content_type: "image/jpeg".to_string(), body: vec![9u8; 1500] }
}

fn bad() -> ImageReply {
    ImageReply::Response { status: 200, content_type: "image/jpeg".to_string(), body: vec![9u8; 10] }
}

fn ids(download: &LineupDownload) -> Vec<String> {
    let mut all = vec![download.current.id.clone()];
    all.extend(download.rest.iter().map(|c| c.id.clone()));
    all
}

#[test]
fn lineup_start_tries_the_first_five_in_order() {
    match lineup(8).start() {
        LineupStep::Download(download) => {
            assert_eq!(ids(&download), vec!["aic-0", "aic-1", "aic-2", "aic-3", "aic-4"]);
            assert_eq!(download.exhausted, "Could not find AIC artwork with valid image");
        }
        other => panic!("unexpected {other:?}"),
    }
    match lineup(3).start() {
        LineupStep::Download(download) => {
            assert_eq!(ids(&download), vec!["aic-0", "aic-1", "aic-2"]);
        }
        other => panic!("unexpected {other:?}"),
    }
}

#[test]
fn lineup_without_candidates_gives_up() {
    match lineup(0).start() {
        LineupStep::Done(Err(FetchError::NoValidImage(m))) => {
            assert_eq!(m, "Could not find AIC artwork with valid image")
        }
        other => panic!("unexpected {other:?}"),
    }
}

#[test]
fn lineup_shuffled_keeps_the_candidates() {
    let mut orders = std::collections::HashSet::new();
    for _ in 0..100 {
        match lineup(5).shuffled() {
            LineupStep::Download(download) => {
                let order = ids(&download);
                let mut sorted = order.clone();
                sorted.sort();
                assert_eq!(sorted, vec!["aic-0", "aic-1", "aic-2", "aic-3", "aic-4"]);
                orders.insert(order);
            }
            other => panic!("unexpected {other:?}"),
        }
    }
    assert!(orders.len() > 1);
}

#[test]
fn lineup_shuffled_tries_five_different_candidates() {
    for _ in 0..100 {
        match lineup(12).shuffled() {
            LineupStep::Download(download) => {
                let order = ids(&download);
                assert_eq!(order.len(), 5);
                let distinct: std::collections::HashSet<&String> = order.iter().collect();
                assert_eq!(distinct.len(), 5);
                for id in &order {
                    let n: usize = id.strip_prefix("aic-").unwrap().parse().unwrap();
                    assert!(n < 12);
                }
            }
            other => panic!("unexpected {other:?}"),
        }
    }
}

#[test]
fn lineup_first_valid_image_wins() {
    let mut step = lineup(4).start();
    let mut downloads = 0;
    let artwork = loop {
        step = match step {
            LineupStep::Shuffle(lineup) => lineup.start(),
            LineupStep::Download(download) => {
                downloads += 1;
                assert_eq!(download.request().url, download.current.image_url);
                assert_eq!(download.request().headers.len(), 1);
                if downloads < 3 {
                    download.image_done(bad())
                } else {
                    download.image_done(good())
                }
            }
            LineupStep::Done(result) => break result.unwrap(),
        };
    };
    assert_eq!(downloads, 3);
    assert_eq!(artwork.id, "aic-2");
    assert_eq!(artwork.title, "Work 2");
    assert_eq!(artwork.source, "Art Institute of Chicago");
    assert_eq!(artwork.image_base64, data_uri("image/jpeg", &vec![9u8; 1500]));
}

#[test]
fn lineup_gives_up_after_five_attempts() {
    let mut step = LineupStep::Shuffle(lineup(9));
    let mut downloads = 0;
    let error = loop {
        step = match step {
            LineupStep::Shuffle(lineup) => lineup.shuffled(),
            LineupStep::Download(download) => {
                downloads += 1;
                download.image_done(ImageReply::Unreachable)
            }
            LineupStep::Done(result) => break result.unwrap_err(),
        };
    };
    assert_eq!(downloads, 5);
    assert!(matches!(error, FetchError::NoValidImage(_)));
    assert_eq!(error.message(), "Could not find AIC artwork with valid image");
}

fn aic_record(id: u64, image_id: Option<&str>) -> AicArtwork {
    AicArtwork {
        id,
        title: Some("Nighthawks <em>(study)</em>".to_string()),
        artist_display: Some("Edward Hopper\nAmerican, 1882–1967".to_string()),
        date_display: Some("1942".to_string()),
        medium_display: Some("Oil on canvas".to_string()),
        image_id: image_id.map(String::from),
    }
}

fn aic_search() -> AicSearch {
    AicSearch { term: "modern".to_string(), page: 3 }
}

#[test]
fn default_iiif_url_value() {
    assert_eq!(default_iiif_url(), "https://www.artic.edu/iiif/2");
}

#[test]
fn aic_search_draws_term_and_page() {
    let terms = [
        "painting", "landscape", "impressionist", "modern", "watercolor", "oil", "portrait",
        "nature", "classical", "abstract",
    ];
    let mut pages = std::collections::HashSet::new();
    for _ in 0..400 {
        let search = fetch_aic_artwork();
        assert!(terms.contains(&search.term.as_str()));
        assert!((1..=5).contains(&search.page));
        pages.insert(search.page);
    }
    assert_eq!(pages.len(), 5);
}

#[test]
fn aic_search_request() {
    let request = aic_search().request();
    assert_eq!(request.url, "https://api.artic.edu/api/v1/artworks/search");
    let query: Vec<(&str, &str)> =
        request.query.iter().map(|p| (p.name.as_str(), p.value.as_str())).collect();
    assert_eq!(
        query,
        vec![
            ("q", "modern"),
            ("fields", "id,title,artist_display,date_display,medium_display,image_id"),
            ("limit", "20"),
            ("page", "3"),
        ]
    );
    let headers: Vec<(&str, &str)> =
        request.headers.iter().map(|p| (p.name.as_str(), p.value.as_str())).collect();
    assert_eq!(headers, vec![("AIC-User-Agent", "ArtDisplay/0.1 (Desktop Art Viewer)")]);
}

#[test]
fn aic_candidate_is_normalized() {
    let candidate = normalize_aic(aic_record(27992, Some("abc-123")), "https://www.artic.edu/iiif/2").unwrap();
    assert_eq!(candidate.id, "aic-27992");
    assert_eq!(candidate.title, "Nighthawks (study)");
    assert_eq!(candidate.artist, "Edward Hopper\nAmerican, 1882–1967");
    assert_eq!(candidate.date, "1942");
    assert_eq!(candidate.medium, "Oil on canvas");
    assert_eq!(candidate.source, "Art Institute of Chicago");
    assert_eq!(candidate.image_url, "https://www.artic.edu/iiif/2/abc-123/full/843,/0/default.jpg");

    let bare = AicArtwork {
        id: 5,
        title: None,
        artist_display: None,
        date_display: None,
        medium_display: None,
        image_id: Some(String::new()),
    };
    let candidate = normalize_aic(bare, "").unwrap();
    assert_eq!(candidate.title, "Untitled");
    assert_eq!(candidate.artist, "Unknown Artist");
    assert_eq!(candidate.date, "");
    assert_eq!(candidate.medium, "");
    assert_eq!(candidate.image_url, "//full/843,/0/default.jpg");

    // an artist that is given as empty text stays empty
    let unnamed = AicArtwork { artist_display: Some(String::new()), ..aic_record(1, Some("i")) };
    assert_eq!(normalize_aic(unnamed, "u").unwrap().artist, "");
    assert!(normalize_aic(aic_record(1, None), "u").is_none());
}

#[test]
fn aic_records_without_image_are_left_out() {
    let records = vec![
        aic_record(1, Some("a")),
        aic_record(2, None),
        aic_record(3, Some("c")),
        aic_record(4, None),
    ];
    let candidates = collect_aic(records, "https://h");
    let ids: Vec<&str> = candidates.iter().map(|c| c.id.as_str()).collect();
    assert_eq!(ids, vec!["aic-1", "aic-3"]);
    assert_eq!(candidates[1].image_url, "https://h/c/full/843,/0/default.jpg");
}

#[test]
fn aic_search_outcomes() {
    let config = || AicConfig { iiif_url: default_iiif_url() };
    match aic_search().search_done(JsonReply::Unreachable("timed out".to_string())) {
        LineupStep::Done(Err(FetchError::Network(m))) => assert_eq!(m, "AIC search failed: timed out"),
        other => panic!("unexpected {other:?}"),
    }
    match aic_search().search_done(JsonReply::Response(200, Err("EOF".to_string()))) {
        LineupStep::Done(Err(FetchError::Parse(m))) => assert_eq!(m, "AIC parse failed: EOF"),
        other => panic!("unexpected {other:?}"),
    }
    match aic_search().search_done(JsonReply::Response(
        404,
        Ok(AicSearchResponse { data: vec![aic_record(1, Some("a"))], config: config() }),
    )) {
        LineupStep::Done(Err(FetchError::Network(m))) => assert_eq!(m, "AIC search failed: HTTP status 404"),
        other => panic!("unexpected {other:?}"),
    }
    let none = AicSearchResponse { data: vec![aic_record(1, None)], config: config() };
    match aic_search().search_done(JsonReply::Response(200, Ok(none))) {
        LineupStep::Done(Err(FetchError::NoResults(m))) => assert_eq!(m, "No AIC artworks with images"),
        other => panic!("unexpected {other:?}"),
    }
    let some = AicSearchResponse {
        data: vec![aic_record(1, Some("a")), aic_record(2, None), aic_record(3, Some("c"))],
        config: config(),
    };
    match aic_search().search_done(JsonReply::Response(200, Ok(some))) {
        LineupStep::Shuffle(lineup) => {
            let ids: Vec<&str> = lineup.candidates.iter().map(|c| c.id.as_str()).collect();
            assert_eq!(ids, vec!["aic-1", "aic-3"]);
            assert_eq!(lineup.exhausted, "Could not find AIC artwork with valid image");
            assert_eq!(
                lineup.candidates[0].image_url,
                "https://www.artic.edu/iiif/2/a/full/843,/0/default.jpg"
            );
        }
        other => panic!("unexpected {other:?}"),
    }
}

fn cma_record(id: u64, url: Option<&str>) -> CmaArtwork {
    CmaArtwork {
        id,
        title: Some("The <b>Red</b> Kerchief".to_string()),
        creators: vec![
            CmaCreator { description: Some("Camille Pissarro (French, 1830–1903)".to_string()) },
            CmaCreator { description: Some("someone else".to_string()) },
        ],
        creation_date: Some("c. 1868–73".to_string()),
        technique: Some("oil on fabric".to_string()),
        images: Some(CmaImages { web: Some(CmaImageVariant { url: url.map(String::from) }) }),
    }
}

fn cma_search() -> CmaSearch {
    CmaSearch { term: "still life".to_string(), skip: 42 }
}

#[test]
fn cma_search_draws_term_and_offset() {
    let terms = [
        "painting", "landscape", "portrait", "impressionist", "modern", "still life", "abstract",
        "nature", "classical", "oil",
    ];
    let mut offsets = std::collections::HashSet::new();
    for _ in 0..400 {
        let search = fetch_cma_artwork();
        assert!(terms.contains(&search.term.as_str()));
        assert!(search.skip < 100);
        offsets.insert(search.skip);
    }
    assert!(offsets.len() > 5);
}

#[test]
fn cma_search_request() {
    let request = cma_search().request();
    assert_eq!(request.url, "https://openaccess-api.clevelandart.org/api/artworks/");
    let query: Vec<(&str, &str)> =
        request.query.iter().map(|p| (p.name.as_str(), p.value.as_str())).collect();
    assert_eq!(
        query,
        vec![
            ("q", "still life"),
            ("has_image", "1"),
            ("cc0", "1"),
            ("type", "Painting"),
            ("limit", "20"),
            ("skip", "42"),
        ]
    );
    assert!(request.headers.is_empty());
    assert_eq!((CmaSearch { term: "oil".to_string(), skip: 0 }).request().query[5].value, "0");
}

#[test]
fn cma_candidate_is_normalized() {
    let candidate = normalize_cma(cma_record(135382, Some("https://openaccess-cdn.clevelandart.org/1.jpg"))).unwrap();
    assert_eq!(candidate.id, "cma-135382");
    assert_eq!(candidate.title, "The Red Kerchief");
    assert_eq!(candidate.artist, "Camille Pissarro (French, 1830–1903)");
    assert_eq!(candidate.date, "c. 1868–73");
    assert_eq!(candidate.medium, "oil on fabric");
    assert_eq!(candidate.source, "Cleveland Museum of Art");
    assert_eq!(candidate.image_url, "https://openaccess-cdn.clevelandart.org/1.jpg");

    let bare = CmaArtwork {
        id: 1,
        title: None,
        creators: Vec::new(),
        creation_date: None,
        technique: None,
        images: Some(CmaImages { web: Some(CmaImageVariant { url: Some("u".to_string()) }) }),
    };
    let candidate = normalize_cma(bare).unwrap();
    assert_eq!(candidate.title, "Untitled");
    assert_eq!(candidate.artist, "Unknown Artist");
    assert_eq!(candidate.date, "");
    assert_eq!(candidate.medium, "");

    let undescribed = CmaArtwork {
        creators: vec![
            CmaCreator { description: None },
            CmaCreator { description: Some("second".to_string()) },
        ],
        ..cma_record(2, Some("u"))
    };
    assert_eq!(normalize_cma(undescribed).unwrap().artist, "Unknown Artist");
}

#[test]
fn cma_records_without_image_address_are_left_out() {
    assert!(normalize_cma(cma_record(1, None)).is_none());
    assert!(normalize_cma(cma_record(1, Some(""))).is_none());
    assert!(normalize_cma(CmaArtwork { images: None, ..cma_record(1, Some("u")) }).is_none());
    assert!(normalize_cma(CmaArtwork {
        images: Some(CmaImages { web: None }),
        ..cma_record(1, Some("u"))
    })
    .is_none());
    let records = vec![
        cma_record(1, Some("")),
        cma_record(2, Some("https://x/2.jpg")),
        cma_record(3, None),
        cma_record(4, Some("https://x/4.jpg")),
    ];
    let ids: Vec<String> = collect_cma(records).into_iter().map(|c| c.id).collect();
    assert_eq!(ids, vec!["cma-2", "cma-4"]);
}

#[test]
fn cma_search_outcomes() {
    match cma_search().search_done(JsonReply::Unreachable("dns".to_string())) {
        LineupStep::Done(Err(FetchError::Network(m))) => assert_eq!(m, "CMA search failed: dns"),
        other => panic!("unexpected {other:?}"),
    }
    match cma_search().search_done(JsonReply::Response(200, Err("missing field `data`".to_string()))) {
        LineupStep::Done(Err(FetchError::Parse(m))) => {
            assert_eq!(m, "CMA parse failed: missing field `data`")
        }
        other => panic!("unexpected {other:?}"),
    }
    match cma_search().search_done(JsonReply::Response(500, Err("x".to_string()))) {
        LineupStep::Done(Err(FetchError::Network(m))) => assert_eq!(m, "CMA search failed: HTTP status 500"),
        other => panic!("unexpected {other:?}"),
    }
    match cma_search().search_done(JsonReply::Response(200, Ok(CmaSearchResponse { data: Vec::new() }))) {
        LineupStep::Done(Err(FetchError::NoResults(m))) => assert_eq!(m, "No CMA artworks with images"),
        other => panic!("unexpected {other:?}"),
    }
    let some = CmaSearchResponse { data: vec![cma_record(1, None), cma_record(2, Some("https://x/2.jpg"))] };
    match cma_search().search_done(JsonReply::Response(200, Ok(some))) {
        LineupStep::Shuffle(lineup) => {
            assert_eq!(lineup.candidates.len(), 1);
            assert_eq!(lineup.candidates[0].id, "cma-2");
            assert_eq!(lineup.exhausted, "Could not find CMA artwork with valid image");
            match lineup.shuffled() {
                LineupStep::Download(download) => {
                    assert!(download.request().headers.is_empty());
                    match download.image_done(bad()) {
                        LineupStep::Done(Err(e)) => {
                            assert_eq!(e.message(), "Could not find CMA artwork with valid image")
                        }
                        other => panic!("unexpected {other:?}"),
                    }
                }
                other => panic!("unexpected {other:?}"),
            }
        }
        other => panic!("unexpected {other:?}"),
    }
}
