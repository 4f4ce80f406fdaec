use art_display::candidate::{finish_download, reply_fits, Candidate};
use art_display::http::{status_is_success, ImageReply, USER_AGENT};
use art_display::image::{accepts_head, data_uri, request_image, validate_image, MIN_IMAGE_BYTES};

fn candidate() -> Candidate {
    Candidate {
        id: "cma-7".to_string(),
        title: "Twilight".to_string(),
        artist: "Unknown Artist".to_string(),
        date: "1890".to_string(),
        medium: "oil on canvas".to_string(),
        source: "Cleveland Museum of Art".to_string(),
        image_url: "https://example.org/7.jpg".to_string(),
    }
}

#[test]
fn body_of_999_bytes_is_rejected() {
    assert!(validate_image(200, "image/png", vec![0u8; 999]).is_none());
}

#[test]
fn body_of_1000_bytes_with_image_type_is_accepted() {
    let body: Vec<u8> = (0..1000).map(|i| (i % 251) as u8).collect();
    let (bytes, mime) = validate_image(200, "image/png", body.clone()).unwrap();
    assert_eq!(bytes, body);
    assert_eq!(mime, "image/png");
}

#[test]
fn body_with_text_type_is_rejected() {
    assert!(validate_image(200, "text/html", vec![0u8; 2000]).is_none());
}

#[test]
fn status_404_is_rejected_whatever_the_body() {
    assert!(validate_image(404, "image/png", vec![0u8; 2000]).is_none());
    assert!(validate_image(404, "image/png", Vec::new()).is_none());
    assert!(validate_image(404, "text/html", vec![0u8; 1000]).is_none());
}

#[test]
fn only_statuses_from_200_to_299_are_success() {
    for status in [0u16, 100, 199, 300, 301, 404, 500, u16::MAX] {
        assert!(!status_is_success(status));
        assert!(validate_image(status, "image/jpeg", vec![1u8; 1000]).is_none());
        assert!(!accepts_head(status, "image/jpeg"));
    }
    for status in [200u16, 201, 204, 299] {
        assert!(status_is_success(status));
        assert!(validate_image(status, "image/jpeg", vec![1u8; 1000]).is_some());
        assert!(accepts_head(status, "image/jpeg"));
    }
}

#[test]
fn content_type_has_to_begin_with_image() {
    for content_type in ["", "image", "Image/png", " image/png", "application/image/png"] {
        assert!(validate_image(200, content_type, vec![1u8; 5000]).is_none());
        assert!(!accepts_head(200, content_type));
    }
    assert!(validate_image(200, "image/", vec![1u8; 5000]).is_some());
}

#[test]
fn mime_type_loses_its_parameters() {
    let (_, mime) = validate_image(200, "image/jpeg; charset=binary", vec![1u8; 1000]).unwrap();
    assert_eq!(mime, "image/jpeg");
    let (_, mime) = validate_image(200, "image/svg+xml ;q=0.5;x=y", vec![1u8; 1000]).unwrap();
    assert_eq!(mime, "image/svg+xml");
}

#[test]
fn smallest_image_size() {
    assert_eq!(MIN_IMAGE_BYTES, 1000);
}

#[test]
fn data_uri_holds_mime_and_base64() {
    assert_eq!(data_uri("image/png", &b"hello".to_vec()), "data:image/png;base64,aGVsbG8=");
    assert_eq!(data_uri("image/jpeg", &Vec::new()), "data:image/jpeg;base64,");
    assert_eq!(data_uri("image/gif", &vec![0xff, 0xfe, 0xfd]), "data:image/gif;base64,//79");
    assert_eq!(data_uri("", &b"ab".to_vec()), "data:;base64,YWI=");
}

#[test]
fn image_request_tells_one_host_where_it_comes_from() {
    let request = request_image("https://www.artic.edu/iiif/2/abc/full/843,/0/default.jpg");
    assert_eq!(request.url, "https://www.artic.edu/iiif/2/abc/full/843,/0/default.jpg");
    assert!(request.query.is_empty());
    assert_eq!(request.headers.len(), 1);
    assert_eq!(request.headers[0].name, "Referer");
    assert_eq!(request.headers[0].value, "https://www.artic.edu/");

    let request = request_image("https://images.metmuseum.org/x.jpg");
    assert_eq!(request.url, "https://images.metmuseum.org/x.jpg");
    assert!(request.query.is_empty());
    assert!(request.headers.is_empty());
}

#[test]
fn client_identification() {
    assert_eq!(USER_AGENT, "ArtDisplay/0.1 (Desktop Art Viewer)");
}

#[test]
fn download_completes_the_candidate() {
    let body = vec![7u8; 1200];
    let reply = ImageReply::Response {
        status: 200,
        content_type: "image/webp; a=b".to_string(),
        body: body.clone(),
    };
    assert!(reply_fits(&reply));
    let artwork = finish_download(candidate(), reply).unwrap();
    assert_eq!(artwork.id, "cma-7");
    assert_eq!(artwork.title, "Twilight");
    assert_eq!(artwork.artist, "Unknown Artist");
    assert_eq!(artwork.date, "1890");
    assert_eq!(artwork.medium, "oil on canvas");
    assert_eq!(artwork.source, "Cleveland Museum of Art");
    assert_eq!(artwork.image_base64, data_uri("image/webp", &body));
    assert!(artwork.image_base64.starts_with("data:image/webp;base64,BwcH"));
}

#[test]
fn download_without_usable_image_gives_nothing() {
    assert!(finish_download(candidate(), ImageReply::Unreachable).is_none());
    let small = ImageReply::Response {
        status: 200,
        content_type: "image/png".to_string(),
        body: vec![0u8; 999],
    };
    assert!(finish_download(candidate(), small).is_none());
    let page = ImageReply::Response {
        status: 200,
        content_type: "text/html".to_string(),
        body: vec![0u8; 2000],
    };
    assert!(finish_download(candidate(), page).is_none());
    let missing = ImageReply::Response {
        status: 404,
        content_type: "image/png".to_string(),
        body: vec![0u8; 2000],
    };
    assert!(finish_download(candidate(), missing).is_none());
}

#[test]
fn every_reply_that_fits_in_memory_fits() {
    assert!(reply_fits(&ImageReply::Unreachable));
    let reply = ImageReply::Response {
        status: 500,
        content_type: String::new(),
        body: vec![0u8; 4097],
    };
    assert!(reply_fits(&reply));
}
