use image_loader::loader::ImageCrateLoader;
use image_loader::outcome::{
    BytesLoadResult, BytesPoll, Color32, ColorImage, DecodeResult, ImageLoadResult, ImagePoll,
    LoadError, PointSize, SizeHint,
};
use std::cell::Cell;
use std::sync::Arc;

const POINTER: &[u8] = b"version https://git-lfs.github.com/spec/v1\noid sha256:4d7a\nsize 1\n";

fn image(width: usize, height: usize) -> ColorImage {
    ColorImage { size: [width, height], pixels: vec![Color32([9, 8, 7, 255]); width * height] }
}

fn ready(bytes: &[u8], mime: Option<&str>) -> BytesLoadResult {
    Ok(BytesPoll::Ready { bytes: bytes.to_vec(), mime: mime.map(|m| m.to_string()) })
}

fn format_not_supported(detected: &str) -> LoadError {
    LoadError::FormatNotSupported { detected_format: Some(detected.to_string()) }
}

/// Loads `uri` from a byte source that answers `fetched` and a decoder that
/// answers `decoded`, counting how often each is asked.
fn load_with(
    loader: &mut ImageCrateLoader,
    uri: &str,
    fetched: BytesLoadResult,
    decoded: DecodeResult,
    fetches: &Cell<u32>,
    decodes: &Cell<u32>,
) -> ImageLoadResult {
    loader.load(
        uri,
        SizeHint::default(),
        |_key: &str| {
            fetches.set(fetches.get() + 1);
            fetched
        },
        |_bytes: &[u8]| {
            decodes.set(decodes.get() + 1);
            decoded
        },
    )
}

fn unused_fetch() -> BytesLoadResult {
    Err(LoadError::Loading("the byte source must not be asked".to_string()))
}

fn unused_decode() -> DecodeResult {
    Err(LoadError::Loading("the decoder must not be asked".to_string()))
}

#[test]
fn loader_has_an_id() {
    let loader = ImageCrateLoader::new();
    assert_eq!(loader.id(), ImageCrateLoader::ID);
    assert_eq!(ImageCrateLoader::ID, "image_loader::loader::ImageCrateLoader");
}

#[test]
fn new_loader_is_empty() {
    let loader = ImageCrateLoader::default();
    assert_eq!(loader.byte_size(), 0);
    assert_eq!(loader.cached("file://a.png"), None);
}

#[test]
fn unreadable_local_file_is_refused_without_fetching() {
    let mut loader = ImageCrateLoader::new();
    let (fetches, decodes) = (Cell::new(0), Cell::new(0));
    for uri in ["file://test.svg", "file://notes.txt", "file://scan.tiff", "file://test.svg#3"] {
        let outcome =
            load_with(&mut loader, uri, unused_fetch(), unused_decode(), &fetches, &decodes);
        assert_eq!(outcome, Err(LoadError::NotSupported));
    }
    assert_eq!(fetches.get(), 0);
    assert_eq!(decodes.get(), 0);
    assert_eq!(loader.cached("file://test.svg"), None);
    assert_eq!(loader.byte_size(), 0);
}

#[test]
fn remote_uri_is_not_judged_by_extension() {
    let mut loader = ImageCrateLoader::new();
    let (fetches, decodes) = (Cell::new(0), Cell::new(0));
    let outcome = load_with(
        &mut loader,
        "https://example.com/test.svg",
        ready(&[1, 2, 3], None),
        Ok(image(1, 1)),
        &fetches,
        &decodes,
    );
    assert_eq!(outcome, Ok(ImagePoll::Ready { image: Arc::new(image(1, 1)) }));
    assert_eq!((fetches.get(), decodes.get()), (1, 1));
}

#[test]
fn byte_source_is_asked_for_the_uri_without_frame_index() {
    let mut loader = ImageCrateLoader::new();
    let asked = Cell::new(String::new());
    let outcome = loader.load(
        "file://anim.gif#2",
        SizeHint::Width(64),
        |key: &str| {
            asked.set(key.to_string());
            Ok(BytesPoll::Pending { size: None })
        },
        |_bytes: &[u8]| unused_decode(),
    );
    assert_eq!(outcome, Ok(ImagePoll::Pending { size: None }));
    assert_eq!(asked.take(), "file://anim.gif");
}

#[test]
fn decoder_is_given_the_fetched_bytes() {
    let mut loader = ImageCrateLoader::new();
    let given = Cell::new(Vec::new());
    let outcome = loader.load(
        "file://a.png",
        SizeHint::default(),
        |_key: &str| ready(&[4, 5, 6, 7], Some("image/png")),
        |bytes: &[u8]| {
            given.set(bytes.to_vec());
            Ok(image(2, 1))
        },
    );
    assert_eq!(outcome, Ok(ImagePoll::Ready { image: Arc::new(image(2, 1)) }));
    assert_eq!(given.take(), vec![4, 5, 6, 7]);
}

#[test]
fn pending_is_passed_on_and_not_remembered() {
    let mut loader = ImageCrateLoader::new();
    let (fetches, decodes) = (Cell::new(0), Cell::new(0));
    let size = Some(PointSize { width_bits: 32.0f32.to_bits(), height_bits: 16.0f32.to_bits() });
    for _ in 0..5 {
        let outcome = load_with(
            &mut loader,
            "https://example.com/a.png",
            Ok(BytesPoll::Pending { size }),
            unused_decode(),
            &fetches,
            &decodes,
        );
        assert_eq!(outcome, Ok(ImagePoll::Pending { size }));
        assert_eq!(loader.cached("https://example.com/a.png"), None);
        assert_eq!(loader.byte_size(), 0);
    }
    assert_eq!((fetches.get(), decodes.get()), (5, 0));
}

#[test]
fn source_error_is_passed_on_and_not_remembered() {
    let mut loader = ImageCrateLoader::new();
    let (fetches, decodes) = (Cell::new(0), Cell::new(0));
    let outcome = load_with(
        &mut loader,
        "file://a.png",
        Err(LoadError::Loading("File not found".to_string())),
        unused_decode(),
        &fetches,
        &decodes,
    );
    assert_eq!(outcome, Err(LoadError::Loading("File not found".to_string())));
    assert_eq!(loader.cached("file://a.png"), None);
    assert_eq!(loader.byte_size(), 0);

    // The source is asked again, and may answer differently.
    let outcome = load_with(
        &mut loader,
        "file://a.png",
        Err(LoadError::NoMatchingBytesLoader),
        unused_decode(),
        &fetches,
        &decodes,
    );
    assert_eq!(outcome, Err(LoadError::NoMatchingBytesLoader));
    assert_eq!((fetches.get(), decodes.get()), (2, 0));
}

#[test]
fn success_is_decoded_once_and_served_from_then_on() {
    let mut loader = ImageCrateLoader::new();
    let (fetches, decodes) = (Cell::new(0), Cell::new(0));
    let first = load_with(
        &mut loader,
        "file://a.png",
        ready(&[1, 2, 3], Some("image/png")),
        Ok(image(3, 2)),
        &fetches,
        &decodes,
    );
    assert_eq!(first, Ok(ImagePoll::Ready { image: Arc::new(image(3, 2)) }));
    assert_eq!((fetches.get(), decodes.get()), (1, 1));

    let second =
        load_with(&mut loader, "file://a.png", unused_fetch(), unused_decode(), &fetches, &decodes);
    let third =
        load_with(&mut loader, "file://a.png", unused_fetch(), unused_decode(), &fetches, &decodes);
    assert_eq!(second, first);
    assert_eq!(third, first);
    assert_eq!((fetches.get(), decodes.get()), (1, 1));
}

#[test]
fn served_image_is_the_remembered_one() {
    let mut loader = ImageCrateLoader::new();
    let (fetches, decodes) = (Cell::new(0), Cell::new(0));
    let first = load_with(
        &mut loader,
        "a.png",
        ready(&[1], None),
        Ok(image(2, 2)),
        &fetches,
        &decodes,
    );
    let second = load_with(&mut loader, "a.png", unused_fetch(), unused_decode(), &fetches, &decodes);
    let cached = loader.cached("a.png");
    match (first, second, cached) {
        (
            Ok(ImagePoll::Ready { image: first }),
            Ok(ImagePoll::Ready { image: second }),
            Some(Ok(ImagePoll::Ready { image: cached })),
        ) => {
            assert!(Arc::ptr_eq(&first, &second));
            assert!(Arc::ptr_eq(&first, &cached));
        }
        other => panic!("{}", format!("{other:?}")),
    }
}

#[test]
fn decode_failure_is_remembered() {
    let mut loader = ImageCrateLoader::new();
    let (fetches, decodes) = (Cell::new(0), Cell::new(0));
    let first = load_with(
        &mut loader,
        "file://broken.png",
        ready(&[0, 0, 0], None),
        Err(LoadError::Loading("bad header".to_string())),
        &fetches,
        &decodes,
    );
    assert_eq!(first, Err(LoadError::Loading("bad header".to_string())));
    let second = load_with(
        &mut loader,
        "file://broken.png",
        ready(&[1, 2, 3], None),
        Ok(image(1, 1)),
        &fetches,
        &decodes,
    );
    assert_eq!(second, first);
    assert_eq!((fetches.get(), decodes.get()), (1, 1));
    assert_eq!(loader.byte_size(), "bad header".len());
}

#[test]
fn unsupported_mime_is_a_remembered_failure() {
    let mut loader = ImageCrateLoader::new();
    let (fetches, decodes) = (Cell::new(0), Cell::new(0));
    let first = load_with(
        &mut loader,
        "https://example.com/drawing",
        ready(&[b'<', b's', b'v', b'g'], Some("image/svg+xml")),
        unused_decode(),
        &fetches,
        &decodes,
    );
    assert_eq!(first, Err(format_not_supported("image/svg+xml")));
    assert_eq!(loader.cached("https://example.com/drawing"), Some(Err(format_not_supported("image/svg+xml"))));
    let second = load_with(
        &mut loader,
        "https://example.com/drawing",
        unused_fetch(),
        unused_decode(),
        &fetches,
        &decodes,
    );
    assert_eq!(second, first);
    assert_eq!((fetches.get(), decodes.get()), (1, 0));
    assert_eq!(loader.byte_size(), 13);
}

#[test]
fn lfs_pointer_is_a_failure_whatever_the_mime() {
    for (mime, detected) in [
        (None, "git-lfs"),
        (Some("image/png"), "git-lfs"),
        (Some("application/octet-stream"), "git-lfs"),
        (Some("text/plain"), "text/plain"),
    ] {
        let mut loader = ImageCrateLoader::new();
        let (fetches, decodes) = (Cell::new(0), Cell::new(0));
        let outcome = load_with(
            &mut loader,
            "file://big.png",
            ready(POINTER, mime),
            unused_decode(),
            &fetches,
            &decodes,
        );
        assert_eq!(outcome, Err(format_not_supported(detected)));
        assert_eq!(loader.cached("file://big.png"), Some(Err(format_not_supported(detected))));
        assert_eq!((fetches.get(), decodes.get()), (1, 0));
        assert_eq!(loader.byte_size(), detected.len());
    }
}

#[test]
fn deferred_mime_still_reaches_the_decoder() {
    for mime in [
        "application/octet-stream",
        "application/octet-stream; charset=binary",
        "application/x-msdownload",
        "application/force-download",
    ] {
        let mut loader = ImageCrateLoader::new();
        let (fetches, decodes) = (Cell::new(0), Cell::new(0));
        let outcome = load_with(
            &mut loader,
            "https://example.com/download?id=7",
            ready(&[1, 2, 3], Some(mime)),
            Ok(image(1, 2)),
            &fetches,
            &decodes,
        );
        assert_eq!(outcome, Ok(ImagePoll::Ready { image: Arc::new(image(1, 2)) }));
        assert_eq!((fetches.get(), decodes.get()), (1, 1));
    }
}

#[test]
fn frames_of_one_resource_share_an_entry() {
    let mut loader = ImageCrateLoader::new();
    let (fetches, decodes) = (Cell::new(0), Cell::new(0));
    let first = load_with(
        &mut loader,
        "file://anim.gif#0",
        ready(&[b'G', b'I', b'F'], Some("image/gif")),
        Ok(image(4, 4)),
        &fetches,
        &decodes,
    );
    let other_frame = load_with(
        &mut loader,
        "file://anim.gif#7",
        unused_fetch(),
        unused_decode(),
        &fetches,
        &decodes,
    );
    let no_frame = load_with(
        &mut loader,
        "file://anim.gif",
        unused_fetch(),
        unused_decode(),
        &fetches,
        &decodes,
    );
    assert_eq!(other_frame, first);
    assert_eq!(no_frame, first);
    assert_eq!((fetches.get(), decodes.get()), (1, 1));
    assert_eq!(loader.cached("file://anim.gif#0"), None);
    assert_eq!(loader.cached("file://anim.gif"), Some(first));
    assert_eq!(loader.byte_size(), 64);
}

#[test]
fn forgotten_uri_is_fetched_again() {
    let mut loader = ImageCrateLoader::new();
    let (fetches, decodes) = (Cell::new(0), Cell::new(0));
    let first = load_with(
        &mut loader,
        "file://a.png",
        ready(&[1], None),
        Ok(image(1, 1)),
        &fetches,
        &decodes,
    );
    assert_eq!(first, Ok(ImagePoll::Ready { image: Arc::new(image(1, 1)) }));
    loader.forget("file://a.png");
    assert_eq!(loader.cached("file://a.png"), None);
    assert_eq!(loader.byte_size(), 0);

    let again = load_with(
        &mut loader,
        "file://a.png",
        ready(&[2], None),
        Ok(image(2, 2)),
        &fetches,
        &decodes,
    );
    assert_eq!(again, Ok(ImagePoll::Ready { image: Arc::new(image(2, 2)) }));
    assert_eq!((fetches.get(), decodes.get()), (2, 2));
    assert_eq!(loader.byte_size(), 16);
}

#[test]
fn forgetting_an_unknown_uri_changes_nothing() {
    let mut loader = ImageCrateLoader::new();
    let (fetches, decodes) = (Cell::new(0), Cell::new(0));
    loader.forget("file://never-seen.png");
    let first = load_with(
        &mut loader,
        "file://a.png",
        ready(&[1], None),
        Ok(image(5, 1)),
        &fetches,
        &decodes,
    );
    loader.forget("file://b.png");
    loader.forget("");
    assert_eq!(loader.cached("file://a.png"), Some(first));
    assert_eq!(loader.byte_size(), 20);
}

#[test]
fn forget_reaches_the_entry_behind_a_frame_index() {
    let mut loader = ImageCrateLoader::new();
    let (fetches, decodes) = (Cell::new(0), Cell::new(0));
    let first = load_with(
        &mut loader,
        "file://anim.gif#3",
        ready(&[1], None),
        Ok(image(2, 2)),
        &fetches,
        &decodes,
    );
    assert_eq!(loader.cached("file://anim.gif"), Some(first));
    assert_eq!(loader.byte_size(), 16);

    loader.forget("file://anim.gif#3");
    assert_eq!(loader.cached("file://anim.gif"), None);
    assert_eq!(loader.settled("file://anim.gif#3"), None);
    assert_eq!(loader.byte_size(), 0);

    let again = load_with(
        &mut loader,
        "file://anim.gif#3",
        ready(&[2], None),
        Ok(image(1, 1)),
        &fetches,
        &decodes,
    );
    assert_eq!(again, Ok(ImagePoll::Ready { image: Arc::new(image(1, 1)) }));
    assert_eq!((fetches.get(), decodes.get()), (2, 2));
}

#[test]
fn forget_by_any_frame_or_none_evicts_the_resource() {
    for evicted in ["file://anim.gif", "file://anim.gif#0", "file://anim.gif#12"] {
        let mut loader = ImageCrateLoader::new();
        let (fetches, decodes) = (Cell::new(0), Cell::new(0));
        let _ = load_with(
            &mut loader,
            "file://anim.gif#0",
            ready(&[1], None),
            Ok(image(1, 1)),
            &fetches,
            &decodes,
        );
        let other = load_with(
            &mut loader,
            "file://still.png",
            ready(&[1], None),
            Ok(image(3, 1)),
            &fetches,
            &decodes,
        );
        loader.forget(evicted);
        assert_eq!(loader.cached("file://anim.gif"), None);
        assert_eq!(loader.cached("file://still.png"), Some(other));
        assert_eq!(loader.byte_size(), 12);
    }
}

#[test]
fn forget_of_what_is_no_frame_index_goes_by_the_whole_uri() {
    let mut loader = ImageCrateLoader::new();
    let (fetches, decodes) = (Cell::new(0), Cell::new(0));
    let first = load_with(
        &mut loader,
        "page.html#section",
        ready(&[1], None),
        Ok(image(1, 1)),
        &fetches,
        &decodes,
    );
    loader.forget("page.html");
    assert_eq!(loader.cached("page.html#section"), Some(first));
    loader.forget("page.html#section");
    assert_eq!(loader.cached("page.html#section"), None);
}

#[test]
fn forget_all_empties_the_cache() {
    let mut loader = ImageCrateLoader::new();
    let (fetches, decodes) = (Cell::new(0), Cell::new(0));
    for (uri, decoded) in [
        ("a.png", Ok(image(2, 2))),
        ("b.png", Err(LoadError::Loading("bad header".to_string()))),
        ("c.png", Ok(image(10, 10))),
    ] {
        let _ = load_with(&mut loader, uri, ready(&[1], None), decoded, &fetches, &decodes);
    }
    assert_eq!(loader.byte_size(), 16 + 10 + 400);
    loader.forget_all();
    assert_eq!(loader.byte_size(), 0);
    for uri in ["a.png", "b.png", "c.png"] {
        assert_eq!(loader.cached(uri), None);
    }
    loader.forget_all();
    assert_eq!(loader.byte_size(), 0);
}

#[test]
fn byte_size_follows_every_insert_and_eviction() {
    let mut loader = ImageCrateLoader::new();
    let (fetches, decodes) = (Cell::new(0), Cell::new(0));
    assert_eq!(loader.byte_size(), 0);

    let _ = load_with(&mut loader, "a.png", ready(&[1], None), Ok(image(3, 2)), &fetches, &decodes);
    assert_eq!(loader.byte_size(), 24);

    let _ = load_with(
        &mut loader,
        "b.svg",
        ready(&[1], Some("image/svg+xml")),
        unused_decode(),
        &fetches,
        &decodes,
    );
    assert_eq!(loader.byte_size(), 24 + 13);

    let _ = load_with(
        &mut loader,
        "c.png",
        ready(&[1], None),
        Err(LoadError::NotSupported),
        &fetches,
        &decodes,
    );
    assert_eq!(loader.byte_size(), 24 + 13 + std::mem::size_of::<LoadError>());

    // Pending, source errors and hits add nothing.
    let _ = load_with(
        &mut loader,
        "d.png",
        Ok(BytesPoll::Pending { size: None }),
        unused_decode(),
        &fetches,
        &decodes,
    );
    let _ = load_with(&mut loader, "e.png", unused_fetch(), unused_decode(), &fetches, &decodes);
    let _ = load_with(&mut loader, "a.png", unused_fetch(), unused_decode(), &fetches, &decodes);
    assert_eq!(loader.byte_size(), 24 + 13 + std::mem::size_of::<LoadError>());

    loader.forget("a.png");
    assert_eq!(loader.byte_size(), 13 + std::mem::size_of::<LoadError>());
    loader.forget("c.png");
    assert_eq!(loader.byte_size(), 13);
    loader.forget("c.png");
    assert_eq!(loader.byte_size(), 13);
    loader.forget("b.svg");
    assert_eq!(loader.byte_size(), 0);
}

#[test]
fn size_hint_plays_no_part() {
    for hint in [
        SizeHint::Scale(2.0f32.to_bits()),
        SizeHint::Width(10),
        SizeHint::Height(20),
        SizeHint::Size { width: 1, height: 2, maintain_aspect_ratio: true },
    ] {
        let mut loader = ImageCrateLoader::new();
        let outcome = loader.load(
            "a.png",
            hint,
            |_key: &str| ready(&[1], None),
            |_bytes: &[u8]| Ok(image(2, 3)),
        );
        assert_eq!(outcome, Ok(ImagePoll::Ready { image: Arc::new(image(2, 3)) }));
    }
}

#[test]
fn resolve_serves_what_is_remembered() {
    let mut loader = ImageCrateLoader::new();
    let first = loader.resolve("a.png", ready(&[1], None), |_bytes: &[u8]| Ok(image(1, 3)));
    assert_eq!(first, Ok(ImagePoll::Ready { image: Arc::new(image(1, 3)) }));
    let decodes = Cell::new(0);
    let second = loader.resolve("a.png", ready(&[2], Some("image/svg+xml")), |_bytes: &[u8]| {
        decodes.set(decodes.get() + 1);
        Ok(image(7, 7))
    });
    assert_eq!(second, first);
    assert_eq!(decodes.get(), 0);
    assert_eq!(loader.byte_size(), 12);
}

#[test]
fn resolve_takes_the_key_as_written() {
    let mut loader = ImageCrateLoader::new();
    let outcome =
        loader.resolve("file://test.svg#1", ready(&[1], None), |_bytes: &[u8]| Ok(image(1, 1)));
    assert_eq!(outcome, Ok(ImagePoll::Ready { image: Arc::new(image(1, 1)) }));
    assert_eq!(loader.cached("file://test.svg#1"), Some(outcome));
    assert_eq!(loader.cached("file://test.svg"), None);
}

#[test]
fn resolve_passes_on_pending_and_source_errors() {
    let mut loader = ImageCrateLoader::new();
    let pending =
        loader.resolve("a.png", Ok(BytesPoll::Pending { size: None }), |_bytes: &[u8]| {
            unused_decode()
        });
    assert_eq!(pending, Ok(ImagePoll::Pending { size: None }));
    let failed = loader
        .resolve("a.png", Err(LoadError::NoMatchingBytesLoader), |_bytes: &[u8]| unused_decode());
    assert_eq!(failed, Err(LoadError::NoMatchingBytesLoader));
    assert_eq!(loader.cached("a.png"), None);
    assert_eq!(loader.byte_size(), 0);
}

#[test]
fn settled_tells_whether_the_byte_source_is_needed() {
    let mut loader = ImageCrateLoader::new();
    let (fetches, decodes) = (Cell::new(0), Cell::new(0));
    assert_eq!(loader.settled("file://a.png"), None);
    assert_eq!(loader.settled("file://a"), None);
    assert_eq!(loader.settled("https://example.com/a.svg"), None);
    assert_eq!(loader.settled("file://a.svg"), Some(Err(LoadError::NotSupported)));
    assert_eq!(loader.settled("file://a.svg#4"), Some(Err(LoadError::NotSupported)));

    let first = load_with(
        &mut loader,
        "file://a.png",
        ready(&[1], None),
        Ok(image(1, 1)),
        &fetches,
        &decodes,
    );
    assert_eq!(loader.settled("file://a.png#3"), Some(first));
    assert_eq!(loader.settled("file://b.png"), None);

    let pending = load_with(
        &mut loader,
        "file://b.png",
        Ok(BytesPoll::Pending { size: None }),
        unused_decode(),
        &fetches,
        &decodes,
    );
    assert_eq!(pending, Ok(ImagePoll::Pending { size: None }));
    assert_eq!(loader.settled("file://b.png"), None);

    loader.forget("file://a.png");
    assert_eq!(loader.settled("file://a.png"), None);
}
