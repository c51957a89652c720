use image::{DynamicImage, GenericImageView, ImageFormat, ImageOutputFormat};
use shiki::filenames::split_name;
use shiki::images::plain_picture;
use shiki::ids::IdGenerator;
use shiki::models::{Attachment, Channel};
use shiki::routes::api::attachments::{
    attachment_stored, valid_content_type, CheckedUpload, CleanUpload, DecodedUpload,
    FileStep, FitStep, FittedUpload, SmallerUpload, UploadRequest, MAX_FILE_SIZE,
};
use shiki::routes::{Refusal, Status};

fn refusal(status: Status, body: &str) -> Refusal {
    Refusal { status, body: Some(body.to_string()) }
}

fn internal() -> Refusal {
    refusal(Status::InternalServerError, "Something went wrong")
}

fn unreadable() -> Refusal {
    refusal(Status::BadRequest, "Something went wrong")
}

fn channels() -> Option<Vec<Channel>> {
    Some(vec![Channel::created_at(2, "general", None, 7, 50)])
}

fn request(size: usize, content_type: Option<&str>) -> UploadRequest {
    UploadRequest {
        channel_id: 2,
        size,
        content_type: content_type.map(|s| s.to_string()),
        file_name: Some("a.png".to_string()),
    }
}

fn checked(name: Option<&str>) -> CheckedUpload {
    CheckedUpload {
        channel_id: 2,
        size: 10,
        content_type: "image/png".to_string(),
        file_name: name.map(|s| s.to_string()),
    }
}

fn png(width: u32, height: u32) -> Vec<u8> {
    let mut bytes = std::io::Cursor::new(Vec::new());
    DynamicImage::new_rgb8(width, height).write_to(&mut bytes, ImageOutputFormat::Png).unwrap();
    bytes.into_inner()
}

fn decoded(width: u32, height: u32, name: Option<&str>) -> DecodedUpload {
    match checked(name).file_read(Some(png(width, height))) {
        Ok(FileStep::Decoded(decoded)) => decoded,
        Ok(FileStep::Decode { .. }) => panic!("not decoded"),
        Err(refusal) => panic!("{refusal:?}"),
    }
}

fn fitted(name: Option<&str>) -> FittedUpload {
    match decoded(3, 4, name).fit() {
        FitStep::Fits(fitted) => fitted,
        FitStep::Shrink(_) => panic!("too high"),
    }
}

fn smaller(width: u32, height: u32, new_width: u32) -> SmallerUpload {
    match decoded(width, height, Some("a.png")).fit() {
        FitStep::Fits(_) => panic!("not too high"),
        FitStep::Shrink(decoded) => decoded.smaller(new_width),
    }
}

fn clean(name: &str) -> CleanUpload {
    match fitted(Some(name)).sanitize() {
        Ok(clean) => clean,
        Err(refusal) => panic!("{refusal:?}"),
    }
}

#[test]
fn images_are_taken() {
    for kind in ["image/png", "image/jpeg", "image/gif", "image/webp"] {
        assert!(valid_content_type(&kind.to_string()));
        let upload = request(1, Some(kind)).check(channels()).unwrap();
        assert_eq!((upload.channel_id, upload.size), (2, 1));
        assert_eq!(upload.content_type, kind);
        assert_eq!(upload.file_name, Some("a.png".to_string()));
    }
    assert!(request(MAX_FILE_SIZE, Some("image/png")).check(channels()).is_ok());
}

#[test]
fn channel_of_an_upload_must_exist() {
    let missing = Some(Refusal { status: Status::NotFound, body: None });
    assert_eq!(request(1, Some("image/png")).check(None).err(), missing);
    assert_eq!(request(1, Some("image/png")).check(Some(vec![])).err(), missing);
    assert_eq!(request(0, None).check(None).err(), missing);
}

#[test]
fn file_is_not_empty() {
    assert_eq!(
        request(0, Some("image/png")).check(channels()).err(),
        Some(Refusal { status: Status::BadRequest, body: None })
    );
}

#[test]
fn file_is_not_too_large() {
    assert_eq!(
        request(MAX_FILE_SIZE + 1, Some("image/png")).check(channels()).err(),
        Some(refusal(
            Status::BadRequest,
            "The uploaded file is too large. Maximum size is 5242880 bytes."
        ))
    );
}

#[test]
fn other_types_are_not_taken() {
    for kind in ["image/svg+xml", "text/html", "image/PNG", "image/png ", ""] {
        assert!(!valid_content_type(&kind.to_string()));
        assert_eq!(request(1, Some(kind)).check(channels()).err(), Some(unreadable()));
    }
    assert_eq!(request(1, None).check(channels()).err(), Some(unreadable()));
}

#[test]
fn picture_is_decoded() {
    let upload = decoded(20, 10, Some("a.png"));
    assert_eq!(upload.format, ImageFormat::Png);
    assert_eq!(upload.dimensions(), (20, 10));
    assert_eq!(upload.picture.dimensions(), (20, 10));
    assert_eq!(upload.upload.size, 10);
}

#[test]
fn files_that_are_no_pictures_are_refused() {
    let read = |bytes| checked(Some("a.png")).file_read(bytes).err();
    assert_eq!(read(None), Some(unreadable()));
    for bytes in [&b""[..], b"plain text", b"<svg></svg>", b"\x89PNG", b"GIF88a", b"RIF"] {
        assert_eq!(read(Some(bytes.to_vec())), Some(unreadable()));
    }
    let mut cut = png(20, 10);
    cut.truncate(20);
    assert_eq!(read(Some(cut)), Some(unreadable()));
}

#[test]
fn what_was_decoded_outside_is_taken() {
    let step = || FileStep::Decode {
        upload: checked(None),
        format: ImageFormat::WebP,
        bytes: b"RIFF\x04\0\0\0WEBP".to_vec(),
    };
    match step().decoded(Some(DynamicImage::new_rgb8(2, 1))) {
        Ok(upload) => {
            assert_eq!(upload.format, ImageFormat::WebP);
            assert_eq!(upload.dimensions(), (2, 1));
            assert_eq!(upload.upload.size, 10);
        }
        Err(refusal) => panic!("{refusal:?}"),
    }
    assert_eq!(step().decoded(None).err(), Some(unreadable()));

    let upload = FileStep::Decoded(decoded(20, 10, None)).decoded(None);
    assert_eq!(upload.map(|u| u.dimensions()).ok(), Some((20, 10)));
}

#[test]
fn pictures_that_are_not_too_high_stay() {
    match decoded(4, 512, Some("a.png")).fit() {
        FitStep::Fits(fitted) => {
            assert_eq!(fitted.dimensions(), (4, 512));
            let clean = fitted.sanitize().ok().unwrap();
            assert_eq!((clean.width, clean.height), (4, 512));
        }
        FitStep::Shrink(_) => panic!("too high"),
    }
}

#[test]
fn high_pictures_are_made_smaller() {
    assert!(matches!(decoded(4, 513, None).fit(), FitStep::Shrink(_)));
    assert_eq!(smaller(100, 1024, 50).picture().dimensions(), (50, 512));
    assert_eq!(*smaller(100, 1024, 50).format(), ImageFormat::Png);
    assert_eq!(smaller(100, 1024, 10).picture().dimensions(), (10, 102));
    assert_eq!(smaller(100, 1024, 100).picture().dimensions(), (50, 512));
    assert_eq!(smaller(1, 600, 0).picture().dimensions(), (1, 1));
    let blank = DecodedUpload {
        upload: checked(None),
        format: ImageFormat::Gif,
        picture: DynamicImage::new_rgb8(0, 600),
    };
    assert_eq!(blank.smaller(0).picture().dimensions(), (1, 512));
}

#[test]
fn smaller_picture_takes_the_place_of_the_one_that_was_uploaded() {
    let fitted = smaller(100, 1024, 50).saved(Ok(())).ok().unwrap();
    assert_eq!(fitted.dimensions(), (50, 512));
    let clean = fitted.sanitize().ok().unwrap();
    assert_eq!((clean.width, clean.height), (100, 1024));
    assert_eq!(clean.upload.size, 10);
}

#[test]
fn picture_that_cannot_be_saved_is_refused() {
    let upload = smaller(4, 600, 3).saved(Err("disk full".to_string()));
    assert_eq!(upload.err(), Some(refusal(Status::InternalServerError, "disk full")));
}

#[test]
fn file_name_is_sanitized() {
    let upload = clean("../a/b?.tar.gz");
    assert_eq!(upload.file_name, "..ab.tar.gz");
    assert_eq!((upload.width, upload.height), (3, 4));
    assert_eq!(upload.upload.content_type, "image/png");
    assert_eq!(clean("a\u{0}\u{9f}\"<>|:*b").file_name, "ab");
    assert_eq!(clean(&"x".repeat(300)).file_name.len(), 255);
    assert_eq!(clean("..").file_name, "");
}

#[test]
fn file_needs_a_name() {
    assert_eq!(
        fitted(None).sanitize().err(),
        Some(refusal(Status::InternalServerError, "Missing file name"))
    );
}

#[test]
fn names_are_split_at_the_last_dot() {
    for (name, stem, extension) in [
        ("a.png", "a", ".png"),
        ("a.tar.gz", "a.tar", ".gz"),
        ("plain", "plain", ""),
        (".hidden", "", ".hidden"),
        ("end.", "end", "."),
        ("", "", ""),
        ("bäume.jpg", "bäume", ".jpg"),
    ] {
        assert_eq!(split_name(name), (stem.to_string(), extension.to_string()));
    }
}

#[test]
fn upload_gets_a_place_and_a_record() {
    let named = clean("my cat.png").identify_as(33);
    assert_eq!(named.public_id, "attachments/2/33-my cat");
    assert_eq!(
        named.attachment,
        Attachment {
            id: 33,
            filename: "my cat.png".to_string(),
            size: 10,
            url: "https://cdn.shiki.space/attachments/2/33/my cat.png".to_string(),
            width: 3,
            height: 4,
            content_type: "image/png".to_string(),
        }
    );
    let named = clean("cat").identify_as(-1);
    assert_eq!(named.public_id, "attachments/2/-1-cat");
    assert_eq!(named.attachment.url, "https://cdn.shiki.space/attachments/2/-1/cat");
}

#[test]
fn names_make_no_additional_folder() {
    let named = clean("../../x/y.png").identify_as(33);
    assert_eq!(named.public_id.matches('/').count(), 2);
    assert!(named.public_id.starts_with("attachments/2/33-"));
}

#[test]
fn upload_gets_the_next_id() {
    let mut ids = IdGenerator::new();
    let first = clean("a.png").identify(&mut ids);
    let second = clean("a.png").identify(&mut ids);
    assert_ne!(first.attachment.id, second.attachment.id);
    assert_eq!((first.attachment.id >> 12) & 0x3ff, 33);
    assert_eq!(first.public_id, format!("attachments/2/{}-a", first.attachment.id));
}

#[test]
fn file_that_is_not_uploaded_is_not_stored() {
    let record = clean("a.png").identify_as(33).attachment;
    assert_eq!(clean("a.png").identify_as(33).uploaded(true), Ok(record.clone()));
    assert_eq!(clean("a.png").identify_as(33).uploaded(false), Err(internal()));
    assert_eq!(attachment_stored(record.clone(), true), Ok(record.clone()));
    assert_eq!(attachment_stored(record, false), Err(internal()));
}

fn encoded(format: ImageOutputFormat) -> Vec<u8> {
    let mut bytes = std::io::Cursor::new(Vec::new());
    DynamicImage::new_rgb8(20, 10).write_to(&mut bytes, format).unwrap();
    bytes.into_inner()
}

#[test]
fn plain_pictures_are_decoded() {
    for (format, expected) in [
        (ImageOutputFormat::Png, ImageFormat::Png),
        (ImageOutputFormat::Gif, ImageFormat::Gif),
        (ImageOutputFormat::Jpeg(90), ImageFormat::Jpeg),
    ] {
        let bytes = encoded(format);
        assert!(plain_picture(&bytes));
        match checked(None).file_read(Some(bytes)) {
            Ok(FileStep::Decoded(upload)) => {
                assert_eq!(upload.format, expected);
                assert_eq!(upload.dimensions(), (20, 10));
            }
            Ok(FileStep::Decode { .. }) => panic!("not decoded"),
            Err(refusal) => panic!("{refusal:?}"),
        }
    }
}

#[test]
fn other_pictures_are_left_to_be_decoded() {
    for (bytes, expected) in [
        (b"RIFF\x04\0\0\0WEBP".to_vec(), ImageFormat::WebP),
        (b"BM".to_vec(), ImageFormat::Bmp),
        (vec![0xff, 0xd8, 0xff, 0xc3], ImageFormat::Jpeg),
    ] {
        assert!(!plain_picture(&bytes));
        match checked(Some("a.png")).file_read(Some(bytes.clone())) {
            Ok(FileStep::Decode { upload, format, bytes: left }) => {
                assert_eq!(left, bytes);
                assert_eq!(format, expected);
                assert_eq!(upload.file_name, Some("a.png".to_string()));
            }
            _ => panic!("not left"),
        }
    }
}

#[test]
fn odd_frames_of_jpegs_are_not_plain() {
    let frame = |marker: u8, height: u16, width: u16| {
        let mut bytes = vec![0xff, 0xd8, 0xff, marker, 0, 11, 7];
        bytes.extend(height.to_be_bytes());
        bytes.extend(width.to_be_bytes());
        bytes.extend([1, 1, 0x11, 0]);
        bytes
    };
    assert!(plain_picture(&frame(0xc0, 600, 800)));
    assert!(plain_picture(&frame(0xc2, 65279, 65279)));
    assert!(!plain_picture(&frame(0xc3, 600, 800)));
    assert!(!plain_picture(&frame(0xc1, 65280, 1)));
    assert!(!plain_picture(&frame(0xc0, 1, 65535)));
    assert!(plain_picture(&[0xff, 0xd8, 0xff, 0xc0]));
    assert!(!plain_picture(&[0xff, 0xd8, 0xff, 0xc3]));
}
