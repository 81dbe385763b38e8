use std::io::Cursor;

use imagekit::errors::ImgError;
use imagekit::listing::{image_info_from_bytes, list_images, FileEntry};

fn make_png(w: u32, h: u32) -> Vec<u8> {
    let img = image::RgbaImage::from_fn(w, h, |x, y| {
        image::Rgba([(x % 256) as u8, (y % 256) as u8, 0, 255])
    });
    let mut buf = Cursor::new(Vec::new());
    image::DynamicImage::ImageRgba8(img)
        .write_to(&mut buf, image::ImageFormat::Png)
        .unwrap();
    buf.into_inner()
}

fn entry(path: &str, name: &str, size: u64, is_file: bool, data: Vec<u8>) -> FileEntry {
    FileEntry { path: path.to_string(), name: name.to_string(), size, is_file, data }
}

#[test]
fn enumeration_skips_bad_entries() {
    // Three valid images among a corrupt file, a wrong extension and a
    // directory: exactly the three are listed, in order, and nothing
    // fails.
    let entries = vec![
        entry("/pics/a.png", "a.png", 10, true, make_png(3, 4)),
        entry("/pics/bad.png", "bad.png", 11, true, vec![1, 2, 3, 4]),
        entry("/pics/b.JPG", "b.JPG", 12, true, make_png(5, 6)),
        entry("/pics/notes.txt", "notes.txt", 13, true, make_png(7, 8)),
        entry("/pics/sub.png", "sub.png", 14, false, make_png(1, 1)),
        entry("/pics/c.bmp", "c.bmp", 15, true, make_png(2, 2)),
    ];
    let infos = list_images(&entries);
    assert_eq!(infos.len(), 3);
    assert_eq!(infos[0].name, "a.png");
    assert_eq!(infos[0].path, "/pics/a.png");
    assert_eq!((infos[0].width, infos[0].height, infos[0].size), (3, 4, 10));
    assert_eq!(infos[1].name, "b.JPG");
    assert_eq!((infos[1].width, infos[1].height, infos[1].size), (5, 6, 12));
    assert_eq!(infos[2].name, "c.bmp");
    assert_eq!((infos[2].width, infos[2].height, infos[2].size), (2, 2, 15));
}

#[test]
fn enumeration_of_empty_list() {
    let infos = list_images(&Vec::new());
    assert!(infos.is_empty());
}

#[test]
fn enumeration_all_corrupt_yields_nothing() {
    let entries = vec![
        entry("/pics/x.png", "x.png", 1, true, vec![0, 0, 0]),
        entry("/pics/y.gif", "y.gif", 2, true, vec![255, 255]),
    ];
    assert!(list_images(&entries).is_empty());
}

#[test]
fn info_from_bytes_carries_name_and_dims() {
    let info = image_info_from_bytes("/d/e/img.png".to_string(), 42, &make_png(9, 5)).unwrap();
    assert_eq!(info.path, "/d/e/img.png");
    assert_eq!(info.name, "img.png");
    assert_eq!((info.width, info.height, info.size), (9, 5, 42));
}

#[test]
fn info_from_corrupt_bytes_fails() {
    let e = image_info_from_bytes("/d/bad.png".to_string(), 7, &vec![9, 9, 9]).unwrap_err();
    assert!(matches!(e, ImgError::Decode(_)));
}
