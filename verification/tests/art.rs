use pf_webos::art::cache::{
    cache_dir, cache_name, cache_root, raw_cache_path, read_raw_cache, write_raw_cache,
};
use pf_webos::art::decode::{
    crop_to_aspect, decode_cover, finish_cover, keep_pixels, Cover, Crop, Pixmap,
};
use pf_webos::art::worker::{
    after_connect, after_cover, after_fetch, after_pixels, decode_step, ArtStep,
};
use pf_webos::art::ArtLoader;
use pf_webos::library::{Artwork, GameEntry};

/// A picture of one colour, as a PNG file.
fn png(w: u32, h: u32, px: [u8; 4]) -> Vec<u8> {
    let mut out = std::io::Cursor::new(Vec::new());
    image::RgbaImage::from_pixel(w, h, image::Rgba(px))
        .write_to(&mut out, image::ImageFormat::Png)
        .unwrap();
    out.into_inner()
}

fn game(id: &str, portrait: Option<&str>, header: Option<&str>) -> GameEntry {
    GameEntry {
        id: id.to_string(),
        title: id.to_string(),
        art: Artwork {
            portrait: portrait.map(str::to_string),
            hero: None,
            logo: None,
            header: header.map(str::to_string),
        },
    }
}

#[test]
fn covers_are_asked_for_once() {
    let mut l = ArtLoader::spawn();
    l.request(&game("a", Some("/p"), Some("/h")));
    l.request(&game("a", Some("/p"), Some("/h")));
    l.request(&game("b", None, Some("/h")));
    l.request(&game("c", None, None));
    let asked = l.drain();
    let seen: Vec<(&str, &str)> =
        asked.iter().map(|r| (r.game_id.as_str(), r.path.as_str())).collect();
    assert_eq!(seen, vec![("a", "/p"), ("b", "/h")]);
    assert!(l.drain().is_empty());
    l.forget("a");
    l.request(&game("a", Some("/p"), None));
    assert_eq!(l.drain().len(), 1);
}

#[test]
fn cache_names_are_plain() {
    assert_eq!(cache_name("steam:570"), "steam_570");
    assert_eq!(cache_name("a/ä.b"), "a___b");
    assert_eq!(cache_dir("10.0.0.2", 9777), "10_0_0_2_9777");
    assert_eq!(raw_cache_path("steam:570"), "steam_570.raw");
    assert_eq!(cache_root(None), "/tmp");
    assert_eq!(cache_root(Some("/home/x")), "/home/x");
}

#[test]
fn pixels_read_back_from_the_cache() {
    let pixmap = Pixmap { width: 2, height: 1, pixels: vec![1, 2, 3, 4, 5, 6, 7, 8] };
    let file = write_raw_cache(&pixmap);
    assert_eq!(&file[..12], &[0x32, 0x52, 0x46, 0x50, 2, 0, 0, 0, 1, 0, 0, 0]);
    let back = read_raw_cache(&file).unwrap();
    assert_eq!((back.width, back.height, back.pixels), (2, 1, pixmap.pixels));
    for n in 0..file.len() {
        assert!(read_raw_cache(&file[..n].to_vec()).is_none());
    }
    let mut other = file.clone();
    other[0] = 0;
    assert!(read_raw_cache(&other).is_none());
}

#[test]
fn pixels_must_fill_their_rectangle() {
    assert!(keep_pixels(vec![0; 8], 2, 1).is_some());
    assert!(keep_pixels(vec![0; 7], 2, 1).is_none());
    assert!(keep_pixels(vec![], 0, 1).is_none());
    assert!(keep_pixels(vec![], u32::MAX, 1).is_none());
    let kept = keep_pixels(vec![9, 8, 7, 6], 1, 1).unwrap();
    assert_eq!(kept.pixels, vec![9, 8, 7, 6]);
}

#[test]
fn pictures_are_cut_to_the_card() {
    assert_eq!(crop_to_aspect(300, 400), None);
    assert_eq!(crop_to_aspect(19, 25), None);
    assert_eq!(crop_to_aspect(0, 10), None);
    assert_eq!(crop_to_aspect(460, 215), Some(Crop { x: 149, y: 0, width: 161, height: 215 }));
    assert_eq!(crop_to_aspect(600, 900), Some(Crop { x: 0, y: 50, width: 600, height: 800 }));
    assert_eq!(crop_to_aspect(1, 1000), Some(Crop { x: 0, y: 499, width: 1, height: 1 }));
}

#[test]
fn covers_are_decoded_cut_shrunk_and_scaled() {
    match decode_cover(&png(600, 900, [200, 100, 50, 128])) {
        Cover::Ready(p) => {
            assert_eq!((p.width, p.height), (360, 480));
            assert_eq!(p.pixels.len(), 360 * 480 * 4);
            assert_eq!(&p.pixels[..4], &[100, 50, 25, 128]);
        }
        other => panic!("expected a cover, got {other:?}"),
    }
    match decode_cover(&png(6, 8, [1, 2, 3, 255])) {
        Cover::Ready(p) => assert_eq!((p.width, p.height), (6, 8)),
        other => panic!("expected a cover, got {other:?}"),
    }
    assert!(matches!(decode_cover(&vec![1, 2, 3]), Cover::Unreadable));
}

#[test]
fn finished_cover_is_scaled_by_alpha() {
    let p = finish_cover(vec![200, 100, 50, 128], 1, 1).unwrap();
    assert_eq!(p.pixels, vec![100, 50, 25, 128]);
    assert!(finish_cover(vec![], 0, 0).is_none());
}

#[test]
fn cached_pixels_are_delivered_at_once() {
    let pixmap = Pixmap { width: 1, height: 1, pixels: vec![1, 2, 3, 4] };
    match after_pixels(Some(write_raw_cache(&pixmap))) {
        ArtStep::Deliver(p) => assert_eq!(p.pixels, vec![1, 2, 3, 4]),
        other => panic!("expected a delivery, got {other:?}"),
    }
    assert!(matches!(after_pixels(None), ArtStep::ReadCover));
    assert!(matches!(after_pixels(Some(vec![0; 20])), ArtStep::ReadCover));
}

#[test]
fn covers_come_from_disk_or_the_host() {
    assert!(matches!(after_cover(None, false), ArtStep::Connect));
    assert!(matches!(after_cover(Some(vec![]), true), ArtStep::Fetch));
    assert!(matches!(after_connect(false), ArtStep::Skip));
    assert!(matches!(after_connect(true), ArtStep::Fetch));
    assert!(matches!(after_fetch(None), ArtStep::Skip));
    assert!(matches!(after_fetch(Some(vec![7])), ArtStep::StoreCover(b) if b == vec![7]));
    assert!(matches!(
        after_cover(Some(png(3, 4, [1, 2, 3, 255])), false),
        ArtStep::StorePixels(_)
    ));
    assert!(matches!(decode_step(&vec![0, 1]), ArtStep::DropCover));
}
