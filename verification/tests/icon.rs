use vibebar::icon::argb_to_rgba;
use vibebar::icon::candidate_paths;
use vibebar::icon::first_hit;
use vibebar::icon::icon_file_kind;
use vibebar::icon::load_icon_file;
use vibebar::icon::resolve_icon;
use vibebar::icon::resolve_pixmap_icon;
use vibebar::icon::select_best_pixmap;
use vibebar::icon::IconFileKind;
use vibebar::item::IconDescriptor;
use vibebar::item::RawPixmap;
use vibebar::item::ResolvedIcon;

fn pixmap(width: u32, height: u32, pixels: Vec<u8>) -> RawPixmap {
    RawPixmap { width, height, pixels }
}

#[test]
fn best_pixmap_maximizes_area() {
    let ps = vec![
        pixmap(16, 16, vec![]),
        pixmap(64, 64, vec![]),
        pixmap(32, 32, vec![]),
    ];
    assert_eq!(select_best_pixmap(&ps), Some(1));
}

#[test]
fn best_pixmap_tie_first_wins() {
    let ps = vec![
        pixmap(8, 8, vec![]),
        pixmap(16, 4, vec![]),
        pixmap(4, 16, vec![]),
        pixmap(2, 2, vec![]),
    ];
    assert_eq!(select_best_pixmap(&ps), Some(0));
}

#[test]
fn best_pixmap_empty_list() {
    let ps: Vec<RawPixmap> = Vec::new();
    assert_eq!(select_best_pixmap(&ps), None);
}

#[test]
fn argb_to_rgba_permutes_each_pixel() {
    let out = argb_to_rgba(&vec![1, 2, 3, 4, 10, 20, 30, 40]);
    assert_eq!(out, vec![2, 3, 4, 1, 20, 30, 40, 10]);
}

#[test]
fn argb_to_rgba_drops_trailing_partial_pixel() {
    let out = argb_to_rgba(&vec![1, 2, 3, 4, 9, 9]);
    assert_eq!(out, vec![2, 3, 4, 1]);
    let out = argb_to_rgba(&vec![7]);
    assert_eq!(out, Vec::<u8>::new());
}

#[test]
fn pixmap_icon_takes_largest_and_converts() {
    let ps = vec![
        pixmap(1, 1, vec![255, 1, 2, 3]),
        pixmap(1, 2, vec![100, 10, 20, 30, 200, 40, 50, 60]),
    ];
    match resolve_pixmap_icon(&ps) {
        Some(ResolvedIcon::Raster { width, height, rgba }) => {
            assert_eq!((width, height), (1, 2));
            assert_eq!(rgba, vec![10, 20, 30, 100, 40, 50, 60, 200]);
        }
        other => panic!("expected a raster icon, got {:?}", other),
    }
}

#[test]
fn candidate_paths_probe_order() {
    let c = candidate_paths("/t", "foo");
    assert_eq!(c.len(), 6);
    assert_eq!(c[0], "/t/foo.svg");
    assert_eq!(c[1], "/t/foo.png");
    assert_eq!(c[2], "/t/hicolor/scalable/apps/foo.svg");
    assert_eq!(c[3], "/t/hicolor/256x256/apps/foo.png");
    assert_eq!(c[4], "/t/hicolor/128x128/apps/foo.png");
    assert_eq!(c[5], "/t/hicolor/64x64/apps/foo.png");
}

#[test]
fn first_hit_picks_first_true() {
    assert_eq!(first_hit(&vec![false, true, true, false]), Some(1));
    assert_eq!(first_hit(&vec![true]), Some(0));
    assert_eq!(first_hit(&vec![false, false]), None);
    assert_eq!(first_hit(&Vec::new()), None);
}

#[test]
fn file_kind_dispatch() {
    assert_eq!(icon_file_kind("a.svg"), IconFileKind::Svg);
    assert_eq!(icon_file_kind("A.SVG"), IconFileKind::Svg);
    assert_eq!(icon_file_kind("dir/b.PNG"), IconFileKind::Png);
    assert_eq!(icon_file_kind("c.jpeg"), IconFileKind::Other);
    assert_eq!(icon_file_kind("apng"), IconFileKind::Other);
    assert_eq!(icon_file_kind(""), IconFileKind::Other);
}

#[test]
fn hidden_file_has_no_extension() {
    // A final component that is only the dotted name is a hidden file, not
    // a file with an extension.
    assert_eq!(icon_file_kind(".svg"), IconFileKind::Other);
    assert_eq!(icon_file_kind("/t/.svg"), IconFileKind::Other);
    assert_eq!(icon_file_kind("/t/.png"), IconFileKind::Other);
    // A hidden file with a further dot does have an extension.
    assert_eq!(icon_file_kind("/t/.hidden.svg"), IconFileKind::Svg);
    assert_eq!(icon_file_kind("..svg"), IconFileKind::Svg);
    assert!(load_icon_file(String::from("/t/.svg")).is_none());
}

#[test]
fn load_svg_defers_to_renderer() {
    match load_icon_file(String::from("/t/foo.svg")) {
        Some(ResolvedIcon::Vector { path }) => assert_eq!(path, "/t/foo.svg"),
        other => panic!("expected a vector icon, got {:?}", other),
    }
}

#[test]
fn load_missing_png_degrades_to_none() {
    let r = load_icon_file(String::from("/vibebar-test-does-not-exist/icon.png"));
    assert!(r.is_none());
}

#[test]
fn load_unknown_extension_is_none() {
    assert!(load_icon_file(String::from("/t/foo.xpm")).is_none());
}

#[test]
fn resolver_prefers_pixmap_over_name() {
    let desc = IconDescriptor {
        pixmap: Some(vec![pixmap(1, 1, vec![9, 1, 2, 3])]),
        icon_name: Some(String::from("firefox")),
        icon_theme_path: None,
    };
    match resolve_icon(&desc) {
        Some(ResolvedIcon::Raster { width, height, rgba }) => {
            assert_eq!((width, height), (1, 1));
            assert_eq!(rgba, vec![1, 2, 3, 9]);
        }
        other => panic!("expected the pixmap icon, got {:?}", other),
    }
}

#[test]
fn resolver_empty_descriptor_is_none() {
    let desc = IconDescriptor { pixmap: None, icon_name: None, icon_theme_path: None };
    assert!(resolve_icon(&desc).is_none());
    let desc = IconDescriptor {
        pixmap: Some(Vec::new()),
        icon_name: Some(String::new()),
        icon_theme_path: None,
    };
    assert!(resolve_icon(&desc).is_none());
}
