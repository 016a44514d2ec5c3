use docklett::item::{Item, ItemKind};
use docklett::popup::{opens_popup, Popup, Rect};
use docklett::scan::DirEntry;

fn folder() -> Item {
    Item::folder("file:///r/sub".to_string())
}

fn at_pointer() -> Rect {
    Rect {
        x: 900,
        y: 1000,
        width: 120,
        height: 40,
    }
}

#[test]
fn right_click_on_folder_opens() {
    assert!(opens_popup(&folder(), 3, true));
}

#[test]
fn other_clicks_or_kinds_do_not_open() {
    assert!(!opens_popup(&folder(), 1, true));
    assert!(!opens_popup(&folder(), 3, false));
    let file = Item::file(
        "file:///r/a.txt".to_string(),
        "text-x-generic".to_string(),
    );
    assert!(!opens_popup(&file, 3, true));
    let bin = Item {
        kind: ItemKind::Bin,
    };
    assert!(!opens_popup(&bin, 3, true));
}

#[test]
fn popup_holds_the_folder_scan() {
    let entries = vec![
        DirEntry {
            name: "x.txt".to_string(),
            is_dir: false,
        },
        DirEntry {
            name: ".secret".to_string(),
            is_dir: false,
        },
        DirEntry {
            name: "inner".to_string(),
            is_dir: true,
        },
    ];
    let p = Popup::open_over(&folder(), &entries, at_pointer());
    assert!(p.open);
    assert_eq!(p.bounds, at_pointer());
    assert_eq!(p.items.len(), 2);
    match &p.items[0].kind {
        ItemKind::File(uri, icon) => {
            assert_eq!(uri, "file:///r/sub/x.txt");
            assert_eq!(icon, "text-x-generic");
        }
        _ => panic!("x.txt should classify as a plain file"),
    }
    match &p.items[1].kind {
        ItemKind::Folder(uri) => assert_eq!(uri, "file:///r/sub/inner"),
        _ => panic!("inner should classify as a folder"),
    }
}

#[test]
fn popup_from_empty_folder_is_open_and_empty() {
    let p = Popup::open_over(&folder(), &Vec::new(), at_pointer());
    assert!(p.open);
    assert!(p.items.is_empty());
}

#[test]
fn leave_inside_keeps_popup_open() {
    let mut p = Popup::open_over(&folder(), &Vec::new(), at_pointer());
    p.on_leave(950, 1020);
    assert!(p.open);
}

#[test]
fn leave_outside_destroys_popup() {
    let mut p = Popup::open_over(&folder(), &Vec::new(), at_pointer());
    p.on_leave(10, 10);
    assert!(!p.open);
    // a later leave cannot revive it
    p.on_leave(950, 1020);
    assert!(!p.open);
}

#[test]
fn leave_outside_one_axis_destroys_popup() {
    // x inside, y below the popup's bottom edge
    let mut p = Popup::open_over(&folder(), &Vec::new(), at_pointer());
    p.on_leave(950, 1100);
    assert!(!p.open);
}
