use agpui::history::{ASSET_DIR, FEED_LEN, ROW_HEIGHT, VISIBLE_ROWS};
use agpui::{History, HistoryView};

#[test]
fn plain_row_has_default_height() {
    let h = History::new("hello".to_string(), "pic.png".to_string());
    assert_eq!(h.text(), "hello");
    assert_eq!(h.image(), "pic.png");
    assert_eq!(h.height(), ROW_HEIGHT);
    assert_eq!(h.height(), 30);
    assert_eq!(h.hint(), 0);
    assert!(h.aligned_end());
}

#[test]
fn first_numbered_row() {
    let h = History::newWithI(0);
    assert_eq!(h.text(), "Item 0");
    assert_eq!(h.image(), &format!("{}0.png", ASSET_DIR));
    assert_eq!(h.height(), 20);
    assert_eq!(h.hint(), 0);
    assert!(h.aligned_end());
}

#[test]
fn numbered_rows_cycle_images_and_heights() {
    let h = History::newWithI(12);
    assert_eq!(h.text(), "Item 12");
    assert_eq!(h.image(), "G:/research/rustee/agpui/src/assets/1.png");
    assert_eq!(h.height(), 130);
    assert!(h.aligned_end());

    let h = History::newWithI(13);
    assert_eq!(h.text(), "Item 13");
    assert_eq!(h.image(), "G:/research/rustee/agpui/src/assets/2.png");
    assert_eq!(h.height(), 170);
    assert!(!h.aligned_end());

    let heights: Vec<u32> = (0..7).map(|i| History::newWithI(i).height()).collect();
    assert_eq!(heights, vec![20, 30, 50, 70, 110, 130, 170]);
    assert_eq!(History::newWithI(10).image(), "G:/research/rustee/agpui/src/assets/10.png");
    assert_eq!(History::newWithI(11).image(), "G:/research/rustee/agpui/src/assets/0.png");
}

#[test]
fn negative_row_number_wraps_as_unsigned() {
    // -1 read as a 64-bit unsigned value is 2^64 - 1: 4 modulo 11, 1 modulo 7.
    let h = History::newWithI(-1);
    assert_eq!(h.text(), "Item -1");
    assert_eq!(h.image(), "G:/research/rustee/agpui/src/assets/4.png");
    assert_eq!(h.height(), 30);
    assert_eq!(h.hint(), -1);
    assert!(!h.aligned_end());
}

#[test]
fn fresh_feed_holds_numbered_rows() {
    let v = HistoryView::new();
    assert_eq!(v.len(), FEED_LEN as usize);
    assert_eq!(v.len(), 5000);
    assert_eq!(v.row(0).text(), "Item 0");
    assert_eq!(v.row(4999).text(), "Item 4999");
    assert_eq!(v.row(4999).hint(), 4999);
    assert_eq!(v.row(77).image(), "G:/research/rustee/agpui/src/assets/0.png");
    assert_eq!(v.row(77).height(), 20);
}

#[test]
fn feed_shows_leading_rows_only() {
    let v = HistoryView::new();
    assert_eq!(v.visible_count(), VISIBLE_ROWS);
    assert_eq!(v.visible_count(), 100);
}
