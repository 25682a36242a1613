//! Rows of the chat history feed and the feed itself.
use vstd::prelude::*;

use crate::text::{decimal, int_text};

verus! {

/// Height of a row made from a text and an image, in pixels.
pub const ROW_HEIGHT: u32 = 30;

/// Directory of the numbered row images.
pub const ASSET_DIR: &'static str = "G:/research/rustee/agpui/src/assets/";

/// Number of rows in a fresh feed.
pub const FEED_LEN: i32 = 5000;

/// Number of rows that the feed shows at most.
pub const VISIBLE_ROWS: usize = 100;

/// The row heights that numbered rows cycle through, in pixels.
pub open spec fn row_heights() -> Seq<nat> {
    seq![20, 30, 50, 70, 110, 130, 170]
}

/// `i` read as a 64-bit unsigned value (two's complement), modulo `n`.
pub open spec fn unsigned_index(i: int, n: int) -> int {
    (i % 0x1_0000_0000_0000_0000) % n
}

/// The label of row `i`.
pub open spec fn row_label(i: int) -> Seq<char> {
    "Item "@ + decimal(i)
}

/// The path of image number `k`.
pub open spec fn image_path(k: int) -> Seq<char> {
    ASSET_DIR@ + decimal(k) + ".png"@
}

/// What a row holds.
pub struct HistoryModel {
    pub text: Seq<char>,
    pub image: Seq<char>,
    pub height: nat,
    pub hint: int,
}

/// Row `i` of a fresh feed.
pub open spec fn numbered(i: int) -> HistoryModel {
    HistoryModel {
        text: row_label(i),
        image: image_path(unsigned_index(i, 11)),
        height: row_heights()[unsigned_index(i, 7)],
        hint: i,
    }
}

/// One entry of the history feed: a text, the path of an image, a height in
/// pixels and a hint that decides on which side the row is drawn.
pub struct History {
    text: String,
    image: String,
    height: u32,
    hint: i32,
}

impl View for History {
    type V = HistoryModel;

    closed spec fn view(&self) -> HistoryModel {
        HistoryModel {
            text: self.text@,
            image: self.image@,
            height: self.height as nat,
            hint: self.hint as int,
        }
    }
}

fn unsigned_rem(i: i32, n: u64) -> (r: u64)
    requires
        n > 0,
    ensures
        r as int == unsigned_index(i as int, n as int),
{
    if i >= 0 {
        (i as u64) % n
    } else {
        let a: u64 = (-(i as i64)) as u64;
        assert((i as int) % 0x1_0000_0000_0000_0000 == i + 0x1_0000_0000_0000_0000);
        (u64::MAX - (a - 1)) % n
    }
}

fn row_height(k: u64) -> (r: u32)
    requires
        k < 7,
    ensures
        r as nat == row_heights()[k as int],
{
    let heights: [u32; 7] = [20, 30, 50, 70, 110, 130, 170];
    heights[k as usize]
}

impl History {
    /// A row with the given text and image, of the default height and hint 0.
    pub fn new(text: String, image: String) -> (r: Self)
        ensures
            r@ == (HistoryModel { text: text@, image: image@, height: ROW_HEIGHT as nat, hint: 0 }),
    {
        History { text, image, height: ROW_HEIGHT, hint: 0 }
    }

    /// Row number `i` of a fresh feed.
    #[allow(non_snake_case)]
    pub fn newWithI(i: i32) -> (r: Self)
        ensures
            r@ == numbered(i as int),
    {
        let mut text = String::from_str("Item ");
        text.append(int_text(i as i64).as_str());
        let k = unsigned_rem(i, 11);
        let mut image = String::from_str(ASSET_DIR);
        image.append(int_text(k as i64).as_str());
        image.append(".png");
        let height = row_height(unsigned_rem(i, 7));
        History { text, image, height, hint: i }
    }

    /// Whether the row is drawn against the far edge: rows with an even hint are.
    pub fn aligned_end(&self) -> (r: bool)
        ensures
            r == (self@.hint % 2 == 0),
    {
        self.hint % 2 == 0
    }

    /// The row's text.
    pub fn text(&self) -> (r: &String)
        ensures
            r@ == self@.text,
    {
        &self.text
    }

    /// The path of the row's image.
    pub fn image(&self) -> (r: &String)
        ensures
            r@ == self@.image,
    {
        &self.image
    }

    /// The row's height in pixels.
    pub fn height(&self) -> (r: u32)
        ensures
            r as nat == self@.height,
    {
        self.height
    }

    /// The row's hint.
    pub fn hint(&self) -> (r: i32)
        ensures
            r as int == self@.hint,
    {
        self.hint
    }
}

/// The chat history feed: its rows, in order.
pub struct HistoryView {
    historys: Vec<History>,
}

impl View for HistoryView {
    type V = Seq<HistoryModel>;

    closed spec fn view(&self) -> Seq<HistoryModel> {
        self.historys@.map_values(|h: History| h@)
    }
}

impl HistoryView {
    /// A fresh feed: rows `0` to `FEED_LEN - 1`, each numbered by its place.
    pub fn new() -> (r: Self)
        ensures
            r@.len() == FEED_LEN,
            forall|k: int| 0 <= k < FEED_LEN ==> #[trigger] r@[k] == numbered(k),
    {
        let mut historys: Vec<History> = Vec::new();
        let mut i: i32 = 0;
        while i < FEED_LEN
            invariant
                0 <= i <= FEED_LEN,
                historys@.len() == i,
                forall|k: int| 0 <= k < i ==> #[trigger] historys@[k]@ == numbered(k),
            decreases FEED_LEN - i,
        {
            historys.push(History::newWithI(i));
            i = i + 1;
        }
        let r = HistoryView { historys };
        assert forall|k: int| 0 <= k < FEED_LEN implies #[trigger] r@[k] == numbered(k) by {
            assert(r.historys@[k]@ == numbered(k));
        }
        r
    }

    /// The number of rows in the feed.
    pub fn len(&self) -> (r: usize)
        ensures
            r == self@.len(),
    {
        self.historys.len()
    }

    /// Row `k` of the feed.
    pub fn row(&self, k: usize) -> (r: &History)
        requires
            k < self@.len(),
        ensures
            r@ == self@[k as int],
    {
        &self.historys[k]
    }

    /// The number of leading rows that are shown: all of them, up to `VISIBLE_ROWS`.
    pub fn visible_count(&self) -> (r: usize)
        ensures
            r == if self@.len() < VISIBLE_ROWS { self@.len() } else { VISIBLE_ROWS as nat },
    {
        if self.historys.len() < VISIBLE_ROWS {
            self.historys.len()
        } else {
            VISIBLE_ROWS
        }
    }
}

} // verus!
