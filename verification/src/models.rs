//! The clipboard data model and its mathematical views.

use vstd::prelude::*;
use vstd::std_specs::cmp::PartialEqSpec;

verus! {

/// Encoding of an image payload.
#[derive(Clone, Copy, Debug, PartialEq, Eq, Structural)]
pub enum ImageFormat {
    Png,
    Jpeg,
    Webp,
    Gif,
    Svg,
    Bmp,
    Tiff,
    Ico,
}

/// A point in time: whole seconds since the Unix epoch and the nanoseconds
/// past that second.
#[derive(Clone, Copy, Debug, PartialEq, Eq, Structural)]
pub struct Timestamp {
    pub secs: i64,
    pub nanos: u32,
}

/// One representation of a clipboard copy.
#[derive(Debug)]
pub enum ClipboardItem {
    /// Plain text.
    Text(String),
    /// A link, held as the text of the parsed URL.
    Url(String),
    /// A file on disk, with the PNG bytes of its icon when they could be had.
    File { path: String, icon_bytes: Option<Vec<u8>> },
    /// Encoded image bytes and their format.
    Image { bytes: Vec<u8>, format: ImageFormat },
}

/// What a [`ClipboardItem`] holds, as mathematical values.
pub enum ItemView {
    Text(Seq<char>),
    Url(Seq<char>),
    File { path: Seq<char>, icon_bytes: Option<Seq<u8>> },
    Image { bytes: Seq<u8>, format: ImageFormat },
}

/// The bytes of an optional byte vector.
pub open spec fn bytes_view(bytes: Option<Vec<u8>>) -> Option<Seq<u8>> {
    match bytes {
        Some(b) => Some(b@),
        None => None,
    }
}

impl DeepView for ClipboardItem {
    type V = ItemView;

    open spec fn deep_view(&self) -> ItemView {
        match *self {
            ClipboardItem::Text(text) => ItemView::Text(text@),
            ClipboardItem::Url(url) => ItemView::Url(url@),
            ClipboardItem::File { path, icon_bytes } => ItemView::File {
                path: path@,
                icon_bytes: bytes_view(icon_bytes),
            },
            ClipboardItem::Image { bytes, format } => ItemView::Image { bytes: bytes@, format },
        }
    }
}

impl View for ClipboardItem {
    type V = ItemView;

    open spec fn view(&self) -> ItemView {
        self.deep_view()
    }
}

fn bytes_equal(a: &Vec<u8>, b: &Vec<u8>) -> (same: bool)
    ensures
        same == (a@ == b@),
{
    let same = a == b;
    assert(same == (a@ =~= b@));
    same
}

fn icons_equal(a: &Option<Vec<u8>>, b: &Option<Vec<u8>>) -> (same: bool)
    ensures
        same == (bytes_view(*a) == bytes_view(*b)),
{
    match (a, b) {
        (Some(x), Some(y)) => bytes_equal(x, y),
        (None, None) => true,
        _ => false,
    }
}

impl PartialEq for ClipboardItem {
    /// Two items are equal when they are the same kind of representation and
    /// hold the same content.
    fn eq(&self, other: &ClipboardItem) -> (same: bool) {
        match (self, other) {
            (ClipboardItem::Text(a), ClipboardItem::Text(b)) => *a == *b,
            (ClipboardItem::Url(a), ClipboardItem::Url(b)) => *a == *b,
            (
                ClipboardItem::File { path: path_a, icon_bytes: icon_a },
                ClipboardItem::File { path: path_b, icon_bytes: icon_b },
            ) => *path_a == *path_b && icons_equal(icon_a, icon_b),
            (
                ClipboardItem::Image { bytes: bytes_a, format: format_a },
                ClipboardItem::Image { bytes: bytes_b, format: format_b },
            ) => bytes_equal(bytes_a, bytes_b) && *format_a == *format_b,
            _ => false,
        }
    }
}

impl vstd::std_specs::cmp::PartialEqSpecImpl for ClipboardItem {
    open spec fn obeys_eq_spec() -> bool {
        true
    }

    open spec fn eq_spec(&self, other: &ClipboardItem) -> bool {
        self@ == other@
    }
}

impl Eq for ClipboardItem {}

impl Clone for ClipboardItem {
    fn clone(&self) -> (copy: ClipboardItem)
        ensures
            copy@ == self@,
    {
        match self {
            ClipboardItem::Text(text) => ClipboardItem::Text(text.clone()),
            ClipboardItem::Url(url) => ClipboardItem::Url(url.clone()),
            ClipboardItem::File { path, icon_bytes } => ClipboardItem::File {
                path: path.clone(),
                icon_bytes: match icon_bytes {
                    Some(bytes) => Some(bytes.clone()),
                    None => None,
                },
            },
            ClipboardItem::Image { bytes, format } => ClipboardItem::Image {
                bytes: bytes.clone(),
                format: *format,
            },
        }
    }
}

/// One clipboard copy: the representations it carried, in the order in which
/// they were captured, and the time at which it was last seen.
#[derive(Debug)]
pub struct ClipboardEntry {
    pub timestamp: Timestamp,
    pub items: Vec<ClipboardItem>,
}

/// What a [`ClipboardEntry`] holds, as mathematical values.
pub struct EntryView {
    pub timestamp: Timestamp,
    pub items: Seq<ItemView>,
}

impl DeepView for ClipboardEntry {
    type V = EntryView;

    open spec fn deep_view(&self) -> EntryView {
        EntryView { timestamp: self.timestamp, items: self.items.deep_view() }
    }
}

impl View for ClipboardEntry {
    type V = EntryView;

    open spec fn view(&self) -> EntryView {
        self.deep_view()
    }
}

/// Whether two item sequences are the same logical copy: equal element by
/// element, in order.
pub fn same_items(a: &Vec<ClipboardItem>, b: &Vec<ClipboardItem>) -> (same: bool)
    ensures
        same == (a.deep_view() == b.deep_view()),
{
    let same = *a == *b;
    proof {
        assert(a.deep_view().len() == a.len() && b.deep_view().len() == b.len());
        if same {
            assert(a.deep_view() =~= b.deep_view());
        } else if a.len() == b.len() {
            let i = choose|i: int| 0 <= i < a.len() && !(#[trigger] a[i].eq_spec(&b[i]));
            assert(a.deep_view()[i] != b.deep_view()[i]);
        }
    }
    same
}

/// An independent copy of an item sequence.
pub fn copy_items(items: &Vec<ClipboardItem>) -> (copy: Vec<ClipboardItem>)
    ensures
        copy.deep_view() == items.deep_view(),
{
    items.clone()
}

impl Clone for ClipboardEntry {
    fn clone(&self) -> (copy: ClipboardEntry)
        ensures
            copy@ == self@,
    {
        ClipboardEntry { timestamp: self.timestamp, items: copy_items(&self.items) }
    }
}

} // verus!
