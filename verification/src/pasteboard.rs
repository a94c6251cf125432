//! What is read from the pasteboard and what is written back to it.

use vstd::prelude::*;
use crate::links::{file_url, file_url_of, parse_url, parsed_url};
use crate::models::{bytes_view, ClipboardItem, ImageFormat, ItemView};

verus! {

/// One representation as the pasteboard reports it: its kind, and the data
/// that the pasteboard gave for that kind, if it gave any.
#[derive(Debug)]
pub enum Representation {
    /// Plain text.
    Text(Option<String>),
    /// PNG image data.
    Png(Option<Vec<u8>>),
    /// TIFF image data.
    Tiff(Option<Vec<u8>>),
    /// The text of a URL.
    Url(Option<String>),
    /// A file: the path that its URL names, and the bytes of its icon.
    FileUrl { path: Option<String>, icon_bytes: Option<Vec<u8>> },
    /// Any other kind.
    Other,
}

/// What a [`Representation`] holds, as mathematical values.
pub enum RepresentationView {
    Text(Option<Seq<char>>),
    Png(Option<Seq<u8>>),
    Tiff(Option<Seq<u8>>),
    Url(Option<Seq<char>>),
    FileUrl { path: Option<Seq<char>>, icon_bytes: Option<Seq<u8>> },
    Other,
}

/// The characters of an optional string.
pub open spec fn text_view(text: Option<String>) -> Option<Seq<char>> {
    match text {
        Some(t) => Some(t@),
        None => None,
    }
}

impl DeepView for Representation {
    type V = RepresentationView;

    open spec fn deep_view(&self) -> RepresentationView {
        match *self {
            Representation::Text(text) => RepresentationView::Text(text_view(text)),
            Representation::Png(bytes) => RepresentationView::Png(bytes_view(bytes)),
            Representation::Tiff(bytes) => RepresentationView::Tiff(bytes_view(bytes)),
            Representation::Url(text) => RepresentationView::Url(text_view(text)),
            Representation::FileUrl { path, icon_bytes } => RepresentationView::FileUrl {
                path: text_view(path),
                icon_bytes: bytes_view(icon_bytes),
            },
            Representation::Other => RepresentationView::Other,
        }
    }
}

impl View for Representation {
    type V = RepresentationView;

    open spec fn view(&self) -> RepresentationView {
        self.deep_view()
    }
}

/// The item that a representation becomes, given what the URL parser made of
/// its text: `None` where the kind is not one that the history keeps, where
/// the pasteboard gave no data for it, or where a URL did not parse.
pub open spec fn decoded_with(
    rep: RepresentationView,
    parsed: Option<Seq<char>>,
) -> Option<ItemView> {
    match rep {
        RepresentationView::Text(Some(text)) => Some(ItemView::Text(text)),
        RepresentationView::Png(Some(bytes)) => Some(
            ItemView::Image { bytes, format: ImageFormat::Png },
        ),
        RepresentationView::Tiff(Some(bytes)) => Some(
            ItemView::Image { bytes, format: ImageFormat::Tiff },
        ),
        RepresentationView::Url(Some(_)) => match parsed {
            Some(url) => Some(ItemView::Url(url)),
            None => None,
        },
        RepresentationView::FileUrl { path: Some(path), icon_bytes } => Some(
            ItemView::File { path, icon_bytes },
        ),
        _ => None,
    }
}

/// The item that a representation becomes.
pub open spec fn decoded(rep: RepresentationView) -> Option<ItemView> {
    match rep {
        RepresentationView::Url(Some(text)) => decoded_with(rep, parsed_url(text)),
        _ => decoded_with(rep, None),
    }
}

/// The items that a sequence of representations becomes: one for each
/// representation that decodes, in the same order.
pub open spec fn decoded_all(reps: Seq<RepresentationView>) -> Seq<ItemView>
    decreases reps.len(),
{
    if reps.len() == 0 {
        Seq::empty()
    } else {
        let before = decoded_all(reps.drop_last());
        match decoded(reps.last()) {
            Some(item) => before.push(item),
            None => before,
        }
    }
}

/// Decodes one representation, given what the URL parser made of its text
/// (which only a URL representation with text reads).
pub fn decode_with(rep: Representation, parsed: Option<String>) -> (item: Option<ClipboardItem>)
    ensures
        item.deep_view() == decoded_with(rep@, text_view(parsed)),
{
    match rep {
        Representation::Text(Some(text)) => Some(ClipboardItem::Text(text)),
        Representation::Png(Some(bytes)) => Some(
            ClipboardItem::Image { bytes, format: ImageFormat::Png },
        ),
        Representation::Tiff(Some(bytes)) => Some(
            ClipboardItem::Image { bytes, format: ImageFormat::Tiff },
        ),
        Representation::Url(Some(_)) => match parsed {
            Some(url) => Some(ClipboardItem::Url(url)),
            None => None,
        },
        Representation::FileUrl { path: Some(path), icon_bytes } => Some(
            ClipboardItem::File { path, icon_bytes },
        ),
        _ => None,
    }
}

/// Decodes one representation, parsing the text of a URL.
pub fn decode(rep: Representation) -> (item: Option<ClipboardItem>)
    ensures
        item.deep_view() == decoded(rep@),
{
    let parsed = match &rep {
        Representation::Url(Some(text)) => parse_url(text.as_str()),
        _ => None,
    };
    decode_with(rep, parsed)
}

/// Decodes what was read from the pasteboard into the items of one copy:
/// one item for each representation that decodes, in the same order.
pub fn collect_items(reps: Vec<Representation>) -> (items: Vec<ClipboardItem>)
    ensures
        items.deep_view() == decoded_all(reps.deep_view()),
{
    let ghost elems = reps@;
    let ghost all = reps.deep_view();
    let mut items: Vec<ClipboardItem> = Vec::new();
    for rep in it: reps
        invariant
            it.seq() == elems,
            all.len() == elems.len(),
            forall|i: int| 0 <= i < elems.len() ==> all[i] == elems[i].deep_view(),
            items.deep_view() == decoded_all(all.take(it.index())),
    {
        assert(all.take(it.index() + 1).drop_last() =~= all.take(it.index()));
        if let Some(item) = decode(rep) {
            items.push(item);
        }
    }
    assert(all.take(all.len() as int) =~= all);
    items
}

/// One write to the pasteboard: the type that is set, and its data.
#[derive(Debug, PartialEq, Eq)]
pub enum PasteboardWrite {
    /// Plain text.
    Text(String),
    /// The text of a URL.
    Url(String),
    /// The text of a `file` URL.
    FileUrl(String),
    /// PNG image data.
    Png(Vec<u8>),
    /// TIFF image data.
    Tiff(Vec<u8>),
}

/// What a [`PasteboardWrite`] holds, as mathematical values.
pub enum WriteView {
    Text(Seq<char>),
    Url(Seq<char>),
    FileUrl(Seq<char>),
    Png(Seq<u8>),
    Tiff(Seq<u8>),
}

impl DeepView for PasteboardWrite {
    type V = WriteView;

    open spec fn deep_view(&self) -> WriteView {
        match *self {
            PasteboardWrite::Text(text) => WriteView::Text(text@),
            PasteboardWrite::Url(text) => WriteView::Url(text@),
            PasteboardWrite::FileUrl(text) => WriteView::FileUrl(text@),
            PasteboardWrite::Png(bytes) => WriteView::Png(bytes@),
            PasteboardWrite::Tiff(bytes) => WriteView::Tiff(bytes@),
        }
    }
}

impl View for PasteboardWrite {
    type V = WriteView;

    open spec fn view(&self) -> WriteView {
        self.deep_view()
    }
}

/// The write that puts an item back on the pasteboard, given the `file` URL
/// that was made of its path: `None` for an image in a format that the
/// pasteboard has no type for, and for a file whose path gave no URL.
pub open spec fn planned_write_with(item: ItemView, url: Option<Seq<char>>) -> Option<WriteView> {
    match item {
        ItemView::Text(text) => Some(WriteView::Text(text)),
        ItemView::Url(text) => Some(WriteView::Url(text)),
        ItemView::Image { bytes, format: ImageFormat::Png } => Some(WriteView::Png(bytes)),
        ItemView::Image { bytes, format: ImageFormat::Tiff } => Some(WriteView::Tiff(bytes)),
        ItemView::Image { .. } => None,
        ItemView::File { .. } => match url {
            Some(text) => Some(WriteView::FileUrl(text)),
            None => None,
        },
    }
}

/// The write that puts an item back on the pasteboard.
pub open spec fn planned_write(item: ItemView) -> Option<WriteView> {
    match item {
        ItemView::File { path, .. } => planned_write_with(item, file_url_of(path)),
        _ => planned_write_with(item, None),
    }
}

/// The writes that put a sequence of items back on the pasteboard: one for
/// each item that has one, in the same order.
pub open spec fn planned_writes(items: Seq<ItemView>) -> Seq<WriteView>
    decreases items.len(),
{
    if items.len() == 0 {
        Seq::empty()
    } else {
        let before = planned_writes(items.drop_last());
        match planned_write(items.last()) {
            Some(write) => before.push(write),
            None => before,
        }
    }
}

/// Plans the write for one item, given the `file` URL that was made of its
/// path (which only a file item reads).
pub fn write_with(item: &ClipboardItem, url: Option<String>) -> (write: Option<PasteboardWrite>)
    ensures
        write.deep_view() == planned_write_with(item@, text_view(url)),
{
    match item {
        ClipboardItem::Text(text) => Some(PasteboardWrite::Text(text.clone())),
        ClipboardItem::Url(text) => Some(PasteboardWrite::Url(text.clone())),
        ClipboardItem::Image { bytes, format } => match format {
            ImageFormat::Png => Some(PasteboardWrite::Png(bytes.clone())),
            ImageFormat::Tiff => Some(PasteboardWrite::Tiff(bytes.clone())),
            _ => None,
        },
        ClipboardItem::File { .. } => match url {
            Some(text) => Some(PasteboardWrite::FileUrl(text)),
            None => None,
        },
    }
}

/// Plans the write for one item, converting the path of a file to a URL.
pub fn write_for(item: &ClipboardItem) -> (write: Option<PasteboardWrite>)
    ensures
        write.deep_view() == planned_write(item@),
{
    let url = match item {
        ClipboardItem::File { path, .. } => file_url(path.as_str()),
        _ => None,
    };
    write_with(item, url)
}

/// Plans the writes that put the items of an entry back on the pasteboard,
/// in the order in which they were captured. An item that has no write is
/// skipped; the others are still written.
pub fn pasteboard_writes(items: &Vec<ClipboardItem>) -> (writes: Vec<PasteboardWrite>)
    ensures
        writes.deep_view() == planned_writes(items.deep_view()),
{
    let ghost all = items.deep_view();
    let mut writes: Vec<PasteboardWrite> = Vec::new();
    let mut i: usize = 0;
    while i < items.len()
        invariant
            i <= items.len(),
            all == items.deep_view(),
            all.len() == items.len(),
            writes.deep_view() == planned_writes(all.take(i as int)),
        decreases items.len() - i,
    {
        assert(all.take(i + 1).drop_last() =~= all.take(i as int));
        if let Some(write) = write_for(&items[i]) {
            writes.push(write);
        }
        i += 1;
    }
    assert(all.take(all.len() as int) =~= all);
    writes
}

} // verus!
