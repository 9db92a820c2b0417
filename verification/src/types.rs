//! The content snapshot model: a captured clipboard item (text or image),
//! its content hash and access metadata, and the read-side search filter.

use vstd::prelude::*;
use vstd::string::{StrSliceExecFns, StringExecFns};
use vstd::utf8::encode_utf8;
use crate::clock::now_millis;
use crate::digest::{digest_string, digest_of_bytes};
use crate::strutil::{contains_seq, dec_str, str_contains, str_eq, u64_to_dec};

verus! {

/// The tag of a snapshot's payload.
#[derive(Debug, Clone, Copy, PartialEq, Eq, Structural)]
pub enum ContentType {
    Text,
    Image,
}

/// The encoding of a captured image payload.
#[derive(Debug, Clone, Copy, PartialEq, Eq, Structural)]
pub enum ImageFormat {
    Png,
    Jpeg,
    Gif,
    Bmp,
}

/// A captured image: its raw encoded bytes, encoding and pixel dimensions.
#[derive(Debug, Clone)]
pub struct ImageData {
    pub data: Vec<u8>,
    pub format: ImageFormat,
    pub width: u32,
    pub height: u32,
}

/// The payload of a snapshot: UTF-8 text, or an encoded image.
#[derive(Debug, Clone)]
pub enum ClipboardContent {
    Text(String),
    Image(ImageData),
}

/// One captured clipboard snapshot with its content hash and access
/// metadata. `id` stays `None` until the store assigns one on insert.
#[derive(Debug, Clone)]
pub struct ClipboardItem {
    pub id: Option<i64>,
    pub content_type: ContentType,
    pub content: ClipboardContent,
    pub content_hash: String,
    pub content_size: usize,
    pub created_at: i64,
    pub accessed_at: i64,
    pub access_count: u32,
    pub is_favorite: bool,
}

/// Mathematical model of an image payload.
pub struct ImageModel {
    pub data: Seq<u8>,
    pub format: ImageFormat,
    pub width: u32,
    pub height: u32,
}

/// Mathematical model of a payload.
pub enum ContentModel {
    Text(Seq<char>),
    Image(ImageModel),
}

/// Mathematical model of a snapshot.
pub struct ItemModel {
    pub id: Option<int>,
    pub content_type: ContentType,
    pub content: ContentModel,
    pub content_hash: Seq<char>,
    pub content_size: int,
    pub created_at: int,
    pub accessed_at: int,
    pub access_count: int,
    pub is_favorite: bool,
}

impl View for ImageData {
    type V = ImageModel;

    open spec fn view(&self) -> ImageModel {
        ImageModel { data: self.data@, format: self.format, width: self.width, height: self.height }
    }
}

impl View for ClipboardContent {
    type V = ContentModel;

    open spec fn view(&self) -> ContentModel {
        match self {
            ClipboardContent::Text(s) => ContentModel::Text(s@),
            ClipboardContent::Image(d) => ContentModel::Image(d@),
        }
    }
}

impl View for ClipboardItem {
    type V = ItemModel;

    open spec fn view(&self) -> ItemModel {
        ItemModel {
            id: match self.id {
                Option::Some(v) => Option::Some(v as int),
                Option::None => Option::None,
            },
            content_type: self.content_type,
            content: self.content@,
            content_hash: self.content_hash@,
            content_size: self.content_size as int,
            created_at: self.created_at as int,
            accessed_at: self.accessed_at as int,
            access_count: self.access_count as int,
            is_favorite: self.is_favorite,
        }
    }
}

/// The bytes a payload is hashed and measured over: the UTF-8 encoding of
/// text, or the raw encoded bytes of an image.
pub open spec fn payload_bytes(c: ContentModel) -> Seq<u8> {
    match c {
        ContentModel::Text(s) => encode_utf8(s),
        ContentModel::Image(im) => im.data,
    }
}

/// A well-formed snapshot: the tag agrees with the payload, the size is the
/// payload's byte length, the hash is the digest of the payload bytes, the
/// access metadata is in range and capture never postdates access.
pub open spec fn item_wf(m: ItemModel) -> bool {
    &&& (m.content_type == ContentType::Text <==> m.content is Text)
    &&& (m.content_type == ContentType::Image <==> m.content is Image)
    &&& m.content_size == payload_bytes(m.content).len()
    &&& m.content_hash == digest_string(payload_bytes(m.content))
    &&& 0 <= m.created_at <= m.accessed_at
    &&& 0 <= m.access_count <= u32::MAX
}

/// The snapshot `new_text` constructs at time `now`.
pub open spec fn text_item_model(text: Seq<char>, now: int) -> ItemModel {
    ItemModel {
        id: Option::None,
        content_type: ContentType::Text,
        content: ContentModel::Text(text),
        content_hash: digest_string(encode_utf8(text)),
        content_size: encode_utf8(text).len() as int,
        created_at: now,
        accessed_at: now,
        access_count: 0,
        is_favorite: false,
    }
}

/// The snapshot `new_image` constructs at time `now`.
pub open spec fn image_item_model(im: ImageModel, now: int) -> ItemModel {
    ItemModel {
        id: Option::None,
        content_type: ContentType::Image,
        content: ContentModel::Image(im),
        content_hash: digest_string(im.data),
        content_size: im.data.len() as int,
        created_at: now,
        accessed_at: now,
        access_count: 0,
        is_favorite: false,
    }
}

/// The snapshot after one recorded access at time `now`: the access count
/// grows by one (saturating at the counter's width) and the access time
/// never moves backwards.
pub open spec fn access_updated(m: ItemModel, now: int) -> ItemModel {
    ItemModel {
        accessed_at: if m.accessed_at >= now {
            m.accessed_at
        } else {
            now
        },
        access_count: if m.access_count < u32::MAX {
            m.access_count + 1
        } else {
            m.access_count
        },
        ..m
    }
}

/// What `preview` shows: the text itself, shortened to `max` characters
/// with an ellipsis, or a description of an image payload.
pub open spec fn preview_spec(m: ItemModel, max: int) -> Seq<char> {
    match m.content {
        ContentModel::Text(t) => if t.len() <= max {
            t
        } else {
            t.take(max) + "..."@
        },
        ContentModel::Image(im) => "Image ("@ + dec_str(im.width as u64) + "x"@ + dec_str(
            im.height as u64,
        ) + ", "@ + dec_str(im.data.len() as u64) + " bytes)"@,
    }
}

/// Duplicate a byte vector, preserving its contents.
fn clone_bytes(v: &Vec<u8>) -> (r: Vec<u8>)
    ensures
        r@ == v@,
{
    let r = v.clone();
    proof {
        assert(r@ =~= v@);
    }
    r
}

impl ImageData {
    /// Package raw encoded image bytes with their format and dimensions.
    pub fn new(data: Vec<u8>, format: ImageFormat, width: u32, height: u32) -> (r: Self)
        ensures
            r@ == (ImageModel { data: data@, format, width, height }),
    {
        Self { data, format, width, height }
    }

    /// A copy of this image payload with the same contents.
    pub fn duplicate(&self) -> (r: Self)
        ensures
            r@ == self@,
    {
        Self {
            data: clone_bytes(&self.data),
            format: self.format,
            width: self.width,
            height: self.height,
        }
    }
}

/// `from_mime_type` per MIME string.
pub open spec fn format_of_mime(s: Seq<char>) -> Option<ImageFormat> {
    if s == "image/png"@ {
        Option::Some(ImageFormat::Png)
    } else if s == "image/jpeg"@ || s == "image/jpg"@ {
        Option::Some(ImageFormat::Jpeg)
    } else if s == "image/gif"@ {
        Option::Some(ImageFormat::Gif)
    } else if s == "image/bmp"@ {
        Option::Some(ImageFormat::Bmp)
    } else {
        Option::None
    }
}

/// The MIME string of a format.
pub open spec fn mime_of_format(f: ImageFormat) -> Seq<char> {
    match f {
        ImageFormat::Png => "image/png"@,
        ImageFormat::Jpeg => "image/jpeg"@,
        ImageFormat::Gif => "image/gif"@,
        ImageFormat::Bmp => "image/bmp"@,
    }
}

/// The file extension of a format.
pub open spec fn extension_of_format(f: ImageFormat) -> Seq<char> {
    match f {
        ImageFormat::Png => "png"@,
        ImageFormat::Jpeg => "jpg"@,
        ImageFormat::Gif => "gif"@,
        ImageFormat::Bmp => "bmp"@,
    }
}

impl ImageFormat {
    /// The format a MIME type names, if it is one the library stores.
    pub fn from_mime_type(mime_type: &str) -> (r: Option<Self>)
        ensures
            r == format_of_mime(mime_type@),
    {
        if str_eq(mime_type, "image/png") {
            Some(ImageFormat::Png)
        } else if str_eq(mime_type, "image/jpeg") || str_eq(mime_type, "image/jpg") {
            Some(ImageFormat::Jpeg)
        } else if str_eq(mime_type, "image/gif") {
            Some(ImageFormat::Gif)
        } else if str_eq(mime_type, "image/bmp") {
            Some(ImageFormat::Bmp)
        } else {
            None
        }
    }

    /// The MIME type of this format.
    pub fn to_mime_type(&self) -> (r: &'static str)
        ensures
            r@ == mime_of_format(*self),
    {
        match self {
            ImageFormat::Png => "image/png",
            ImageFormat::Jpeg => "image/jpeg",
            ImageFormat::Gif => "image/gif",
            ImageFormat::Bmp => "image/bmp",
        }
    }

    /// The conventional file extension of this format.
    pub fn file_extension(&self) -> (r: &'static str)
        ensures
            r@ == extension_of_format(*self),
    {
        match self {
            ImageFormat::Png => "png",
            ImageFormat::Jpeg => "jpg",
            ImageFormat::Gif => "gif",
            ImageFormat::Bmp => "bmp",
        }
    }
}

impl ClipboardContent {
    /// A copy of this payload with the same contents.
    pub fn duplicate(&self) -> (r: Self)
        ensures
            r@ == self@,
    {
        match self {
            ClipboardContent::Text(s) => ClipboardContent::Text(s.clone()),
            ClipboardContent::Image(d) => ClipboardContent::Image(d.duplicate()),
        }
    }
}

impl ClipboardItem {
    /// A fresh text snapshot captured at clock time `now_ms`.
    pub fn new_text_at(content: String, now_ms: i64) -> (r: Self)
        requires
            now_ms >= 0,
        ensures
            r@ == text_item_model(content@, now_ms as int),
            item_wf(r@),
    {
        let bytes = content.as_str().as_bytes();
        let content_size = bytes.len();
        let content_hash = digest_of_bytes(bytes);
        Self {
            id: None,
            content_type: ContentType::Text,
            content: ClipboardContent::Text(content),
            content_hash,
            content_size,
            created_at: now_ms,
            accessed_at: now_ms,
            access_count: 0,
            is_favorite: false,
        }
    }

    /// A fresh text snapshot captured now; hashes the text's UTF-8 bytes.
    pub fn new_text(content: String) -> (r: Self)
        ensures
            r@ == text_item_model(content@, r@.created_at),
            r@.created_at >= 0,
            item_wf(r@),
    {
        let now = now_millis();
        Self::new_text_at(content, now)
    }

    /// A fresh image snapshot captured at clock time `now_ms`.
    pub fn new_image_at(image_data: ImageData, now_ms: i64) -> (r: Self)
        requires
            now_ms >= 0,
        ensures
            r@ == image_item_model(image_data@, now_ms as int),
            item_wf(r@),
    {
        let content_size = image_data.data.len();
        let content_hash = digest_of_bytes(image_data.data.as_slice());
        Self {
            id: None,
            content_type: ContentType::Image,
            content: ClipboardContent::Image(image_data),
            content_hash,
            content_size,
            created_at: now_ms,
            accessed_at: now_ms,
            access_count: 0,
            is_favorite: false,
        }
    }

    /// A fresh image snapshot captured now; hashes the raw encoded bytes.
    pub fn new_image(image_data: ImageData) -> (r: Self)
        ensures
            r@ == image_item_model(image_data@, r@.created_at),
            r@.created_at >= 0,
            item_wf(r@),
    {
        let now = now_millis();
        Self::new_image_at(image_data, now)
    }

    /// A fresh text snapshot captured now.
    pub fn new(content: String) -> (r: Self)
        ensures
            r@ == text_item_model(content@, r@.created_at),
            r@.created_at >= 0,
            item_wf(r@),
    {
        Self::new_text(content)
    }

    /// A copy of this snapshot with the same contents.
    pub fn duplicate(&self) -> (r: Self)
        ensures
            r@ == self@,
    {
        Self {
            id: self.id,
            content_type: self.content_type,
            content: self.content.duplicate(),
            content_hash: self.content_hash.clone(),
            content_size: self.content_size,
            created_at: self.created_at,
            accessed_at: self.accessed_at,
            access_count: self.access_count,
            is_favorite: self.is_favorite,
        }
    }

    /// A short rendering for display: text shortened to `max_length`
    /// characters (with an ellipsis when shortened), or the dimensions and
    /// size of an image.
    pub fn preview(&self, max_length: usize) -> (r: String)
        ensures
            r@ == preview_spec(self@, max_length as int),
    {
        match &self.content {
            ClipboardContent::Text(text) => {
                let n = text.as_str().unicode_len();
                if n <= max_length {
                    text.clone()
                } else {
                    let mut s = text.as_str().substring_char(0, max_length).to_owned();
                    s.append("...");
                    s
                }
            },
            ClipboardContent::Image(image_data) => {
                let mut s = String::from_str("Image (");
                s.append(u64_to_dec(image_data.width as u64).as_str());
                s.append("x");
                s.append(u64_to_dec(image_data.height as u64).as_str());
                s.append(", ");
                s.append(u64_to_dec(image_data.data.len() as u64).as_str());
                s.append(" bytes)");
                s
            },
        }
    }

    /// The text payload, if this is a text snapshot.
    pub fn get_text_content(&self) -> (r: Option<&str>)
        ensures
            match self@.content {
                ContentModel::Text(t) => r is Some && r->0@ == t,
                ContentModel::Image(_) => r is None,
            },
    {
        match &self.content {
            ClipboardContent::Text(text) => Some(text.as_str()),
            _ => None,
        }
    }

    /// The image payload, if this is an image snapshot.
    pub fn get_image_data(&self) -> (r: Option<&ImageData>)
        ensures
            match self@.content {
                ContentModel::Image(im) => r is Some && r->0@ == im,
                ContentModel::Text(_) => r is None,
            },
    {
        match &self.content {
            ClipboardContent::Image(image_data) => Some(image_data),
            _ => None,
        }
    }

    /// Record one access at clock time `now_ms`: bump the counter and move
    /// the access time forward (never backwards).
    pub fn update_access_at(&mut self, now_ms: i64)
        ensures
            final(self)@ == access_updated(old(self)@, now_ms as int),
    {
        if self.accessed_at < now_ms {
            self.accessed_at = now_ms;
        }
        if self.access_count < u32::MAX {
            self.access_count = self.access_count + 1;
        }
    }

    /// Record one access now.
    pub fn update_access(&mut self)
        ensures
            exists|now: int|
                #![auto]
                now >= 0 && final(self)@ == access_updated(old(self)@, now),
            final(self)@.accessed_at >= old(self)@.accessed_at,
    {
        let now = now_millis();
        self.update_access_at(now);
    }
}

/// Mathematical model of a search filter.
pub struct FilterModel {
    pub query: Seq<char>,
    pub content_type: Option<ContentType>,
    pub favorites_only: bool,
    pub date_range: Option<(int, int)>,
}

/// The read-side search filter: substring query (empty means no
/// restriction), optional content-type restriction, favorites-only flag and
/// optional capture-time range.
#[derive(Debug, Clone)]
pub struct SearchFilter {
    pub query: String,
    pub content_type: Option<ContentType>,
    pub favorites_only: bool,
    pub date_range: Option<(i64, i64)>,
}

impl View for SearchFilter {
    type V = FilterModel;

    open spec fn view(&self) -> FilterModel {
        FilterModel {
            query: self.query@,
            content_type: self.content_type,
            favorites_only: self.favorites_only,
            date_range: match self.date_range {
                Option::Some((a, b)) => Option::Some((a as int, b as int)),
                Option::None => Option::None,
            },
        }
    }
}

/// The filter that restricts nothing.
pub open spec fn default_filter() -> FilterModel {
    FilterModel {
        query: Seq::empty(),
        content_type: Option::None,
        favorites_only: false,
        date_range: Option::None,
    }
}

impl Default for SearchFilter {
    /// The unrestricted filter: empty query, no type restriction, not
    /// favorites-only, no time range.
    fn default() -> (r: Self)
        ensures
            r@ == default_filter(),
    {
        let r = Self {
            query: String::new(),
            content_type: None,
            favorites_only: false,
            date_range: None,
        };
        proof {
            assert(r@.query =~= default_filter().query);
        }
        r
    }
}

/// The substring restriction: an empty query matches everything; a
/// non-empty query matches only text snapshots whose text contains it, so
/// image snapshots are excluded whenever a query is supplied.
pub open spec fn matches_query(m: ItemModel, query: Seq<char>) -> bool {
    query.len() == 0 || (m.content is Text && contains_seq(m.content->Text_0, query))
}

/// The content-type restriction: no restriction, or an exact tag match.
pub open spec fn matches_type(m: ItemModel, t: Option<ContentType>) -> bool {
    match t {
        Option::None => true,
        Option::Some(ct) => m.content_type == ct,
    }
}

/// The favorites restriction.
pub open spec fn matches_favorite(m: ItemModel, favorites_only: bool) -> bool {
    !favorites_only || m.is_favorite
}

/// A snapshot matches a filter when it satisfies every active restriction;
/// composition is conjunctive.
pub open spec fn filter_matches(m: ItemModel, f: FilterModel) -> bool {
    &&& matches_query(m, f.query)
    &&& matches_type(m, f.content_type)
    &&& matches_favorite(m, f.favorites_only)
}

/// Whether `item` satisfies every active restriction of `filter`.
pub fn matches_filter(item: &ClipboardItem, filter: &SearchFilter) -> (r: bool)
    ensures
        r == filter_matches(item@, filter@),
{
    let query_ok = if filter.query.as_str().is_empty() {
        true
    } else {
        match &item.content {
            ClipboardContent::Text(text) => str_contains(text.as_str(), filter.query.as_str()),
            ClipboardContent::Image(_) => false,
        }
    };
    let type_ok = match &filter.content_type {
        None => true,
        Some(ct) => *ct == item.content_type,
    };
    let favorite_ok = !filter.favorites_only || item.is_favorite;
    query_ok && type_ok && favorite_ok
}

/// A filter with only the substring restriction of `f` active.
pub open spec fn query_only(f: FilterModel) -> FilterModel {
    FilterModel { query: f.query, ..default_filter() }
}

/// A filter with only the content-type restriction of `f` active.
pub open spec fn type_only(f: FilterModel) -> FilterModel {
    FilterModel { content_type: f.content_type, ..default_filter() }
}

/// A filter with only the favorites restriction of `f` active.
pub open spec fn favorite_only(f: FilterModel) -> FilterModel {
    FilterModel { favorites_only: f.favorites_only, ..default_filter() }
}

/// Filter composition is conjunctive: a snapshot matches a composed filter
/// exactly when it matches each individual active restriction on its own.
pub proof fn lemma_filter_composition(m: ItemModel, f: FilterModel)
    ensures
        filter_matches(m, f) <==> (filter_matches(m, query_only(f)) && filter_matches(
            m,
            type_only(f),
        ) && filter_matches(m, favorite_only(f))),
{
}

/// Every snapshot matches the default filter.
pub proof fn lemma_default_filter_matches_all(m: ItemModel)
    ensures
        filter_matches(m, default_filter()),
{
}

/// An action the read side can ask for on a stored snapshot.
#[derive(Debug)]
pub enum ItemAction {
    Copy(String),
    Delete(i64),
    ClearAll,
    UpdateAccess(i64),
    ToggleFavorite(i64),
    OpenSettings,
    ToggleTheme,
    DoubleClickCopy(String),
}

} // verus!
