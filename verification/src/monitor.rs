//! Change detection for the clipboard poller: which observations become
//! snapshots, and how the last-seen state evolves. The polling loop itself
//! (clipboard reads, the timer and the handoff channel) lives outside the
//! library and feeds every observation through these steps.

use vstd::prelude::*;
use vstd::slice::slice_index_get;
use crate::digest::{digest_string, digest_of_bytes};
use crate::strutil::{is_blank, str_is_blank};
use crate::types::{
    ClipboardItem, ImageData, ImageFormat, ImageModel, image_item_model, text_item_model,
};

verus! {

/// The PNG file signature.
pub open spec fn starts_png(d: Seq<u8>) -> bool {
    d[0] == 0x89 && d[1] == 0x50 && d[2] == 0x4e && d[3] == 0x47 && d[4] == 0x0d && d[5] == 0x0a
        && d[6] == 0x1a && d[7] == 0x0a
}

/// The JPEG file signature.
pub open spec fn starts_jpeg(d: Seq<u8>) -> bool {
    d[0] == 0xff && d[1] == 0xd8 && d[2] == 0xff
}

/// The GIF file signatures (GIF87a and GIF89a).
pub open spec fn starts_gif(d: Seq<u8>) -> bool {
    d[0] == 0x47 && d[1] == 0x49 && d[2] == 0x46 && d[3] == 0x38 && (d[4] == 0x37 || d[4] == 0x39)
        && d[5] == 0x61
}

/// The BMP file signature ("BM").
pub open spec fn starts_bmp(d: Seq<u8>) -> bool {
    d[0] == 0x42 && d[1] == 0x4d
}

/// The format a buffer's leading bytes announce. Buffers shorter than
/// eight bytes are never recognised; unrecognised data is never stored as
/// an image.
pub open spec fn detected_format(d: Seq<u8>) -> Option<ImageFormat> {
    if d.len() < 8 {
        Option::None
    } else if starts_png(d) {
        Option::Some(ImageFormat::Png)
    } else if starts_jpeg(d) {
        Option::Some(ImageFormat::Jpeg)
    } else if starts_gif(d) {
        Option::Some(ImageFormat::Gif)
    } else if starts_bmp(d) {
        Option::Some(ImageFormat::Bmp)
    } else {
        Option::None
    }
}

/// Sniff an image buffer's encoding from its leading bytes.
pub fn detect_image_format(data: &[u8]) -> (r: Option<ImageFormat>)
    ensures
        r == detected_format(data@),
{
    if data.len() < 8 {
        return None;
    }
    let b0 = *slice_index_get(data, 0);
    let b1 = *slice_index_get(data, 1);
    let b2 = *slice_index_get(data, 2);
    let b3 = *slice_index_get(data, 3);
    let b4 = *slice_index_get(data, 4);
    let b5 = *slice_index_get(data, 5);
    let b6 = *slice_index_get(data, 6);
    let b7 = *slice_index_get(data, 7);
    if b0 == 0x89 && b1 == 0x50 && b2 == 0x4e && b3 == 0x47 && b4 == 0x0d && b5 == 0x0a && b6
        == 0x1a && b7 == 0x0a {
        Some(ImageFormat::Png)
    } else if b0 == 0xff && b1 == 0xd8 && b2 == 0xff {
        Some(ImageFormat::Jpeg)
    } else if b0 == 0x47 && b1 == 0x49 && b2 == 0x46 && b3 == 0x38 && (b4 == 0x37 || b4 == 0x39)
        && b5 == 0x61 {
        Some(ImageFormat::Gif)
    } else if b0 == 0x42 && b1 == 0x4d {
        Some(ImageFormat::Bmp)
    } else {
        None
    }
}

/// Mathematical model of the monitor's last-seen state.
pub struct MonitorModel {
    pub last_text: Seq<char>,
    pub last_image_hash: Option<Seq<char>>,
    pub is_running: bool,
}

/// The monitor's last-seen state: the text and image-hash baselines change
/// detection compares against. Text and image are mutually exclusive "last
/// change" trackers — a text change clears the image baseline and vice
/// versa, mirroring the single logical clipboard slot.
pub struct MonitorState {
    pub last_text: String,
    pub last_image_hash: Option<String>,
    pub is_running: bool,
}

impl View for MonitorState {
    type V = MonitorModel;

    open spec fn view(&self) -> MonitorModel {
        MonitorModel {
            last_text: self.last_text@,
            last_image_hash: match self.last_image_hash {
                Option::Some(h) => Option::Some(h@),
                Option::None => Option::None,
            },
            is_running: self.is_running,
        }
    }
}

/// An observed text is a change worth emitting when it differs from the
/// baseline and is not blank.
pub open spec fn text_is_new(m: MonitorModel, current: Seq<char>) -> bool {
    current != m.last_text && !is_blank(current)
}

/// An observed image is a change worth emitting when its digest differs
/// from the image baseline.
pub open spec fn image_is_new(m: MonitorModel, data: Seq<u8>) -> bool {
    m.last_image_hash != Option::Some(digest_string(data))
}

impl MonitorState {
    /// A monitor that has seen nothing and is not running.
    pub fn new() -> (r: Self)
        ensures
            r@.last_text.len() == 0,
            r@.last_image_hash is None,
            !r@.is_running,
    {
        MonitorState { last_text: String::new(), last_image_hash: None, is_running: false }
    }

    /// Mark the monitor running and take the clipboard's current text (when
    /// one could be read) as the baseline, so pre-existing content is not
    /// re-emitted as new. Idempotent: when already running nothing changes
    /// and the caller is told not to launch another polling loop.
    pub fn start(&mut self, initial_text: Option<String>) -> (started: bool)
        ensures
            old(self)@.is_running ==> !started && final(self)@ == old(self)@,
            !old(self)@.is_running ==> {
                &&& started
                &&& final(self)@.is_running
                &&& final(self)@.last_text == match initial_text {
                    Option::Some(t) => t@,
                    Option::None => old(self)@.last_text,
                }
                &&& final(self)@.last_image_hash == old(self)@.last_image_hash
            },
    {
        if self.is_running {
            return false;
        }
        self.is_running = true;
        match initial_text {
            Some(t) => {
                self.last_text = t;
            },
            None => {},
        }
        true
    }

    /// Mark the monitor as not running. The polling loop's actual
    /// termination is driven by channel closure, not by this flag.
    pub fn stop(&mut self)
        ensures
            !final(self)@.is_running,
            final(self)@.last_text == old(self)@.last_text,
            final(self)@.last_image_hash == old(self)@.last_image_hash,
    {
        self.is_running = false;
    }

    /// Record that the library itself wrote `content` to the clipboard:
    /// the text baseline moves so the write is not re-captured as a new
    /// change on the next poll.
    pub fn note_clipboard_write(&mut self, content: &str)
        ensures
            final(self)@.last_text == content@,
            final(self)@.last_image_hash == old(self)@.last_image_hash,
            final(self)@.is_running == old(self)@.is_running,
    {
        self.last_text = content.to_owned();
    }

    /// One poll step over the clipboard's text: emit a snapshot exactly
    /// when the text differs from the baseline and is not blank; then the
    /// text baseline moves and the image baseline is cleared. Anything
    /// else leaves the state untouched and emits nothing.
    pub fn observe_text(&mut self, current: String, now_ms: i64) -> (r: Option<ClipboardItem>)
        requires
            now_ms >= 0,
        ensures
            text_is_new(old(self)@, current@) ==> {
                &&& r is Some
                &&& r->0@ == text_item_model(current@, now_ms as int)
                &&& final(self)@.last_text == current@
                &&& final(self)@.last_image_hash is None
                &&& final(self)@.is_running == old(self)@.is_running
            },
            !text_is_new(old(self)@, current@) ==> r is None && final(self)@ == old(self)@,
    {
        let differs = !(current == self.last_text);
        if differs && !str_is_blank(current.as_str()) {
            let item = ClipboardItem::new_text_at(current.clone(), now_ms);
            self.last_text = current;
            self.last_image_hash = None;
            Some(item)
        } else {
            None
        }
    }

    /// One poll step over the clipboard's image: when the buffer's digest
    /// differs from the image baseline and its leading bytes announce a
    /// known format, emit an image snapshot, move the image baseline and
    /// clear the text baseline. An unrecognised buffer is dropped silently
    /// and changes nothing; an unchanged digest emits nothing.
    pub fn observe_image(&mut self, data: Vec<u8>, width: u32, height: u32, now_ms: i64) -> (r:
        Option<ClipboardItem>)
        requires
            now_ms >= 0,
        ensures
            image_is_new(old(self)@, data@) && detected_format(data@) is Some ==> {
                &&& r is Some
                &&& r->0@ == image_item_model(
                    ImageModel {
                        data: data@,
                        format: detected_format(data@)->0,
                        width,
                        height,
                    },
                    now_ms as int,
                )
                &&& final(self)@.last_image_hash == Option::Some(digest_string(data@))
                &&& final(self)@.last_text.len() == 0
                &&& final(self)@.is_running == old(self)@.is_running
            },
            !(image_is_new(old(self)@, data@) && detected_format(data@) is Some) ==> r is None
                && final(self)@ == old(self)@,
    {
        let hash = digest_of_bytes(data.as_slice());
        let changed = match &self.last_image_hash {
            None => true,
            Some(h) => !(*h == hash),
        };
        if changed {
            match detect_image_format(data.as_slice()) {
                Some(format) => {
                    let image = ImageData::new(data, format, width, height);
                    let item = ClipboardItem::new_image_at(image, now_ms);
                    self.last_image_hash = Some(hash);
                    self.last_text = String::new();
                    Some(item)
                },
                None => None,
            }
        } else {
            None
        }
    }
}

} // verus!
