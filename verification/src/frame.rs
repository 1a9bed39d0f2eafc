//! The slot that holds the latest captured frame for the live preview.

use vstd::prelude::*;

verus! {

/// The standard, padded base64 text of `bytes`.
pub uninterp spec fn base64_standard(bytes: Seq<u8>) -> Seq<char>;

/// Encodes with `base64::engine::general_purpose::STANDARD`, through
/// `Engine::encode`. The contract gives the text its name. The length bound
/// keeps away from the inputs on which the encoder cannot size its buffer.
#[verifier::external_body]
fn encode_base64(bytes: &[u8]) -> (r: String)
    requires
        bytes@.len() <= usize::MAX / 2,
    ensures
        r@ == base64_standard(bytes@),
{
    base64::Engine::encode(&base64::engine::general_purpose::STANDARD, bytes)
}

/// The longest frame that is encoded.
pub const FRAME_LIMIT: usize = usize::MAX / 2;

/// The base64 text of the PNG bytes `png`, or `None` for a frame longer than
/// [`FRAME_LIMIT`].
pub fn encode_png(png: &[u8]) -> (r: Option<String>)
    ensures
        r is Some == (png@.len() <= FRAME_LIMIT),
        r matches Some(text) ==> text@ == base64_standard(png@),
{
    if png.len() > FRAME_LIMIT {
        None
    } else {
        Some(encode_base64(png))
    }
}

/// The image shown before any capture has been taken: one pixel.
pub open spec fn placeholder_frame() -> Seq<char> {
    "iVBORw0KGgoAAAANSUhEUgAAAAEAAAABCAYAAAAfFcSJAAAAAXNSR0IArs4c6QAAAA1JREFUCNdj+P///38ACfsD/6EXSgAAAABJRU5ErkJggg=="@
}

/// The latest frame, as base64 text of its PNG bytes. The last write wins.
pub struct LatestFrame {
    pub encoded: Option<String>,
}

impl View for LatestFrame {
    type V = Option<Seq<char>>;

    open spec fn view(&self) -> Option<Seq<char>> {
        match self.encoded {
            Some(s) => Some(s@),
            None => None,
        }
    }
}

impl LatestFrame {
    /// An empty slot.
    pub fn new() -> (r: Self)
        ensures
            r@ is None,
    {
        LatestFrame { encoded: None }
    }

    /// Puts the frame with the PNG bytes `png` into the slot. A frame too
    /// long to be encoded is dropped, and the slot keeps what it had.
    pub fn store(&mut self, png: &[u8]) -> (stored: bool)
        ensures
            stored == (png@.len() <= FRAME_LIMIT),
            final(self)@ == if stored {
                Some(base64_standard(png@))
            } else {
                old(self)@
            },
    {
        match encode_png(png) {
            Some(text) => {
                self.encoded = Some(text);
                true
            },
            None => false,
        }
    }
}

/// The content of a slot as it is shown: the frame, or the placeholder.
pub open spec fn shown_frame(slot: Option<Seq<char>>) -> Seq<char> {
    match slot {
        Some(frame) => frame,
        None => placeholder_frame(),
    }
}

/// The latest frame, or the placeholder while there is none.
pub fn get_latest_frame(slot: &LatestFrame) -> (r: String)
    ensures
        r@ == shown_frame(slot@),
{
    match &slot.encoded {
        Some(data) => data.clone(),
        None => {
            let fallback =
                "iVBORw0KGgoAAAANSUhEUgAAAAEAAAABCAYAAAAfFcSJAAAAAXNSR0IArs4c6QAAAA1JREFUCNdj+P///38ACfsD/6EXSgAAAABJRU5ErkJggg==";
            fallback.to_owned()
        },
    }
}

} // verus!
