//! Turns display requests into frames and frames into a payload. A batch is
//! all or nothing: the first message that cannot be resolved fails the whole
//! batch, before anything is sent.
use vstd::prelude::*;
use vstd::string::{StrSliceExecFns, StringExecFns};
use crate::bitmap::{from_pixels, is_pixel_grid, is_text_raster, raster_fits, rasterize, Bitmap};
use crate::font::{font_of, lookup, resolution_text, ResolutionError};
use crate::payload::{Frame, Payload};
use crate::style::{resolve, resolved, StyleOptions};

verus! {

/// What a message shows, with an explicit discriminant.
#[derive(Clone, Debug, PartialEq, Eq)]
pub enum Content {
    /// Text drawn in the font of a family code and subtype key.
    Text { text: String, family: u8, subtype: String },
    /// Row-major pixels at `width` pixels a row.
    RawPixels { pixels: Vec<bool>, width: usize },
}

/// One requested message: its content and its raw display options.
#[derive(Clone, Debug, PartialEq, Eq)]
pub struct Message {
    pub content: Content,
    pub speed: u8,
    pub mode: String,
    pub effects: Vec<String>,
}

/// Why `content` cannot become a bitmap, if it cannot.
pub open spec fn content_error(content: Content) -> Option<ResolutionError> {
    match content {
        Content::Text { text, family, subtype } => text_error(text@, family, subtype@),
        Content::RawPixels { pixels, width } => pixels_error(pixels@, width),
    }
}

/// `b` is the bitmap of `content` shown with `style`. Text is inverted when
/// the style says so; raw pixels are taken as they are.
pub open spec fn content_bitmap(content: Content, style: StyleOptions, b: Bitmap) -> bool {
    match content {
        Content::Text { text, family, subtype } => text_bitmap_of(
            b,
            text@,
            family,
            subtype@,
            style.invert,
        ),
        Content::RawPixels { pixels, width } => is_pixel_grid(b, pixels@, width as int),
    }
}

/// `f` is the frame of message `m`.
pub open spec fn message_frame(m: Message, f: Frame) -> bool {
    &&& f.style == resolved(m.speed, m.mode@, m.effects@)
    &&& content_bitmap(m.content, f.style, f.bitmap)
}

/// Why text in the font of `family` and `subtype` cannot become a bitmap, if
/// it cannot.
pub open spec fn text_error(text: Seq<char>, family: u8, subtype: Seq<char>) -> Option<
    ResolutionError,
> {
    match font_of(family, subtype) {
        Err(e) => Some(e),
        Ok((_, face)) => if raster_fits(text, face) {
            None
        } else {
            Some(ResolutionError::TooLarge)
        },
    }
}

/// `b` is `text` drawn in the font of `family` and `subtype`.
pub open spec fn text_bitmap_of(
    b: Bitmap,
    text: Seq<char>,
    family: u8,
    subtype: Seq<char>,
    invert: bool,
) -> bool {
    match font_of(family, subtype) {
        Ok((_, face)) => is_text_raster(b, text, face, invert),
        Err(_) => false,
    }
}

/// Why raw pixels at `width` pixels a row cannot become a bitmap, if they cannot.
pub open spec fn pixels_error(pixels: Seq<bool>, width: usize) -> Option<ResolutionError> {
    if width == 0 {
        Some(ResolutionError::ZeroWidth)
    } else if pixels.len() + width > usize::MAX {
        Some(ResolutionError::TooLarge)
    } else {
        None
    }
}

/// Draws `text` in the font of `family` and `subtype`.
pub fn text_to_bitmap(text: &str, family: u8, subtype: &str, invert: bool) -> (r: Result<
    Bitmap,
    ResolutionError,
>)
    ensures
        match text_error(text@, family, subtype@) {
            Some(e) => r == Err::<Bitmap, ResolutionError>(e),
            None => r matches Ok(b) && text_bitmap_of(b, text@, family, subtype@, invert),
        },
{
    let font = match lookup(family, subtype) {
        Ok(f) => f,
        Err(e) => {
            return Err(e);
        },
    };
    let n = text.unicode_len();
    let fits = match (n as u128).checked_mul(font.cell_width as u128) {
        Some(a) => match a.checked_mul(font.cell_height as u128) {
            Some(t) => t <= usize::MAX as u128,
            None => false,
        },
        None => false,
    };
    if !fits {
        return Err(ResolutionError::TooLarge);
    }
    Ok(rasterize(text, font, invert))
}

/// Wraps raw pixels at `width` pixels a row.
pub fn pixels_to_bitmap(pixels: &Vec<bool>, width: usize) -> (r: Result<Bitmap, ResolutionError>)
    ensures
        match pixels_error(pixels@, width) {
            Some(e) => r == Err::<Bitmap, ResolutionError>(e),
            None => r matches Ok(b) && is_pixel_grid(b, pixels@, width as int),
        },
{
    if width == 0 {
        Err(ResolutionError::ZeroWidth)
    } else if pixels.len() > usize::MAX - width {
        Err(ResolutionError::TooLarge)
    } else {
        Ok(from_pixels(pixels, width))
    }
}

/// The bitmap of some content.
pub fn content_to_bitmap(content: &Content, style: StyleOptions) -> (r: Result<
    Bitmap,
    ResolutionError,
>)
    ensures
        match content_error(*content) {
            Some(e) => r == Err::<Bitmap, ResolutionError>(e),
            None => r matches Ok(b) && content_bitmap(*content, style, b),
        },
{
    match content {
        Content::Text { text, family, subtype } => text_to_bitmap(
            text.as_str(),
            *family,
            subtype.as_str(),
            style.invert,
        ),
        Content::RawPixels { pixels, width } => pixels_to_bitmap(pixels, *width),
    }
}

/// The frame of one message.
pub fn message_to_frame(m: &Message) -> (r: Result<Frame, ResolutionError>)
    ensures
        match content_error(m.content) {
            Some(e) => r == Err::<Frame, ResolutionError>(e),
            None => r matches Ok(f) && message_frame(*m, f),
        },
{
    let style = resolve(m.speed, m.mode.as_str(), &m.effects);
    match content_to_bitmap(&m.content, style) {
        Ok(bitmap) => Ok(Frame { style, bitmap }),
        Err(e) => Err(e),
    }
}

/// Index of the first message of `msgs` that cannot be resolved, if any.
pub open spec fn first_error_at(msgs: Seq<Message>, i: int) -> bool {
    &&& 0 <= i < msgs.len()
    &&& content_error(msgs[i].content) is Some
    &&& forall|j: int| 0 <= j < i ==> content_error(#[trigger] msgs[j].content) is None
}

/// Builds the payload of a batch of messages, one frame per message in the
/// order given. Fails with the error of the first message that cannot be
/// resolved, and then builds nothing.
pub fn compose_messages(msgs: &Vec<Message>) -> (r: Result<Payload, ResolutionError>)
    ensures
        r is Ok <==> forall|i: int| 0 <= i < msgs@.len() ==> content_error(
            #[trigger] msgs@[i].content,
        ) is None,
        r matches Ok(p) ==> p@.len() == msgs@.len() && forall|i: int|
            0 <= i < msgs@.len() ==> message_frame(msgs@[i], #[trigger] p@[i]),
        r matches Err(e) ==> exists|i: int|
            first_error_at(msgs@, i) && content_error(msgs@[i].content) == Some(e),
{
    let mut payload = Payload::new();
    let mut i: usize = 0;
    while i < msgs.len()
        invariant
            i <= msgs@.len(),
            payload@.len() == i,
            forall|j: int| 0 <= j < i ==> content_error(#[trigger] msgs@[j].content) is None,
            forall|j: int| 0 <= j < i ==> message_frame(msgs@[j], #[trigger] payload@[j]),
        decreases msgs@.len() - i,
    {
        match message_to_frame(&msgs[i]) {
            Ok(f) => {
                payload = payload.append(f.style, f.bitmap);
            },
            Err(e) => {
                assert(first_error_at(msgs@, i as int));
                return Err(e);
            },
        }
        i = i + 1;
    }
    Ok(payload)
}

/// The payload of one text message.
pub fn compose_text(
    text: &str,
    speed: u8,
    mode: &str,
    effects: &Vec<String>,
    family: u8,
    subtype: &str,
) -> (r: Result<Payload, ResolutionError>)
    ensures
        match text_error(text@, family, subtype@) {
            Some(e) => r == Err::<Payload, ResolutionError>(e),
            None => r matches Ok(p) && p@.len() == 1 && p@[0].style == resolved(
                speed,
                mode@,
                effects@,
            ) && text_bitmap_of(p@[0].bitmap, text@, family, subtype@, p@[0].style.invert),
        },
{
    let style = resolve(speed, mode, effects);
    match text_to_bitmap(text, family, subtype, style.invert) {
        Ok(bitmap) => Ok(Payload::new().append(style, bitmap)),
        Err(e) => Err(e),
    }
}

/// The payload of one message of raw pixels.
pub fn compose_drawable(
    pixels: &Vec<bool>,
    width: usize,
    speed: u8,
    mode: &str,
    effects: &Vec<String>,
) -> (r: Result<Payload, ResolutionError>)
    ensures
        match pixels_error(pixels@, width) {
            Some(e) => r == Err::<Payload, ResolutionError>(e),
            None => r matches Ok(p) && p@.len() == 1 && p@[0].style == resolved(
                speed,
                mode@,
                effects@,
            ) && is_pixel_grid(p@[0].bitmap, pixels@, width as int),
        },
{
    let style = resolve(speed, mode, effects);
    match pixels_to_bitmap(pixels, width) {
        Ok(bitmap) => Ok(Payload::new().append(style, bitmap)),
        Err(e) => Err(e),
    }
}

/// The text reported for a request that could not be composed; nothing was
/// sent to the badge.
pub fn report_unresolved(e: &ResolutionError) -> (r: String)
    ensures
        r@ == "Something went wrong: "@ + resolution_text(*e),
{
    let mut s = String::from_str("Something went wrong: ");
    s.append(e.message().as_str());
    s
}

} // verus!
