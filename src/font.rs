//! The font catalog: a family code and a subtype key name one of the bundled
//! embedded-graphics fonts, or nothing at all.
use vstd::prelude::*;
use vstd::string::StringExecFns;
use crate::text::same_text;
use embedded_graphics::mono_font::iso_8859_1::{FONT_5X8, FONT_6X9};

verus! {

/// Family code of the fixed-width bitmap fonts.
pub const FIXED_MONO_CODE: u8 = 0;

/// Family code of the variable-width bitmap fonts.
pub const VECTOR_BITMAP_CODE: u8 = 1;

/// Font families.
#[derive(Clone, Copy, Debug, PartialEq, Eq, Structural)]
pub enum FontFamily {
    FixedMono,
    VectorBitmap,
}

/// The concrete glyph sets that can be drawn.
#[derive(Clone, Copy, Debug, PartialEq, Eq, Structural)]
pub enum FontFace {
    /// 5 by 8 pixel Latin-1 font.
    Mono5x8,
    /// 6 by 9 pixel Latin-1 font.
    Mono6x9,
}

impl FontFace {
    pub open spec fn spec_cell_width(self) -> int {
        match self {
            FontFace::Mono5x8 => 5,
            FontFace::Mono6x9 => 6,
        }
    }

    pub open spec fn spec_cell_height(self) -> int {
        match self {
            FontFace::Mono5x8 => 8,
            FontFace::Mono6x9 => 9,
        }
    }

    /// Rows from the top of a glyph cell down to the text baseline.
    pub open spec fn spec_glyph_baseline(self) -> int {
        match self {
            FontFace::Mono5x8 => 6,
            FontFace::Mono6x9 => 6,
        }
    }

    /// Display row on which the text baseline is placed, so that every face
    /// ends on the same bottom row of the badge.
    pub open spec fn spec_baseline_row(self) -> int {
        match self {
            FontFace::Mono5x8 => 8,
            FontFace::Mono6x9 => 7,
        }
    }
}

/// Relies on embedded-graphics' `MonoFont` constants `FONT_5X8` and `FONT_6X9`:
/// their character width, character height and baseline.
#[verifier::external_body]
fn face_metrics(face: FontFace) -> (r: (u32, u32, u32))
    ensures
        r.0 as int == face.spec_cell_width(),
        r.1 as int == face.spec_cell_height(),
        r.2 as int == face.spec_glyph_baseline(),
{
    let font = match face {
        FontFace::Mono5x8 => &FONT_5X8,
        FontFace::Mono6x9 => &FONT_6X9,
    };
    (font.character_size.width, font.character_size.height, font.baseline)
}

/// A resolved font: its family, its glyph set and the fixed metrics with which
/// the rasterizer places it.
#[derive(Clone, Copy, Debug, PartialEq, Eq, Structural)]
pub struct FontSpec {
    pub family: FontFamily,
    pub face: FontFace,
    /// Width of a glyph cell, in pixels; also the advance of every glyph.
    pub cell_width: u32,
    /// Height of a glyph cell, in pixels.
    pub cell_height: u32,
    /// Display row on which the text baseline sits.
    pub baseline: u32,
    /// Display row of the top of a glyph cell.
    pub top_row: u32,
}

impl FontSpec {
    /// The metrics match the face.
    pub open spec fn wf(self) -> bool {
        &&& self.cell_width as int == self.face.spec_cell_width()
        &&& self.cell_height as int == self.face.spec_cell_height()
        &&& self.baseline as int == self.face.spec_baseline_row()
        &&& self.top_row as int == self.face.spec_baseline_row()
            - self.face.spec_glyph_baseline()
    }

    /// The font spec of a face.
    pub fn of_face(family: FontFamily, face: FontFace) -> (r: FontSpec)
        ensures
            r.family == family,
            r.face == face,
            r.wf(),
    {
        let (w, h, glyph_baseline) = face_metrics(face);
        let baseline: u32 = match face {
            FontFace::Mono5x8 => 8,
            FontFace::Mono6x9 => 7,
        };
        FontSpec {
            family,
            face,
            cell_width: w,
            cell_height: h,
            baseline,
            top_row: baseline - glyph_baseline,
        }
    }
}

/// Why a message could not be turned into a frame.
#[derive(Clone, Copy, Debug, PartialEq, Eq, Structural)]
pub enum ResolutionError {
    /// The family code names no font family.
    UnknownFamily,
    /// The family has no subtype of that key.
    UnknownSubtype,
    /// Raw pixels were given with a width of zero.
    ZeroWidth,
    /// The bitmap would hold more pixels than memory can address.
    TooLarge,
}

/// The text reported for a resolution error.
pub open spec fn resolution_text(e: ResolutionError) -> Seq<char> {
    match e {
        ResolutionError::UnknownFamily => "unknown font family"@,
        ResolutionError::UnknownSubtype => "unknown font for this family"@,
        ResolutionError::ZeroWidth => "a bitmap needs a width of at least one pixel"@,
        ResolutionError::TooLarge => "the message is too large"@,
    }
}

impl ResolutionError {
    /// A human-readable description of the error.
    pub fn message(&self) -> (r: String)
        ensures
            r@ == resolution_text(*self),
    {
        match self {
            ResolutionError::UnknownFamily => String::from_str("unknown font family"),
            ResolutionError::UnknownSubtype => String::from_str("unknown font for this family"),
            ResolutionError::ZeroWidth => String::from_str(
                "a bitmap needs a width of at least one pixel",
            ),
            ResolutionError::TooLarge => String::from_str("the message is too large"),
        }
    }
}

/// The family and face that a (family code, subtype key) pair names, if any.
pub open spec fn font_of(family_code: u8, subtype: Seq<char>) -> Result<
    (FontFamily, FontFace),
    ResolutionError,
> {
    if family_code == FIXED_MONO_CODE {
        if subtype == "5x8"@ {
            Ok((FontFamily::FixedMono, FontFace::Mono5x8))
        } else if subtype == "6x9"@ {
            Ok((FontFamily::FixedMono, FontFace::Mono6x9))
        } else {
            Err(ResolutionError::UnknownSubtype)
        }
    } else if family_code == VECTOR_BITMAP_CODE {
        // no variable-width face is bundled
        Err(ResolutionError::UnknownSubtype)
    } else {
        Err(ResolutionError::UnknownFamily)
    }
}

/// Looks up a font. Unknown families and subtypes are errors, never replaced
/// by a default.
pub fn lookup(family_code: u8, subtype_key: &str) -> (r: Result<FontSpec, ResolutionError>)
    ensures
        match font_of(family_code, subtype_key@) {
            Ok((family, face)) => r matches Ok(f) && f.family == family && f.face == face
                && f.wf(),
            Err(e) => r == Err::<FontSpec, ResolutionError>(e),
        },
{
    if family_code == FIXED_MONO_CODE {
        if same_text(subtype_key, "5x8") {
            Ok(FontSpec::of_face(FontFamily::FixedMono, FontFace::Mono5x8))
        } else if same_text(subtype_key, "6x9") {
            Ok(FontSpec::of_face(FontFamily::FixedMono, FontFace::Mono6x9))
        } else {
            Err(ResolutionError::UnknownSubtype)
        }
    } else if family_code == VECTOR_BITMAP_CODE {
        Err(ResolutionError::UnknownSubtype)
    } else {
        Err(ResolutionError::UnknownFamily)
    }
}

/// A pair outside the catalog is an error; a pair inside it gives a font with
/// a non-empty cell that lies on the display above its baseline row.
pub proof fn lemma_lookup_outcomes(family_code: u8, subtype: Seq<char>, f: FontSpec)
    requires
        font_of(family_code, subtype) matches Ok((family, face)) ==> f.family == family
            && f.face == face && f.wf(),
    ensures
        font_of(family_code, subtype) is Err <==> !(family_code == FIXED_MONO_CODE && (
        subtype == "5x8"@ || subtype == "6x9"@)),
        font_of(family_code, subtype) is Ok ==> f.cell_height > 0 && f.cell_width > 0
            && f.top_row <= f.baseline,
{
}

} // verus!
