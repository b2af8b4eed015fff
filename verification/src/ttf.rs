//! A loaded font, as far as the library looks into it: its glyph table.
//!
//! The engine is called by whoever embeds the library. For each of its
//! operations the library says what the engine is to be handed, and decides
//! what its answer means.
use crate::error::{Error, Ttf2MeshError, TTF_DONE};
use crate::glyph::Glyph;
use crate::quality::Quality;
use core::marker::PhantomData;
use vstd::prelude::*;

verus! {

/// Whether a character lies in the Basic Multilingual Plane, where one UTF-16
/// code unit writes it. The engine looks glyphs up by one such unit, so these
/// are the characters that a font can be asked for.
pub open spec fn in_bmp(c: char) -> bool {
    (c as u32) < 0x10000
}

/// A decoded font. It holds a list of [`Glyph`]s.
#[derive(Debug)]
pub struct TTFFile {
    nglyphs: usize,
}

/// The question that [`TTFFile::glyph_from_char`] puts to the engine: which
/// glyph of the font stands for the UTF-16 code unit of a character. It borrows the font until
/// the glyph it leads to is let go.
#[derive(Debug)]
pub struct GlyphLookup<'a> {
    unit: u16,
    nglyphs: usize,
    _font: PhantomData<&'a mut TTFFile>,
}

/// What a load asks of the engine. [`TTFFile::from_buffer_vec`] and
/// [`TTFFile::from_file`] make one. It keeps the buffer to load from, if
/// there is one, until the load is over.
#[derive(Debug)]
pub struct FontLoad {
    data: Option<Vec<u8>>,
    size: Option<i32>,
    headers_only: bool,
}

/// What [`TTFFile::export_to_obj`] asks of the engine: to write every glyph
/// of the font, as a 2d mesh of one quality, into an obj file.
#[derive(Debug)]
pub struct ObjExport {
    quality: u8,
}

impl TTFFile {
    /// The number of glyphs in the font.
    pub closed spec fn glyphs(&self) -> nat {
        self.nglyphs as nat
    }

    /// Load a font from a memory buffer: says what to ask of the engine.
    /// [`FontLoad::complete`] takes the engine's answer.
    ///
    /// The engine is handed the whole buffer and parses all of the font. The
    /// buffer is taken over, since the engine works in it: the request keeps
    /// it, and it goes when the load is over.
    pub fn from_buffer_vec(data: Vec<u8>) -> (request: FontLoad)
        requires
            data@.len() <= i32::MAX,
        ensures
            request.data_spec() == Some(data@),
            request.size_spec() == Some(data@.len() as i32),
            !request.headers_only_spec(),
    {
        let size: i32 = data.len() as i32;
        FontLoad { data: Some(data), size: Some(size), headers_only: false }
    }

    /// Load a font from a file: says what to ask of the engine, and whether
    /// to ask at all. `exists` tells whether there is a file at the path.
    /// [`FontLoad::complete`] takes the engine's answer.
    ///
    /// Where there is no file the engine is not asked, and the load fails
    /// with `FileNotFound`. Else the engine reads the file and parses all of
    /// the font.
    pub fn from_file(exists: bool) -> (result: Result<FontLoad, Error>)
        ensures
            exists ==> result is Ok && result->Ok_0.data_spec() is None
                && result->Ok_0.size_spec() is None && !result->Ok_0.headers_only_spec(),
            !exists ==> result is Err && result->Err_0 == Error::FileNotFound,
    {
        if !exists {
            return Err(Error::FileNotFound);
        }
        Ok(FontLoad { data: None, size: None, headers_only: false })
    }

    fn load(error: i32, nglyphs: Option<usize>) -> (result: Result<TTFFile, Error>)
        ensures
            error == TTF_DONE && nglyphs is Some ==> result is Ok && result->Ok_0.glyphs()
                == nglyphs->Some_0,
            error != TTF_DONE || nglyphs is None ==> result is Err && result->Err_0
                == Error::FontLoadError(Ttf2MeshError::of_status(error)),
    {
        if error != TTF_DONE {
            return Err(Error::FontLoadError(Ttf2MeshError::from(error)));
        }
        match nglyphs {
            Some(nglyphs) => Ok(TTFFile { nglyphs }),
            None => Err(Error::FontLoadError(Ttf2MeshError::from(error))),
        }
    }

    /// Export all glyphs to a .obj file: says what to ask of the engine.
    /// [`ObjExport::complete`] takes the engine's answer.
    pub fn export_to_obj(&mut self, quality: Quality) -> (request: ObjExport)
        ensures
            *final(self) == *old(self),
            request.quality_spec() == quality.number(),
    {
        ObjExport { quality: quality.as_u8() }
    }

    /// Get a glyph for a character: says what to ask of the engine, and
    /// whether to ask at all. [`GlyphLookup::complete`] takes the engine's
    /// answer.
    ///
    /// The engine is asked for the UTF-16 code unit of the character. A
    /// character outside the Basic Multilingual Plane has no single unit: the
    /// engine is not asked for it, whatever the font holds, and the lookup
    /// fails with `GlyphNotFound`.
    pub fn glyph_from_char<'a>(&'a mut self, char: char) -> (result: Result<
        GlyphLookup<'a>,
        Error,
    >)
        ensures
            *final(self) == *old(self),
            in_bmp(char) ==> result is Ok && result->Ok_0.unit_spec() == char as u16
                && result->Ok_0.glyphs() == old(self).glyphs(),
            !in_bmp(char) ==> result is Err && result->Err_0 == Error::GlyphNotFound,
    {
        let code: u32 = char as u32;
        if code >= 0x10000 {
            return Err(Error::GlyphNotFound);
        }
        Ok(GlyphLookup { unit: code as u16, nglyphs: self.nglyphs, _font: PhantomData })
    }

    /// Total count of glyphs in the font.
    pub fn glyph_count(&self) -> (count: usize)
        ensures
            count == self.glyphs(),
    {
        self.nglyphs
    }

    /// Get a glyph by its index. See also [`TTFFile::glyph_from_char`]
    pub fn glyph_by_index<'a>(&'a mut self, index: usize) -> (result: Result<Glyph<'a>, Error>)
        ensures
            *final(self) == *old(self),
            index < old(self).glyphs() ==> result is Ok && result->Ok_0.index_spec() == index,
            index >= old(self).glyphs() ==> result is Err && result->Err_0
                == Error::GlyphNotFound,
    {
        if index < self.nglyphs {
            Ok(Glyph::from_raw(index))
        } else {
            Err(Error::GlyphNotFound)
        }
    }
}

impl<'a> GlyphLookup<'a> {
    /// The code unit to ask the engine for.
    pub closed spec fn unit_spec(&self) -> u16 {
        self.unit
    }

    /// The number of glyphs in the font that is asked.
    pub closed spec fn glyphs(&self) -> nat {
        self.nglyphs as nat
    }

    /// The code unit to ask the engine for.
    pub fn unit(&self) -> (unit: u16)
        ensures
            unit == self.unit_spec(),
    {
        self.unit
    }

    /// Decides what the engine's answer means. `found` is the index it gave:
    /// negative where no glyph of the font stands for the code unit.
    ///
    /// An index inside the glyph table gives that glyph, any other
    /// `GlyphNotFound`.
    pub fn complete(self, found: i32) -> (result: Result<Glyph<'a>, Error>)
        ensures
            0 <= found < self.glyphs() ==> result is Ok && result->Ok_0.index_spec() == found,
            found < 0 || found >= self.glyphs() ==> result is Err && result->Err_0
                == Error::GlyphNotFound,
    {
        if found < 0 {
            return Err(Error::GlyphNotFound);
        }
        let index: usize = found as usize;
        if index < self.nglyphs {
            Ok(Glyph::from_raw(index))
        } else {
            Err(Error::GlyphNotFound)
        }
    }
}

impl FontLoad {
    /// The buffer that the engine is to parse; `None` where it is to read a
    /// file.
    pub closed spec fn data_spec(&self) -> Option<Seq<u8>> {
        match self.data {
            Some(data) => Some(data@),
            None => None,
        }
    }

    /// The length of the buffer that the engine is to parse; `None` where it
    /// is to read a file.
    pub closed spec fn size_spec(&self) -> Option<i32> {
        self.size
    }

    /// Whether the engine is to stop after the headers of the font.
    pub closed spec fn headers_only_spec(&self) -> bool {
        self.headers_only
    }

    /// The buffer that the engine is to parse; `None` where it is to read a
    /// file.
    pub fn data(&self) -> (data: Option<&Vec<u8>>)
        ensures
            self.data_spec() matches Some(bytes) ==> data is Some && data->Some_0@ == bytes,
            self.data_spec() is None ==> data is None,
    {
        self.data.as_ref()
    }

    /// The length of the buffer that the engine is to parse; `None` where it
    /// is to read a file.
    pub fn size(&self) -> (size: Option<i32>)
        ensures
            size == self.size_spec(),
    {
        self.size
    }

    /// Whether the engine is to stop after the headers of the font.
    pub fn headers_only(&self) -> (headers_only: bool)
        ensures
            headers_only == self.headers_only_spec(),
    {
        self.headers_only
    }

    /// Decides what the engine's answer means. `error` is the status it
    /// reported, `nglyphs` the size of the glyph table of the font it handed
    /// over, `None` where it handed over none.
    ///
    /// The font is loaded where the status is `TTF_DONE` and there is a font.
    /// Any other answer is a `FontLoadError` with the status as its reason.
    pub fn complete(self, error: i32, nglyphs: Option<usize>) -> (result: Result<TTFFile, Error>)
        ensures
            error == TTF_DONE && nglyphs is Some ==> result is Ok && result->Ok_0.glyphs()
                == nglyphs->Some_0,
            error != TTF_DONE || nglyphs is None ==> result is Err && result->Err_0
                == Error::FontLoadError(Ttf2MeshError::of_status(error)),
    {
        TTFFile::load(error, nglyphs)
    }
}

impl ObjExport {
    /// The number that tells the engine the quality.
    pub closed spec fn quality_spec(&self) -> u8 {
        self.quality
    }

    /// The number that tells the engine the quality.
    pub fn quality(&self) -> (number: u8)
        ensures
            number == self.quality_spec(),
    {
        self.quality
    }

    /// Decides what the engine's answer means. `error` is the status it
    /// reported: any but `TTF_DONE` is an `ObjExportError` with the status as
    /// its reason.
    pub fn complete(self, error: i32) -> (result: Result<(), Error>)
        ensures
            error == TTF_DONE ==> result is Ok,
            error != TTF_DONE ==> result is Err && result->Err_0 == Error::ObjExportError(
                Ttf2MeshError::of_status(error),
            ),
    {
        if error != TTF_DONE {
            return Err(Error::ObjExportError(Ttf2MeshError::from(error)));
        }
        Ok(())
    }
}

} // verus!
