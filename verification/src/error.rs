//! Errors of the library, and the errors that the engine's status codes stand for.
use vstd::prelude::*;
use vstd::string::StringExecFns;

verus! {

/// Status the engine reports for a completed operation. Every other status is a failure.
pub const TTF_DONE: i32 = 0;

/// Status: not enough memory.
pub const TTF_ERR_NOMEM: i32 = 1;

/// Status: the file is larger than the engine accepts.
pub const TTF_ERR_SIZE: i32 = 2;

/// Status: the file could not be opened.
pub const TTF_ERR_OPEN: i32 = 3;

/// Status: unsupported file version.
pub const TTF_ERR_VER: i32 = 4;

/// Status: invalid file structure.
pub const TTF_ERR_FMT: i32 = 5;

/// Status: a required table is missing.
pub const TTF_ERR_NOTAB: i32 = 6;

/// Status: invalid file or table checksum.
pub const TTF_ERR_CSUM: i32 = 7;

/// Status: unsupported table format.
pub const TTF_ERR_UTAB: i32 = 8;

/// Status: the mesh could not be created.
pub const TTF_ERR_MESHER: i32 = 9;

/// Status: the glyph has no outline.
pub const TTF_ERR_NO_OUTLINE: i32 = 10;

/// Status: the file could not be written.
pub const TTF_ERR_WRITING: i32 = 11;

/// A failure reported by the engine.
#[derive(Debug, Clone, Copy, PartialEq, Eq, Structural)]
pub enum Ttf2MeshError {
    /// not enough memory
    NoMem,
    /// file size over the engine's limit
    Size,
    /// error opening file
    Open,
    /// unsupported file version
    Ver,
    /// invalid file structure
    Fmt,
    /// no required tables in file
    NoTab,
    /// invalid file or table checksum
    CSum,
    /// unsupported table format
    UTab,
    /// unable to create mesh
    Mesher,
    /// glyph has no outline
    NoOutline,
    /// error writing file
    Writing,
    /// a status the library does not know, kept as it came
    Unknown(i32),
}

impl Ttf2MeshError {
    /// The error that stands for a status of the engine. A status outside
    /// `TTF_ERR_NOMEM ..= TTF_ERR_WRITING` is kept in `Unknown`.
    pub open spec fn of_status(status: i32) -> Ttf2MeshError {
        if status == TTF_ERR_NOMEM {
            Ttf2MeshError::NoMem
        } else if status == TTF_ERR_SIZE {
            Ttf2MeshError::Size
        } else if status == TTF_ERR_OPEN {
            Ttf2MeshError::Open
        } else if status == TTF_ERR_VER {
            Ttf2MeshError::Ver
        } else if status == TTF_ERR_FMT {
            Ttf2MeshError::Fmt
        } else if status == TTF_ERR_NOTAB {
            Ttf2MeshError::NoTab
        } else if status == TTF_ERR_CSUM {
            Ttf2MeshError::CSum
        } else if status == TTF_ERR_UTAB {
            Ttf2MeshError::UTab
        } else if status == TTF_ERR_MESHER {
            Ttf2MeshError::Mesher
        } else if status == TTF_ERR_NO_OUTLINE {
            Ttf2MeshError::NoOutline
        } else if status == TTF_ERR_WRITING {
            Ttf2MeshError::Writing
        } else {
            Ttf2MeshError::Unknown(status)
        }
    }

    /// The text that describes the error.
    pub open spec fn text(self) -> Seq<char> {
        match self {
            Ttf2MeshError::NoMem => "not enough memory (malloc failed)"@,
            Ttf2MeshError::Size => "file size > TTF_MAX_FILE"@,
            Ttf2MeshError::Open => "error opening file"@,
            Ttf2MeshError::Ver => "unsupported file version"@,
            Ttf2MeshError::Fmt => "invalid file structure"@,
            Ttf2MeshError::NoTab => "no required tables in file"@,
            Ttf2MeshError::CSum => "invalid file or table checksum"@,
            Ttf2MeshError::UTab => "unsupported table format"@,
            Ttf2MeshError::Mesher => "unable to create mesh"@,
            Ttf2MeshError::NoOutline => "glyph has no outline"@,
            Ttf2MeshError::Writing => "error writing file"@,
            Ttf2MeshError::Unknown(_) => "unknown error"@,
        }
    }

    /// Describes the error in words.
    pub fn to_string(&self) -> (text: String)
        ensures
            text@ == self.text(),
    {
        match self {
            Ttf2MeshError::NoMem => String::from_str("not enough memory (malloc failed)"),
            Ttf2MeshError::Size => String::from_str("file size > TTF_MAX_FILE"),
            Ttf2MeshError::Open => String::from_str("error opening file"),
            Ttf2MeshError::Ver => String::from_str("unsupported file version"),
            Ttf2MeshError::Fmt => String::from_str("invalid file structure"),
            Ttf2MeshError::NoTab => String::from_str("no required tables in file"),
            Ttf2MeshError::CSum => String::from_str("invalid file or table checksum"),
            Ttf2MeshError::UTab => String::from_str("unsupported table format"),
            Ttf2MeshError::Mesher => String::from_str("unable to create mesh"),
            Ttf2MeshError::NoOutline => String::from_str("glyph has no outline"),
            Ttf2MeshError::Writing => String::from_str("error writing file"),
            Ttf2MeshError::Unknown(_) => String::from_str("unknown error"),
        }
    }
}

impl From<i32> for Ttf2MeshError {
    /// The error that stands for a status of the engine.
    fn from(value: i32) -> (error: Self) {
        match value {
            1 => Ttf2MeshError::NoMem,
            2 => Ttf2MeshError::Size,
            3 => Ttf2MeshError::Open,
            4 => Ttf2MeshError::Ver,
            5 => Ttf2MeshError::Fmt,
            6 => Ttf2MeshError::NoTab,
            7 => Ttf2MeshError::CSum,
            8 => Ttf2MeshError::UTab,
            9 => Ttf2MeshError::Mesher,
            10 => Ttf2MeshError::NoOutline,
            11 => Ttf2MeshError::Writing,
            _ => Ttf2MeshError::Unknown(value),
        }
    }
}

impl vstd::std_specs::convert::FromSpecImpl<i32> for Ttf2MeshError {
    open spec fn obeys_from_spec() -> bool {
        true
    }

    open spec fn from_spec(value: i32) -> Self {
        Ttf2MeshError::of_status(value)
    }
}

/// No status is lost: two statuses that stand for the same error are the
/// same status.
pub proof fn lemma_of_status_injective(a: i32, b: i32)
    requires
        Ttf2MeshError::of_status(a) == Ttf2MeshError::of_status(b),
    ensures
        a == b,
{
}

/// A status is unknown exactly when it lies outside
/// `TTF_ERR_NOMEM ..= TTF_ERR_WRITING`, and the error then keeps it.
pub proof fn lemma_unknown_keeps_status(status: i32)
    ensures
        Ttf2MeshError::of_status(status) is Unknown <==> !(TTF_ERR_NOMEM <= status
            <= TTF_ERR_WRITING),
        Ttf2MeshError::of_status(status) is Unknown ==> Ttf2MeshError::of_status(status)
            == Ttf2MeshError::Unknown(status),
{
}

/// An error of the library.
#[derive(Debug)]
pub enum Error {
    /// The font could not be loaded.
    FontLoadError(Ttf2MeshError),
    /// The font could not be exported to an obj file.
    ObjExportError(Ttf2MeshError),
    /// The glyph could not be converted to a mesh.
    Glyph2MeshError(Ttf2MeshError),
    /// The font holds no such glyph.
    GlyphNotFound,
    /// The text names no quality; it is kept as it was given.
    QualityParse(String),
    /// The file to load does not exist.
    FileNotFound,
}

impl Error {
    /// The text that describes the error.
    pub open spec fn text(self) -> Seq<char> {
        match self {
            Error::FontLoadError(reason) => "could not load font: "@ + reason.text(),
            Error::ObjExportError(reason) => "could not export obj file: "@ + reason.text(),
            Error::Glyph2MeshError(reason) => "glyph could not be converted to mesh: "@
                + reason.text(),
            Error::GlyphNotFound => "the font file does not contain requested glyph"@,
            Error::QualityParse(value) => "quality could not be parsed from input ("@ + value@
                + "), please set to high, medium or low"@,
            Error::FileNotFound => "file was not found"@,
        }
    }

    /// Describes the error in words.
    pub fn to_string(&self) -> (text: String)
        ensures
            text@ == self.text(),
    {
        match self {
            Error::FontLoadError(reason) => {
                let tail = reason.to_string();
                String::from_str("could not load font: ").concat(tail.as_str())
            },
            Error::ObjExportError(reason) => {
                let tail = reason.to_string();
                String::from_str("could not export obj file: ").concat(tail.as_str())
            },
            Error::Glyph2MeshError(reason) => {
                let tail = reason.to_string();
                String::from_str("glyph could not be converted to mesh: ").concat(tail.as_str())
            },
            Error::GlyphNotFound => String::from_str(
                "the font file does not contain requested glyph",
            ),
            Error::QualityParse(value) => String::from_str(
                "quality could not be parsed from input (",
            ).concat(value.as_str()).concat("), please set to high, medium or low"),
            Error::FileNotFound => String::from_str("file was not found"),
        }
    }
}

} // verus!
