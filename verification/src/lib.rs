//! Verified core of a binding to a TrueType-to-mesh engine: the errors that
//! the engine's status codes stand for, the quality parameter, the addressing
//! of a font's glyph table, and bounds-checked views of a mesh's arrays.
//!
//! The engine itself is called by whoever embeds the library. For each of the
//! engine's operations the library has a method that says what the engine is
//! to be handed, and a `complete` that decides what its answer means:
//!
//! | operation             | what to hand over          | what the answer means     |
//! |-----------------------|----------------------------|---------------------------|
//! | load from a buffer    | `TTFFile::from_buffer_vec` | `FontLoad::complete`      |
//! | load from a file      | `TTFFile::from_file`       | `FontLoad::complete`      |
//! | export to an obj file | `TTFFile::export_to_obj`   | `ObjExport::complete`     |
//! | glyph of a character  | `TTFFile::glyph_from_char` | `GlyphLookup::complete`   |
//! | 2d mesh of a glyph    | `Glyph::to_2d_mesh`        | `Mesh2dRequest::complete` |
//! | 3d mesh of a glyph    | `Glyph::to_3d_mesh`        | `Mesh3dRequest::complete` |
pub mod error;
pub mod fuzz;
pub mod glyph;
pub mod mesh;
pub mod output;
pub mod outputs;
pub mod quality;
pub mod ttf;

pub use error::{Error, Ttf2MeshError};
pub use glyph::{Glyph, Mesh2dRequest, Mesh3dRequest};
pub use mesh::{InnerMesh, Mesh, Mesh2d, Mesh3d, Triangle, Vert2d, Vert3d};
pub use output::{DataIterator, IteratorValue, Value};
pub use quality::Quality;
pub use ttf::{FontLoad, GlyphLookup, ObjExport, TTFFile};
