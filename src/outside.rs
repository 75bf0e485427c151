//! The outside collaborators: the markup parser, the font database, the
//! rasterizer and the raster encoder, each behind a stated contract.

use vstd::prelude::*;
use vstd::string::StringSliceAdditionalSpecFns;
use vstd::utf8::{decode_utf8, valid_utf8};

use resvg::tiny_skia::{Pixmap, Transform};
use resvg::usvg::fontdb::Database;
use resvg::usvg::Tree;
use std::sync::Arc;

verus! {

#[verifier::external_type_specification]
#[verifier::external_body]
pub struct ExDatabase(Database);

#[verifier::external_type_specification]
#[verifier::external_body]
pub struct ExTree(Tree);

#[verifier::external_type_specification]
#[verifier::external_body]
pub struct ExUtf8Error(std::str::Utf8Error);

#[verifier::external_type_specification]
#[verifier::external_body]
pub struct ExPixmap(Pixmap);

#[verifier::external_type_specification]
#[verifier::external_body]
pub struct ExTransform(Transform);

/// The family that the database substitutes for the generic `sans-serif`.
pub uninterp spec fn sans_serif_family(db: Database) -> Seq<char>;

/// The family that the database substitutes for the generic `monospace`.
pub uninterp spec fn monospace_family(db: Database) -> Seq<char>;

/// The number of font faces the database holds.
pub uninterp spec fn face_count(db: Database) -> nat;

/// The number of font faces that can be read out of the font data `data`.
pub uninterp spec fn faces_in(data: Seq<u8>) -> nat;

/// Whether the PNG encoder accepts a surface of `width` by `height` pixels.
pub uninterp spec fn png_encodes(width: u32, height: u32) -> bool;

/// The width and height, in pixels, of a raster surface.
pub uninterp spec fn pixmap_dimensions(p: Pixmap) -> (u32, u32);

/// Relies on fontdb's `Database::new`: an empty database whose generic
/// families are the documented defaults ("Arial", "Courier New").
pub assume_specification[ Database::new ]() -> (r: Database)
    ensures
        sans_serif_family(r) == "Arial"@,
        monospace_family(r) == "Courier New"@,
        face_count(r) == 0,
;

/// Relies on `std::str::from_utf8`: the text is returned exactly when the
/// bytes are well-formed UTF-8, and it is the text those bytes encode.
#[verifier::external_body]
pub(crate) fn text_of(b: &[u8]) -> (r: Result<&str, std::str::Utf8Error>)
    ensures
        r is Ok <==> valid_utf8(b@),
        r is Ok ==> r->Ok_0@ == decode_utf8(b@) && r->Ok_0.spec_bytes() == b@,
{
    std::str::from_utf8(b)
}

/// Relies on fontdb's `Database::set_sans_serif_family` (reached through
/// `Arc::make_mut`): only the `sans-serif` substitution changes.
#[verifier::external_body]
pub(crate) fn set_sans_serif(db: &mut Arc<Database>, name: &str)
    ensures
        sans_serif_family(**final(db)) == name@,
        monospace_family(**final(db)) == monospace_family(**old(db)),
        face_count(**final(db)) == face_count(**old(db)),
{
    Arc::make_mut(db).set_sans_serif_family(name)
}

/// Relies on fontdb's `Database::set_monospace_family` (reached through
/// `Arc::make_mut`): only the `monospace` substitution changes.
#[verifier::external_body]
pub(crate) fn set_monospace(db: &mut Arc<Database>, name: &str)
    ensures
        monospace_family(**final(db)) == name@,
        sans_serif_family(**final(db)) == sans_serif_family(**old(db)),
        face_count(**final(db)) == face_count(**old(db)),
{
    Arc::make_mut(db).set_monospace_family(name)
}

/// Relies on fontdb's `Database::load_font_data` (reached through
/// `Arc::make_mut`): each face that parses out of the data is added, none is
/// removed, and the generic family substitutions are left as they were.
#[verifier::external_body]
pub(crate) fn load_font(db: &mut Arc<Database>, data: Vec<u8>)
    ensures
        sans_serif_family(**final(db)) == sans_serif_family(**old(db)),
        monospace_family(**final(db)) == monospace_family(**old(db)),
        face_count(**final(db)) == face_count(**old(db)) + faces_in(data@),
{
    Arc::make_mut(db).load_font_data(data)
}

/// Relies on usvg's `Tree::from_str`, with default options and the given
/// font database; a failure is handed on as its message. The tree may hold
/// image data read from files that the markup names, so the outcome gets no
/// name and nothing is promised of it.
#[verifier::external_body]
pub(crate) fn parse_markup(text: &str, db: &Arc<Database>) -> (r: Result<Tree, String>) {
    let mut opts = resvg::usvg::Options::default();
    opts.fontdb = db.clone();
    match Tree::from_str(text, &opts) {
        Ok(tree) => Ok(tree),
        Err(e) => Err(e.to_string()),
    }
}

/// Whether tiny-skia's size checks accept a surface of `width` by `height`
/// pixels: neither is zero, a row of four-byte pixels fits an `i32`, and the
/// whole pixel buffer fits a `usize`.
pub open spec fn pixmap_accepts(width: u32, height: u32) -> bool {
    &&& width > 0
    &&& height > 0
    &&& 4 * width <= i32::MAX
    &&& 4 * width * height <= usize::MAX
}

/// Relies on tiny-skia's `Pixmap::new`: a surface of exactly the requested
/// size, returned exactly when its size passes the library's checks. The
/// zeroed pixel buffer is then made with `vec!`, which panics on a length
/// over `isize::MAX`; such sizes are left out.
#[verifier::external_body]
pub(crate) fn new_surface(width: u32, height: u32) -> (r: Option<Pixmap>)
    requires
        4 * width * height <= isize::MAX,
    ensures
        r is Some <==> pixmap_accepts(width, height),
        r is Some ==> pixmap_dimensions(r->Some_0) == (width, height),
{
    Pixmap::new(width, height)
}

/// Relies on resvg's `render`: draws the tree into the surface, which keeps
/// its size.
#[verifier::external_body]
pub(crate) fn rasterize(tree: &Tree, transform: Transform, surface: &mut Pixmap)
    ensures
        pixmap_dimensions(*final(surface)) == pixmap_dimensions(*old(surface)),
{
    resvg::render(tree, transform, &mut surface.as_mut())
}

/// The bytes open with the PNG signature, followed by an `IHDR` chunk of
/// thirteen bytes whose first eight give the width and the height, both
/// big-endian.
pub open spec fn png_header(b: Seq<u8>, width: u32, height: u32) -> bool {
    &&& b.len() >= 24
    &&& b.subrange(0, 16) =~= seq![137u8, 80, 78, 71, 13, 10, 26, 10, 0, 0, 0, 13, 73, 72, 68, 82]
    &&& b.subrange(16, 20) =~= be_bytes(width)
    &&& b.subrange(20, 24) =~= be_bytes(height)
}

/// The four bytes of `x`, most significant first.
pub open spec fn be_bytes(x: u32) -> Seq<u8> {
    seq![(x / 0x100_0000) as u8, ((x / 0x1_0000) % 0x100) as u8, ((x / 0x100) % 0x100) as u8, (x % 0x100) as u8]
}

/// Relies on tiny-skia's `Pixmap::encode_png`, which writes through the png
/// crate's encoder into a `Vec`, whose only failures are checks on the size
/// and format, so success depends on the size alone. The signature and the
/// `IHDR` chunk with the surface's size come first. The encoder's error is
/// handed on as its text.
#[verifier::external_body]
pub(crate) fn encode_png(surface: &Pixmap) -> (r: Result<Vec<u8>, String>)
    ensures
        r is Ok <==> png_encodes(pixmap_dimensions(*surface).0, pixmap_dimensions(*surface).1),
        r is Ok ==> png_header(r->Ok_0@, pixmap_dimensions(*surface).0, pixmap_dimensions(*surface).1),
{
    match surface.encode_png() {
        Ok(bytes) => Ok(bytes),
        Err(e) => Err(e.to_string()),
    }
}

} // verus!
