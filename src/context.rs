//! The module's whole state, owned by one context value: the font registry
//! with its lending flag, and the result and error channels. Every exported
//! operation is a method on it.

use vstd::prelude::*;
use vstd::slice::slice_to_vec;
use vstd::string::StringSliceAdditionalSpecFns;
use vstd::utf8::{decode_utf8, encode_utf8, encode_utf8_valid_utf8, valid_utf8};

use resvg::tiny_skia::Transform;
use resvg::usvg::fontdb::Database;
use resvg::usvg::Tree;
use std::sync::Arc;

use crate::message::Failure;
use crate::outside::{
    encode_png, face_count, faces_in, load_font, monospace_family, new_surface, parse_markup,
    pixmap_accepts, png_encodes, png_header, rasterize, sans_serif_family, set_monospace,
    set_sans_serif, text_of,
};

verus! {

/// What the font registry holds, as far as the contracts speak of it.
pub struct FontState {
    /// The family used for the generic `sans-serif`.
    pub sans_serif: Seq<char>,
    /// The family used for the generic `monospace`.
    pub monospace: Seq<char>,
    /// The number of font faces in the database.
    pub faces: nat,
    /// The font data handed to the database since it was created, in order.
    pub loaded: Seq<Seq<u8>>,
}

/// The state of a freshly created registry: the database's default
/// families, no faces, nothing loaded.
pub open spec fn fresh_fonts() -> FontState {
    FontState { sans_serif: "Arial"@, monospace: "Courier New"@, faces: 0, loaded: seq![] }
}

/// The registry after the generic family `monospace` (when `mono` holds) or
/// `sans-serif` is set to `name`.
pub open spec fn with_family(fonts: FontState, mono: bool, name: Seq<char>) -> FontState {
    if mono {
        FontState { monospace: name, ..fonts }
    } else {
        FontState { sans_serif: name, ..fonts }
    }
}

/// Whether a raster surface of `width` by `height` pixels can be had: the
/// rasterizer accepts the size, and its four-byte pixels, all together, can
/// be allocated at all.
pub open spec fn surface_fits(width: u32, height: u32) -> bool {
    &&& pixmap_accepts(width, height)
    &&& 4 * width * height <= isize::MAX
}

/// The module state: the optional font database, whether it is lent to a
/// render in progress, and the two output channels.
pub struct Context {
    fonts: Option<Arc<Database>>,
    loaded: Ghost<Seq<Seq<u8>>>,
    rendering: bool,
    result: Vec<u8>,
    error: Vec<u8>,
}

impl Context {
    /// The font registry, or `None` before it is first created.
    pub closed spec fn fonts(&self) -> Option<FontState> {
        match self.fonts {
            Some(db) => Some(
                FontState {
                    sans_serif: sans_serif_family(*db),
                    monospace: monospace_family(*db),
                    faces: face_count(*db),
                    loaded: self.loaded@,
                },
            ),
            None => None,
        }
    }

    /// Whether the font database is lent to a render that has not finished.
    pub closed spec fn rendering(&self) -> bool {
        self.rendering
    }

    /// The bytes of the last successful render, or nothing.
    pub closed spec fn result_bytes(&self) -> Seq<u8> {
        self.result@
    }

    /// The text of the last failure, or nothing.
    pub closed spec fn error_bytes(&self) -> Seq<u8> {
        self.error@
    }

    /// The context's invariant: the error channel always holds UTF-8 text.
    pub closed spec fn wf(&self) -> bool {
        valid_utf8(self.error@)
    }

    /// Why a registry operation is refused, checked in this order: bytes that
    /// must be text and are not UTF-8 (only where `text` holds), no database
    /// yet, a database lent to a render.
    pub open spec fn registry_refusal(&self, text: bool, bytes: Seq<u8>) -> Option<Failure> {
        if text && !valid_utf8(bytes) {
            Some(Failure::InvalidEncoding)
        } else if self.fonts() is None {
            Some(Failure::NotInitialized)
        } else if self.rendering() {
            Some(Failure::Busy)
        } else {
            None
        }
    }

    /// A context with no font database and empty channels.
    pub fn new() -> (r: Context)
        ensures
            r.fonts() is None,
            !r.rendering(),
            r.result_bytes() == Seq::<u8>::empty(),
            r.error_bytes() == Seq::<u8>::empty(),
            r.wf(),
    {
        Context { fonts: None, loaded: Ghost(Seq::empty()), rendering: false, result: Vec::new(), error: Vec::new() }
    }

    /// Creates a fresh, empty font database, dropping any earlier one with
    /// all its family settings and loaded fonts.
    pub fn font_db_init(&mut self)
        ensures
            final(self).fonts() == Some(fresh_fonts()),
            final(self).wf() == old(self).wf(),
            final(self).rendering() == old(self).rendering(),
            final(self).result_bytes() == old(self).result_bytes(),
            final(self).error_bytes() == old(self).error_bytes(),
    {
        self.fonts = Some(Arc::new(Database::new()));
        self.loaded = Ghost(Seq::empty());
    }

    /// Records `failure`, with `detail` after its heading where it has one.
    fn report(&mut self, failure: Failure, detail: &str)
        ensures
            failure.describes(final(self).error_bytes()),
            final(self).wf(),
            failure.has_detail() ==> final(self).error_bytes() == failure.spec_heading().spec_bytes()
                + detail.spec_bytes(),
            final(self).fonts() == old(self).fonts(),
            final(self).rendering() == old(self).rendering(),
            final(self).result_bytes() == old(self).result_bytes(),
    {
        if failure.has_detail_exec() {
            self.error = failure.message(detail);
        } else {
            self.error = failure.plain_message();
        }
    }

    /// Whether the database exists and is not lent; when not, the reason is
    /// reported.
    fn registry_ready(&mut self) -> (r: bool)
        ensures
            r == (old(self).fonts() is Some && !old(self).rendering()),
            r ==> *final(self) == *old(self),
            old(self).wf() ==> final(self).wf(),
            !r ==> old(self).registry_refusal(false, Seq::empty())->Some_0.describes(final(self).error_bytes()),
            final(self).fonts() == old(self).fonts(),
            final(self).rendering() == old(self).rendering(),
            final(self).result_bytes() == old(self).result_bytes(),
    {
        if self.fonts.is_none() {
            self.report(Failure::NotInitialized, "");
            false
        } else if self.rendering {
            self.report(Failure::Busy, "");
            false
        } else {
            true
        }
    }

    /// Sets the family for the generic `monospace` (when `mono` holds) or
    /// `sans-serif` to the text that `name` encodes.
    fn set_family(&mut self, name: &[u8], mono: bool) -> (r: i32)
        requires
            old(self).wf(),
        ensures
            final(self).wf(),
            final(self).rendering() == old(self).rendering(),
            final(self).result_bytes() == old(self).result_bytes(),
            match old(self).registry_refusal(true, name@) {
                Some(f) => {
                    &&& r == -1
                    &&& f.describes(final(self).error_bytes())
                    &&& final(self).fonts() == old(self).fonts()
                },
                None => {
                    &&& r == 0
                    &&& final(self).error_bytes() == old(self).error_bytes()
                    &&& final(self).fonts() == Some(
                        with_family(old(self).fonts()->Some_0, mono, decode_utf8(name@)),
                    )
                },
            },
    {
        let text = match text_of(name) {
            Ok(t) => t,
            Err(e) => {
                let detail = e.to_string();
                self.report(Failure::InvalidEncoding, detail.as_str());
                return -1;
            },
        };
        if !self.registry_ready() {
            return -1;
        }
        let mut db = self.fonts.take().unwrap();
        if mono {
            set_monospace(&mut db, text);
        } else {
            set_sans_serif(&mut db, text);
        }
        self.fonts = Some(db);
        0
    }

    /// Sets the family used for the generic `sans-serif` to the text that
    /// `name` encodes. Returns 0, or -1 with the reason in the error channel.
    pub fn font_db_set_sans_serif(&mut self, name: &[u8]) -> (r: i32)
        requires
            old(self).wf(),
        ensures
            final(self).wf(),
            final(self).rendering() == old(self).rendering(),
            final(self).result_bytes() == old(self).result_bytes(),
            match old(self).registry_refusal(true, name@) {
                Some(f) => {
                    &&& r == -1
                    &&& f.describes(final(self).error_bytes())
                    &&& final(self).fonts() == old(self).fonts()
                },
                None => {
                    &&& r == 0
                    &&& final(self).error_bytes() == old(self).error_bytes()
                    &&& final(self).fonts() == Some(
                        with_family(old(self).fonts()->Some_0, false, decode_utf8(name@)),
                    )
                },
            },
    {
        self.set_family(name, false)
    }

    /// Sets the family used for the generic `monospace` to the text that
    /// `name` encodes. Returns 0, or -1 with the reason in the error channel.
    pub fn font_db_set_monospace(&mut self, name: &[u8]) -> (r: i32)
        requires
            old(self).wf(),
        ensures
            final(self).wf(),
            final(self).rendering() == old(self).rendering(),
            final(self).result_bytes() == old(self).result_bytes(),
            match old(self).registry_refusal(true, name@) {
                Some(f) => {
                    &&& r == -1
                    &&& f.describes(final(self).error_bytes())
                    &&& final(self).fonts() == old(self).fonts()
                },
                None => {
                    &&& r == 0
                    &&& final(self).error_bytes() == old(self).error_bytes()
                    &&& final(self).fonts() == Some(
                        with_family(old(self).fonts()->Some_0, true, decode_utf8(name@)),
                    )
                },
            },
    {
        self.set_family(name, true)
    }

    /// Hands the font data `data` to the database, which loads every face
    /// it finds there. Returns 0, or -1 with the reason in the error channel.
    pub fn font_db_add(&mut self, data: &[u8]) -> (r: i32)
        requires
            old(self).wf(),
        ensures
            final(self).wf(),
            final(self).rendering() == old(self).rendering(),
            final(self).result_bytes() == old(self).result_bytes(),
            match old(self).registry_refusal(false, data@) {
                Some(f) => {
                    &&& r == -1
                    &&& f.describes(final(self).error_bytes())
                    &&& final(self).fonts() == old(self).fonts()
                },
                None => {
                    let before = old(self).fonts()->Some_0;
                    let after = final(self).fonts()->Some_0;
                    &&& r == 0
                    &&& final(self).error_bytes() == old(self).error_bytes()
                    &&& final(self).fonts() is Some
                    &&& after.sans_serif == before.sans_serif
                    &&& after.monospace == before.monospace
                    &&& after.faces == before.faces + faces_in(data@)
                    &&& after.loaded == before.loaded.push(data@)
                },
            },
    {
        if !self.registry_ready() {
            return -1;
        }
        let mut db = self.fonts.take().unwrap();
        load_font(&mut db, slice_to_vec(data));
        self.fonts = Some(db);
        self.loaded = Ghost(self.loaded@.push(data@));
        0
    }

    /// Why a render is refused before the markup is parsed, checked in this
    /// order: markup that is not UTF-8, no font database, a database already
    /// lent to another render.
    pub open spec fn render_refusal(&self, markup: Seq<u8>) -> Option<Failure> {
        self.registry_refusal(true, markup)
    }

    /// The first step of a render. Clears both channels, decodes `markup`,
    /// lends the font database and parses the markup with it. On success the
    /// scene tree is returned and the database stays lent until
    /// [`Context::render_raster`]; on failure the reason is in the error
    /// channel and nothing is lent.
    pub fn render_parse(&mut self, markup: &[u8]) -> (r: Option<Tree>)
        ensures
            final(self).result_bytes() == Seq::<u8>::empty(),
            final(self).fonts() == old(self).fonts(),
            final(self).wf(),
            match old(self).render_refusal(markup@) {
                Some(f) => {
                    &&& r is None
                    &&& f.describes(final(self).error_bytes())
                    &&& final(self).rendering() == old(self).rendering()
                },
                None => {
                    ||| {
                        &&& r is Some
                        &&& final(self).rendering()
                        &&& final(self).error_bytes() == Seq::<u8>::empty()
                    }
                    ||| {
                        &&& r is None
                        &&& Failure::ParseError.describes(final(self).error_bytes())
                        &&& !final(self).rendering()
                    }
                },
            },
    {
        self.result = Vec::new();
        self.error = Vec::new();
        assert(valid_utf8(self.error@)) by {
            encode_utf8_valid_utf8(Seq::<char>::empty());
            assert(encode_utf8(Seq::<char>::empty()) == Seq::<u8>::empty());
        }
        let text = match text_of(markup) {
            Ok(t) => t,
            Err(e) => {
                let detail = e.to_string();
                self.report(Failure::InvalidEncoding, detail.as_str());
                return None;
            },
        };
        let parsed = match &self.fonts {
            None => {
                self.report(Failure::NotInitialized, "");
                return None;
            },
            Some(db) => {
                if self.rendering {
                    self.report(Failure::Busy, "");
                    return None;
                }
                parse_markup(text, db)
            },
        };
        self.accept_parsed(parsed)
    }

    /// Takes the parser's outcome for a render whose database is not lent:
    /// a tree lends the database and is handed on, an error is reported.
    pub fn accept_parsed(&mut self, parsed: Result<Tree, String>) -> (r: Option<Tree>)
        requires
            !old(self).rendering(),
            old(self).wf(),
        ensures
            final(self).wf(),
            final(self).fonts() == old(self).fonts(),
            final(self).result_bytes() == old(self).result_bytes(),
            match parsed {
                Ok(tree) => {
                    &&& r == Some(tree)
                    &&& final(self).rendering()
                    &&& final(self).error_bytes() == old(self).error_bytes()
                },
                Err(text) => {
                    &&& r is None
                    &&& !final(self).rendering()
                    &&& final(self).error_bytes() == Failure::ParseError.spec_heading().spec_bytes()
                        + encode_utf8(text@)
                    &&& Failure::ParseError.describes(final(self).error_bytes())
                },
            },
    {
        match parsed {
            Ok(tree) => {
                self.rendering = true;
                Some(tree)
            },
            Err(text) => {
                self.report(Failure::ParseError, text.as_str());
                None
            },
        }
    }

    /// The second step of a render: rasterizes `tree` onto a surface of
    /// `width` by `height` pixels through `transform`, encodes it as PNG and
    /// puts the bytes in the result channel. Both channels are cleared first,
    /// and the font database is no longer lent afterwards. Returns 0, or -1
    /// with the reason in the error channel and the result channel empty.
    pub fn render_raster(&mut self, tree: Tree, width: u32, height: u32, transform: Transform) -> (r: i32)
        ensures
            !final(self).rendering(),
            final(self).fonts() == old(self).fonts(),
            final(self).wf(),
            r == 0 || r == -1,
            r == -1 ==> final(self).result_bytes() == Seq::<u8>::empty(),
            r == 0 ==> final(self).error_bytes() == Seq::<u8>::empty(),
            r == 0 ==> surface_fits(width, height) && png_header(final(self).result_bytes(), width, height),
            width == 0 || height == 0 ==> r == -1 && Failure::EmptyOutput.describes(final(self).error_bytes()),
            width > 0 && height > 0 && !surface_fits(width, height) ==> r == -1
                && Failure::SurfaceAllocation.describes(final(self).error_bytes()),
            surface_fits(width, height) ==> (r == 0 <==> png_encodes(width, height)),
            surface_fits(width, height) ==> (r == 0 && png_header(final(self).result_bytes(), width, height))
                || (r == -1 && Failure::Encoding.describes(final(self).error_bytes())),
    {
        self.result = Vec::new();
        self.error = Vec::new();
        self.rendering = false;
        assert(valid_utf8(self.error@)) by {
            encode_utf8_valid_utf8(Seq::<char>::empty());
            assert(encode_utf8(Seq::<char>::empty()) == Seq::<u8>::empty());
        }
        if width == 0 || height == 0 {
            self.report(Failure::EmptyOutput, "");
            return -1;
        }
        proof {
            assert(width as int * height as int <= u32::MAX as int * u32::MAX as int) by (nonlinear_arith);
        }
        let pixels: u64 = width as u64 * height as u64;
        let limit: u64 = (isize::MAX as u64) / 4;
        proof {
            let w = width as int;
            let h = height as int;
            assert(4 * w * h == 4 * (w * h)) by (nonlinear_arith);
            assert(4 * width * height == 4 * w * h);
        }
        if pixels > limit {
            self.report(Failure::SurfaceAllocation, "");
            return -1;
        }
        let mut surface = match new_surface(width, height) {
            Some(p) => p,
            None => {
                self.report(Failure::SurfaceAllocation, "");
                return -1;
            },
        };
        rasterize(&tree, transform, &mut surface);
        let encoded = encode_png(&surface);
        self.store_encoded(encoded)
    }

    /// Takes the encoder's outcome, with both channels empty: bytes go to the
    /// result channel, an error's text to the error channel.
    pub fn store_encoded(&mut self, encoded: Result<Vec<u8>, String>) -> (r: i32)
        requires
            old(self).wf(),
        ensures
            final(self).wf(),
            final(self).fonts() == old(self).fonts(),
            final(self).rendering() == old(self).rendering(),
            match encoded {
                Ok(bytes) => {
                    &&& r == 0
                    &&& final(self).result_bytes() == bytes@
                    &&& final(self).error_bytes() == old(self).error_bytes()
                },
                Err(text) => {
                    &&& r == -1
                    &&& final(self).result_bytes() == old(self).result_bytes()
                    &&& final(self).error_bytes() == Failure::Encoding.spec_heading().spec_bytes()
                        + encode_utf8(text@)
                    &&& Failure::Encoding.describes(final(self).error_bytes())
                },
            },
    {
        match encoded {
            Ok(bytes) => {
                self.result = bytes;
                0
            },
            Err(text) => {
                self.report(Failure::Encoding, text.as_str());
                -1
            },
        }
    }

    /// The bytes of the last successful render; empty after a failed one.
    pub fn result(&self) -> (r: &[u8])
        ensures
            r@ == self.result_bytes(),
    {
        self.result.as_slice()
    }

    /// The number of bytes in the result channel.
    pub fn result_len(&self) -> (r: usize)
        ensures
            r == self.result_bytes().len(),
    {
        self.result.len()
    }

    /// The UTF-8 text of the last failure, or nothing.
    pub fn error(&self) -> (r: &[u8])
        ensures
            r@ == self.error_bytes(),
    {
        self.error.as_slice()
    }

    /// The number of bytes in the error channel.
    pub fn error_len(&self) -> (r: usize)
        ensures
            r == self.error_bytes().len(),
    {
        self.error.len()
    }

    /// Whether the font database is lent to a render that has not finished.
    pub fn is_rendering(&self) -> (r: bool)
        ensures
            r == self.rendering(),
    {
        self.rendering
    }
}

} // verus!
