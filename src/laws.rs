//! Properties that hold across the operations of a context.

use vstd::prelude::*;
use vstd::utf8::valid_utf8;

use crate::context::{fresh_fonts, Context};
use crate::message::Failure;
use crate::outside::{be_bytes, png_header};

verus! {

/// Bytes that are not UTF-8 are refused as text by every text-taking
/// operation (both family setters and a render) for that reason, whatever
/// else holds of the context.
pub proof fn lemma_non_text_refused(c: Context, bytes: Seq<u8>)
    requires
        !valid_utf8(bytes),
    ensures
        c.registry_refusal(true, bytes) == Some(Failure::InvalidEncoding),
        c.render_refusal(bytes) == Some(Failure::InvalidEncoding),
{
}

/// Without a font database every render is refused, and markup that is
/// well-formed text is refused for exactly that reason.
pub proof fn lemma_render_needs_fonts(c: Context, markup: Seq<u8>)
    requires
        c.fonts() is None,
    ensures
        c.render_refusal(markup) is Some,
        valid_utf8(markup) ==> c.render_refusal(markup) == Some(Failure::NotInitialized),
{
}

/// A context whose registry was just created, and is not lent, refuses no
/// well-formed markup before parsing it; nor does it depend on the registry
/// that came before.
pub proof fn lemma_fresh_registry_renders(c: Context, d: Context, markup: Seq<u8>)
    requires
        c.fonts() == Some(fresh_fonts()),
        d.fonts() == Some(fresh_fonts()),
        !c.rendering(),
        !d.rendering(),
        valid_utf8(markup),
    ensures
        c.render_refusal(markup) is None,
        c.render_refusal(markup) == d.render_refusal(markup),
        c.fonts() == d.fonts(),
{
}

/// Distinct numbers have distinct big-endian encodings.
pub proof fn lemma_be_bytes_injective(x: u32, y: u32)
    requires
        be_bytes(x) == be_bytes(y),
    ensures
        x == y,
{
    assert(be_bytes(x)[0] == be_bytes(y)[0]);
    assert(be_bytes(x)[1] == be_bytes(y)[1]);
    assert(be_bytes(x)[2] == be_bytes(y)[2]);
    assert(be_bytes(x)[3] == be_bytes(y)[3]);
    assert(x / 0x100_0000 < 0x100 && y / 0x100_0000 < 0x100) by (bit_vector);
    assert(x / 0x100_0000 == y / 0x100_0000);
    assert((x / 0x1_0000) % 0x100 == (y / 0x1_0000) % 0x100);
    assert((x / 0x100) % 0x100 == (y / 0x100) % 0x100);
    assert(x % 0x100 == y % 0x100);
    assert(x == y) by (bit_vector)
        requires
            x / 0x100_0000 == y / 0x100_0000,
            (x / 0x1_0000) % 0x100 == (y / 0x1_0000) % 0x100,
            (x / 0x100) % 0x100 == (y / 0x100) % 0x100,
            x % 0x100 == y % 0x100,
    ;
}

/// The PNG header that a successful render leaves in the result channel
/// fixes the image's size: bytes that carry a header for one size carry none
/// for another.
pub proof fn lemma_header_fixes_size(png: Seq<u8>, width: u32, height: u32, w: u32, h: u32)
    requires
        png_header(png, width, height),
        png_header(png, w, h),
    ensures
        w == width,
        h == height,
{
    lemma_be_bytes_injective(width, w);
    lemma_be_bytes_injective(height, h);
}

} // verus!
