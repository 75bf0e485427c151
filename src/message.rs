//! The failures an operation can report, and the text written for each into
//! the error channel.

use vstd::prelude::*;
use vstd::string::{StrSliceExecFns, StringSliceAdditionalSpecFns};
use vstd::utf8::{encode_utf8_valid_utf8, valid_utf8, valid_utf8_concat};

verus! {

/// Why an operation returned a failure status.
#[derive(Clone, Copy, Debug, PartialEq, Eq, Structural)]
pub enum Failure {
    /// Bytes that must be text are not well-formed UTF-8.
    InvalidEncoding,
    /// The font database has not been created yet.
    NotInitialized,
    /// The font database is lent to a render that has not finished.
    Busy,
    /// The markup could not be parsed.
    ParseError,
    /// The target raster has a zero dimension.
    EmptyOutput,
    /// No raster surface can be allocated at the target size.
    SurfaceAllocation,
    /// The raster could not be encoded.
    Encoding,
}

impl Failure {
    /// The fixed text that opens the message for this failure.
    pub open spec fn spec_heading(self) -> &'static str {
        match self {
            Failure::InvalidEncoding => "invalid UTF-8: ",
            Failure::NotInitialized => "font_db not initialized",
            Failure::Busy => "font_db is in use by a render",
            Failure::ParseError => "SVG parse error: ",
            Failure::EmptyOutput => "SVG has zero dimensions",
            Failure::SurfaceAllocation => "failed to create pixmap",
            Failure::Encoding => "PNG encode error: ",
        }
    }

    /// Whether the message goes on, after the heading, with the text that the
    /// failing collaborator gave.
    pub open spec fn has_detail(self) -> bool {
        match self {
            Failure::InvalidEncoding | Failure::ParseError | Failure::Encoding => true,
            _ => false,
        }
    }

    /// Whether `error` is a message for this failure: the heading followed by
    /// some detail where the failure has one, the heading alone otherwise.
    pub open spec fn describes(self, error: Seq<u8>) -> bool {
        let head = self.spec_heading().spec_bytes();
        if self.has_detail() {
            head.len() <= error.len() && error.subrange(0, head.len() as int) == head
        } else {
            error == head
        }
    }

    /// Whether the message carries a detail after its heading.
    pub fn has_detail_exec(self) -> (r: bool)
        ensures
            r == self.has_detail(),
    {
        match self {
            Failure::InvalidEncoding | Failure::ParseError | Failure::Encoding => true,
            _ => false,
        }
    }

    /// The fixed text that opens the message for this failure.
    #[verifier::when_used_as_spec(spec_heading)]
    pub fn heading(self) -> (r: &'static str)
        ensures
            r == self.spec_heading(),
    {
        match self {
            Failure::InvalidEncoding => "invalid UTF-8: ",
            Failure::NotInitialized => "font_db not initialized",
            Failure::Busy => "font_db is in use by a render",
            Failure::ParseError => "SVG parse error: ",
            Failure::EmptyOutput => "SVG has zero dimensions",
            Failure::SurfaceAllocation => "failed to create pixmap",
            Failure::Encoding => "PNG encode error: ",
        }
    }

    /// The message bytes for this failure, with `detail` after the heading.
    pub fn message(self, detail: &str) -> (r: Vec<u8>)
        ensures
            r@ == self.spec_heading().spec_bytes() + detail.spec_bytes(),
            self.has_detail() ==> self.describes(r@),
            valid_utf8(r@),
    {
        let mut out = self.heading().as_bytes_vec();
        let tail = detail.as_bytes();
        let ghost head = out@;
        let mut i: usize = 0;
        while i < tail.len()
            invariant
                i <= tail@.len(),
                tail@ == detail.spec_bytes(),
                out@ == head + tail@.subrange(0, i as int),
            decreases tail@.len() - i,
        {
            out.push(tail[i]);
            i = i + 1;
            assert(tail@.subrange(0, i as int) == tail@.subrange(0, i - 1 as int).push(tail@[i - 1]));
        }
        assert(tail@.subrange(0, tail@.len() as int) == tail@);
        assert(out@.subrange(0, head.len() as int) == head);
        proof {
            encode_utf8_valid_utf8(self.spec_heading()@);
            encode_utf8_valid_utf8(detail@);
            valid_utf8_concat(head, detail.spec_bytes());
        }
        out
    }

    /// The message bytes for a failure that carries no detail.
    pub fn plain_message(self) -> (r: Vec<u8>)
        requires
            !self.has_detail(),
        ensures
            self.describes(r@),
            valid_utf8(r@),
    {
        proof {
            encode_utf8_valid_utf8(self.spec_heading()@);
        }
        self.heading().as_bytes_vec()
    }
}

} // verus!
