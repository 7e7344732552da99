//! The text of an aspect ratio, `<w>:<h>`, cut into its two fields.

use vstd::prelude::*;
use vstd::string::*;

verus! {

/// The byte `:` that parts the fields.
pub const COLON: u8 = 0x3a;

/// The bytes from `start` up to, not including, `end`.
#[derive(Clone, Copy, Debug, PartialEq, Eq, Structural)]
pub struct Span {
    pub start: usize,
    pub end: usize,
}

/// Where the width and the height stand in the text.
#[derive(Clone, Copy, Debug, PartialEq, Eq, Structural)]
pub struct AspectFields {
    pub width: Span,
    pub height: Span,
}

/// No colon stands in `bytes` from `from` up to `to`.
pub open spec fn colon_free(bytes: Seq<u8>, from: int, to: int) -> bool {
    forall|i: int| from <= i < to ==> bytes[i] != COLON
}

/// The field that begins at `span.start` ends at `span.end`: it holds no
/// colon, and either a colon or the end of the text follows it.
pub open spec fn is_field(bytes: Seq<u8>, span: Span) -> bool {
    &&& span.start <= span.end <= bytes.len()
    &&& colon_free(bytes, span.start as int, span.end as int)
    &&& span.end == bytes.len() || bytes[span.end as int] == COLON
}

/// `fields` are the first two of the fields that the colons part `bytes` into.
pub open spec fn is_split(bytes: Seq<u8>, fields: AspectFields) -> bool {
    &&& fields.width.start == 0
    &&& is_field(bytes, fields.width)
    &&& fields.width.end < bytes.len()
    &&& fields.height.start == fields.width.end + 1
    &&& is_field(bytes, fields.height)
}

/// The end of the field that begins at `from`.
fn field_end(bytes: &[u8], from: usize) -> (end: usize)
    requires
        from <= bytes@.len(),
    ensures
        is_field(bytes@, Span { start: from, end }),
{
    let mut end: usize = from;
    while end < bytes.len() && bytes[end] != COLON
        invariant
            from <= end <= bytes@.len(),
            colon_free(bytes@, from as int, end as int),
        decreases bytes@.len() - end,
    {
        end += 1;
    }
    end
}

/// Cuts the text of an aspect ratio at its colons and gives the places of the
/// width and of the height, as byte offsets into the text. What follows a
/// second colon is ignored. Without a colon the text has no height, and
/// nothing is returned.
pub fn aspect_ratio_fields(text: &str) -> (r: Option<AspectFields>)
    ensures
        match r {
            Some(fields) => is_split(text.spec_bytes(), fields),
            None => colon_free(text.spec_bytes(), 0, text.spec_bytes().len() as int),
        },
{
    let bytes = text.as_bytes();
    let width_end = field_end(bytes, 0);
    if width_end == bytes.len() {
        return None;
    }
    let height_start: usize = width_end + 1;
    let height_end = field_end(bytes, height_start);
    Some(
        AspectFields {
            width: Span { start: 0, end: width_end },
            height: Span { start: height_start, end: height_end },
        },
    )
}

/// A text is cut in one way only.
pub proof fn lemma_split_is_unique(bytes: Seq<u8>, a: AspectFields, b: AspectFields)
    requires
        is_split(bytes, a),
        is_split(bytes, b),
    ensures
        a == b,
{
    lemma_field_is_unique(bytes, a.width, b.width);
    lemma_field_is_unique(bytes, a.height, b.height);
}

/// A field that begins at a given place ends at one place only.
pub proof fn lemma_field_is_unique(bytes: Seq<u8>, a: Span, b: Span)
    requires
        is_field(bytes, a),
        is_field(bytes, b),
        a.start == b.start,
    ensures
        a.end == b.end,
{
    if a.end < b.end {
        assert(bytes[a.end as int] == COLON);
    } else if b.end < a.end {
        assert(bytes[b.end as int] == COLON);
    }
}

} // verus!
