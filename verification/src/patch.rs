//! Where a module declaration goes in the text of a root file: at the very
//! top, or right below a leading block comment such as a licence header.

use crate::errors::{Error, Result};
use crate::text::{
    contains, find, first_occurrence, has_prefix, lemma_boundary_after_ascii,
    lemma_first_occurrence, lemma_first_occurrence_unique, lemma_occurs_in_a_row, matches_at,
    occurs_at, starts_with,
};
use vstd::prelude::*;
use vstd::slice::slice_subrange;
use vstd::string::{StringExecFns, StringSliceAdditionalSpecFns};
use vstd::utf8::{encode_utf8_valid_utf8, valid_utf8, valid_utf8_concat, valid_utf8_split};

verus! {

/// The two bytes that open a block comment.
pub open spec fn comment_open() -> Seq<u8> {
    "/*".spec_bytes()
}

/// The two bytes that close a block comment.
pub open spec fn comment_close() -> Seq<u8> {
    "*/".spec_bytes()
}

/// The line terminator.
pub open spec fn line_feed() -> Seq<u8> {
    "\n".spec_bytes()
}

/// The declaration of the module `name`, without a line terminator.
pub open spec fn declaration_line(name: Seq<char>, public: bool) -> Seq<char> {
    if public {
        "pub mod "@ + name + ";"@
    } else {
        "mod "@ + name + ";"@
    }
}

/// Whether the declaration is to go below a header: the caller asked for
/// it and the text opens with a block comment.
pub open spec fn has_header(contents: Seq<u8>, below_header: bool) -> bool {
    below_header && starts_with(contents, comment_open())
}

/// The offset at which the declaration is inserted below the header: right
/// after the first comment closer or, where two line feeds follow the
/// closer directly, after the first of them, so that the line of the closer
/// is ended by its own line feed. Meaningful only when the closer occurs.
pub open spec fn insertion_point(contents: Seq<u8>) -> int {
    let end = first_occurrence(contents, comment_close()) + comment_close().len();
    if occurs_at(contents, line_feed() + line_feed(), end) {
        end + line_feed().len()
    } else {
        end
    }
}

/// The text with the declaration inserted, or `None` where a header was to
/// be skipped and never closes.
pub open spec fn patched(contents: Seq<u8>, declaration: Seq<u8>, below_header: bool) -> Option<
    Seq<u8>,
> {
    if has_header(contents, below_header) {
        if contains(contents, comment_close()) {
            let at = insertion_point(contents);
            Some(
                contents.subrange(0, at) + line_feed() + declaration + line_feed()
                    + contents.subrange(at, contents.len() as int),
            )
        } else {
            None
        }
    } else {
        Some(declaration + line_feed() + contents)
    }
}

/// Without a leading block comment, or without the request to skip one,
/// the result is the declaration, a line feed, and the text, byte for byte.
pub proof fn lemma_patch_at_top(contents: Seq<u8>, declaration: Seq<u8>, below_header: bool)
    requires
        !below_header || !starts_with(contents, comment_open()),
    ensures
        patched(contents, declaration, below_header) == Some(
            declaration + line_feed() + contents,
        ),
{
}

/// A header that is to be skipped and never closes yields no text.
pub proof fn lemma_unterminated_header(contents: Seq<u8>, declaration: Seq<u8>)
    requires
        starts_with(contents, comment_open()),
        !contains(contents, comment_close()),
    ensures
        patched(contents, declaration, true) is None,
{
}

/// Below a header the text is only added to: the result is the text up to
/// some offset past the comment closer, the declaration on a line of its
/// own, and the rest of the text.
pub proof fn lemma_patch_keeps_header(contents: Seq<u8>, declaration: Seq<u8>)
    requires
        starts_with(contents, comment_open()),
        contains(contents, comment_close()),
    ensures
        patched(contents, declaration, true) is Some,
        ({
            let at = insertion_point(contents);
            let text = patched(contents, declaration, true)->0;
            &&& first_occurrence(contents, comment_close()) + comment_close().len() <= at
                <= contents.len()
            &&& text.len() == contents.len() + declaration.len() + 2 * line_feed().len()
            &&& text.subrange(0, at) == contents.subrange(0, at)
            &&& occurs_at(text, declaration, at + line_feed().len())
            &&& text.subrange(text.len() - (contents.len() - at), text.len() as int)
                == contents.subrange(at, contents.len() as int)
        }),
{
    lemma_first_occurrence(contents, comment_close());
    let at = insertion_point(contents);
    let text = patched(contents, declaration, true)->0;
    assert(text.subrange(at + line_feed().len(), at + line_feed().len() + declaration.len())
        =~= declaration);
}

/// The closer is a star and a slash, the line terminator a line feed.
proof fn lemma_marks()
    ensures
        comment_close() == seq!['*' as u8, '/' as u8],
        line_feed() == seq!['\n' as u8],
{
    reveal_strlit("*/");
    reveal_strlit("\n");
    vstd::string::is_ascii_spec_bytes("*/");
    vstd::string::is_ascii_spec_bytes("\n");
}

/// A patched text is text: where the contents and the declaration are
/// well-formed UTF-8, so is the result. The declaration never lands inside
/// a character.
pub proof fn lemma_patch_is_text(contents: Seq<u8>, declaration: Seq<u8>, below_header: bool)
    requires
        valid_utf8(contents),
        valid_utf8(declaration),
        patched(contents, declaration, below_header) is Some,
    ensures
        valid_utf8(patched(contents, declaration, below_header)->0),
{
    lemma_marks();
    encode_utf8_valid_utf8("\n"@);
    let feed = line_feed();
    if has_header(contents, below_header) {
        lemma_first_occurrence(contents, comment_close());
        let first = first_occurrence(contents, comment_close());
        let at = insertion_point(contents);
        lemma_boundary_after_ascii(contents, first + 1);
        if occurs_at(contents, feed + feed, first + 2) {
            assert(contents[first + 2] == (feed + feed)[0]);
            lemma_boundary_after_ascii(contents, first + 2);
        }
        valid_utf8_split(contents, at);
        let head = contents.subrange(0, at);
        let tail = contents.subrange(at, contents.len() as int);
        valid_utf8_concat(head, feed);
        valid_utf8_concat(head + feed, declaration);
        valid_utf8_concat(head + feed + declaration, feed);
        valid_utf8_concat(head + feed + declaration + feed, tail);
    } else {
        valid_utf8_concat(declaration, feed);
        valid_utf8_concat(declaration + feed, contents);
    }
}

/// Appends `src` to `out`.
fn append_bytes(out: &mut Vec<u8>, src: &[u8])
    ensures
        final(out)@ == old(out)@ + src@,
{
    out.extend_from_slice(src);
}

/// Builds the line that declares the module `name`.
pub fn module_declaration(name: &str, public: bool) -> (line: String)
    ensures
        line@ == declaration_line(name@, public),
{
    let line = if public {
        String::from_str("pub mod ")
    } else {
        String::from_str("mod ")
    };
    line.concat(name).concat(";")
}

/// Computes the new text of a root file: `declaration` on a line of its
/// own, at the top of `contents` or, with `below_header`, below the block
/// comment that `contents` opens with.
pub fn compute_patch(contents: &str, declaration: &str, below_header: bool) -> (r: Result<
    Vec<u8>,
>)
    ensures
        match patched(contents.spec_bytes(), declaration.spec_bytes(), below_header) {
            Some(text) => r matches Ok(bytes) && bytes@ == text,
            None => r == Err::<Vec<u8>, Error>(Error::MalformedHeader),
        },
{
    let text = contents.as_bytes();
    assert(text@.len() == text.len());
    let line = declaration.as_bytes();
    let feed = "\n".as_bytes();
    let mut out: Vec<u8> = Vec::new();
    if below_header && has_prefix(text, "/*".as_bytes()) {
        let closer = "*/".as_bytes();
        match find(text, closer) {
            None => {
                return Err(Error::MalformedHeader);
            },
            Some(first) => {
                proof {
                    lemma_first_occurrence_unique(text@, closer@, first as int);
                }
                let mut at: usize = first + closer.len();
                proof {
                    lemma_occurs_in_a_row(text@, feed@, feed@, at as int);
                }
                if matches_at(text, feed, at) && matches_at(text, feed, at + feed.len()) {
                    at = at + feed.len();
                }
                append_bytes(&mut out, slice_subrange(text, 0, at));
                append_bytes(&mut out, feed);
                append_bytes(&mut out, line);
                append_bytes(&mut out, feed);
                append_bytes(&mut out, slice_subrange(text, at, text.len()));
            },
        }
    } else {
        append_bytes(&mut out, line);
        append_bytes(&mut out, feed);
        append_bytes(&mut out, text);
    }
    Ok(out)
}

} // verus!
