//! The boundary to the text decoder and to the styled lines it produces.
//!
//! Styles and styled lines are values of `ratatui`; the engine carries them
//! around without looking inside. What the decoder and the line operations
//! return is given a name here, and the contracts of the engine speak of
//! those names.

use crate::items::Item;
use ansi_to_tui::IntoText;
use vstd::prelude::*;

verus! {

/// `ratatui::style::Style`, a value that the engine hands on unread.
#[verifier::external_type_specification]
#[verifier::external_body]
pub struct ExStyle(ratatui::style::Style);

/// `ratatui::text::Line`, a styled line. The engine learns of a line only
/// what the functions below tell.
#[verifier::external_type_specification]
#[verifier::external_body]
pub struct ExLine<'a>(ratatui::text::Line<'a>);

/// `ansi_to_tui::Error`, the decoder's reason for rejecting a text.
#[verifier::external_type_specification]
#[verifier::external_body]
pub struct ExDecodeError(ansi_to_tui::Error);

/// The lines that the decoder makes of `text`, or `None` where it rejects
/// `text`.
pub uninterp spec fn decoded(text: Seq<char>) -> Option<Seq<ratatui::text::Line<'static>>>;

/// The line with `style` patched onto its own style.
pub uninterp spec fn patched(
    line: ratatui::text::Line<'static>,
    style: ratatui::style::Style,
) -> ratatui::text::Line<'static>;

/// The display width of a line, in terminal columns.
pub uninterp spec fn line_width(line: ratatui::text::Line<'static>) -> nat;

/// The line with the truncation marker appended as its last span.
pub uninterp spec fn with_marker(line: ratatui::text::Line<'static>) -> ratatui::text::Line<
    'static,
>;

/// Calls `ansi_to_tui::IntoText::into_text` on `text` and hands out the
/// lines of the result. The decoder is a pure parser of its input, so what
/// it returns is a function of `text`: the contract gives it a name.
#[verifier::external_body]
pub(crate) fn decode(text: &str) -> (r: Result<
    Vec<ratatui::text::Line<'static>>,
    ansi_to_tui::Error,
>)
    ensures
        match r {
            Ok(lines) => decoded(text@) == Some(lines@),
            Err(_) => decoded(text@) is None,
        },
{
    Ok(text.into_text()?.lines)
}

/// Calls `ratatui::text::Line::patch_style`, which combines the line's own
/// style with `style` and leaves the spans as they are.
#[verifier::external_body]
pub(crate) fn patch_line(
    line: ratatui::text::Line<'static>,
    style: ratatui::style::Style,
) -> (r: ratatui::text::Line<'static>)
    ensures
        r == patched(line, style),
{
    line.patch_style(style)
}

/// Calls `ratatui::text::Line::width`, the sum of the unicode widths of the
/// line's spans.
#[verifier::external_body]
pub(crate) fn width(line: &ratatui::text::Line<'static>) -> (w: usize)
    ensures
        w == line_width(*line),
{
    line.width()
}

/// Pushes the marker glyph, as the unstyled span that
/// `ratatui::text::Span::from` makes of it, onto the spans of `line`.
#[verifier::external_body]
pub(crate) fn push_marker(line: &mut ratatui::text::Line<'static>)
    ensures
        *final(line) == with_marker(*old(line)),
{
    line.spans.push("\u{2026}".into());
}

/// Calls `Clone::clone` of `ratatui::text::Line`, which is derived: the
/// copy has the same spans, style and alignment.
#[verifier::external_body]
pub(crate) fn clone_line(line: &ratatui::text::Line<'static>) -> (r: ratatui::text::Line<
    'static,
>)
    ensures
        r == *line,
{
    line.clone()
}

/// What an item's display text decodes to: the decoder's lines, each
/// patched with the item's style. `None` where the decoder rejects the
/// text.
pub open spec fn display_text(item: Item) -> Option<Seq<ratatui::text::Line<'static>>> {
    match decoded(item.display.0@) {
        Some(lines) => Some(
            Seq::new(lines.len(), |k: int| patched(lines[k], item.display.1)),
        ),
        None => None,
    }
}

/// Decodes an item's display text and patches each line with the item's
/// style.
pub fn get_display_text(item: &Item) -> (r: Result<
    Vec<ratatui::text::Line<'static>>,
    ansi_to_tui::Error,
>)
    ensures
        match r {
            Ok(text) => display_text(*item) == Some(text@),
            Err(_) => display_text(*item) is None,
        },
{
    let raw = decode(item.display.0.as_str())?;
    let mut lines: Vec<ratatui::text::Line<'static>> = Vec::new();
    let mut k: usize = 0;
    while k < raw.len()
        invariant
            k <= raw.len(),
            decoded(item.display.0@) == Some(raw@),
            lines@.len() == k,
            forall|j: int| 0 <= j < k ==> lines@[j] == patched(raw@[j], item.display.1),
        decreases raw.len() - k,
    {
        lines.push(patch_line(clone_line(&raw[k]), item.display.1));
        k += 1;
    }
    assert(lines@ =~= display_text(*item).unwrap());
    Ok(lines)
}

} // verus!
