//! The edit buffer of a document: the text editor contents that `iced` keeps,
//! held opaquely, with the few operations the editor's rules need from it.
use iced::widget::text_editor::{Action, Content};
use vstd::prelude::*;

verus! {

/// `iced`'s `text_editor::Action`: what a text editor widget reports that
/// the user did. It is carried through as it comes; nothing here looks into
/// it.
#[verifier::external_type_specification]
#[verifier::external_body]
pub struct ExAction(Action);

/// The contents of one text editor widget.
///
/// The text, the cursor and the selection live inside `iced`'s `Content`;
/// nothing here looks into it. The field is public for one reason: the widget
/// that draws and lays out the buffer borrows the `Content` itself.
#[verifier::external_body]
pub struct EditBuffer {
    pub content: Content,
}

/// The text that `buffer` holds: what `Content::text` returns for it.
pub uninterp spec fn buffer_text(buffer: EditBuffer) -> Seq<char>;

/// The line and the column of the cursor in `buffer`: what
/// `Content::cursor_position` returns for it.
pub uninterp spec fn buffer_cursor(buffer: EditBuffer) -> (nat, nat);

/// The text that a buffer holds when it has just been made from `text`:
/// `text` cut into lines and joined again as `Content` does it.
pub uninterp spec fn text_as_lines(text: Seq<char>) -> Seq<char>;

/// Whether `action` is an edit of the text, as opposed to a movement of the
/// cursor, a selection or scrolling: what `Action::is_edit` returns for it.
pub uninterp spec fn changes_text(action: Action) -> bool;

/// `Action::is_edit`: tells an edit of the text from every other action.
#[verifier::external_body]
pub(crate) fn is_edit(action: &Action) -> (edit: bool)
    ensures
        edit == changes_text(*action),
{
    action.is_edit()
}

impl EditBuffer {
    /// `Content::with_text`: a new buffer that holds `text`, line by line.
    #[verifier::external_body]
    pub(crate) fn with_text(text: &str) -> (buffer: EditBuffer)
        ensures
            buffer_text(buffer) == text_as_lines(text@),
    {
        EditBuffer { content: Content::with_text(text) }
    }

    /// `Content::text`: a copy of the text in the buffer.
    #[verifier::external_body]
    pub(crate) fn text(&self) -> (text: String)
        ensures
            text@ == buffer_text(*self),
    {
        self.content.text()
    }

    /// `Content::cursor_position`: the line and the column of the cursor.
    #[verifier::external_body]
    pub(crate) fn cursor_position(&self) -> (position: (usize, usize))
        ensures
            position.0 == buffer_cursor(*self).0,
            position.1 == buffer_cursor(*self).1,
    {
        self.content.cursor_position()
    }

    /// `Content::perform`, for an edit of the text. Nothing is claimed of the
    /// text or the cursor afterwards.
    ///
    /// Only edits are performed here. An edit works on the lines of text
    /// alone, while `iced` carries out several cursor movements on the layout
    /// of the lines and panics where the buffer has none, which is the case
    /// until a widget has laid it out.
    #[verifier::external_body]
    pub(crate) fn edit(&mut self, action: Action)
        requires
            changes_text(action),
    {
        self.content.perform(action)
    }
}

} // verus!
