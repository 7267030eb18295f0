//! One open document: its file, its edit buffer, and whether it is being
//! loaded or saved and whether it has edits that were not saved.
use crate::buffer::{buffer_cursor, buffer_text, changes_text, is_edit, text_as_lines, EditBuffer};
use iced::widget::text_editor::Action;
use vstd::prelude::*;
use vstd::string::*;
use vstd::utf8::*;

verus! {

/// A document that is open in the editor.
///
/// A document is a plain record. The rules on when each field may change are
/// those of the editor, which guards every call; a document on its own only
/// says what each step does.
pub struct Document {
    /// Where the document lives on disk; `None` for one that was never saved.
    pub path: Option<String>,
    /// The text being edited.
    pub buffer: EditBuffer,
    /// Whether a load or a save of this document is under way.
    pub is_loading: bool,
    /// Whether the text was edited since it was last loaded or saved.
    pub is_dirty: bool,
}

/// What a document is, as far as the editor's rules go.
pub struct DocumentView {
    pub path: Option<Seq<char>>,
    pub text: Seq<char>,
    pub is_loading: bool,
    pub is_dirty: bool,
}

impl DocumentView {
    /// A new document: no file, an empty buffer, idle and clean.
    pub open spec fn empty() -> DocumentView {
        DocumentView {
            path: None,
            text: text_as_lines(Seq::empty()),
            is_loading: false,
            is_dirty: false,
        }
    }

    /// The document once a load or a save of it has begun.
    pub open spec fn busy(self) -> DocumentView {
        DocumentView { is_loading: true, ..self }
    }

    /// The document once a load or a save of it has failed: idle again, and
    /// otherwise as it was.
    pub open spec fn idle(self) -> DocumentView {
        DocumentView { is_loading: false, ..self }
    }

    /// The document once `contents` have been loaded from `path`.
    pub open spec fn loaded(self, path: Seq<char>, contents: Seq<char>) -> DocumentView {
        DocumentView {
            path: Some(path),
            text: text_as_lines(contents),
            is_loading: false,
            is_dirty: false,
        }
    }

    /// The document once it has been saved to `path`.
    pub open spec fn saved(self, path: Seq<char>) -> DocumentView {
        DocumentView { path: Some(path), is_loading: false, is_dirty: false, ..self }
    }

    /// Whether `after` can be this document after an edit of its text: the
    /// document is dirty, and nothing but the text may differ.
    pub open spec fn edited_to(self, after: DocumentView) -> bool {
        &&& after.path == self.path
        &&& after.is_loading == self.is_loading
        &&& after.is_dirty
    }

    /// The name of the document on its tab: its path, or "New" without one.
    pub open spec fn label(self) -> Seq<char> {
        match self.path {
            Some(path) => path,
            None => "New"@,
        }
    }

    /// Whether the status line can show the document. A path of more than 60
    /// bytes is cut 40 bytes before its end, and the cut must not fall inside
    /// a character.
    pub open spec fn has_status(self) -> bool {
        match self.path {
            Some(path) => {
                let bytes = encode_utf8(path);
                bytes.len() > 60 ==> is_char_boundary(bytes, bytes.len() - 40)
            },
            None => true,
        }
    }

    /// What the status line shows for the document: "New file" without a
    /// path, a path of up to 60 bytes as it is, and of a longer one three dots
    /// and its last 40 bytes.
    pub open spec fn status(self) -> Seq<char> {
        match self.path {
            Some(path) => {
                let bytes = encode_utf8(path);
                if bytes.len() > 60 {
                    "..."@ + decode_utf8(bytes.subrange(bytes.len() - 40, bytes.len() as int))
                } else {
                    path
                }
            },
            None => "New file"@,
        }
    }
}

impl View for Document {
    type V = DocumentView;

    open spec fn view(&self) -> DocumentView {
        DocumentView {
            path: self.path.deep_view(),
            text: buffer_text(self.buffer),
            is_loading: self.is_loading,
            is_dirty: self.is_dirty,
        }
    }
}

impl Document {
    /// A new, empty document.
    pub fn new() -> (document: Document)
        ensures
            document@ == DocumentView::empty(),
    {
        proof {
            reveal_strlit("");
            assert(""@ =~= Seq::<char>::empty());
        }
        Document { path: None, buffer: EditBuffer::with_text(""), is_loading: false, is_dirty: false }
    }

    /// Takes an action of the text editor widget.
    ///
    /// While the document is loading, the action is dropped. An edit of the
    /// text is carried out on the buffer and makes the document dirty. Any
    /// other action moves the cursor, the selection or the scroll position,
    /// which are the widget's business: it is handed back for the owner of the
    /// widget to carry out, and the document stays as it is.
    pub fn apply_edit(&mut self, action: Action) -> (handed_back: Option<Action>)
        ensures
            old(self).is_loading ==> *final(self) == *old(self) && handed_back is None,
            !old(self).is_loading && changes_text(action) ==> {
                &&& old(self)@.edited_to(final(self)@)
                &&& handed_back is None
            },
            !old(self).is_loading && !changes_text(action) ==> {
                &&& *final(self) == *old(self)
                &&& handed_back == Some(action)
            },
    {
        if self.is_loading {
            None
        } else if is_edit(&action) {
            self.buffer.edit(action);
            self.is_dirty = true;
            None
        } else {
            Some(action)
        }
    }

    /// Marks the document as being loaded.
    pub fn begin_load(&mut self)
        requires
            !old(self).is_loading,
        ensures
            *final(self) == (Document { is_loading: true, ..*old(self) }),
    {
        self.is_loading = true;
    }

    /// Marks the document as being saved.
    pub fn begin_save(&mut self)
        requires
            !old(self).is_loading,
        ensures
            *final(self) == (Document { is_loading: true, ..*old(self) }),
    {
        self.is_loading = true;
    }

    /// The load succeeded: the document now shows `contents`, read from
    /// `path`, and is idle and clean.
    pub fn complete_load(&mut self, path: String, contents: &str)
        ensures
            final(self)@ == old(self)@.loaded(path@, contents@),
            final(self).path == Some(path),
    {
        self.path = Some(path);
        self.buffer = EditBuffer::with_text(contents);
        self.is_dirty = false;
        self.is_loading = false;
    }

    /// The load failed: the document is idle again and keeps what it had.
    pub fn complete_load_failure(&mut self)
        ensures
            *final(self) == (Document { is_loading: false, ..*old(self) }),
    {
        self.is_loading = false;
    }

    /// The save succeeded: the document now lives at `path`, and is idle and
    /// clean.
    pub fn complete_save(&mut self, path: String)
        ensures
            *final(self) == (Document {
                path: Some(path),
                is_loading: false,
                is_dirty: false,
                ..*old(self)
            }),
    {
        self.path = Some(path);
        self.is_dirty = false;
        self.is_loading = false;
    }

    /// The save failed: the document is idle again, and as dirty as it was.
    pub fn complete_save_failure(&mut self)
        ensures
            *final(self) == (Document { is_loading: false, ..*old(self) }),
    {
        self.is_loading = false;
    }

    /// Forgets the file and the text: the document becomes a new one.
    pub fn reset_new(&mut self)
        requires
            !old(self).is_loading,
        ensures
            final(self)@ == DocumentView::empty(),
    {
        proof {
            reveal_strlit("");
            assert(""@ =~= Seq::<char>::empty());
        }
        self.path = None;
        self.buffer = EditBuffer::with_text("");
        self.is_dirty = false;
    }

    /// A copy of the text as it is now.
    pub fn text(&self) -> (text: String)
        ensures
            text@ == self@.text,
    {
        self.buffer.text()
    }

    /// The line and the column of the cursor, both counted from 0.
    pub fn cursor_position(&self) -> (position: (usize, usize))
        ensures
            position.0 == buffer_cursor(self.buffer).0,
            position.1 == buffer_cursor(self.buffer).1,
    {
        self.buffer.cursor_position()
    }

    /// The name of the document on its tab.
    pub fn label(&self) -> (label: String)
        ensures
            label@ == self@.label(),
    {
        match &self.path {
            Some(path) => path.clone(),
            None => String::from_str("New"),
        }
    }

    /// Whether the status line can show the document.
    pub fn has_status(&self) -> (shown: bool)
        ensures
            shown == self@.has_status(),
    {
        match &self.path {
            Some(path) => {
                let path = path.as_str();
                let len = path.as_bytes().len();
                len <= 60 || path.is_char_boundary(len - 40)
            },
            None => true,
        }
    }

    /// What the status line shows for the document.
    pub fn status(&self) -> (status: String)
        requires
            self@.has_status(),
        ensures
            status@ == self@.status(),
    {
        match &self.path {
            Some(path) => {
                let path = path.as_str();
                let len = path.as_bytes().len();
                if len > 60 {
                    let (_, tail) = path.split_at(len - 40);
                    proof {
                        encode_utf8_decode_utf8(tail@);
                    }
                    String::from_str("...").concat(tail)
                } else {
                    String::from_str(path)
                }
            },
            None => String::from_str("New file"),
        }
    }
}

} // verus!
