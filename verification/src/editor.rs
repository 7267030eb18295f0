//! The editor: what each message does to the open documents, and which file
//! operation it starts.
//!
//! Loads and saves take time. The editor only marks the document as busy and
//! names the operation to run; whoever runs it reports back with a message
//! that carries the index of the document it was started for.
use crate::buffer::changes_text;
use crate::document::DocumentView;
use crate::error::Error;
use crate::manager::{DocumentManager, ManagerView};
use iced::widget::text_editor::Action;
use vstd::prelude::*;

verus! {

/// A file operation that the editor has started for one of its documents.
#[allow(inconsistent_fields)]
#[derive(Debug)]
pub enum Operation {
    /// Read the file at `path` into the document.
    Load { document: usize, path: String },
    /// Let the user pick a file, and read it into the document.
    Open { document: usize },
    /// Write `contents` to `path`; without a path, let the user pick one
    /// first.
    Save { document: usize, path: Option<String>, contents: String },
}

impl Operation {
    /// The index of the document that the operation was started for.
    pub open spec fn document(self) -> usize {
        match self {
            Operation::Load { document, .. } => document,
            Operation::Open { document } => document,
            Operation::Save { document, .. } => document,
        }
    }
}

/// What is left to do after the editor has taken a message.
#[derive(Debug)]
pub enum Effect {
    /// Nothing.
    Nothing,
    /// Carry out this action on the buffer of the active document: it moves
    /// the cursor, the selection or the scroll position, and no text.
    Navigate(Action),
    /// Run this file operation, and report its end with a message.
    Schedule(Operation),
}

/// Something that happened: the user did something, or a file operation
/// ended.
#[derive(Debug)]
pub enum Message {
    /// The text editor widget of the active document produced an action.
    ActionPerformed(Action),
    /// The user asked for a new file in the active tab.
    NewFile,
    /// The user asked to open a file in the active tab.
    OpenFile,
    /// A load ended, for the document that had this index when it started:
    /// with the path and the contents of the file, or with an error.
    FileOpened(usize, Result<(String, String), Error>),
    /// The user asked to save the active document.
    SaveFile,
    /// A save ended, for the document that had this index when it started:
    /// with the path of the file, or with an error.
    FileSaved(usize, Result<String, Error>),
    /// The user selected the tab at this index.
    TabSelected(usize),
    /// The user asked to close the tab at this index.
    TabClosed(usize),
    /// The user asked for a new tab.
    TabNew,
}

impl ManagerView {
    /// Whether the end of an operation for the document at `index` is
    /// expected: there is such a document, and it is busy.
    pub open spec fn awaits(self, index: int) -> bool {
        0 <= index < self.documents.len() && self.documents[index].is_loading
    }

    /// The manager with the active document replaced by `document`.
    pub open spec fn with_active(self, document: DocumentView) -> ManagerView {
        self.with_document(self.active_index, document)
    }
}

/// Whether the editor, in state `pre`, may answer `message` by going to state
/// `post` with `effect`.
///
/// All but one of the cases fix `post` and `effect`. The exception is an edit
/// of the text: which text it leaves is the business of the edit buffer.
pub open spec fn step(pre: ManagerView, message: Message, post: ManagerView, effect: Effect) -> bool {
    match message {
        Message::ActionPerformed(action) => {
            if pre.active().is_loading {
                post == pre && effect is Nothing
            } else if changes_text(action) {
                &&& post == pre.with_active(post.documents[pre.active_index])
                &&& pre.active().edited_to(post.documents[pre.active_index])
                &&& effect is Nothing
            } else {
                post == pre && effect == Effect::Navigate(action)
            }
        },
        Message::NewFile => {
            &&& effect is Nothing
            &&& post == if pre.active().is_loading {
                pre
            } else {
                pre.with_active(DocumentView::empty())
            }
        },
        Message::OpenFile => {
            if pre.active().is_loading {
                post == pre && effect is Nothing
            } else {
                &&& post == pre.with_active(pre.active().busy())
                &&& effect matches Effect::Schedule(Operation::Open { document })
                &&& document == pre.active_index
            }
        },
        Message::FileOpened(document, result) => {
            &&& effect is Nothing
            &&& post == if pre.awaits(document as int) {
                let before = pre.documents[document as int];
                match result {
                    Ok((path, contents)) => pre.with_document(
                        document as int,
                        before.loaded(path@, contents@),
                    ),
                    Err(_) => pre.with_document(document as int, before.idle()),
                }
            } else {
                pre
            }
        },
        Message::SaveFile => {
            if pre.active().is_loading {
                post == pre && effect is Nothing
            } else {
                &&& post == pre.with_active(pre.active().busy())
                &&& effect matches Effect::Schedule(Operation::Save { document, path, contents })
                &&& document == pre.active_index
                &&& path.deep_view() == pre.active().path
                &&& contents@ == pre.active().text
            }
        },
        Message::FileSaved(document, result) => {
            &&& effect is Nothing
            &&& post == if pre.awaits(document as int) {
                let before = pre.documents[document as int];
                match result {
                    Ok(path) => pre.with_document(document as int, before.saved(path@)),
                    Err(_) => pre.with_document(document as int, before.idle()),
                }
            } else {
                pre
            }
        },
        Message::TabSelected(index) => post == pre.selected(index as int) && effect is Nothing,
        Message::TabClosed(index) => post == pre.closed(index as int) && effect is Nothing,
        Message::TabNew => post == pre.with_new_tab() && effect is Nothing,
    }
}

/// Putting a document where it already is changes nothing.
proof fn lemma_same_document(manager: ManagerView, index: int)
    requires
        0 <= index < manager.documents.len(),
    ensures
        manager.with_document(index, manager.documents[index]) == manager,
{
    assert(manager.documents.update(index, manager.documents[index]) =~= manager.documents);
}

/// The editor: the open documents, changed by messages.
pub struct Editor {
    /// The open documents.
    pub documents: DocumentManager,
}

impl View for Editor {
    type V = ManagerView;

    open spec fn view(&self) -> ManagerView {
        self.documents@
    }
}

impl Editor {
    /// The invariant of an editor: that of its documents.
    pub open spec fn wf(&self) -> bool {
        self.documents.wf()
    }

    /// An editor with one empty document that is being loaded, and the load
    /// of the file at `path` into it as the operation to run.
    pub fn new(path: String) -> (started: (Editor, Operation))
        ensures
            started.0.wf(),
            started.0@.documents == seq![DocumentView::empty().busy()],
            started.0@.active_index == 0,
            started.1 == (Operation::Load { document: 0, path }),
    {
        let mut documents = DocumentManager::new();
        let document = documents.active_mut();
        document.begin_load();
        assert(documents@.documents =~= seq![DocumentView::empty().busy()]);
        (Editor { documents }, Operation::Load { document: 0, path })
    }

    /// Takes `message`: changes the documents as the message asks, and
    /// returns what is left to do.
    pub fn update(&mut self, message: Message) -> (effect: Effect)
        requires
            old(self).wf(),
        ensures
            final(self).wf(),
            step(old(self)@, message, final(self)@, effect),
    {
        match message {
            Message::ActionPerformed(action) => self.perform(action),
            Message::NewFile => self.new_file(),
            Message::OpenFile => self.open_file(),
            Message::FileOpened(index, result) => self.file_opened(index, result),
            Message::SaveFile => self.save_file(),
            Message::FileSaved(index, result) => self.file_saved(index, result),
            Message::TabSelected(index) => {
                self.documents.select(index);
                Effect::Nothing
            },
            Message::TabClosed(index) => {
                let _ = self.documents.close_tab(index);
                Effect::Nothing
            },
            Message::TabNew => {
                self.documents.open_new_tab();
                Effect::Nothing
            },
        }
    }

    /// An action of the text editor widget, for the active document.
    fn perform(&mut self, action: Action) -> (effect: Effect)
        requires
            old(self).wf(),
        ensures
            final(self).wf(),
            step(old(self)@, Message::ActionPerformed(action), final(self)@, effect),
    {
        proof {
            lemma_same_document(self@, self@.active_index);
        }
        let document = self.documents.active_mut();
        match document.apply_edit(action) {
            Some(action) => Effect::Navigate(action),
            None => Effect::Nothing,
        }
    }

    /// A new file in the active tab, unless its document is busy.
    fn new_file(&mut self) -> (effect: Effect)
        requires
            old(self).wf(),
        ensures
            final(self).wf(),
            step(old(self)@, Message::NewFile, final(self)@, effect),
    {
        proof {
            lemma_same_document(self@, self@.active_index);
        }
        let document = self.documents.active_mut();
        if !document.is_loading {
            document.reset_new();
        }
        Effect::Nothing
    }

    /// Starts to open a file in the active tab, unless its document is busy.
    fn open_file(&mut self) -> (effect: Effect)
        requires
            old(self).wf(),
        ensures
            final(self).wf(),
            step(old(self)@, Message::OpenFile, final(self)@, effect),
    {
        proof {
            lemma_same_document(self@, self@.active_index);
        }
        let index = self.documents.active_index();
        let document = self.documents.active_mut();
        if document.is_loading {
            Effect::Nothing
        } else {
            document.begin_load();
            Effect::Schedule(Operation::Open { document: index })
        }
    }

    /// The end of a load, for the document at `index` if it waits for one.
    fn file_opened(&mut self, index: usize, result: Result<(String, String), Error>) -> (effect:
        Effect)
        requires
            old(self).wf(),
        ensures
            final(self).wf(),
            step(old(self)@, Message::FileOpened(index, result), final(self)@, effect),
    {
        if index < self.documents.len() {
            proof {
                lemma_same_document(self@, index as int);
            }
            let document = self.documents.document_mut(index);
            if document.is_loading {
                match result {
                    Ok((path, contents)) => document.complete_load(path, contents.as_str()),
                    Err(_) => document.complete_load_failure(),
                }
            }
        }
        Effect::Nothing
    }

    /// Starts to save the active document, unless it is busy.
    fn save_file(&mut self) -> (effect: Effect)
        requires
            old(self).wf(),
        ensures
            final(self).wf(),
            step(old(self)@, Message::SaveFile, final(self)@, effect),
    {
        proof {
            lemma_same_document(self@, self@.active_index);
        }
        let index = self.documents.active_index();
        let document = self.documents.active_mut();
        if document.is_loading {
            Effect::Nothing
        } else {
            let path = match &document.path {
                Some(path) => Some(path.clone()),
                None => None,
            };
            let contents = document.text();
            document.begin_save();
            Effect::Schedule(Operation::Save { document: index, path, contents })
        }
    }

    /// The end of a save, for the document at `index` if it waits for one.
    fn file_saved(&mut self, index: usize, result: Result<String, Error>) -> (effect: Effect)
        requires
            old(self).wf(),
        ensures
            final(self).wf(),
            step(old(self)@, Message::FileSaved(index, result), final(self)@, effect),
    {
        if index < self.documents.len() {
            proof {
                lemma_same_document(self@, index as int);
            }
            let document = self.documents.document_mut(index);
            if document.is_loading {
                match result {
                    Ok(path) => document.complete_save(path),
                    Err(_) => document.complete_save_failure(),
                }
            }
        }
        Effect::Nothing
    }
}

} // verus!
