//! The open documents in tab order, and which of them is active.
use crate::document::{Document, DocumentView};
use vstd::prelude::*;

verus! {

/// The documents that are open, in the order of their tabs, and the index of
/// the one that is shown and edited. There is always at least one document,
/// and the active index always names one of them.
pub struct DocumentManager {
    documents: Vec<Document>,
    active_index: usize,
}

/// What a manager is: its documents in tab order, and the active index.
pub struct ManagerView {
    pub documents: Seq<DocumentView>,
    pub active_index: int,
}

impl ManagerView {
    /// There is a document, and the active index names one.
    pub open spec fn wf(self) -> bool {
        0 <= self.active_index < self.documents.len()
    }

    /// The active document.
    pub open spec fn active(self) -> DocumentView {
        self.documents[self.active_index]
    }

    /// The manager with the document at `index` replaced by `document`.
    pub open spec fn with_document(self, index: int, document: DocumentView) -> ManagerView {
        ManagerView { documents: self.documents.update(index, document), ..self }
    }

    /// The manager after the tab at `index` was selected: a tab that does not
    /// exist is not selected.
    pub open spec fn selected(self, index: int) -> ManagerView {
        if 0 <= index < self.documents.len() {
            ManagerView { active_index: index, ..self }
        } else {
            self
        }
    }

    /// The manager with a new, empty document in a new last tab, which is
    /// active.
    pub open spec fn with_new_tab(self) -> ManagerView {
        ManagerView {
            documents: self.documents.push(DocumentView::empty()),
            active_index: self.documents.len() as int,
        }
    }

    /// Whether any document from `index` on is being loaded or saved.
    pub open spec fn busy_from(self, index: int) -> bool {
        exists|j: int| index <= j < self.documents.len() && (#[trigger] self.documents[j]).is_loading
    }

    /// Whether the tab at `index` may be closed.
    ///
    /// It has to exist and must not be the only one. And no document in it or
    /// in a later tab may be loading or saving: a load or a save finds its
    /// document again by the index it had at the start, so a document keeps
    /// its index for as long as it is busy.
    pub open spec fn can_close(self, index: int) -> bool {
        &&& 0 <= index < self.documents.len()
        &&& self.documents.len() > 1
        &&& !self.busy_from(index)
    }

    /// The manager without the tab at `index`. The active index stays where it
    /// was, unless it would then name no tab: then it names the last one.
    pub open spec fn without_tab(self, index: int) -> ManagerView {
        ManagerView {
            documents: self.documents.remove(index),
            active_index: if self.active_index < self.documents.len() - 1 {
                self.active_index
            } else {
                self.documents.len() - 2
            },
        }
    }

    /// The manager after a request to close the tab at `index`: a tab that
    /// may not be closed stays.
    pub open spec fn closed(self, index: int) -> ManagerView {
        if self.can_close(index) {
            self.without_tab(index)
        } else {
            self
        }
    }
}

/// The views of `documents`, one by one.
pub open spec fn views(documents: Seq<Document>) -> Seq<DocumentView> {
    documents.map_values(|document: Document| document@)
}

proof fn lemma_views_update(documents: Seq<Document>, index: int, document: Document)
    requires
        0 <= index < documents.len(),
    ensures
        views(documents.update(index, document)) == views(documents).update(index, document@),
{
    assert(views(documents.update(index, document)) =~= views(documents).update(
        index,
        document@,
    ));
}

impl View for DocumentManager {
    type V = ManagerView;

    closed spec fn view(&self) -> ManagerView {
        ManagerView { documents: views(self.documents@), active_index: self.active_index as int }
    }
}

impl DocumentManager {
    /// The invariant of a manager.
    pub open spec fn wf(&self) -> bool {
        self@.wf()
    }

    /// A manager with one new, empty document.
    pub fn new() -> (manager: DocumentManager)
        ensures
            manager.wf(),
            manager@.documents == seq![DocumentView::empty()],
            manager@.active_index == 0,
    {
        let mut documents: Vec<Document> = Vec::new();
        documents.push(Document::new());
        let manager = DocumentManager { documents, active_index: 0 };
        assert(manager@.documents =~= seq![DocumentView::empty()]);
        manager
    }

    /// The number of open documents.
    pub fn len(&self) -> (len: usize)
        ensures
            len == self@.documents.len(),
    {
        self.documents.len()
    }

    /// The index of the active document.
    pub fn active_index(&self) -> (index: usize)
        ensures
            index == self@.active_index,
    {
        self.active_index
    }

    /// The document at `index`, if there is one.
    pub fn get(&self, index: usize) -> (document: Option<&Document>)
        ensures
            index < self@.documents.len() ==> document is Some && document->0@
                == self@.documents[index as int],
            index >= self@.documents.len() ==> document is None,
    {
        if index < self.documents.len() {
            Some(&self.documents[index])
        } else {
            None
        }
    }

    /// The active document.
    pub fn active(&self) -> (document: &Document)
        requires
            self.wf(),
        ensures
            document@ == self@.active(),
    {
        &self.documents[self.active_index]
    }

    /// The document at `index`, to be changed in place.
    pub fn document_mut(&mut self, index: usize) -> (document: &mut Document)
        requires
            index < old(self)@.documents.len(),
        ensures
            document@ == old(self)@.documents[index as int],
            final(self)@ == old(self)@.with_document(index as int, final(document)@),
    {
        proof {
            let documents = self.documents@;
            assert forall|document: Document| #[trigger]
                views(documents.update(index as int, document)) == views(documents).update(
                    index as int,
                    document@,
                ) by {
                lemma_views_update(documents, index as int, document);
            }
        }
        &mut self.documents[index]
    }

    /// The active document, to be changed in place.
    pub fn active_mut(&mut self) -> (document: &mut Document)
        requires
            old(self).wf(),
        ensures
            document@ == old(self)@.active(),
            final(self)@ == old(self)@.with_document(old(self)@.active_index, final(document)@),
    {
        let index = self.active_index;
        self.document_mut(index)
    }

    /// Makes the tab at `index` the active one. An index that names no tab is
    /// ignored.
    pub fn select(&mut self, index: usize)
        requires
            old(self).wf(),
        ensures
            final(self).wf(),
            final(self)@ == old(self)@.selected(index as int),
    {
        if index < self.documents.len() {
            self.active_index = index;
        }
    }

    /// Opens a new, empty document in a new last tab and makes it active.
    pub fn open_new_tab(&mut self)
        requires
            old(self).wf(),
        ensures
            final(self).wf(),
            final(self)@ == old(self)@.with_new_tab(),
    {
        self.documents.push(Document::new());
        self.active_index = self.documents.len() - 1;
        assert(self@.documents =~= old(self)@.with_new_tab().documents);
    }

    /// Whether the tab at `index` may be closed.
    pub fn can_close(&self, index: usize) -> (allowed: bool)
        ensures
            allowed == self@.can_close(index as int),
    {
        let len = self.documents.len();
        if index >= len || len <= 1 {
            return false;
        }
        let mut j: usize = index;
        while j < len
            invariant
                index <= j <= len,
                len == self.documents.len(),
                forall|k: int| index <= k < j ==> !(#[trigger] self@.documents[k]).is_loading,
            decreases len - j,
        {
            if self.documents[j].is_loading {
                assert(self@.documents[j as int].is_loading);
                return false;
            }
            j += 1;
        }
        true
    }

    /// Closes the tab at `index`, if it may be closed, and says whether it
    /// did. The active index stays where it was, unless it would then name no
    /// tab: then it names the last one.
    pub fn close_tab(&mut self, index: usize) -> (closed: bool)
        requires
            old(self).wf(),
        ensures
            final(self).wf(),
            closed == old(self)@.can_close(index as int),
            final(self)@ == old(self)@.closed(index as int),
    {
        if !self.can_close(index) {
            return false;
        }
        let _ = self.documents.remove(index);
        if self.active_index >= self.documents.len() {
            self.active_index = self.documents.len() - 1;
        }
        assert(self@.documents =~= old(self)@.documents.remove(index as int));
        true
    }

    /// The name on the tab at `index`: the path of its document, or "New" for
    /// a document without one.
    pub fn label_for(&self, index: usize) -> (label: String)
        requires
            index < self@.documents.len(),
        ensures
            label@ == self@.documents[index as int].label(),
    {
        self.documents[index].label()
    }

    /// The names on all the tabs, in tab order.
    pub fn labels(&self) -> (labels: Vec<String>)
        ensures
            labels@.len() == self@.documents.len(),
            forall|i: int|
                0 <= i < labels@.len() ==> (#[trigger] labels@[i])@ == self@.documents[i].label(),
    {
        let mut labels: Vec<String> = Vec::new();
        let mut i: usize = 0;
        while i < self.documents.len()
            invariant
                i <= self.documents.len(),
                labels@.len() == i,
                forall|k: int|
                    0 <= k < i ==> (#[trigger] labels@[k])@ == self@.documents[k].label(),
            decreases self.documents.len() - i,
        {
            labels.push(self.documents[i].label());
            i += 1;
        }
        labels
    }
}

} // verus!
