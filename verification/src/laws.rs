//! What holds of every run of the editor, proved from the steps it takes.
use crate::buffer::changes_text;
use crate::editor::{step, Effect, Message, Operation};
use crate::file_service::{first_step, next_step, Progress, Request, Response};
use crate::manager::ManagerView;
use vstd::prelude::*;

verus! {

/// Whether `states` is a run of the editor: it starts with one document in
/// the first and only tab, and each state follows from the one before by the
/// step that answers the message of the same index with the effect of the
/// same index.
pub open spec fn is_run(states: Seq<ManagerView>, messages: Seq<Message>, effects: Seq<Effect>) -> bool {
    &&& states.len() == messages.len() + 1
    &&& effects.len() == messages.len()
    &&& states[0].documents.len() == 1
    &&& states[0].active_index == 0
    &&& forall|i: int|
        0 <= i < messages.len() ==> #[trigger] step(
            states[i],
            messages[i],
            states[i + 1],
            effects[i],
        )
}

/// The index that the document at `index` after the step had before it. Only
/// closing a tab moves documents: those behind the closed tab come one
/// forward.
pub open spec fn index_before(pre: ManagerView, message: Message, index: int) -> int {
    match message {
        Message::TabClosed(closed) => if pre.can_close(closed as int) && index >= closed {
            index + 1
        } else {
            index
        },
        _ => index,
    }
}

/// Whether `message` reports the end of the operation of the document at
/// `index`.
pub open spec fn ends_operation_of(message: Message, index: int) -> bool {
    match message {
        Message::FileOpened(document, _) => document == index,
        Message::FileSaved(document, _) => document == index,
        _ => false,
    }
}

/// A step keeps the invariant: afterwards there is still a document, and the
/// active index still names one.
pub proof fn lemma_step_keeps_invariant(
    pre: ManagerView,
    message: Message,
    post: ManagerView,
    effect: Effect,
)
    requires
        pre.wf(),
        step(pre, message, post, effect),
    ensures
        post.wf(),
{
}

/// In every state of every run there is at least one document, and the
/// active index names one of them.
pub proof fn lemma_every_state_of_a_run_is_well_formed(
    states: Seq<ManagerView>,
    messages: Seq<Message>,
    effects: Seq<Effect>,
    i: int,
)
    requires
        is_run(states, messages, effects),
        0 <= i < states.len(),
    ensures
        states[i].documents.len() >= 1,
        0 <= states[i].active_index < states[i].documents.len(),
    decreases i,
{
    if i > 0 {
        lemma_every_state_of_a_run_is_well_formed(states, messages, effects, i - 1);
        assert(step(states[i - 1], messages[i - 1], states[i - 1 + 1], effects[i - 1]));
        lemma_step_keeps_invariant(states[i - 1], messages[i - 1], states[i], effects[i - 1]);
    }
}

/// A document is clean and idle right after a load or a save of it has
/// succeeded.
pub proof fn lemma_clean_after_load_or_save(
    pre: ManagerView,
    message: Message,
    post: ManagerView,
    effect: Effect,
    index: int,
)
    requires
        pre.wf(),
        step(pre, message, post, effect),
        pre.awaits(index),
        (message matches Message::FileOpened(document, Ok(_)) && document == index) || (
        message matches Message::FileSaved(document, Ok(_)) && document == index),
    ensures
        index < post.documents.len(),
        !post.documents[index].is_dirty,
        !post.documents[index].is_loading,
{
}

/// A document is dirty after a step only if it was dirty before, or if it is
/// the active document and the step was an edit of its text.
pub proof fn lemma_dirty_only_by_edit(
    pre: ManagerView,
    message: Message,
    post: ManagerView,
    effect: Effect,
    index: int,
)
    requires
        pre.wf(),
        step(pre, message, post, effect),
        0 <= index < post.documents.len(),
        post.documents[index].is_dirty,
    ensures
        ({
            let before = index_before(pre, message, index);
            0 <= before < pre.documents.len() && pre.documents[before].is_dirty
        }) || ({
            &&& message matches Message::ActionPerformed(action)
            &&& changes_text(action)
            &&& index == pre.active_index
            &&& !pre.active().is_loading
        }),
{
}

/// A document that is busy stays where it is and as it is, until the message
/// that ends its operation: no other message changes it, moves it to another
/// index or closes it.
pub proof fn lemma_busy_document_stays(
    pre: ManagerView,
    message: Message,
    post: ManagerView,
    effect: Effect,
    index: int,
)
    requires
        pre.wf(),
        step(pre, message, post, effect),
        pre.awaits(index),
        !ends_operation_of(message, index),
    ensures
        post.awaits(index),
        post.documents[index] == pre.documents[index],
{
    match message {
        Message::TabClosed(closed) => {
            if pre.can_close(closed as int) {
                assert(!pre.busy_from(closed as int));
                assert(index < closed);
            }
        },
        _ => {},
    }
}

/// A document becomes busy only together with the operation that the step
/// schedules for it: a document that is busy after a step was busy before,
/// or the effect of the step is an operation for that document.
pub proof fn lemma_busy_only_by_schedule(
    pre: ManagerView,
    message: Message,
    post: ManagerView,
    effect: Effect,
    index: int,
)
    requires
        pre.wf(),
        step(pre, message, post, effect),
        0 <= index < post.documents.len(),
        post.documents[index].is_loading,
    ensures
        ({
            let before = index_before(pre, message, index);
            0 <= before < pre.documents.len() && pre.documents[before].is_loading
        }) || (effect matches Effect::Schedule(operation) && operation.document() == index),
{
}

/// An operation is scheduled only for the active document, only while it is
/// idle, and leaves it busy and otherwise as it was.
pub proof fn lemma_schedule_marks_busy(
    pre: ManagerView,
    message: Message,
    post: ManagerView,
    effect: Effect,
)
    requires
        pre.wf(),
        step(pre, message, post, effect),
        effect is Schedule,
    ensures
        effect->Schedule_0.document() == pre.active_index,
        !pre.active().is_loading,
        post == pre.with_active(pre.active().busy()),
{
}

/// Saving a clean document that has a path changes nothing in the end.
///
/// The save is scheduled for the path of the document and with its text. It
/// asks for no dialog: its first request is the write, and the answer to the
/// write ends it. And whether the write succeeds or fails, the message that
/// ends the save brings the editor back to the state it had before the save
/// was asked for.
pub proof fn lemma_saving_a_clean_document_changes_nothing(
    pre: ManagerView,
    busy: ManagerView,
    post: ManagerView,
    scheduled: Effect,
    written: Result<(), std::io::ErrorKind>,
    effect: Effect,
)
    requires
        pre.wf(),
        pre.active().path is Some,
        !pre.active().is_dirty,
        !pre.active().is_loading,
        step(pre, Message::SaveFile, busy, scheduled),
        step(
            busy,
            next_step(first_step(scheduled->Schedule_0).0, Response::Written(written))->Finished_0,
            post,
            effect,
        ),
    ensures
        scheduled is Schedule,
        first_step(scheduled->Schedule_0).1 matches Request::Write { path, contents } && Some(path@)
            == pre.active().path && contents@ == pre.active().text,
        first_step(scheduled->Schedule_0).0.expects(Response::Written(written)),
        next_step(first_step(scheduled->Schedule_0).0, Response::Written(written)) is Finished,
        post == pre,
        effect is Nothing,
{
    let operation = scheduled->Schedule_0;
    let index = pre.active_index;
    assert(operation matches Operation::Save { document, path: Some(path), contents } && document
        == index && Some(path@) == pre.active().path);
    assert(busy.awaits(index));
    assert(post.documents =~= pre.documents);
}

/// A save of a document without a path, whose dialog the user closes,
/// changes nothing in the end: the document is idle again, as dirty as it
/// was, and still without a path. The save asks for the dialog first, and the
/// closed dialog ends it, so that no file is written.
pub proof fn lemma_closed_save_dialog_changes_nothing(
    pre: ManagerView,
    busy: ManagerView,
    post: ManagerView,
    scheduled: Effect,
    effect: Effect,
)
    requires
        pre.wf(),
        pre.active().path is None,
        !pre.active().is_loading,
        step(pre, Message::SaveFile, busy, scheduled),
        step(
            busy,
            next_step(first_step(scheduled->Schedule_0).0, Response::Picked(None))->Finished_0,
            post,
            effect,
        ),
    ensures
        scheduled is Schedule,
        first_step(scheduled->Schedule_0).1 is PickSaveLocation,
        first_step(scheduled->Schedule_0).0.expects(Response::Picked(None)),
        next_step(first_step(scheduled->Schedule_0).0, Response::Picked(None)) is Finished,
        post == pre,
        effect is Nothing,
{
    let operation = scheduled->Schedule_0;
    let index = pre.active_index;
    assert(operation matches Operation::Save { document, path: None, contents } && document
        == index);
    assert(busy.awaits(index));
    assert(post.documents =~= pre.documents);
}

/// The file service passes text on unchanged. A save asks to write exactly
/// the contents it was given, to the path it was given. A load of that path
/// asks to read it, and ends with exactly the text that was read. So where
/// the filesystem reads back what was written, a save followed by a load of
/// the same path yields the contents that were saved.
pub proof fn lemma_saved_contents_are_loaded_back(
    saving: usize,
    loading: usize,
    path: String,
    contents: String,
)
    ensures
        first_step(Operation::Save { document: saving, path: Some(path), contents }).1 == (
        Request::Write { path, contents }),
        next_step(
            first_step(Operation::Save { document: saving, path: Some(path), contents }).0,
            Response::Written(Ok(())),
        ) == Progress::Finished(Message::FileSaved(saving, Ok(path))),
        first_step(Operation::Load { document: loading, path }).1 == (Request::Read { path }),
        next_step(
            first_step(Operation::Load { document: loading, path }).0,
            Response::Read(Ok(contents)),
        ) == Progress::Finished(Message::FileOpened(loading, Ok((path, contents)))),
{
}

/// A file operation ends after at most two responses: a dialog, if it needs
/// one, and then the read or the write.
pub proof fn lemma_operation_ends_after_two_responses(
    operation: Operation,
    first: Response,
    second: Response,
)
    requires
        first_step(operation).0.expects(first),
        next_step(first_step(operation).0, first) matches Progress::Continue(task, _)
            && task.expects(second),
    ensures
        operation is Open || (operation matches Operation::Save { path: None, .. }),
        next_step(next_step(first_step(operation).0, first)->Continue_0, second) is Finished,
{
}

} // verus!
