//! What the window around the documents needs from the editor: the file it
//! opens at the start, and the one key binding.
use crate::editor::Message;
use vstd::prelude::*;
use vstd::string::*;

verus! {

/// The path of the file that the editor opens when it starts: `src/main.rs`
/// below `manifest_dir`, the directory of the program's own sources.
pub fn default_file(manifest_dir: &str) -> (path: String)
    ensures
        path@ == manifest_dir@ + "/src/main.rs"@,
{
    String::from_str(manifest_dir).concat("/src/main.rs")
}

/// Whether a key press is the binding for saving: the character key `s`
/// together with the platform's command modifier.
pub open spec fn is_save_shortcut(key: Seq<char>, command: bool) -> bool {
    command && key == seq!['s']
}

/// The message that a key press stands for, if any. `key` is the text of a
/// character key, and `command` says whether the platform's command modifier
/// is held. The one binding is that for saving.
pub fn shortcut(key: &str, command: bool) -> (message: Option<Message>)
    ensures
        is_save_shortcut(key@, command) ==> message == Some(Message::SaveFile),
        !is_save_shortcut(key@, command) ==> message is None,
{
    if command && key.unicode_len() == 1 && key.get_char(0) == 's' {
        assert(key@ =~= seq!['s']);
        Some(Message::SaveFile)
    } else {
        None
    }
}

} // verus!
