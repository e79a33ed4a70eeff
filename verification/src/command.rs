use vstd::prelude::*;

verus! {

/// A request sent by a front end to the playback controller.
#[derive(Debug, Clone)]
pub enum Command {
    /// Play the audio that belongs to this identifier.
    Load(String),
    /// Stop whatever is playing.
    Unload,
    /// Bring the controller back to its idle state.
    Reset,
}

/// The mathematical value of a [`Command`].
pub enum CommandView {
    Load(Seq<char>),
    Unload,
    Reset,
}

impl View for Command {
    type V = CommandView;

    open spec fn view(&self) -> CommandView {
        match self {
            Command::Load(id) => CommandView::Load(id@),
            Command::Unload => CommandView::Unload,
            Command::Reset => CommandView::Reset,
        }
    }
}

/// `Option<Command>` taken by its view.
pub open spec fn opt_command_view(c: Option<Command>) -> Option<CommandView> {
    match c {
        Some(c) => Some(c@),
        None => None,
    }
}

} // verus!

verus! {

/// Whether two texts are equal.
pub fn same_text(a: &str, b: &str) -> (r: bool)
    ensures
        r == (a@ == b@),
{
    String::from_str(a).eq(&String::from_str(b))
}

/// The command that a front end's action of type `typ` asks for: `load`
/// plays the audio of `tag_id`, `unload` and `reset` ask for what their
/// names say, any other type asks for nothing.
pub open spec fn command_for_spec(typ: Seq<char>, tag_id: Seq<char>) -> Option<CommandView> {
    if typ == "load"@ {
        Some(CommandView::Load(tag_id))
    } else if typ == "unload"@ {
        Some(CommandView::Unload)
    } else if typ == "reset"@ {
        Some(CommandView::Reset)
    } else {
        None
    }
}

/// The command for an action of type `typ` on the tag `tag_id`.
pub fn command_for(typ: &str, tag_id: &str) -> (c: Option<Command>)
    ensures
        opt_command_view(c) == command_for_spec(typ@, tag_id@),
{
    if same_text(typ, "load") {
        Some(Command::Load(tag_id.to_string()))
    } else if same_text(typ, "unload") {
        Some(Command::Unload)
    } else if same_text(typ, "reset") {
        Some(Command::Reset)
    } else {
        None
    }
}

/// Only an action of type `load` asks for a load, and it loads the tag it
/// came with, unchanged; `unload` and `reset` ask for exactly those.
pub proof fn lemma_load_keeps_its_tag(typ: Seq<char>, tag_id: Seq<char>)
    ensures
        command_for_spec(typ, tag_id) matches Some(CommandView::Load(x)) ==> x == tag_id && typ == "load"@,
        typ == "load"@ ==> command_for_spec(typ, tag_id) == Some(CommandView::Load(tag_id)),
        typ == "unload"@ ==> command_for_spec(typ, tag_id) == Some(CommandView::Unload),
        typ == "reset"@ ==> command_for_spec(typ, tag_id) == Some(CommandView::Reset),
{
    reveal_strlit("load");
    reveal_strlit("unload");
    reveal_strlit("reset");
    assert("load"@.len() == 4);
    assert("unload"@.len() == 6);
    assert("reset"@.len() == 5);
    assert("unload"@ != "load"@);
    assert("reset"@ != "load"@);
    assert("reset"@ != "unload"@) by {
        assert("reset"@[0] != "unload"@[0]);
    }
}

} // verus!
