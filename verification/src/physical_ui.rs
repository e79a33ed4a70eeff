use vstd::prelude::*;
use crate::command::{Command, command_for, command_for_spec, opt_command_view};
use crate::json_text::{bytes_member, lookup_view, str_member_of_bytes};

verus! {

/// An action that the poll command of the physical front end printed, as a
/// JSON object such as `{"type": "load", "rfid_tag_id": "a1b2"}`.
#[derive(Debug, Clone)]
pub struct Action {
    pub typ: String,
    pub rfid_tag_id: String,
}

/// The mathematical value of an [`Action`]: its type and tag.
pub struct ActionView {
    pub typ: Seq<char>,
    pub rfid_tag_id: Seq<char>,
}

impl View for Action {
    type V = ActionView;

    open spec fn view(&self) -> ActionView {
        ActionView { typ: self.typ@, rfid_tag_id: self.rfid_tag_id@ }
    }
}

/// The message when the output has no string member `type`.
pub open spec fn missing_type_message() -> Seq<char> {
    "field 'type' missing"@
}

/// The message when the output has no string member `rfid_tag_id`.
pub open spec fn missing_tag_message() -> Seq<char> {
    "field 'rfid_tag_id' missing"@
}

/// The action built from what the lookups of the members `type` and
/// `rfid_tag_id` of the output gave, both required: the parse error, an
/// error naming the first missing member, or the action.
pub open spec fn action_from_members_spec(
    typ: Result<Option<Seq<char>>, Seq<char>>,
    tag: Result<Option<Seq<char>>, Seq<char>>,
) -> Result<ActionView, Seq<char>> {
    match typ {
        Err(e) => Err(e),
        Ok(None) => Err(missing_type_message()),
        Ok(Some(t)) => match tag {
            Err(e) => Err(e),
            Ok(None) => Err(missing_tag_message()),
            Ok(Some(id)) => Ok(ActionView { typ: t, rfid_tag_id: id }),
        },
    }
}

/// `Result<Action, String>` taken by its view.
pub open spec fn result_view(r: Result<Action, String>) -> Result<ActionView, Seq<char>> {
    match r {
        Ok(a) => Ok(a@),
        Err(e) => Err(e@),
    }
}

/// The outcome of decoding the poll output `stdout`, over what `serde_json`
/// reads from it.
pub open spec fn decode_outcome(stdout: Seq<u8>) -> Result<ActionView, Seq<char>> {
    action_from_members_spec(bytes_member(stdout, "type"@), bytes_member(stdout, "rfid_tag_id"@))
}

impl Action {
    /// The action from the results of looking up the members `type` and
    /// `rfid_tag_id` of the output: the parse error, an error naming the
    /// first missing member, or the action.
    pub fn from_members(typ: Result<Option<String>, String>, rfid_tag_id: Result<Option<String>, String>) -> (r: Result<Action, String>)
        ensures
            result_view(r) == action_from_members_spec(lookup_view(typ), lookup_view(rfid_tag_id)),
    {
        match typ {
            Err(e) => Err(e),
            Ok(None) => Err(String::from_str("field 'type' missing")),
            Ok(Some(t)) => match rfid_tag_id {
                Err(e) => Err(e),
                Ok(None) => Err(String::from_str("field 'rfid_tag_id' missing")),
                Ok(Some(id)) => Ok(Action { typ: t, rfid_tag_id: id }),
            },
        }
    }

    /// The controller command that this action asks for.
    pub fn command(&self) -> (c: Option<Command>)
        ensures
            opt_command_view(c) == command_for_spec(self.typ@, self.rfid_tag_id@),
    {
        command_for(self.typ.as_str(), self.rfid_tag_id.as_str())
    }
}

/// Decodes what the poll command printed as an action. Output that is not
/// JSON gives the parser's message.
pub fn decode_poll_output(stdout: &[u8]) -> (r: Result<Action, String>)
    ensures
        result_view(r) == decode_outcome(stdout@),
{
    let typ = str_member_of_bytes(stdout, "type");
    let tag = str_member_of_bytes(stdout, "rfid_tag_id");
    Action::from_members(typ, tag)
}

/// Output whose members `type` and `rfid_tag_id` are the strings `t` and
/// `id` is read as the action of type `t` on tag `id`, both unchanged;
/// output missing either string member is refused with a message naming
/// the first missing one; output that is not JSON is refused with the
/// parser's message.
pub proof fn lemma_output_members_are_kept(stdout: Seq<u8>)
    ensures
        bytes_member(stdout, "type"@) matches Ok(Some(t)) ==> (
            bytes_member(stdout, "rfid_tag_id"@) matches Ok(Some(id))
                ==> decode_outcome(stdout) == Ok::<ActionView, Seq<char>>(ActionView { typ: t, rfid_tag_id: id })),
        bytes_member(stdout, "type"@) matches Ok(Some(t)) ==> (
            bytes_member(stdout, "rfid_tag_id"@) == Ok::<Option<Seq<char>>, Seq<char>>(None)
                ==> decode_outcome(stdout) == Err::<ActionView, Seq<char>>("field 'rfid_tag_id' missing"@)),
        bytes_member(stdout, "type"@) == Ok::<Option<Seq<char>>, Seq<char>>(None)
            ==> decode_outcome(stdout) == Err::<ActionView, Seq<char>>("field 'type' missing"@),
        bytes_member(stdout, "type"@) matches Err(e) ==> decode_outcome(stdout) == Err::<ActionView, Seq<char>>(e),
{
}

} // verus!
