use vstd::prelude::*;
use crate::command::{Command, command_for, command_for_spec, opt_command_view};
use crate::json_text::{lookup_view, str_member_of_text, text_member};

verus! {

/// A command read as one JSON line from standard input, such as
/// `{"type": "load", "nfc_tag_id": "a1b2"}`.
#[derive(Debug, Clone)]
pub struct JsonCommand {
    pub typ: String,
    pub nfc_tag_id: String,
}

/// The mathematical value of a parsed command: its type and tag.
pub struct JsonCommandView {
    pub typ: Seq<char>,
    pub nfc_tag_id: Seq<char>,
}

impl View for JsonCommand {
    type V = JsonCommandView;

    open spec fn view(&self) -> JsonCommandView {
        JsonCommandView { typ: self.typ@, nfc_tag_id: self.nfc_tag_id@ }
    }
}

/// The message when the line has no string member `type`.
pub open spec fn missing_type_message() -> Seq<char> {
    "string field 'type' missing"@
}

/// The command built from what the lookups of the members `type` and
/// `nfc_tag_id` of a line gave (each the member, `None` for a missing or
/// non-string member, or a parse error's message): the parse error, an
/// error when `type` is missing, or the command, whose tag defaults to the
/// empty text.
pub open spec fn command_from_members_spec(
    typ: Result<Option<Seq<char>>, Seq<char>>,
    tag: Result<Option<Seq<char>>, Seq<char>>,
) -> Result<JsonCommandView, Seq<char>> {
    match typ {
        Err(e) => Err(e),
        Ok(None) => Err(missing_type_message()),
        Ok(Some(t)) => Ok(JsonCommandView {
            typ: t,
            nfc_tag_id: match tag {
                Ok(Some(id)) => id,
                _ => Seq::empty(),
            },
        }),
    }
}

/// `Result<JsonCommand, String>` taken by its view.
pub open spec fn result_view(r: Result<JsonCommand, String>) -> Result<JsonCommandView, Seq<char>> {
    match r {
        Ok(c) => Ok(c@),
        Err(e) => Err(e@),
    }
}

/// The outcome of parsing the line `line`, over what `serde_json` reads
/// from it.
pub open spec fn parse_outcome(line: Seq<char>) -> Result<JsonCommandView, Seq<char>> {
    command_from_members_spec(text_member(line, "type"@), text_member(line, "nfc_tag_id"@))
}

impl JsonCommand {
    /// The command from the results of looking up the members `type` and
    /// `nfc_tag_id` of a line: the parse error of the line, an error when
    /// `type` is missing, or the command, whose tag defaults to the empty
    /// text.
    pub fn from_members(typ: Result<Option<String>, String>, nfc_tag_id: Result<Option<String>, String>) -> (r: Result<JsonCommand, String>)
        ensures
            result_view(r) == command_from_members_spec(lookup_view(typ), lookup_view(nfc_tag_id)),
    {
        match typ {
            Err(e) => Err(e),
            Ok(None) => Err(String::from_str("string field 'type' missing")),
            Ok(Some(t)) => {
                let id = match nfc_tag_id {
                    Ok(Some(id)) => id,
                    _ => String::new(),
                };
                Ok(JsonCommand { typ: t, nfc_tag_id: id })
            },
        }
    }

    /// The controller command that this line asks for.
    pub fn command(&self) -> (c: Option<Command>)
        ensures
            opt_command_view(c) == command_for_spec(self.typ@, self.nfc_tag_id@),
    {
        command_for(self.typ.as_str(), self.nfc_tag_id.as_str())
    }
}

/// Parses one line of standard input as a command. A line that is not
/// JSON gives the parser's message.
pub fn parse_json_command(line: &str) -> (r: Result<JsonCommand, String>)
    ensures
        result_view(r) == parse_outcome(line@),
{
    let typ = str_member_of_text(line, "type");
    let tag = str_member_of_text(line, "nfc_tag_id");
    JsonCommand::from_members(typ, tag)
}

/// A line whose members `type` and `nfc_tag_id` are the strings `t` and
/// `id` is read as the command of type `t` on tag `id`, both unchanged; a
/// line with no string `nfc_tag_id` gets the empty tag; a line with no
/// string `type` is refused with the missing-type message; a line that is
/// not JSON is refused with the parser's message.
pub proof fn lemma_line_members_are_kept(line: Seq<char>)
    ensures
        text_member(line, "type"@) matches Ok(Some(t)) ==> (
            text_member(line, "nfc_tag_id"@) matches Ok(Some(id))
                ==> parse_outcome(line) == Ok::<JsonCommandView, Seq<char>>(JsonCommandView { typ: t, nfc_tag_id: id })),
        text_member(line, "type"@) matches Ok(Some(t)) ==> (
            !(text_member(line, "nfc_tag_id"@) matches Ok(Some(_)))
                ==> parse_outcome(line) == Ok::<JsonCommandView, Seq<char>>(JsonCommandView { typ: t, nfc_tag_id: Seq::empty() })),
        text_member(line, "type"@) == Ok::<Option<Seq<char>>, Seq<char>>(None)
            ==> parse_outcome(line) == Err::<JsonCommandView, Seq<char>>("string field 'type' missing"@),
        text_member(line, "type"@) matches Err(e) ==> parse_outcome(line) == Err::<JsonCommandView, Seq<char>>(e),
{
}

} // verus!
