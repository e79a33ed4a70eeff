use vstd::prelude::*;
use crate::command::{Command, CommandView, opt_command_view};
use crate::rfid::Error;

verus! {

/// Whether a card lay on the reader at the last poll.
#[derive(Debug, Clone, Copy, PartialEq, Eq, Structural)]
pub enum State {
    TagNotPresent,
    TagPresent,
}

/// The read that the next poll asks the reader for.
#[derive(Debug, Clone, Copy, PartialEq, Eq, Structural)]
pub enum PiccRead {
    /// Look for a card in the idle state.
    FromIdle,
    /// Wake the card that was halted after the last read.
    FromHalted,
}

/// The command that a poll yields, and the state after it; `tag` is the
/// identifier read, or `None` when no card answered or the read failed.
pub open spec fn tag_step(state: State, tag: Option<Seq<char>>) -> (State, Option<CommandView>) {
    match tag {
        None => (State::TagNotPresent, match state {
            State::TagNotPresent => None,
            State::TagPresent => Some(CommandView::Unload),
        }),
        Some(id) => (State::TagPresent, match state {
            State::TagNotPresent => Some(CommandView::Load(id)),
            State::TagPresent => None,
        }),
    }
}

/// The state after the polls `tags`, with the command of each poll.
pub open spec fn tag_run(state: State, tags: Seq<Option<Seq<char>>>) -> (State, Seq<Option<CommandView>>)
    decreases tags.len(),
{
    if tags.len() == 0 {
        (state, Seq::empty())
    } else {
        let (next, command) = tag_step(state, tags[0]);
        let (last, commands) = tag_run(next, tags.drop_first());
        (last, seq![command] + commands)
    }
}

/// Replays `commands` on a card that is `present` or not: `None` when a
/// `Load` comes while a card is present or an `Unload` while none is,
/// otherwise whether a card is present at the end.
pub open spec fn replay_commands(present: bool, commands: Seq<Option<CommandView>>) -> Option<bool>
    decreases commands.len(),
{
    if commands.len() == 0 {
        Some(present)
    } else {
        match commands[0] {
            Some(CommandView::Load(_)) => if present {
                None
            } else {
                replay_commands(true, commands.drop_first())
            },
            Some(CommandView::Unload) => if !present {
                None
            } else {
                replay_commands(false, commands.drop_first())
            },
            _ => replay_commands(present, commands.drop_first()),
        }
    }
}

/// The identifier that a read yields to the user interface: the tag, or
/// nothing when no card answered or the read failed.
pub open spec fn read_tag(read: Result<Option<String>, Error>) -> Option<Seq<char>> {
    match read {
        Ok(Some(id)) => Some(id@),
        _ => None,
    }
}

/// The RFID front end: it turns the polls of a card reader into commands,
/// one `Load` when a card is laid on the reader, one `Unload` when it is
/// taken away.
pub struct RfidUI {
    state: State,
}

impl View for RfidUI {
    type V = State;

    closed spec fn view(&self) -> State {
        self.state
    }
}

impl RfidUI {
    /// A front end that has seen no card.
    pub fn new() -> (ui: RfidUI)
        ensures
            ui@ == State::TagNotPresent,
    {
        RfidUI { state: State::TagNotPresent }
    }

    /// Whether a card lay on the reader at the last poll.
    pub fn state(&self) -> (s: State)
        ensures
            s == self@,
    {
        self.state
    }

    /// The read that the next poll asks for: a card that was seen last was
    /// halted and has to be woken, otherwise an idle card is looked for.
    pub fn next_read(&self) -> (r: PiccRead)
        ensures
            r == (match self@ {
                State::TagNotPresent => PiccRead::FromIdle,
                State::TagPresent => PiccRead::FromHalted,
            }),
    {
        match self.state {
            State::TagNotPresent => PiccRead::FromIdle,
            State::TagPresent => PiccRead::FromHalted,
        }
    }

    /// The state and command after a poll that found no card.
    pub fn handle_no_tag(&self) -> (r: (State, Option<Command>))
        ensures
            (r.0, opt_command_view(r.1)) == tag_step(self@, None),
    {
        let maybe_command = match self.state {
            State::TagNotPresent => None,
            State::TagPresent => Some(Command::Unload),
        };
        (State::TagNotPresent, maybe_command)
    }

    /// The state and command after a poll that read the card `tag_id`.
    pub fn handle_tag_present(&self, tag_id: &str) -> (r: (State, Option<Command>))
        ensures
            (r.0, opt_command_view(r.1)) == tag_step(self@, Some(tag_id@)),
    {
        let maybe_command = match self.state {
            State::TagNotPresent => Some(Command::Load(tag_id.to_string())),
            State::TagPresent => None,
        };
        (State::TagPresent, maybe_command)
    }

    /// Takes the result of a poll: a failed read counts as no card. Returns
    /// the command to send, if any.
    pub fn on_read(&mut self, read: &Result<Option<String>, Error>) -> (c: Option<Command>)
        ensures
            (final(self)@, opt_command_view(c)) == tag_step(old(self)@, read_tag(*read)),
    {
        let (next_state, maybe_command) = match read {
            Ok(None) => self.handle_no_tag(),
            Ok(Some(tag_id)) => self.handle_tag_present(tag_id.as_str()),
            Err(_) => self.handle_no_tag(),
        };
        self.state = next_state;
        maybe_command
    }

    /// The pause between polls, in milliseconds: the configured one, or a
    /// second.
    pub fn poll_interval_ms(configured: Option<u64>) -> (ms: u64)
        ensures
            ms == (match configured {
                Some(v) => v,
                None => 1000,
            }),
    {
        match configured {
            Some(v) => v,
            None => 1000,
        }
    }
}

/// Whatever the polls read, the front end sends `Load` only when no card
/// was present and `Unload` only when one was, so the two alternate; and it
/// ends in `TagPresent` exactly when the commands leave a card present.
pub proof fn lemma_load_and_unload_alternate(state: State, tags: Seq<Option<Seq<char>>>)
    ensures
        replay_commands(state == State::TagPresent, tag_run(state, tags).1)
            == Some(tag_run(state, tags).0 == State::TagPresent),
    decreases tags.len(),
{
    if tags.len() > 0 {
        let (next, command) = tag_step(state, tags[0]);
        let (last, commands) = tag_run(next, tags.drop_first());
        lemma_load_and_unload_alternate(next, tags.drop_first());
        assert((seq![command] + commands).drop_first() =~= commands);
        assert((seq![command] + commands)[0] == command);
    }
}

/// After at least one poll the state tells whether the last poll read a card.
pub proof fn lemma_state_follows_last_poll(state: State, tags: Seq<Option<Seq<char>>>)
    requires
        tags.len() > 0,
    ensures
        (tag_run(state, tags).0 == State::TagPresent) == (tags.last() is Some),
    decreases tags.len(),
{
    let (next, command) = tag_step(state, tags[0]);
    if tags.len() > 1 {
        lemma_state_follows_last_poll(next, tags.drop_first());
        assert(tags.drop_first().last() == tags.last());
    } else {
        assert(tags.drop_first().len() == 0);
        assert(tag_run(next, tags.drop_first()).0 == next);
    }
}

/// A card that stays on the reader is loaded once: polls that read a card
/// while one was present send nothing.
pub proof fn lemma_present_card_sends_nothing(id: Seq<char>)
    ensures
        tag_step(State::TagPresent, Some(id)) == (State::TagPresent, None::<CommandView>),
{
}

} // verus!

verus! {

/// What a sequence of reads shows to the front end: for each, the tag read
/// or nothing.
pub open spec fn polled_tags(reads: Seq<Result<Option<String>, Error>>) -> Seq<Option<Seq<char>>> {
    reads.map_values(|r: Result<Option<String>, Error>| read_tag(r))
}

/// Whatever the reader answers, in whatever order, the commands that
/// [`RfidUI::on_read`] gives alternate between `Load` and `Unload`, the
/// first being a `Load` when no card was present.
pub proof fn lemma_read_commands_alternate(state: State, reads: Seq<Result<Option<String>, Error>>)
    ensures
        replay_commands(state == State::TagPresent, tag_run(state, polled_tags(reads)).1)
            == Some(tag_run(state, polled_tags(reads)).0 == State::TagPresent),
{
    lemma_load_and_unload_alternate(state, polled_tags(reads));
}

/// A failed read while a card was present counts as the card taken away.
pub proof fn lemma_failed_read_while_present_unloads(e: Error)
    ensures
        tag_step(State::TagPresent, read_tag(Err(e))) == (State::TagNotPresent, Some(CommandView::Unload)),
{
}

/// A card laid on an empty reader is loaded under the identifier that was
/// read, and a `Load` carries no other identifier than the one read.
pub proof fn lemma_load_carries_the_tag_read(state: State, id: Seq<char>)
    ensures
        state == State::TagNotPresent ==> tag_step(state, Some(id)).1 == Some(CommandView::Load(id)),
        tag_step(state, Some(id)).1 matches Some(CommandView::Load(x)) ==> x == id,
        tag_step(state, Some(id)).0 == State::TagPresent,
{
}

/// Every poll yields one command slot.
proof fn lemma_tag_run_len(state: State, tags: Seq<Option<Seq<char>>>)
    ensures
        tag_run(state, tags).1.len() == tags.len(),
    decreases tags.len(),
{
    if tags.len() > 0 {
        let (next, command) = tag_step(state, tags[0]);
        lemma_tag_run_len(next, tags.drop_first());
    }
}

/// Over any sequence of polls, each `Load` names the tag that its own poll
/// read.
pub proof fn lemma_every_load_names_its_poll(state: State, tags: Seq<Option<Seq<char>>>, i: int)
    requires
        0 <= i < tags.len(),
        tag_run(state, tags).1[i] matches Some(CommandView::Load(_)),
    ensures
        tag_run(state, tags).1[i] matches Some(CommandView::Load(x)) && tags[i] == Some(x),
    decreases tags.len(),
{
    let (next, command) = tag_step(state, tags[0]);
    let (last, commands) = tag_run(next, tags.drop_first());
    assert(tag_run(state, tags).1 == seq![command] + commands);
    lemma_tag_run_len(next, tags.drop_first());
    if i > 0 {
        assert(tag_run(state, tags).1[i] == commands[i - 1]);
        lemma_every_load_names_its_poll(next, tags.drop_first(), i - 1);
        assert(tags.drop_first()[i - 1] == tags[i]);
    }
}

} // verus!
