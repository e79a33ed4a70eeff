use vstd::prelude::*;

verus! {

/// Whether the controller has handed a file to the player.
#[derive(Debug, Clone, Copy, PartialEq, Eq, Structural)]
pub enum ControllerState {
    Idle,
    Playing,
}

/// What the caller has to do on behalf of the controller.
#[derive(Debug, Clone)]
pub enum ControllerAction {
    /// Nothing to do: the request is ignored in the current state.
    Nothing,
    /// Look up the audio file of this identifier in the repository and
    /// report the outcome with [`Controller::on_audio_lookup`].
    FetchAudio(String),
    /// Hand the file that was just looked up to the player.
    Play,
    /// No audio exists for this identifier: create the stub directory for it.
    CreateStub(String),
    /// Tell the player to stop.
    Stop,
}

/// The mathematical value of a [`ControllerAction`].
pub enum ActionView {
    Nothing,
    FetchAudio(Seq<char>),
    Play,
    CreateStub(Seq<char>),
    Stop,
}

impl View for ControllerAction {
    type V = ActionView;

    open spec fn view(&self) -> ActionView {
        match self {
            ControllerAction::Nothing => ActionView::Nothing,
            ControllerAction::FetchAudio(id) => ActionView::FetchAudio(id@),
            ControllerAction::Play => ActionView::Play,
            ControllerAction::CreateStub(id) => ActionView::CreateStub(id@),
            ControllerAction::Stop => ActionView::Stop,
        }
    }
}

/// What can happen to the controller.
pub enum ControllerEvent {
    /// A front end asks to play the audio of an identifier.
    Load(Seq<char>),
    /// The repository was asked for the audio of an identifier; `found`
    /// tells whether it had a file.
    AudioLookup(Seq<char>, bool),
    /// A front end asks to stop.
    Unload,
    /// A front end asks for a reset.
    Reset,
}

/// One transition of the controller: the state after `event` and the
/// action that the caller has to perform.
pub open spec fn step(state: ControllerState, event: ControllerEvent) -> (ControllerState, ActionView) {
    match event {
        ControllerEvent::Load(id) => match state {
            ControllerState::Idle => (ControllerState::Idle, ActionView::FetchAudio(id)),
            ControllerState::Playing => (ControllerState::Playing, ActionView::Nothing),
        },
        ControllerEvent::AudioLookup(id, found) => match state {
            ControllerState::Idle => if found {
                (ControllerState::Playing, ActionView::Play)
            } else {
                (ControllerState::Idle, ActionView::CreateStub(id))
            },
            ControllerState::Playing => (ControllerState::Playing, ActionView::Nothing),
        },
        ControllerEvent::Unload | ControllerEvent::Reset => match state {
            ControllerState::Idle => (ControllerState::Idle, ActionView::Nothing),
            ControllerState::Playing => (ControllerState::Idle, ActionView::Stop),
        },
    }
}

/// The state reached from `state` through `events`, with the actions that
/// the transitions asked for, in order.
pub open spec fn run_events(state: ControllerState, events: Seq<ControllerEvent>) -> (ControllerState, Seq<ActionView>)
    decreases events.len(),
{
    if events.len() == 0 {
        (state, Seq::empty())
    } else {
        let (next, action) = step(state, events[0]);
        let (last, actions) = run_events(next, events.drop_first());
        (last, seq![action] + actions)
    }
}

/// Replays the `Play` and `Stop` actions in `actions` on a player that is
/// `playing` or not: `None` when a `Play` reaches a playing player or a
/// `Stop` an idle one, otherwise whether the player plays at the end.
pub open spec fn replay_on_player(playing: bool, actions: Seq<ActionView>) -> Option<bool>
    decreases actions.len(),
{
    if actions.len() == 0 {
        Some(playing)
    } else {
        match actions[0] {
            ActionView::Play => if playing {
                None
            } else {
                replay_on_player(true, actions.drop_first())
            },
            ActionView::Stop => if !playing {
                None
            } else {
                replay_on_player(false, actions.drop_first())
            },
            _ => replay_on_player(playing, actions.drop_first()),
        }
    }
}

/// The playback controller: it plays at most one file at a time.
pub struct Controller {
    state: ControllerState,
}

impl View for Controller {
    type V = ControllerState;

    closed spec fn view(&self) -> ControllerState {
        self.state
    }
}

impl Controller {
    /// A controller that plays nothing.
    pub fn new() -> (c: Controller)
        ensures
            c@ == ControllerState::Idle,
    {
        Controller { state: ControllerState::Idle }
    }

    /// The current state.
    pub fn state(&self) -> (s: ControllerState)
        ensures
            s == self@,
    {
        self.state
    }

    /// A request to play the audio of `id`. While idle the caller is asked
    /// to look the audio up; while playing the request is ignored.
    pub fn load(&mut self, id: &str) -> (action: ControllerAction)
        ensures
            (final(self)@, action@) == step(old(self)@, ControllerEvent::Load(id@)),
    {
        match self.state {
            ControllerState::Idle => ControllerAction::FetchAudio(id.to_string()),
            ControllerState::Playing => ControllerAction::Nothing,
        }
    }

    /// The outcome of the lookup asked for by [`Controller::load`]: a found
    /// file is played, a missing one gets a stub directory for `id`.
    pub fn on_audio_lookup(&mut self, id: &str, found: bool) -> (action: ControllerAction)
        ensures
            (final(self)@, action@) == step(old(self)@, ControllerEvent::AudioLookup(id@, found)),
    {
        match self.state {
            ControllerState::Idle => {
                if found {
                    self.state = ControllerState::Playing;
                    ControllerAction::Play
                } else {
                    ControllerAction::CreateStub(id.to_string())
                }
            },
            ControllerState::Playing => ControllerAction::Nothing,
        }
    }

    /// A request to stop: a playing controller stops the player and becomes
    /// idle; an idle one ignores the request.
    pub fn unload(&mut self) -> (action: ControllerAction)
        ensures
            (final(self)@, action@) == step(old(self)@, ControllerEvent::Unload),
    {
        match self.state {
            ControllerState::Idle => ControllerAction::Nothing,
            ControllerState::Playing => {
                self.state = ControllerState::Idle;
                ControllerAction::Stop
            },
        }
    }

    /// A reset, which does what [`Controller::unload`] does.
    pub fn reset(&mut self) -> (action: ControllerAction)
        ensures
            (final(self)@, action@) == step(old(self)@, ControllerEvent::Reset),
    {
        self.unload()
    }
}

/// A reset has the same effect as an unload, in every state.
pub proof fn lemma_reset_is_unload(state: ControllerState)
    ensures
        step(state, ControllerEvent::Reset) == step(state, ControllerEvent::Unload),
{
}

/// Whatever the controller is asked, in whatever order, the player is told
/// to play only when it is not playing and to stop only when it is, and the
/// controller is `Playing` exactly when the player was last told to play.
pub proof fn lemma_play_and_stop_alternate(state: ControllerState, events: Seq<ControllerEvent>)
    ensures
        replay_on_player(state == ControllerState::Playing, run_events(state, events).1)
            == Some(run_events(state, events).0 == ControllerState::Playing),
    decreases events.len(),
{
    if events.len() > 0 {
        let (next, action) = step(state, events[0]);
        let (last, actions) = run_events(next, events.drop_first());
        lemma_play_and_stop_alternate(next, events.drop_first());
        assert((seq![action] + actions).drop_first() =~= actions);
        assert((seq![action] + actions)[0] == action);
    }
}

/// A load asks to look up exactly the identifier it was given, and an idle
/// controller always asks for that lookup; the state does not change until
/// the lookup's result comes in.
pub proof fn lemma_load_fetches_the_loaded_id(state: ControllerState, id: Seq<char>)
    ensures
        step(state, ControllerEvent::Load(id)).0 == state,
        step(state, ControllerEvent::Load(id)).1 matches ActionView::FetchAudio(x) ==> x == id,
        state == ControllerState::Idle ==> step(state, ControllerEvent::Load(id)).1 matches ActionView::FetchAudio(_),
        state == ControllerState::Playing ==> step(state, ControllerEvent::Load(id)).1 is Nothing,
{
}

/// A stub is created only for the identifier whose audio was missing, and
/// only an idle controller that found the audio starts playing.
pub proof fn lemma_lookup_result_names_its_id(state: ControllerState, id: Seq<char>, found: bool)
    ensures
        step(state, ControllerEvent::AudioLookup(id, found)).1 matches ActionView::CreateStub(x) ==> x == id && !found,
        state == ControllerState::Idle && !found ==> step(state, ControllerEvent::AudioLookup(id, found)).1 matches ActionView::CreateStub(_),
        (step(state, ControllerEvent::AudioLookup(id, found)).1 is Play)
            <==> (state == ControllerState::Idle && found),
{
}

/// Every request yields one action.
proof fn lemma_run_events_len(state: ControllerState, events: Seq<ControllerEvent>)
    ensures
        run_events(state, events).1.len() == events.len(),
    decreases events.len(),
{
    if events.len() > 0 {
        let (next, action) = step(state, events[0]);
        lemma_run_events_len(next, events.drop_first());
    }
}

/// Over any sequence of requests, every lookup that the controller asks for
/// is for the identifier of the load that it answers.
pub proof fn lemma_every_fetch_is_for_its_load(state: ControllerState, events: Seq<ControllerEvent>, i: int)
    requires
        0 <= i < events.len(),
        run_events(state, events).1[i] matches ActionView::FetchAudio(_),
    ensures
        run_events(state, events).1[i] matches ActionView::FetchAudio(x) && events[i] == ControllerEvent::Load(x),
    decreases events.len(),
{
    let (next, action) = step(state, events[0]);
    let (last, actions) = run_events(next, events.drop_first());
    assert(run_events(state, events).1 == seq![action] + actions);
    lemma_run_events_len(next, events.drop_first());
    if i > 0 {
        assert(run_events(state, events).1[i] == actions[i - 1]);
        lemma_every_fetch_is_for_its_load(next, events.drop_first(), i - 1);
        assert(events.drop_first()[i - 1] == events[i]);
    }
}

} // verus!
