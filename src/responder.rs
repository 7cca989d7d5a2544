use vstd::prelude::*;
use crate::history::{window, ConversationHistory, Message, MessageModel, Role, HISTORY_BOUND};
use crate::local::{local_reply, LocalAI};
use crate::text::{is_blank, lower_of, trimmed_of};

verus! {

/// The reply to a message that is empty once whitespace is removed.
pub const EMPTY_INPUT_PROMPT: &'static str = "Чем могу помочь?";

/// A source of replies, in descending priority.
#[derive(Clone, Copy, Debug, PartialEq, Eq, Structural)]
pub enum Backend {
    RemotePrimary,
    RemoteSecondary,
    LocalRules,
}

impl Backend {
    /// The label under which a turn's producer is logged and stored.
    pub fn label(&self) -> (r: &'static str)
        ensures
            r@ == backend_label(*self)@,
    {
        match self {
            Backend::RemotePrimary => "GigaChat",
            Backend::RemoteSecondary => "OpenAI",
            Backend::LocalRules => "Local",
        }
    }
}

pub open spec fn backend_label(b: Backend) -> &'static str {
    match b {
        Backend::RemotePrimary => "GigaChat",
        Backend::RemoteSecondary => "OpenAI",
        Backend::LocalRules => "Local",
    }
}

/// Why a remote backend gave no reply; every kind leads to the next backend.
#[derive(Clone, Copy, Debug, PartialEq, Eq, Structural)]
pub enum BackendError {
    /// The service could not be reached or timed out.
    Transport,
    /// The service answered with a non-success status code.
    Status(u16),
    /// The answer could not be read, or held no reply.
    Decode,
}

/// Which remote backends may be tried.
#[derive(Clone, Copy, Debug, PartialEq, Eq, Structural)]
pub struct BackendSettings {
    /// The primary service has a non-empty credential.
    pub primary_configured: bool,
    /// The secondary service is switched on and has a credential.
    pub secondary_enabled: bool,
}

impl BackendSettings {
    /// Settings from the configured credentials and switch.
    pub fn from_config(
        primary_api_key: &Option<String>,
        use_secondary: bool,
        secondary_api_key: &Option<String>,
    ) -> (r: BackendSettings)
        ensures
            r.primary_configured == (primary_api_key is Some && primary_api_key->0@.len() > 0),
            r.secondary_enabled == (use_secondary && secondary_api_key is Some),
    {
        let primary_configured = match primary_api_key {
            Some(k) => !k.as_str().is_empty(),
            None => false,
        };
        BackendSettings {
            primary_configured,
            secondary_enabled: use_secondary && secondary_api_key.is_some(),
        }
    }
}

/// The backend to try after `after` (`None`: at the start of a turn), given
/// which remotes are available. Local rules come last and always answer.
pub open spec fn next_backend(s: BackendSettings, after: Option<Backend>) -> Backend {
    match after {
        None => if s.primary_configured {
            Backend::RemotePrimary
        } else if s.secondary_enabled {
            Backend::RemoteSecondary
        } else {
            Backend::LocalRules
        },
        Some(Backend::RemotePrimary) => if s.secondary_enabled {
            Backend::RemoteSecondary
        } else {
            Backend::LocalRules
        },
        Some(_) => Backend::LocalRules,
    }
}

/// What the caller does next in a turn.
#[derive(Debug)]
pub enum Step {
    /// The turn is over: show this reply.
    Reply(String),
    /// Call this remote backend and hand its outcome to `handle_outcome`.
    Invoke(Backend),
}

pub enum StepModel {
    Reply(Seq<char>),
    Invoke(Backend),
}

impl View for Step {
    type V = StepModel;

    open spec fn view(&self) -> StepModel {
        match self {
            Step::Reply(s) => StepModel::Reply(s@),
            Step::Invoke(b) => StepModel::Invoke(*b),
        }
    }
}

/// The abstract state of the chain.
pub struct AgentModel {
    pub history: Seq<MessageModel>,
    pub bound: nat,
    pub settings: BackendSettings,
    pub current: Backend,
}

/// The state after a turn on `text` that `by` answered with `reply`: both
/// messages recorded in order, within the bound.
pub open spec fn record_turn(c: AgentModel, text: Seq<char>, reply: Seq<char>, by: Backend) -> AgentModel {
    AgentModel {
        history: window(
            window(c.history.push((Role::User, text)), c.bound).push((Role::Assistant, reply)),
            c.bound,
        ),
        current: by,
        ..c
    }
}

/// Goes on with backend `b`: a remote is invoked; local rules answer at once.
pub open spec fn proceed_with(c: AgentModel, text: Seq<char>, b: Backend) -> (StepModel, AgentModel) {
    if b == Backend::LocalRules {
        let reply = local_reply(lower_of(text));
        (StepModel::Reply(reply), record_turn(c, text, reply, Backend::LocalRules))
    } else {
        (StepModel::Invoke(b), c)
    }
}

/// The first step of a turn on `text`.
pub open spec fn begin_spec(c: AgentModel, text: Seq<char>) -> (StepModel, AgentModel) {
    if trimmed_of(text).len() == 0 {
        (StepModel::Reply(EMPTY_INPUT_PROMPT@), c)
    } else {
        proceed_with(c, text, next_backend(c.settings, None))
    }
}

/// The step after backend `from` answered the turn on `text` with `outcome`.
pub open spec fn outcome_spec(
    c: AgentModel,
    text: Seq<char>,
    from: Backend,
    outcome: Result<Seq<char>, BackendError>,
) -> (StepModel, AgentModel) {
    match outcome {
        Ok(reply) => (StepModel::Reply(reply), record_turn(c, text, reply, from)),
        Err(_) => proceed_with(c, text, next_backend(c.settings, Some(from))),
    }
}

pub open spec fn outcome_view(o: Result<String, BackendError>) -> Result<Seq<char>, BackendError> {
    match o {
        Ok(s) => Ok(s@),
        Err(e) => Err(e),
    }
}

/// Resolves each turn over an ordered chain of backends with fallback, and
/// owns the bounded conversation history.
pub struct ClippyAgent {
    history: ConversationHistory,
    settings: BackendSettings,
    current: Backend,
}

impl View for ClippyAgent {
    type V = AgentModel;

    closed spec fn view(&self) -> AgentModel {
        AgentModel {
            history: self.history@,
            bound: self.history.spec_bound(),
            settings: self.settings,
            current: self.current,
        }
    }
}

impl ClippyAgent {
    pub closed spec fn wf(&self) -> bool {
        self.history.wf()
    }

    /// A chain with an empty history of the standard bound; the local rules
    /// count as the current backend until a turn says otherwise.
    pub fn new(settings: BackendSettings) -> (r: ClippyAgent)
        ensures
            r.wf(),
            r@.history == Seq::<MessageModel>::empty(),
            r@.bound == HISTORY_BOUND,
            r@.settings == settings,
            r@.current == Backend::LocalRules,
    {
        ClippyAgent {
            history: ConversationHistory::new(HISTORY_BOUND),
            settings,
            current: Backend::LocalRules,
        }
    }

    fn record(&mut self, text: &str, reply: &str, by: Backend)
        requires
            old(self).wf(),
        ensures
            final(self).wf(),
            final(self)@ == record_turn(old(self)@, text@, reply@, by),
    {
        self.history.push(Message::new(Role::User, text));
        self.history.push(Message::new(Role::Assistant, reply));
        self.current = by;
    }

    fn proceed(&mut self, text: &str, b: Backend) -> (r: Step)
        requires
            old(self).wf(),
        ensures
            final(self).wf(),
            (r@, final(self)@) == proceed_with(old(self)@, text@, b),
    {
        match b {
            Backend::LocalRules => {
                let reply = LocalAI::get_response(text);
                self.record(text, reply.as_str(), Backend::LocalRules);
                Step::Reply(reply)
            },
            _ => Step::Invoke(b),
        }
    }

    /// Starts a turn on the user's text. Blank text gets the fixed prompt and
    /// changes nothing; otherwise the highest-priority available remote is to
    /// be invoked, or, with none available, the local rules answer and the
    /// turn is recorded.
    pub fn begin_turn(&mut self, text: &str) -> (r: Step)
        requires
            old(self).wf(),
        ensures
            final(self).wf(),
            (r@, final(self)@) == begin_spec(old(self)@, text@),
    {
        if is_blank(text) {
            return Step::Reply(EMPTY_INPUT_PROMPT.to_owned());
        }
        let b = if self.settings.primary_configured {
            Backend::RemotePrimary
        } else if self.settings.secondary_enabled {
            Backend::RemoteSecondary
        } else {
            Backend::LocalRules
        };
        self.proceed(text, b)
    }

    /// Continues the turn on `text` with what backend `from` returned. A reply
    /// ends the turn: it is recorded together with the user's text and `from`
    /// becomes the current backend. A failure moves on to the next backend;
    /// after the last remote the local rules answer.
    pub fn handle_outcome(
        &mut self,
        text: &str,
        from: Backend,
        outcome: Result<String, BackendError>,
    ) -> (r: Step)
        requires
            old(self).wf(),
        ensures
            final(self).wf(),
            (r@, final(self)@) == outcome_spec(old(self)@, text@, from, outcome_view(outcome)),
    {
        match outcome {
            Ok(reply) => {
                self.record(text, reply.as_str(), from);
                Step::Reply(reply)
            },
            Err(_) => {
                let b = match from {
                    Backend::RemotePrimary => if self.settings.secondary_enabled {
                        Backend::RemoteSecondary
                    } else {
                        Backend::LocalRules
                    },
                    _ => Backend::LocalRules,
                };
                self.proceed(text, b)
            },
        }
    }

    /// The messages a remote backend receives for a turn on `text`: the
    /// current history, oldest first, then the new user message.
    pub fn request_messages(&self, text: &str) -> (r: Vec<Message>)
        ensures
            r@.map_values(|m: Message| m@) == self@.history.push((Role::User, text@)),
    {
        let mut v = self.history.snapshot();
        let ghost before = v@;
        v.push(Message::new(Role::User, text));
        assert(v@.map_values(|m: Message| m@) =~= before.map_values(|m: Message| m@).push(
            (Role::User, text@),
        ));
        v
    }

    /// Forgets the conversation; settings and current backend stay.
    pub fn clear_history(&mut self)
        requires
            old(self).wf(),
        ensures
            final(self).wf(),
            final(self)@ == (AgentModel { history: Seq::empty(), ..old(self)@ }),
    {
        self.history.clear();
    }

    /// An independent copy of the history, oldest first.
    pub fn get_history(&self) -> (r: Vec<Message>)
        ensures
            r@.map_values(|m: Message| m@) == self@.history,
    {
        self.history.snapshot()
    }

    /// The backend that produced the last reply.
    pub fn current_backend(&self) -> (r: Backend)
        ensures
            r == self@.current,
    {
        self.current
    }

    /// The label of the backend that produced the last reply.
    pub fn get_current_model(&self) -> (r: &'static str)
        ensures
            r@ == backend_label(self@.current)@,
    {
        self.current.label()
    }
}

/// Fallback order: with the primary configured but failing and the secondary
/// enabled and answering, a turn on non-blank text goes primary, then
/// secondary, and ends with the secondary's reply; the local rules are never
/// consulted.
pub proof fn lemma_fallback_order(
    c: AgentModel,
    text: Seq<char>,
    failure: BackendError,
    reply: Seq<char>,
)
    requires
        c.settings.primary_configured,
        c.settings.secondary_enabled,
        trimmed_of(text).len() > 0,
    ensures
        begin_spec(c, text) == (StepModel::Invoke(Backend::RemotePrimary), c),
        outcome_spec(c, text, Backend::RemotePrimary, Err(failure)) == (
        StepModel::Invoke(Backend::RemoteSecondary), c),
        outcome_spec(c, text, Backend::RemoteSecondary, Ok(reply)) == (
        StepModel::Reply(reply), record_turn(c, text, reply, Backend::RemoteSecondary)),
        record_turn(c, text, reply, Backend::RemoteSecondary).current != Backend::LocalRules,
{
}

/// Empty input: text that is blank once whitespace is removed (the empty
/// text among it) gets the fixed prompt, and the state, its history
/// included, is left as it was; no backend is invoked.
pub proof fn lemma_empty_input(c: AgentModel, text: Seq<char>)
    requires
        trimmed_of(text).len() == 0,
    ensures
        begin_spec(c, text) == (StepModel::Reply(EMPTY_INPUT_PROMPT@), c),
{
}

} // verus!
