use vstd::prelude::*;
use crate::history::{window, ConversationHistory, Message, MessageModel, Role, HISTORY_BOUND};
use crate::responder::BackendError;

verus! {

pub const GIGACHAT_BASE_URL: &'static str = "https://gigachat.devices.sberbank.ru/api/v1";

pub const GIGACHAT_DEFAULT_MODEL: &'static str = "GigaChat:latest";

pub const OPENAI_DEFAULT_MODEL: &'static str = "gpt-3.5-turbo";

pub const DEFAULT_MAX_TOKENS: i32 = 200;

/// A credential placeholder that counts as no credential.
pub const UNCONFIGURED_KEY: &'static str = "not-configured";

/// Token accounting of a completion.
#[derive(Clone, Copy, Debug, PartialEq, Eq, Structural)]
pub struct Usage {
    pub prompt_tokens: i32,
    pub completion_tokens: i32,
    pub total_tokens: i32,
}

/// One candidate reply of a completion.
#[derive(Clone, Debug)]
pub struct Choice {
    pub message: Message,
    pub finish_reason: String,
}

/// A chat completion as the primary service returns it.
#[derive(Clone, Debug)]
pub struct GigaChatResponse {
    pub choices: Vec<Choice>,
    pub usage: Option<Usage>,
}

/// A status code in the success class.
pub open spec fn is_success(status: u16) -> bool {
    200 <= status < 300
}

/// A credential that is present and not the placeholder.
pub open spec fn key_configured(key: Seq<char>) -> bool {
    key.len() > 0 && key != UNCONFIGURED_KEY@
}

fn configured(key: &String) -> (r: bool)
    ensures
        r == key_configured(key@),
{
    !key.as_str().is_empty() && !(*key == String::from_str(UNCONFIGURED_KEY))
}

/// What a completion hands back: the first choice's text, if any.
pub open spec fn first_reply(resp: Option<GigaChatResponse>) -> Option<Seq<char>> {
    match resp {
        Some(r) => if r.choices@.len() > 0 {
            Some(r.choices@[0].message.content@)
        } else {
            None
        },
        None => None,
    }
}

/// The outcome of an exchange: a status outside the success class is an
/// error carrying the code; an unreadable answer, or one without choices, is
/// a decode error; otherwise the first choice's text.
pub open spec fn exchange_outcome(status: u16, resp: Option<GigaChatResponse>) -> Result<Seq<char>, BackendError> {
    if !is_success(status) {
        Err(BackendError::Status(status))
    } else {
        match first_reply(resp) {
            Some(t) => Ok(t),
            None => Err(BackendError::Decode),
        }
    }
}

fn read_exchange(status: u16, resp: Option<GigaChatResponse>) -> (r: Result<String, BackendError>)
    ensures
        match r {
            Ok(t) => exchange_outcome(status, resp) == Ok::<Seq<char>, BackendError>(t@),
            Err(e) => exchange_outcome(status, resp) == Err::<Seq<char>, BackendError>(e),
        },
{
    if !(200 <= status && status < 300) {
        return Err(BackendError::Status(status));
    }
    match resp {
        Some(r) => {
            if r.choices.len() > 0 {
                Ok(r.choices[0].message.content.clone())
            } else {
                Err(BackendError::Decode)
            }
        },
        None => Err(BackendError::Decode),
    }
}

/// The primary remote service's client state: credential, endpoint, model,
/// token limit and its own bounded conversation window.
pub struct GigaChatClient {
    api_key: String,
    base_url: String,
    model: String,
    max_tokens: i32,
    conversation_history: ConversationHistory,
}

impl GigaChatClient {
    pub closed spec fn wf(&self) -> bool {
        self.conversation_history.wf() && self.conversation_history.spec_bound() == HISTORY_BOUND
    }

    pub closed spec fn spec_api_key(&self) -> Seq<char> {
        self.api_key@
    }

    pub closed spec fn spec_base_url(&self) -> Seq<char> {
        self.base_url@
    }

    pub closed spec fn spec_model(&self) -> Seq<char> {
        self.model@
    }

    pub closed spec fn spec_max_tokens(&self) -> i32 {
        self.max_tokens
    }

    pub closed spec fn spec_history(&self) -> Seq<MessageModel> {
        self.conversation_history@
    }

    /// A client for the standard endpoint; the model and token limit fall
    /// back to their defaults.
    pub fn new(api_key: String, model: Option<String>, max_tokens: Option<i32>) -> (r: GigaChatClient)
        ensures
            r.wf(),
            r.spec_api_key() == api_key@,
            r.spec_base_url() == GIGACHAT_BASE_URL@,
            r.spec_model() == (match model {
                Some(m) => m@,
                None => GIGACHAT_DEFAULT_MODEL@,
            }),
            r.spec_max_tokens() == (match max_tokens {
                Some(t) => t,
                None => DEFAULT_MAX_TOKENS,
            }),
            r.spec_history() == Seq::<MessageModel>::empty(),
    {
        let model = match model {
            Some(m) => m,
            None => String::from_str(GIGACHAT_DEFAULT_MODEL),
        };
        let max_tokens = match max_tokens {
            Some(t) => t,
            None => DEFAULT_MAX_TOKENS,
        };
        GigaChatClient {
            api_key,
            base_url: String::from_str(GIGACHAT_BASE_URL),
            model,
            max_tokens,
            conversation_history: ConversationHistory::new(HISTORY_BOUND),
        }
    }

    /// The completion endpoint's address.
    pub fn endpoint(&self) -> (r: String)
        ensures
            r@ == self.spec_base_url() + "/chat/completions"@,
    {
        let mut url = self.base_url.clone();
        url.append("/chat/completions");
        url
    }

    pub fn api_key(&self) -> (r: &str)
        ensures
            r@ == self.spec_api_key(),
    {
        self.api_key.as_str()
    }

    pub fn model(&self) -> (r: &str)
        ensures
            r@ == self.spec_model(),
    {
        self.model.as_str()
    }

    pub fn max_tokens(&self) -> (r: i32)
        ensures
            r == self.spec_max_tokens(),
    {
        self.max_tokens
    }

    /// Opens an exchange: the user's text joins the client's window, and the
    /// whole window is what the request carries.
    pub fn begin_request(&mut self, user_input: &str) -> (r: Vec<Message>)
        requires
            old(self).wf(),
        ensures
            final(self).wf(),
            final(self).spec_history() == window(
                old(self).spec_history().push((Role::User, user_input@)),
                HISTORY_BOUND as nat,
            ),
            r@.map_values(|m: Message| m@) == final(self).spec_history(),
            final(self).spec_api_key() == old(self).spec_api_key(),
            final(self).spec_base_url() == old(self).spec_base_url(),
            final(self).spec_model() == old(self).spec_model(),
            final(self).spec_max_tokens() == old(self).spec_max_tokens(),
    {
        self.conversation_history.push(Message::new(Role::User, user_input));
        self.conversation_history.snapshot()
    }

    /// Closes an exchange with the answer's status and its parsed body
    /// (`None` when it could not be read). A reply joins the window as the
    /// assistant's message; an error leaves the window as it is.
    pub fn finish_request(&mut self, status: u16, response: Option<GigaChatResponse>) -> (r: Result<String, BackendError>)
        requires
            old(self).wf(),
        ensures
            final(self).wf(),
            match r {
                Ok(t) => {
                    &&& exchange_outcome(status, response) == Ok::<Seq<char>, BackendError>(t@)
                    &&& final(self).spec_history() == window(
                        old(self).spec_history().push((Role::Assistant, t@)),
                        HISTORY_BOUND as nat,
                    )
                },
                Err(e) => {
                    &&& exchange_outcome(status, response) == Err::<Seq<char>, BackendError>(e)
                    &&& final(self).spec_history() == old(self).spec_history()
                },
            },
            final(self).spec_api_key() == old(self).spec_api_key(),
            final(self).spec_base_url() == old(self).spec_base_url(),
            final(self).spec_model() == old(self).spec_model(),
            final(self).spec_max_tokens() == old(self).spec_max_tokens(),
    {
        let r = read_exchange(status, response);
        match &r {
            Ok(t) => {
                self.conversation_history.push(Message::new(Role::Assistant, t.as_str()));
            },
            Err(_) => {},
        }
        r
    }

    /// Switches the model.
    pub fn set_model(&mut self, model: String)
        ensures
            final(self).spec_model() == model@,
            final(self).spec_api_key() == old(self).spec_api_key(),
            final(self).spec_base_url() == old(self).spec_base_url(),
            final(self).spec_max_tokens() == old(self).spec_max_tokens(),
            final(self).spec_history() == old(self).spec_history(),
            final(self).wf() == old(self).wf(),
    {
        self.model = model;
    }

    /// Sets the token limit, raised to at least one.
    pub fn set_max_tokens(&mut self, max_tokens: i32)
        ensures
            final(self).spec_max_tokens() == (if max_tokens >= 1 { max_tokens } else { 1 }),
            final(self).spec_model() == old(self).spec_model(),
            final(self).spec_api_key() == old(self).spec_api_key(),
            final(self).spec_base_url() == old(self).spec_base_url(),
            final(self).spec_history() == old(self).spec_history(),
            final(self).wf() == old(self).wf(),
    {
        self.max_tokens = if max_tokens >= 1 { max_tokens } else { 1 };
    }

    /// Forgets the client's window.
    pub fn clear_history(&mut self)
        requires
            old(self).wf(),
        ensures
            final(self).wf(),
            final(self).spec_history() == Seq::<MessageModel>::empty(),
            final(self).spec_model() == old(self).spec_model(),
            final(self).spec_api_key() == old(self).spec_api_key(),
            final(self).spec_base_url() == old(self).spec_base_url(),
            final(self).spec_max_tokens() == old(self).spec_max_tokens(),
    {
        self.conversation_history.clear();
    }

    /// A copy of the client's window, oldest first.
    pub fn get_history(&self) -> (r: Vec<Message>)
        ensures
            r@.map_values(|m: Message| m@) == self.spec_history(),
    {
        self.conversation_history.snapshot()
    }

    /// Whether the credential is present and not the placeholder.
    pub fn is_configured(&self) -> (r: bool)
        ensures
            r == key_configured(self.spec_api_key()),
    {
        configured(&self.api_key)
    }
}

/// The secondary remote service's client state. Unlike the primary, it
/// records the user's text only together with a reply, so a failed exchange
/// leaves no trace in its window.
pub struct OpenAIClient {
    api_key: String,
    model: String,
    max_tokens: u32,
    conversation_history: ConversationHistory,
}

impl OpenAIClient {
    pub closed spec fn wf(&self) -> bool {
        self.conversation_history.wf() && self.conversation_history.spec_bound() == HISTORY_BOUND
    }

    pub closed spec fn spec_api_key(&self) -> Seq<char> {
        self.api_key@
    }

    pub closed spec fn spec_model(&self) -> Seq<char> {
        self.model@
    }

    pub closed spec fn spec_max_tokens(&self) -> u32 {
        self.max_tokens
    }

    pub closed spec fn spec_history(&self) -> Seq<MessageModel> {
        self.conversation_history@
    }

    /// A client whose model and token limit fall back to their defaults.
    pub fn new(api_key: String, model: Option<String>, max_tokens: Option<u32>) -> (r: OpenAIClient)
        ensures
            r.wf(),
            r.spec_api_key() == api_key@,
            r.spec_model() == (match model {
                Some(m) => m@,
                None => OPENAI_DEFAULT_MODEL@,
            }),
            r.spec_max_tokens() == (match max_tokens {
                Some(t) => t,
                None => DEFAULT_MAX_TOKENS as u32,
            }),
            r.spec_history() == Seq::<MessageModel>::empty(),
    {
        let model = match model {
            Some(m) => m,
            None => String::from_str(OPENAI_DEFAULT_MODEL),
        };
        let max_tokens = match max_tokens {
            Some(t) => t,
            None => DEFAULT_MAX_TOKENS as u32,
        };
        OpenAIClient {
            api_key,
            model,
            max_tokens,
            conversation_history: ConversationHistory::new(HISTORY_BOUND),
        }
    }

    pub fn api_key(&self) -> (r: &str)
        ensures
            r@ == self.spec_api_key(),
    {
        self.api_key.as_str()
    }

    pub fn model(&self) -> (r: &str)
        ensures
            r@ == self.spec_model(),
    {
        self.model.as_str()
    }

    pub fn max_tokens(&self) -> (r: u32)
        ensures
            r == self.spec_max_tokens(),
    {
        self.max_tokens
    }

    /// The messages a request for `user_input` carries: the window, then the
    /// user's text.
    pub fn request_messages(&self, user_input: &str) -> (r: Vec<Message>)
        ensures
            r@.map_values(|m: Message| m@) == self.spec_history().push((Role::User, user_input@)),
    {
        let mut v = self.conversation_history.snapshot();
        let ghost before = v@;
        v.push(Message::new(Role::User, user_input));
        assert(v@.map_values(|m: Message| m@) =~= before.map_values(|m: Message| m@).push(
            (Role::User, user_input@),
        ));
        v
    }

    /// Closes the exchange for `user_input`. On a reply both messages join
    /// the window, within its bound; on an error nothing changes.
    pub fn finish_request(
        &mut self,
        user_input: &str,
        status: u16,
        response: Option<GigaChatResponse>,
    ) -> (r: Result<String, BackendError>)
        requires
            old(self).wf(),
        ensures
            final(self).wf(),
            match r {
                Ok(t) => {
                    &&& exchange_outcome(status, response) == Ok::<Seq<char>, BackendError>(t@)
                    &&& final(self).spec_history() == window(
                        window(
                            old(self).spec_history().push((Role::User, user_input@)),
                            HISTORY_BOUND as nat,
                        ).push((Role::Assistant, t@)),
                        HISTORY_BOUND as nat,
                    )
                },
                Err(e) => {
                    &&& exchange_outcome(status, response) == Err::<Seq<char>, BackendError>(e)
                    &&& final(self).spec_history() == old(self).spec_history()
                },
            },
            final(self).spec_api_key() == old(self).spec_api_key(),
            final(self).spec_model() == old(self).spec_model(),
            final(self).spec_max_tokens() == old(self).spec_max_tokens(),
    {
        let r = read_exchange(status, response);
        match &r {
            Ok(t) => {
                self.conversation_history.push(Message::new(Role::User, user_input));
                self.conversation_history.push(Message::new(Role::Assistant, t.as_str()));
            },
            Err(_) => {},
        }
        r
    }

    /// Forgets the client's window.
    pub fn clear_history(&mut self)
        requires
            old(self).wf(),
        ensures
            final(self).wf(),
            final(self).spec_history() == Seq::<MessageModel>::empty(),
            final(self).spec_model() == old(self).spec_model(),
            final(self).spec_api_key() == old(self).spec_api_key(),
            final(self).spec_max_tokens() == old(self).spec_max_tokens(),
    {
        self.conversation_history.clear();
    }

    /// Whether the credential is present and not the placeholder.
    pub fn is_configured(&self) -> (r: bool)
        ensures
            r == key_configured(self.spec_api_key()),
    {
        configured(&self.api_key)
    }
}

} // verus!
