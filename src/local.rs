use vstd::prelude::*;
use crate::text::{contains, has_infix, lower_of, to_lowercase};

verus! {

pub const GREETING_REPLY: &'static str = "Привет! Как дела? Чем я могу тебе помочь?";

pub const FAREWELL_REPLY: &'static str = "До свидания! Удачи тебе!";

pub const HELP_REPLY: &'static str = "Я могу помочь с:\n• Информацией о погоде\n• Курсами валют\n• Ответами на вопросы\n• Общением и консультациями";

pub const TIME_REPLY: &'static str = "Пожалуйста, посмотрите время в системе.";

pub const DEFAULT_REPLY: &'static str = "Интересный вопрос! Для более полного ответа рекомендую подключить GigaChat API. Могу ли я чем-то ещё помочь?";

/// The reply category that lowercase text `t` falls under, first match wins:
/// greeting, farewell, help request, time request, otherwise the default.
pub open spec fn local_reply(t: Seq<char>) -> Seq<char> {
    if has_infix(t, "привет"@) || has_infix(t, "здравствуй"@) {
        GREETING_REPLY@
    } else if has_infix(t, "пока"@) || has_infix(t, "до свидания"@) {
        FAREWELL_REPLY@
    } else if has_infix(t, "помощь"@) || has_infix(t, "помоги"@) {
        HELP_REPLY@
    } else if has_infix(t, "время"@) || has_infix(t, "который час"@) {
        TIME_REPLY@
    } else {
        DEFAULT_REPLY@
    }
}

/// The rule-based responder: always available, deterministic, and free of
/// side effects.
pub struct LocalAI;

impl LocalAI {
    /// The canned reply for the user's text, matched case-insensitively
    /// against fixed keyword sets.
    pub fn get_response(user_input: &str) -> (r: String)
        ensures
            r@ == local_reply(lower_of(user_input@)),
    {
        let lowered = to_lowercase(user_input);
        LocalAI::reply_for_lowercase(lowered.as_str())
    }

    /// The canned reply for text that is already lowercase.
    pub fn reply_for_lowercase(t: &str) -> (r: String)
        ensures
            r@ == local_reply(t@),
    {
        if contains(t, "привет") || contains(t, "здравствуй") {
            GREETING_REPLY.to_owned()
        } else if contains(t, "пока") || contains(t, "до свидания") {
            FAREWELL_REPLY.to_owned()
        } else if contains(t, "помощь") || contains(t, "помоги") {
            HELP_REPLY.to_owned()
        } else if contains(t, "время") || contains(t, "который час") {
            TIME_REPLY.to_owned()
        } else {
            DEFAULT_REPLY.to_owned()
        }
    }
}

/// Local determinism: two inputs with the same lowercase form (such as the
/// same greeting written in different letter cases) get the same reply, and
/// the reply is a function of the input alone.
pub proof fn lemma_local_reply_ignores_case(a: Seq<char>, b: Seq<char>)
    requires
        lower_of(a) == lower_of(b),
    ensures
        local_reply(lower_of(a)) == local_reply(lower_of(b)),
{
}

} // verus!
