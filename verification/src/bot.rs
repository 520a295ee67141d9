//! The bot's identity and the decisions it takes on incoming updates:
//! reading commands addressed to it, greeting groups, accepting voice
//! notes and answering inline-keyboard callbacks.

use vstd::prelude::*;
use teloxide::types::UserId;
use teloxide::Bot;
use crate::text::{
    chars_of, find_chars, find_spec, is_whitespace, is_ws, lemma_trim_clean, str_eq, trim_bounds,
    trim_spec,
};

verus! {

/// The Telegram client type `teloxide::Bot`, held opaque.
#[verifier::external_type_specification]
#[verifier::external_body]
pub struct ExBot(Bot);

/// Telegram's `UserId`, held opaque.
#[verifier::external_type_specification]
#[verifier::external_body]
pub struct ExUserId(UserId);

/// `Bot::clone`, the derived clone: the copy shares the token, the API URL
/// and the HTTP client (all reference-counted), so it is the same client.
pub assume_specification[ <Bot as Clone>::clone ](b: &Bot) -> (c: Bot)
    ensures
        c == *b,
;

/// `UserId::clone`: `UserId` is a `Copy` wrapper of a number, so the clone
/// equals the original.
pub assume_specification[ <UserId as Clone>::clone ](id: &UserId) -> (c: UserId)
    ensures
        c == *id,
;

/// `UserId`'s `==`, which compares the numeric ids.
#[verifier::external_body]
fn same_user(a: &UserId, b: &UserId) -> (eq: bool)
    ensures
        eq == (*a == *b),
{
    a == b
}

/// A Telegram bot client together with the bot's own user name and id.
#[derive(Clone)]
pub struct TgBot {
    bot: Bot,
    username: String,
    id: UserId,
}

/// `@` followed by the handle.
pub open spec fn mention(handle: Seq<char>) -> Seq<char> {
    seq!['@'] + handle
}

/// Whether a text is a bot command: a `/` followed by a word, with no
/// white space in it.
pub open spec fn is_bot_command(s: Seq<char>) -> bool {
    &&& s.len() > 0
    &&& s[0] == '/'
    &&& forall|k: int| 0 <= k < s.len() ==> !is_ws(#[trigger] s[k])
}

/// What `extract_command_text` gives for `text` when the bot is `handle`:
/// when `@handle` occurs, the trimmed text after its first occurrence, and
/// whether the text before it is a bot command (the text says
/// `/command@handle`); otherwise the text unchanged and `false`.
pub open spec fn command_text_spec(handle: Seq<char>, text: Seq<char>) -> (Seq<char>, bool) {
    match find_spec(text, mention(handle)) {
        Some(i) => (
            trim_spec(text.skip(i + handle.len() + 1)),
            is_bot_command(text.take(i)),
        ),
        None => (text, false),
    }
}

/// Whether the first `end` characters form a bot command.
fn bot_command(chars: &Vec<char>, end: usize) -> (b: bool)
    requires
        end <= chars.len(),
    ensures
        b == is_bot_command(chars@.take(end as int)),
{
    if end == 0 || chars[0] != '/' {
        return false;
    }
    let mut k: usize = 0;
    while k < end
        invariant
            end <= chars.len(),
            k <= end,
            forall|j: int| 0 <= j < k ==> !is_ws(#[trigger] chars@.take(end as int)[j]),
        decreases end - k,
    {
        if is_whitespace(chars[k]) {
            assert(chars@.take(end as int)[k as int] == chars@[k as int]);
            return false;
        }
        assert(chars@.take(end as int)[k as int] == chars@[k as int]);
        k = k + 1;
    }
    true
}

/// Removes `@handle` from a command written in a group.
pub fn command_text<'a>(handle: &str, text: &'a str) -> (r: (&'a str, bool))
    ensures
        (r.0@, r.1) == command_text_spec(handle@, text@),
{
    let chars = chars_of(text);
    let hchars = chars_of(handle);
    let mut pat: Vec<char> = Vec::new();
    pat.push('@');
    let mut k: usize = 0;
    while k < hchars.len()
        invariant
            k <= hchars.len(),
            pat@ == seq!['@'] + hchars@.take(k as int),
        decreases hchars.len() - k,
    {
        pat.push(hchars[k]);
        k = k + 1;
        assert(pat@ == seq!['@'] + hchars@.take(k as int));
    }
    assert(hchars@.take(hchars@.len() as int) == hchars@);
    assert(pat@ == mention(handle@));
    match find_chars(&chars, &pat) {
        Some(i) => {
            proof {
                lemma_found_in_bounds(chars@, pat@, i as int);
            }
            let n: usize = chars.len();
            let after_start: usize = i + hchars.len() + 1;
            let rest_str = text.substring_char(after_start, n);
            let rest = chars_of(rest_str);
            let (a, b) = trim_bounds(&rest);
            let trimmed = rest_str.substring_char(a, b);
            let is_command = bot_command(&chars, i);
            assert(rest_str@ == text@.skip(after_start as int));
            (trimmed, is_command)
        },
        None => (text, false),
    }
}

/// The text extracted after a mention of the bot carries no white space
/// at either end.
pub proof fn lemma_command_text_trimmed(handle: Seq<char>, text: Seq<char>)
    ensures
        find_spec(text, mention(handle)) is Some ==> {
            let t = command_text_spec(handle, text).0;
            t.len() > 0 ==> !is_ws(t[0]) && !is_ws(t.last())
        },
{
    if let Some(i) = find_spec(text, mention(handle)) {
        lemma_trim_clean(text.skip(i + handle.len() + 1));
    }
}

proof fn lemma_found_in_bounds(text: Seq<char>, pat: Seq<char>, i: int)
    requires
        find_spec(text, pat) == Some(i),
    ensures
        0 <= i && i + pat.len() <= text.len(),
{
    crate::text::lemma_find_from_bounds(text, pat, 0);
}

impl TgBot {
    /// The bot's user name.
    pub closed spec fn handle(&self) -> Seq<char> {
        self.username@
    }

    /// The bot's user id.
    pub closed spec fn user_id(&self) -> UserId {
        self.id
    }

    /// The underlying client.
    pub closed spec fn client(&self) -> Bot {
        self.bot
    }

    /// A bot made of a client and the identity that the client reported.
    pub fn with_identity(bot: Bot, username: String, id: UserId) -> (b: Self)
        ensures
            b.handle() == username@,
            b.user_id() == id,
            b.client() == bot,
    {
        TgBot { bot, username, id }
    }

    /// A copy of the underlying client.
    pub fn get_inner(&self) -> (b: Bot)
        ensures
            b == self.client(),
    {
        self.bot.clone()
    }

    /// The underlying client.
    pub fn get_inner_ref(&self) -> (b: &Bot)
        ensures
            *b == self.client(),
    {
        &self.bot
    }

    /// The bot's user name.
    pub fn get_bot_username(&self) -> (name: &str)
        ensures
            name@ == self.handle(),
    {
        self.username.as_str()
    }

    /// The bot's user id.
    pub fn get_bot_id(&self) -> (id: UserId)
        ensures
            id == self.user_id(),
    {
        self.id
    }

    /// Extracts the command text, removing `@botname` as written in groups;
    /// the second value is true when the text says `/command@botname`.
    pub fn extract_command_text<'a>(&self, text: &'a str) -> (r: (&'a str, bool))
        ensures
            (r.0@, r.1) == command_text_spec(self.handle(), text@),
    {
        command_text(self.username.as_str(), text)
    }
}

/// The reply that greets a group the bot was not added to itself.
pub open spec fn welcome_text(handle: Seq<char>) -> Seq<char> {
    "Hola! Estoy aquí para ayudarte, _woof_! Si quieres que conteste a un mensaje escribe '/info@"@
        + handle + " tu pregunta...'"@
}

/// The reply to a bare mention of the bot in a group.
pub open spec fn command_hint(handle: Seq<char>) -> Seq<char> {
    "Si quieres hablar conmigo escribe '/info@"@ + handle + " lo que quieres decir'"@
}

/// The longest voice note, in seconds, that is transcribed.
pub const MAX_VOICE_SECONDS: u32 = 300;

/// Whether a voice note of this length is downloaded and transcribed
/// (longer ones are refused as too large).
pub fn voice_note_fits(duration_seconds: u32) -> (fits: bool)
    ensures
        fits == (duration_seconds <= 300),
{
    duration_seconds <= MAX_VOICE_SECONDS
}

/// What to do with an incoming message.
pub enum MessageStep {
    /// Members joined the chat: greet them (see `welcome_for_new_members`).
    NewMembers,
    /// A voice note: download and transcribe it.
    Voice,
    /// Neither text nor caption: nothing to do.
    NoContent,
    /// A bare mention in a group: answer with this hint.
    CommandHint(String),
    /// Hand this text to the application.
    Deliver(String),
}

/// The text a message carries: its text, else its caption.
pub open spec fn message_body(text: Option<Seq<char>>, caption: Option<Seq<char>>) -> Option<Seq<char>> {
    match text {
        Some(t) => Some(t),
        None => caption,
    }
}

/// The step taken for a message with a body.
pub open spec fn body_step_spec(handle: Seq<char>, body: Seq<char>) -> (bool, Seq<char>) {
    let (t, is_group_command) = command_text_spec(handle, body);
    if t.len() == 0 && is_group_command {
        (true, command_hint(handle))
    } else {
        (false, t)
    }
}

pub open spec fn opt_view(s: Option<&str>) -> Option<Seq<char>> {
    match s {
        Some(x) => Some(x@),
        None => None,
    }
}

impl TgBot {
    /// The greeting for members who joined a group, or `None` when the bot
    /// itself is among them.
    pub fn welcome_for_new_members(&self, members: &Vec<UserId>) -> (reply: Option<String>)
        ensures
            (exists|i: int| 0 <= i < members.len() && members@[i] == self.user_id()) ==> reply is None,
            (forall|i: int| 0 <= i < members.len() ==> members@[i] != self.user_id()) ==> (reply
                matches Some(r) && r@ == welcome_text(self.handle())),
    {
        let mut i: usize = 0;
        while i < members.len()
            invariant
                i <= members.len(),
                forall|j: int| 0 <= j < i ==> members@[j] != self.id,
            decreases members.len() - i,
        {
            if same_user(&members[i], &self.id) {
                return None;
            }
            i = i + 1;
        }
        let mut reply = String::from_str(
            "Hola! Estoy aquí para ayudarte, _woof_! Si quieres que conteste a un mensaje escribe '/info@",
        );
        reply.append(self.username.as_str());
        reply.append(" tu pregunta...'");
        Some(reply)
    }

    /// What to do with a message, from what it carries: whether members
    /// joined, whether it is a voice note, its text and its caption.
    pub fn incoming_step(
        &self,
        has_new_members: bool,
        has_voice: bool,
        text: Option<&str>,
        caption: Option<&str>,
    ) -> (step: MessageStep)
        ensures
            has_new_members ==> step is NewMembers,
            !has_new_members && has_voice ==> step is Voice,
            !has_new_members && !has_voice ==> match message_body(opt_view(text), opt_view(caption)) {
                None => step is NoContent,
                Some(b) => {
                    let (hint, out) = body_step_spec(self.handle(), b);
                    &&& hint ==> (step matches MessageStep::CommandHint(r) && r@ == out)
                    &&& !hint ==> (step matches MessageStep::Deliver(t) && t@ == out)
                },
            },
    {
        if has_new_members {
            return MessageStep::NewMembers;
        }
        if has_voice {
            return MessageStep::Voice;
        }
        let body = match text {
            Some(t) => t,
            None => match caption {
                Some(c) => c,
                None => {
                    return MessageStep::NoContent;
                },
            },
        };
        let (t, is_group_command) = self.extract_command_text(body);
        if t.is_empty() && is_group_command {
            let mut reply = String::from_str("Si quieres hablar conmigo escribe '/info@");
            reply.append(self.username.as_str());
            reply.append(" lo que quieres decir'");
            MessageStep::CommandHint(reply)
        } else {
            MessageStep::Deliver(t.to_owned())
        }
    }
}

/// What to do with a press of an inline-keyboard button.
pub enum CallbackStep {
    /// The user may not act: do nothing more.
    Ignore,
    /// Replace the message that carried the keyboard with this text.
    Replace(String),
    /// Hand the button's data to the application.
    Forward(String),
}

/// The data that a button press carries (empty when it carries none).
pub open spec fn callback_data(data: Option<String>) -> Seq<char> {
    match data {
        Some(d) => d@,
        None => Seq::empty(),
    }
}

/// The step for a button press with this data, by a user who may act.
pub open spec fn callback_step_spec(data: Seq<char>) -> (bool, Seq<char>) {
    if data == "{}"@ {
        (true, "Operación cancelada"@)
    } else if data == "Delete"@ {
        (true, "Elemento eliminado"@)
    } else if data == "Cancel"@ {
        (true, "Lista terminada"@)
    } else {
        (false, data)
    }
}

/// Decides on a button press: the cancel (`{}`), `Delete` and `Cancel`
/// buttons replace their message with a fixed text; any other data goes to
/// the application. Presses of users who may not act are ignored.
pub fn callback_step(allowed: bool, data: Option<String>) -> (step: CallbackStep)
    ensures
        !allowed ==> step is Ignore,
        allowed ==> {
            let (replace, out) = callback_step_spec(callback_data(data));
            &&& replace ==> (step matches CallbackStep::Replace(t) && t@ == out)
            &&& !replace ==> (step matches CallbackStep::Forward(d) && d@ == out)
        },
{
    if !allowed {
        return CallbackStep::Ignore;
    }
    let data = match data {
        Some(d) => d,
        None => String::new(),
    };
    if str_eq(data.as_str(), "{}") {
        CallbackStep::Replace(String::from_str("Operación cancelada"))
    } else if str_eq(data.as_str(), "Delete") {
        CallbackStep::Replace(String::from_str("Elemento eliminado"))
    } else if str_eq(data.as_str(), "Cancel") {
        CallbackStep::Replace(String::from_str("Lista terminada"))
    } else {
        CallbackStep::Forward(data)
    }
}

/// Only the exact data `{}`, `Delete` and `Cancel` replace the message,
/// each with its own text; any other data, including data that merely
/// begins with one of them, is forwarded unchanged.
pub proof fn lemma_callback_forwards_other_data(data: Seq<char>)
    ensures
        data == "{}"@ ==> callback_step_spec(data) == (true, "Operación cancelada"@),
        data == "Delete"@ ==> callback_step_spec(data) == (true, "Elemento eliminado"@),
        data == "Cancel"@ ==> callback_step_spec(data) == (true, "Lista terminada"@),
        (data != "{}"@ && data != "Delete"@ && data != "Cancel"@) ==> callback_step_spec(data) == (
        false,
        data,
        ),
{
    reveal_strlit("{}");
    reveal_strlit("Delete");
    reveal_strlit("Cancel");
    assert("{}"@.len() == 2);
    assert("Delete"@.len() == 6);
    assert("Cancel"@.len() == 6);
    assert("Delete"@[0] != "Cancel"@[0]);
}

} // verus!
