//! How the bot reads a message: the owner's broadcast command, commands addressed to
//! the bot by name, and the menu entries and phone numbers that it answers.

use vstd::prelude::*;
use crate::outside::{to_lowercase, unicode_lowercase};
use crate::text::{
    chars_of, find_non_space, find_space, first_word, lemma_skip_space_bounds,
    lemma_word_end_bounds, opt_chars, remove_all, remove_occurrences, skip_chars,
    is_space, skip_space, starts_with, str_eq, trim_chars, trim_end_at, trimmed, vec_starts_with,
};

verus! {

/// What follows `prefix` in `s` once `s` is trimmed, itself trimmed; `None` when the
/// trimmed `s` does not begin with `prefix`.
pub open spec fn argument_after(s: Seq<char>, prefix: Seq<char>) -> Option<Seq<char>> {
    let t = trimmed(s);
    if starts_with(t, prefix) {
        Some(trimmed(t.skip(prefix.len() as int)))
    } else {
        None
    }
}

/// The caption that the sender asks to broadcast: from a text `/broadcast <caption>`, else
/// from a media caption `/broadcast<caption>`; `None` when the message asks for none.
pub open spec fn broadcast_request(text: Option<Seq<char>>, caption: Option<Seq<char>>) -> Option<
    Seq<char>,
> {
    let from_text = match text {
        Some(t) => argument_after(t, "/broadcast "@),
        None => None,
    };
    if from_text is Some {
        from_text
    } else {
        match caption {
            Some(c) => argument_after(c, "/broadcast"@),
            None => None,
        }
    }
}

/// What follows `prefix` in `s`, both ends trimmed, when the trimmed `s` begins with it.
pub fn argument(s: &str, prefix: &str) -> (r: Option<String>)
    ensures
        opt_chars(r) == argument_after(s@, prefix@),
{
    let t = trim_chars(&chars_of(s));
    let p = chars_of(prefix);
    if !vec_starts_with(&t, &p) {
        return None;
    }
    let rest = skip_chars(&t, p.len());
    let arg = trim_chars(&rest);
    Some(crate::outside::string_from_chars(&arg))
}

/// The caption of a broadcast that a message asks for, from its text or its caption.
pub fn broadcast_caption(text: Option<&str>, caption: Option<&str>) -> (r: Option<String>)
    ensures
        opt_chars(r) == broadcast_request(
            match text {
                Some(t) => Some(t@),
                None => None,
            },
            match caption {
                Some(c) => Some(c@),
                None => None,
            },
        ),
{
    let from_text = match text {
        Some(t) => argument(t, "/broadcast "),
        None => None,
    };
    if from_text.is_some() {
        return from_text;
    }
    match caption {
        Some(c) => argument(c, "/broadcast"),
        None => None,
    }
}

/// The index of the first `c` at or after `from` (the length when there is none).
pub open spec fn index_of(s: Seq<char>, c: char, from: int) -> int
    decreases s.len() - from,
{
    if from >= s.len() {
        s.len() as int
    } else if s[from] == c {
        from
    } else {
        index_of(s, c, from + 1)
    }
}

proof fn lemma_index_of_bounds(s: Seq<char>, c: char, from: int)
    requires
        0 <= from <= s.len(),
    ensures
        from <= index_of(s, c, from) <= s.len(),
        index_of(s, c, from) < s.len() ==> s[index_of(s, c, from)] == c,
    decreases s.len() - from,
{
    if from < s.len() && s[from] != c {
        lemma_index_of_bounds(s, c, from + 1);
    }
}

/// The bot named in a command: when the first word of `text` is a command (it begins
/// with `/`) that holds an `@`, the part of that word from its first `@` on.
pub open spec fn mention(text: Seq<char>) -> Option<Seq<char>> {
    let w = first_word(text);
    let i = index_of(w, '@', 0);
    if w.len() > 0 && w[0] == '/' && i < w.len() {
        Some(w.skip(i))
    } else {
        None
    }
}

/// The text of a command once the mention of this bot is taken out of it; `None` when
/// the command names another bot. `lowered` is the named bot in lower case, compared
/// with `bot`, this bot's name in lower case.
pub open spec fn command_with_lowered(text: Seq<char>, lowered: Seq<char>, bot: Seq<char>) -> Option<
    Seq<char>,
> {
    match mention(text) {
        None => Some(text),
        Some(m) => if lowered == bot {
            Some(remove_all(text, m))
        } else {
            None
        },
    }
}

/// The text of a command addressed to `bot` (its name in lower case): a command that
/// names a bot is kept only when the name, lower-cased, is `bot`, and then every
/// occurrence of `@name` is taken out of the text.
pub open spec fn command_text(text: Seq<char>, bot: Seq<char>) -> Option<Seq<char>> {
    match mention(text) {
        None => Some(text),
        Some(m) => command_with_lowered(text, unicode_lowercase(m.skip(1)), bot),
    }
}

/// The `@name` part of the first word of `text`, when that word is a command naming a bot.
fn find_mention(s: &Vec<char>) -> (r: Option<Vec<char>>)
    ensures
        match r {
            Some(v) => mention(s@) == Some(v@) && v@.len() > 0,
            None => mention(s@) is None,
        },
{
    let len = s.len();
    assert(s@.subrange(0, len as int) =~= s@);
    let a = find_non_space(s, 0, len);
    proof {
        lemma_skip_space_bounds(s@, 0);
    }
    let e = find_space(s, a, len);
    proof {
        lemma_word_end_bounds(s@, a as int);
    }
    let ghost w = s@.subrange(a as int, e as int);
    assert(w == first_word(s@));
    if a == e || s[a] != '/' {
        return None;
    }
    let mut i = a;
    while i < e
        invariant
            a <= i <= e <= len == s@.len(),
            a < e,
            s@[a as int] == '/',
            w == s@.subrange(a as int, e as int),
            w == first_word(s@),
            index_of(w, '@', 0) == index_of(w, '@', i - a),
        decreases e - i,
    {
        if s[i] == '@' {
            proof {
                lemma_index_of_bounds(w, '@', 0);
            }
            let mut m: Vec<char> = Vec::new();
            let mut k = i;
            while k < e
                invariant
                    a <= i <= k <= e <= len == s@.len(),
                    m@ == s@.subrange(i as int, k as int),
                decreases e - k,
            {
                m.push(s[k]);
                k = k + 1;
                assert(m@ =~= s@.subrange(i as int, k as int));
            }
            assert(m@ =~= w.skip(i - a));
            assert(w[i - a] == '@');
            assert(index_of(w, '@', i - a) == i - a);
            assert(w[0] == s@[a as int]);
            return Some(m);
        }
        i = i + 1;
    }
    None
}

/// The text of a command once the mention of this bot is taken out of it, given the
/// mentioned name in lower case; `None` when the command names another bot.
pub fn command_given_lowered(text: &str, lowered: &str, bot: &str) -> (r: Option<String>)
    ensures
        opt_chars(r) == command_with_lowered(text@, lowered@, bot@),
{
    let s = chars_of(text);
    match find_mention(&s) {
        None => Some(text.to_owned()),
        Some(m) => {
            if !str_eq(lowered, bot) {
                return None;
            }
            let cleaned = remove_occurrences(&s, &m);
            Some(crate::outside::string_from_chars(&cleaned))
        },
    }
}

/// The text of a command addressed to `bot` (this bot's name in lower case); `None` when
/// the command names another bot.
pub fn command_for_bot(text: &str, bot: &str) -> (r: Option<String>)
    ensures
        opt_chars(r) == command_text(text@, bot@),
{
    let s = chars_of(text);
    match find_mention(&s) {
        None => Some(text.to_owned()),
        Some(m) => {
            let name = skip_chars(&m, 1);
            let name_str = crate::outside::string_from_chars(&name);
            let lowered = to_lowercase(name_str.as_str());
            command_given_lowered(text, lowered.as_str(), bot)
        },
    }
}

/// The kinds of tunnel configuration that the bot hands out.
#[derive(PartialEq, Eq, Structural, Clone, Copy, Debug)]
pub enum Protocol {
    Vless,
    Trojan,
    Vmess,
}

/// The menu entry, and the label in replies, of a protocol.
pub open spec fn protocol_label(p: Protocol) -> &'static str {
    match p {
        Protocol::Vless => "VLESS",
        Protocol::Trojan => "TROJAN",
        Protocol::Vmess => "VMESS",
    }
}

impl Protocol {
    /// The menu entry, and the label in replies, of this protocol.
    pub fn label(&self) -> (r: &'static str)
        ensures
            r == protocol_label(*self),
    {
        match self {
            Protocol::Vless => "VLESS",
            Protocol::Trojan => "TROJAN",
            Protocol::Vmess => "VMESS",
        }
    }
}

/// What the bot does with a text message.
pub enum BotCommand {
    /// Show the menu keyboard.
    Menu,
    /// Ask for a phone number, in a private chat.
    AskNumber,
    /// Point to the private chat: the quota check is not offered in groups.
    PrivateOnly,
    /// Hand out a configuration of this protocol.
    Config(Protocol),
    /// Check the quota of this phone number.
    CheckQuota(String),
    /// Nothing.
    Ignore,
}

/// A command, with its number as a character sequence.
pub enum CommandModel {
    Menu,
    AskNumber,
    PrivateOnly,
    Config(Protocol),
    CheckQuota(Seq<char>),
    Ignore,
}

impl View for BotCommand {
    type V = CommandModel;

    open spec fn view(&self) -> CommandModel {
        match self {
            BotCommand::Menu => CommandModel::Menu,
            BotCommand::AskNumber => CommandModel::AskNumber,
            BotCommand::PrivateOnly => CommandModel::PrivateOnly,
            BotCommand::Config(p) => CommandModel::Config(*p),
            BotCommand::CheckQuota(n) => CommandModel::CheckQuota(n@),
            BotCommand::Ignore => CommandModel::Ignore,
        }
    }
}

/// A text looks like an Indonesian phone number: it begins with `08`, `628` or `+628`.
pub open spec fn looks_like_number(t: Seq<char>) -> bool {
    starts_with(t, "08"@) || starts_with(t, "628"@) || starts_with(t, "+628"@)
}

/// What the bot does with a message: `clean` is its text with the bot's mention taken
/// out, `text` its text as sent, `private` whether it comes from a private chat.
pub open spec fn route(clean: Seq<char>, text: Seq<char>, private: bool) -> CommandModel {
    if clean == "/start"@ || clean == "/gen"@ {
        CommandModel::Menu
    } else if clean == "Cek Kuota XL/Axis"@ || clean == "/start cek"@ {
        if private {
            CommandModel::AskNumber
        } else {
            CommandModel::PrivateOnly
        }
    } else if clean == "VLESS"@ {
        CommandModel::Config(Protocol::Vless)
    } else if clean == "TROJAN"@ {
        CommandModel::Config(Protocol::Trojan)
    } else if clean == "VMESS"@ {
        CommandModel::Config(Protocol::Vmess)
    } else if private && looks_like_number(trimmed(text)) {
        CommandModel::CheckQuota(trimmed(text))
    } else {
        CommandModel::Ignore
    }
}

/// Decides what the bot does with a text message.
pub fn route_command(clean: &str, text: &str, private: bool) -> (c: BotCommand)
    ensures
        c@ == route(clean@, text@, private),
{
    if str_eq(clean, "/start") || str_eq(clean, "/gen") {
        BotCommand::Menu
    } else if str_eq(clean, "Cek Kuota XL/Axis") || str_eq(clean, "/start cek") {
        if private {
            BotCommand::AskNumber
        } else {
            BotCommand::PrivateOnly
        }
    } else if str_eq(clean, "VLESS") {
        BotCommand::Config(Protocol::Vless)
    } else if str_eq(clean, "TROJAN") {
        BotCommand::Config(Protocol::Trojan)
    } else if str_eq(clean, "VMESS") {
        BotCommand::Config(Protocol::Vmess)
    } else {
        let t = trim_chars(&chars_of(text));
        if private && (vec_starts_with(&t, &chars_of("08")) || vec_starts_with(&t, &chars_of("628"))
            || vec_starts_with(&t, &chars_of("+628"))) {
            BotCommand::CheckQuota(crate::outside::string_from_chars(&t))
        } else {
            BotCommand::Ignore
        }
    }
}

/// What happens to a broadcast request.
#[derive(PartialEq, Eq, Structural, Clone, Copy, Debug)]
pub enum BroadcastGate {
    /// The sender is not the owner: refuse.
    OwnerOnly,
    /// No database of users is connected: explain how to set one up.
    NeedsDatabase,
    /// Broadcast.
    Broadcast,
}

/// What happens to a broadcast request of `sender`: refused unless the sender is the
/// owner; put off while no database of users is connected.
pub open spec fn broadcast_gate_spec(sender: i64, owner: i64, has_database: bool) -> BroadcastGate {
    if sender != owner {
        BroadcastGate::OwnerOnly
    } else if !has_database {
        BroadcastGate::NeedsDatabase
    } else {
        BroadcastGate::Broadcast
    }
}

/// Only the owner broadcasts, and only with a database of users to send to.
pub fn broadcast_gate(sender: i64, owner: i64, has_database: bool) -> (g: BroadcastGate)
    ensures
        g == broadcast_gate_spec(sender, owner, has_database),
{
    if sender != owner {
        BroadcastGate::OwnerOnly
    } else if !has_database {
        BroadcastGate::NeedsDatabase
    } else {
        BroadcastGate::Broadcast
    }
}

/// Whether the `ENABLE_USER_SYNC` setting turns the database of users on: only the exact
/// value `true` does.
pub fn user_sync_enabled(setting: Option<&str>) -> (b: bool)
    ensures
        b == (setting is Some && setting->0@ == "true"@),
{
    match setting {
        Some(v) => str_eq(v, "true"),
        None => false,
    }
}

/// A command that names another bot is never answered: its text is dropped.
pub proof fn lemma_other_bots_are_ignored(text: Seq<char>, bot: Seq<char>)
    requires
        mention(text) is Some,
        unicode_lowercase(mention(text)->0.skip(1)) != bot,
    ensures
        command_text(text, bot) is None,
{
}

/// The quota check is offered in private chats only: outside them, no text leads to a
/// request for a number or to a check.
pub proof fn lemma_quota_only_in_private(clean: Seq<char>, text: Seq<char>)
    ensures
        !(route(clean, text, false) is AskNumber),
        !(route(clean, text, false) is CheckQuota),
{
}

/// Only the owner broadcasts: a sender who is not the owner is always refused.
pub proof fn lemma_only_owner_broadcasts(sender: i64, owner: i64, has_database: bool)
    requires
        sender != owner,
    ensures
        broadcast_gate_spec(sender, owner, has_database) == BroadcastGate::OwnerOnly,
{
}

/// In a private chat, both quota entries (the menu button and the `/start cek` link that
/// leads into the private chat) ask for the number; elsewhere both point to the private
/// chat.
pub proof fn lemma_quota_entries_ask_in_private(clean: Seq<char>, text: Seq<char>)
    requires
        clean == "Cek Kuota XL/Axis"@ || clean == "/start cek"@,
    ensures
        route(clean, text, true) == CommandModel::AskNumber,
        route(clean, text, false) == CommandModel::PrivateOnly,
{
    reveal_strlit("Cek Kuota XL/Axis");
    reveal_strlit("/start cek");
    reveal_strlit("/start");
    reveal_strlit("/gen");
    assert(clean.len() == 17 || clean.len() == 10);
    assert(clean != "/start"@) by {
        assert("/start"@.len() == 6);
    }
    assert(clean != "/gen"@) by {
        assert("/gen"@.len() == 4);
    }
}

/// `s` is left as it is by trimming when it is empty or starts and ends with characters
/// that are not white space.
pub proof fn lemma_trimmed_unchanged(s: Seq<char>)
    requires
        s.len() > 0 ==> !is_space(s[0]) && !is_space(s.last()),
    ensures
        trimmed(s) == s,
{
    if s.len() > 0 {
        assert(skip_space(s, 0) == 0);
        assert(trim_end_at(s, s.len() as int) == s.len());
        assert(s.subrange(0, s.len() as int) =~= s);
    }
}

/// A broadcast takes the whole rest of the command as its caption, line breaks and inner
/// white space included: for any caption `c` that does not begin or end with white
/// space, `/broadcast c` as a text, and `/broadcast` followed by `c` as a media caption,
/// both ask to broadcast exactly `c`.
pub proof fn lemma_broadcast_keeps_whole_caption(c: Seq<char>)
    requires
        c.len() > 0,
        !is_space(c[0]),
        !is_space(c.last()),
    ensures
        broadcast_request(Some("/broadcast "@ + c), None) == Some(c),
        broadcast_request(None, Some("/broadcast"@ + c)) == Some(c),
{
    reveal_strlit("/broadcast ");
    reveal_strlit("/broadcast");
    let t = "/broadcast "@ + c;
    let m = "/broadcast"@ + c;
    assert(t[0] == '/' && t.last() == c.last());
    assert(m[0] == '/' && m.last() == c.last());
    lemma_trimmed_unchanged(t);
    lemma_trimmed_unchanged(m);
    lemma_trimmed_unchanged(c);
    assert(t.subrange(0, 11) =~= "/broadcast "@);
    assert(m.subrange(0, 10) =~= "/broadcast"@);
    assert(t.skip(11) =~= c);
    assert(m.skip(10) =~= c);
}

/// The argument of a command is the whole trimmed rest after its prefix.
pub proof fn lemma_argument_is_whole_rest(s: Seq<char>, p: Seq<char>)
    requires
        starts_with(trimmed(s), p),
    ensures
        argument_after(s, p) == Some(trimmed(trimmed(s).skip(p.len() as int))),
{
}

} // verus!
