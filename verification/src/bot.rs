//! The rest of the bot's decisions: the texts it sends, how it files an incoming message,
//! and the tally of a broadcast.

use vstd::prelude::*;
use crate::numbers::{decimal, decimal_string};
use crate::quota::{censor_number, censorable, censored};

verus! {

/// The menu greeting.
pub const MENU_TEXT: &'static str = "\u{1F680} <b>Small, Fast &amp; High Performance</b> \u{26A1}\n\nPlease choose a menu:";

/// The rows of the menu keyboard.
pub const MENU_ROW_PROTOCOLS: [&'static str; 3] = ["VLESS", "TROJAN", "VMESS"];

/// The quota entry of the menu keyboard.
pub const MENU_QUOTA_ENTRY: &'static str = "Cek Kuota XL/Axis";

/// Asks for a phone number.
pub const ASK_NUMBER_TEXT: &'static str = "Silakan kirimkan nomor XL/Axis Anda:\n\nContoh: <code>0859xxxxxx</code>";

/// Says that the quota check is only offered in a private chat.
pub const PRIVATE_ONLY_TEXT: &'static str = "\u{1F512} Fitur ini hanya tersedia di <b>private chat</b>.";

/// The label of the button that opens the private chat.
pub const PRIVATE_CHAT_BUTTON: &'static str = "\u{1F4AC} Chat Privat";

/// Sent when the quota service cannot be reached.
pub const QUOTA_SERVER_ERROR: &'static str = "\u{274C} Terjadi kesalahan saat menghubungi server.";

/// Refuses a broadcast by anyone but the owner.
pub const OWNER_ONLY_TEXT: &'static str = "\u{26D4} Owner only.";

/// Explains that broadcasting needs the database of users.
pub const NEEDS_DATABASE_TEXT: &'static str = "\u{274C} Set ENABLE_USER_SYNC=true and DATABASE_URL.";

/// The link that opens a private chat with the bot on its quota check.
pub fn private_chat_link(bot_username: &str) -> (s: String)
    ensures
        s@ == "https://t.me/"@ + bot_username@ + "?start=cek"@,
{
    let mut s = "https://t.me/".to_owned();
    s.append(bot_username);
    s.append("?start=cek");
    s
}

/// The text shown while the quota of `number` is checked.
pub open spec fn checking_text(number: Seq<char>) -> Seq<char> {
    "\u{1F504} Mengecek kuota <code>"@ + censored(number) + "</code>\u{2026}"@
}

/// The text shown while the quota of `number` is checked, the number masked.
pub fn make_checking_text(number: &str) -> (s: String)
    requires
        censorable(number@),
    ensures
        s@ == checking_text(number@),
{
    let mut s = "\u{1F504} Mengecek kuota <code>".to_owned();
    let masked = censor_number(number);
    s.append(masked.as_str());
    s.append("</code>\u{2026}");
    s
}

/// What an incoming message holds, as far as filing it goes.
pub struct MessageFacts {
    pub has_text: bool,
    pub has_photo: bool,
    pub has_video: bool,
    pub has_document: bool,
    pub has_animation: bool,
    pub has_audio: bool,
    pub has_voice: bool,
    pub has_sticker: bool,
}

/// The kind of a message: the first of text, photo, video, document, animation, audio,
/// voice and sticker that it holds, else `other`.
pub open spec fn kind_of(m: MessageFacts) -> &'static str {
    if m.has_text {
        "text"
    } else if m.has_photo {
        "photo"
    } else if m.has_video {
        "video"
    } else if m.has_document {
        "document"
    } else if m.has_animation {
        "animation"
    } else if m.has_audio {
        "audio"
    } else if m.has_voice {
        "voice"
    } else if m.has_sticker {
        "sticker"
    } else {
        "other"
    }
}

/// The kind under which a message is filed.
pub fn message_kind(m: &MessageFacts) -> (k: &'static str)
    ensures
        k == kind_of(*m),
{
    if m.has_text {
        "text"
    } else if m.has_photo {
        "photo"
    } else if m.has_video {
        "video"
    } else if m.has_document {
        "document"
    } else if m.has_animation {
        "animation"
    } else if m.has_audio {
        "audio"
    } else if m.has_voice {
        "voice"
    } else if m.has_sticker {
        "sticker"
    } else {
        "other"
    }
}

/// What kind of chat a message comes from.
pub struct ChatFacts {
    pub is_private: bool,
    pub is_group: bool,
    pub is_supergroup: bool,
    pub is_channel: bool,
}

/// The kind of a chat: the first of private, group, supergroup and channel that it is,
/// else `unknown`.
pub open spec fn chat_kind_of(c: ChatFacts) -> &'static str {
    if c.is_private {
        "private"
    } else if c.is_group {
        "group"
    } else if c.is_supergroup {
        "supergroup"
    } else if c.is_channel {
        "channel"
    } else {
        "unknown"
    }
}

/// The kind under which a chat is filed.
pub fn chat_kind(c: &ChatFacts) -> (k: &'static str)
    ensures
        k == chat_kind_of(*c),
{
    if c.is_private {
        "private"
    } else if c.is_group {
        "group"
    } else if c.is_supergroup {
        "supergroup"
    } else if c.is_channel {
        "channel"
    } else {
        "unknown"
    }
}

/// The text filed with a message: its text, else its caption.
pub fn stored_text<'a>(text: Option<&'a str>, caption: Option<&'a str>) -> (r: Option<&'a str>)
    ensures
        r == (if text is Some {
            text
        } else {
            caption
        }),
{
    match text {
        Some(t) => Some(t),
        None => caption,
    }
}

/// The text sent to the owner when the users cannot be read from the database.
pub fn db_error_text(error: &str) -> (s: String)
    ensures
        s@ == "\u{274C} DB error: "@ + error@,
{
    let mut s = "\u{274C} DB error: ".to_owned();
    s.append(error);
    s
}

/// The text sent to the owner when a broadcast to `total` users starts.
pub fn broadcast_started_text(total: usize) -> (s: String)
    ensures
        s@ == "\u{1F4E1} Broadcasting to "@ + decimal(total as nat) + " users\u{2026}"@,
{
    let mut s = "\u{1F4E1} Broadcasting to ".to_owned();
    let n = decimal_string(total as u64);
    s.append(n.as_str());
    s.append(" users\u{2026}");
    s
}

/// The text that replaces it when the broadcast is over.
pub fn broadcast_done_text(sent: u32, failed: u32) -> (s: String)
    ensures
        s@ == "\u{2705} Done! \u{1F4E8} Sent: "@ + decimal(sent as nat) + " | \u{274C} Failed: "@
            + decimal(failed as nat),
{
    let mut s = "\u{2705} Done! \u{1F4E8} Sent: ".to_owned();
    let a = decimal_string(sent as u64);
    s.append(a.as_str());
    s.append(" | \u{274C} Failed: ");
    let b = decimal_string(failed as u64);
    s.append(b.as_str());
    s
}

/// How a broadcast reaches each user.
#[derive(PartialEq, Eq, Structural, Clone, Copy, Debug)]
pub enum BroadcastMode {
    /// Send the caption as an HTML text message.
    HtmlText,
    /// Copy the owner's message (its media included), with the caption.
    CopyWithCaption,
}

/// A text command is broadcast as a text; a media message is copied.
pub fn broadcast_mode(template_has_text: bool) -> (m: BroadcastMode)
    ensures
        m == (if template_has_text {
            BroadcastMode::HtmlText
        } else {
            BroadcastMode::CopyWithCaption
        }),
{
    if template_has_text {
        BroadcastMode::HtmlText
    } else {
        BroadcastMode::CopyWithCaption
    }
}

/// How many users a broadcast reached, and how many it failed to reach.
pub struct BroadcastTally {
    pub sent: u32,
    pub failed: u32,
}

/// The counts after one more user: `delivered` tells whether the message reached them.
pub open spec fn tally_step(sent: nat, failed: nat, delivered: bool) -> (nat, nat) {
    if delivered {
        (sent + 1, failed)
    } else {
        (sent, failed + 1)
    }
}

/// The counts after a run of outcomes, from zero.
pub open spec fn tally_of(outcomes: Seq<bool>) -> (nat, nat)
    decreases outcomes.len(),
{
    if outcomes.len() == 0 {
        (0, 0)
    } else {
        let (s, f) = tally_of(outcomes.drop_last());
        tally_step(s, f, outcomes.last())
    }
}

impl BroadcastTally {
    /// Nothing sent, nothing failed.
    pub fn new() -> (t: Self)
        ensures
            t.sent == 0,
            t.failed == 0,
    {
        BroadcastTally { sent: 0, failed: 0 }
    }

    /// Counts one more user.
    pub fn record(&mut self, delivered: bool)
        requires
            delivered ==> old(self).sent < u32::MAX,
            !delivered ==> old(self).failed < u32::MAX,
        ensures
            (final(self).sent as nat, final(self).failed as nat) == tally_step(
                old(self).sent as nat,
                old(self).failed as nat,
                delivered,
            ),
    {
        if delivered {
            self.sent = self.sent + 1;
        } else {
            self.failed = self.failed + 1;
        }
    }
}

/// Every user of a broadcast is counted once: as many as were tried are counted sent or
/// failed, and as many are counted sent as were reached.
pub proof fn lemma_tally_counts_everyone(outcomes: Seq<bool>)
    ensures
        tally_of(outcomes).0 + tally_of(outcomes).1 == outcomes.len(),
        tally_of(outcomes).0 == outcomes.filter(|d: bool| d).len(),
    decreases outcomes.len(),
{
    reveal_with_fuel(Seq::<_>::filter, 1);
    if outcomes.len() > 0 {
        lemma_tally_counts_everyone(outcomes.drop_last());
    }
}

} // verus!
