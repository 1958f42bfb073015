use sshws::bot::{
    broadcast_done_text, broadcast_mode, broadcast_started_text, chat_kind, db_error_text,
    make_checking_text, message_kind, private_chat_link, stored_text, BroadcastMode,
    BroadcastTally, ChatFacts, MessageFacts,
};

fn facts() -> MessageFacts {
    MessageFacts {
        has_text: false,
        has_photo: false,
        has_video: false,
        has_document: false,
        has_animation: false,
        has_audio: false,
        has_voice: false,
        has_sticker: false,
    }
}

#[test]
fn message_kinds() {
    assert_eq!(message_kind(&facts()), "other");
    assert_eq!(message_kind(&MessageFacts { has_sticker: true, ..facts() }), "sticker");
    assert_eq!(message_kind(&MessageFacts { has_photo: true, has_video: true, ..facts() }), "photo");
    assert_eq!(message_kind(&MessageFacts { has_text: true, has_voice: true, ..facts() }), "text");
}

#[test]
fn chat_kinds() {
    let c = ChatFacts { is_private: false, is_group: false, is_supergroup: true, is_channel: false };
    assert_eq!(chat_kind(&c), "supergroup");
    let u = ChatFacts { is_private: false, is_group: false, is_supergroup: false, is_channel: false };
    assert_eq!(chat_kind(&u), "unknown");
}

#[test]
fn text_or_caption_is_stored() {
    assert_eq!(stored_text(Some("a"), Some("b")), Some("a"));
    assert_eq!(stored_text(None, Some("b")), Some("b"));
    assert_eq!(stored_text(None, None), None);
}

#[test]
fn broadcast_texts() {
    assert_eq!(broadcast_started_text(12), "\u{1F4E1} Broadcasting to 12 users\u{2026}");
    assert_eq!(broadcast_done_text(10, 2), "\u{2705} Done! \u{1F4E8} Sent: 10 | \u{274C} Failed: 2");
    assert_eq!(db_error_text("boom"), "\u{274C} DB error: boom");
}

#[test]
fn broadcast_modes() {
    assert_eq!(broadcast_mode(true), BroadcastMode::HtmlText);
    assert_eq!(broadcast_mode(false), BroadcastMode::CopyWithCaption);
}

#[test]
fn tally_counts_everyone() {
    let mut t = BroadcastTally::new();
    for ok in [true, false, true, true] {
        t.record(ok);
    }
    assert_eq!((t.sent, t.failed), (3, 1));
}

#[test]
fn links_and_progress() {
    assert_eq!(private_chat_link("mybot"), "https://t.me/mybot?start=cek");
    assert_eq!(
        make_checking_text("081234567890"),
        "\u{1F504} Mengecek kuota <code>0812******90</code>\u{2026}"
    );
}
