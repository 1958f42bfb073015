use sshws::commands::{
    argument, broadcast_caption, broadcast_gate, command_for_bot, command_given_lowered,
    route_command, user_sync_enabled, BotCommand, BroadcastGate, Protocol,
};

#[test]
fn text_broadcast_takes_the_rest() {
    assert_eq!(broadcast_caption(Some("/broadcast hello all"), None), Some("hello all".to_string()));
    assert_eq!(broadcast_caption(Some("  /broadcast   hi  \n"), None), Some("hi".to_string()));
}

#[test]
fn bare_text_command_is_not_a_broadcast() {
    assert_eq!(broadcast_caption(Some("/broadcast"), None), None);
    assert_eq!(broadcast_caption(Some("hello"), None), None);
    assert_eq!(broadcast_caption(None, None), None);
}

#[test]
fn media_caption_broadcast() {
    assert_eq!(broadcast_caption(None, Some("/broadcast")), Some(String::new()));
    assert_eq!(broadcast_caption(None, Some("/broadcasthi")), Some("hi".to_string()));
    assert_eq!(broadcast_caption(None, Some(" /broadcast  promo ")), Some("promo".to_string()));
    assert_eq!(broadcast_caption(Some("x"), Some("/broadcast y")), Some("y".to_string()));
}

#[test]
fn argument_after_prefix() {
    assert_eq!(argument(" /x  a b ", "/x"), Some("a b".to_string()));
    assert_eq!(argument("/y", "/x"), None);
}

#[test]
fn commands_for_this_bot_lose_the_mention() {
    assert_eq!(command_for_bot("/start@MyBot", "mybot"), Some("/start".to_string()));
    assert_eq!(command_for_bot("/start@mybot cek", "mybot"), Some("/start cek".to_string()));
    assert_eq!(command_for_bot("/gen@MYBOT and @MYBOT", "mybot"), Some("/gen and ".to_string()));
}

#[test]
fn commands_for_other_bots_are_ignored() {
    assert_eq!(command_for_bot("/start@OtherBot", "mybot"), None);
    assert_eq!(command_given_lowered("/start@Other", "other", "mybot"), None);
    assert_eq!(command_given_lowered("/start@Other", "mybot", "mybot"), Some("/start".to_string()));
}

#[test]
fn other_texts_pass_unchanged() {
    assert_eq!(command_for_bot("VLESS", "mybot"), Some("VLESS".to_string()));
    assert_eq!(command_for_bot("hi @mybot", "mybot"), Some("hi @mybot".to_string()));
    assert_eq!(command_for_bot("/start", "mybot"), Some("/start".to_string()));
}

#[test]
fn menu_commands() {
    assert!(matches!(route_command("/start", "/start", false), BotCommand::Menu));
    assert!(matches!(route_command("/gen", "/gen@b", true), BotCommand::Menu));
}

#[test]
fn quota_entry_needs_private_chat() {
    assert!(matches!(route_command("Cek Kuota XL/Axis", "", true), BotCommand::AskNumber));
    assert!(matches!(route_command("/start cek", "", false), BotCommand::PrivateOnly));
}

#[test]
fn protocol_entries() {
    assert!(matches!(route_command("VLESS", "VLESS", true), BotCommand::Config(Protocol::Vless)));
    assert!(matches!(route_command("TROJAN", "TROJAN", false), BotCommand::Config(Protocol::Trojan)));
    assert!(matches!(route_command("VMESS", "VMESS", true), BotCommand::Config(Protocol::Vmess)));
    assert!(matches!(route_command("vless", "vless", true), BotCommand::Ignore));
    assert_eq!(Protocol::Trojan.label(), "TROJAN");
}

#[test]
fn phone_numbers_in_private_chats() {
    match route_command(" 081234 ", " 081234 ", true) {
        BotCommand::CheckQuota(n) => assert_eq!(n, "081234"),
        _ => panic!("expected a quota check"),
    }
    assert!(matches!(route_command("+62812", "+62812", true), BotCommand::CheckQuota(_)));
    assert!(matches!(route_command("62812", "62812", true), BotCommand::CheckQuota(_)));
    assert!(matches!(route_command("0812", "0812", false), BotCommand::Ignore));
    assert!(matches!(route_command("0712", "0712", true), BotCommand::Ignore));
}

#[test]
fn only_the_owner_broadcasts() {
    assert_eq!(broadcast_gate(1, 2, true), BroadcastGate::OwnerOnly);
    assert_eq!(broadcast_gate(2, 2, false), BroadcastGate::NeedsDatabase);
    assert_eq!(broadcast_gate(2, 2, true), BroadcastGate::Broadcast);
}

#[test]
fn user_sync_setting() {
    assert!(user_sync_enabled(Some("true")));
    assert!(!user_sync_enabled(Some("TRUE")));
    assert!(!user_sync_enabled(Some("1")));
    assert!(!user_sync_enabled(None));
}
