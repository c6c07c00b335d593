use cwc::render::{
    fmt_msg_announcement, fmt_msg_caffeine, fmt_msg_event, fmt_msg_xeet, platform_from_code,
    push_decimal, push_signed_decimal, Platform,
};

#[test]
fn location_codes() {
    assert_eq!(platform_from_code("t"), Platform::XSpaces);
    assert_eq!(platform_from_code("x"), Platform::XSpaces);
    assert_eq!(platform_from_code("d"), Platform::Discord);
    assert_eq!(platform_from_code("X"), Platform::Unknown);
    assert_eq!(platform_from_code(""), Platform::Unknown);
    assert_eq!(platform_from_code("dd"), Platform::Unknown);
}

#[test]
fn decimals() {
    let mut s = String::from("#");
    push_decimal(&mut s, 0);
    assert_eq!(s, "#0");
    let mut s = String::new();
    push_decimal(&mut s, 1234567890);
    assert_eq!(s, "1234567890");
    let mut s = String::new();
    push_decimal(&mut s, u64::MAX);
    assert_eq!(s, u64::MAX.to_string());
    let mut s = String::new();
    push_signed_decimal(&mut s, -1678791600);
    assert_eq!(s, "-1678791600");
    let mut s = String::new();
    push_signed_decimal(&mut s, i64::MIN);
    assert_eq!(s, i64::MIN.to_string());
}

#[test]
fn event_message_on_x() {
    assert_eq!(
        fmt_msg_event("x", 124),
        "Join us for \u{2615}Coffee with CUDOS #124 on X Spaces.\n\nBring your favourite drink and come have a chat during our office-hours!\nFeel free to post questions below the X Space or request to speak.\nPlease note, nothing covered in these sessions constitutes financial advice. \u{1f680}"
    );
    assert_eq!(fmt_msg_event("t", 124), fmt_msg_event("x", 124));
}

#[test]
fn event_message_on_discord_and_unknown() {
    assert_eq!(
        fmt_msg_event("d", 7),
        "Join us for \u{2615}Coffee with CUDOS #7 here on Discord in the `coffee-with-cudos` voice channel.\n\nBring your favourite drink and come have a chat during our office-hours!\nFeel free to post questions into the channel chat or unmute your microphone and ask them in the voice channel.\nPlease note, nothing covered in these sessions constitutes financial advice. \u{1f680}"
    );
    assert!(fmt_msg_event("q", 7).contains("#7 Unknown Platform.\n"));
    assert!(fmt_msg_event("q", 7).contains("questions Unknown Chat Info.\n"));
}

#[test]
fn announcement_message() {
    assert_eq!(
        fmt_msg_announcement("d", 125, 1678791600, "Rust", "www.example.com"),
        "Hey @In-The-Know!\n\n\u{2615}`coffee-with-cudos` #125 office hours will start <t:1678791600:R> at <t:1678791600:t>!\nSwing by with a hot drink and join us for a chat on Discord.\n\nWe will be chatting about Developers, Rust, Validators, and anything else that comes up! You can find the event here:\n\nwww.example.com\n\nKeen to see you there!! \u{1f680}"
    );
    assert!(fmt_msg_announcement("t", 1, 0, "", "u").contains("a chat on X Spaces.\n"));
    assert!(fmt_msg_announcement("z", 1, -5, "", "u").contains("<t:-5:R> at <t:-5:t>"));
    assert!(fmt_msg_announcement("z", 1, 0, "", "u").contains("a chat on Unknown Platform.\n"));
}

#[test]
fn xeet_message() {
    assert_eq!(
        fmt_msg_xeet("x", 133, "Nodes", "www.placeholderurl.com"),
        "Join us for \u{2615}\u{fe0f} Coffee with #CUDOS #133 on X Spaces.\nWe will be chatting about Developers, Nodes, and Validators.\nSwing by with a hot drink! \u{2615}\u{fe0f}\nwww.placeholderurl.com"
    );
    assert!(fmt_msg_xeet("d", 1, "", "")
        .contains("#1 on Discord in the `coffee-with-cudos` voice channel.\n"));
    assert!(fmt_msg_xeet("?", 1, "", "").contains("#1 Unknown Platform.\n"));
}

#[test]
fn caffeine_message() {
    assert_eq!(
        fmt_msg_caffeine(1678798800, 81),
        "Hey @Developers!\n\nCUDOS Caffeine #81 is happening <t:1678798800:R> at <t:1678798800:t> in the #vibe-while-you-code channel with a member or two from the CUDOS team and available @Developer-Rangers!\n\nBring your technical questions and we can help you get set up!"
    );
}
