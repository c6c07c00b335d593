//! The four announcement texts: the event description, the announcement,
//! the short social post and the sub-event announcement.

use vstd::prelude::*;

verus! {

pub open spec fn digit_char(d: int) -> char {
    if d == 0 {
        '0'
    } else if d == 1 {
        '1'
    } else if d == 2 {
        '2'
    } else if d == 3 {
        '3'
    } else if d == 4 {
        '4'
    } else if d == 5 {
        '5'
    } else if d == 6 {
        '6'
    } else if d == 7 {
        '7'
    } else if d == 8 {
        '8'
    } else {
        '9'
    }
}

/// Decimal digits of `n`, without leading zeros.
pub open spec fn decimal(n: nat) -> Seq<char>
    decreases n,
{
    if n < 10 {
        seq![digit_char(n as int)]
    } else {
        decimal(n / 10) + seq![digit_char((n % 10) as int)]
    }
}

/// Decimal form of `n`, with a leading `-` where it is negative.
pub open spec fn signed_decimal(n: int) -> Seq<char> {
    if n < 0 {
        seq!['-'] + decimal((-n) as nat)
    } else {
        decimal(n as nat)
    }
}

fn digit_str(d: u64) -> (r: &'static str)
    requires
        d < 10,
    ensures
        r@ == seq![digit_char(d as int)],
{
    if d == 0 {
        proof {
            reveal_strlit("0");
        }
        assert("0"@ =~= seq!['0']);
        "0"
    } else if d == 1 {
        proof {
            reveal_strlit("1");
        }
        assert("1"@ =~= seq!['1']);
        "1"
    } else if d == 2 {
        proof {
            reveal_strlit("2");
        }
        assert("2"@ =~= seq!['2']);
        "2"
    } else if d == 3 {
        proof {
            reveal_strlit("3");
        }
        assert("3"@ =~= seq!['3']);
        "3"
    } else if d == 4 {
        proof {
            reveal_strlit("4");
        }
        assert("4"@ =~= seq!['4']);
        "4"
    } else if d == 5 {
        proof {
            reveal_strlit("5");
        }
        assert("5"@ =~= seq!['5']);
        "5"
    } else if d == 6 {
        proof {
            reveal_strlit("6");
        }
        assert("6"@ =~= seq!['6']);
        "6"
    } else if d == 7 {
        proof {
            reveal_strlit("7");
        }
        assert("7"@ =~= seq!['7']);
        "7"
    } else if d == 8 {
        proof {
            reveal_strlit("8");
        }
        assert("8"@ =~= seq!['8']);
        "8"
    } else {
        proof {
            reveal_strlit("9");
        }
        assert("9"@ =~= seq!['9']);
        "9"
    }
}

/// Appends the decimal digits of `n` to `out`.
pub fn push_decimal(out: &mut String, n: u64)
    ensures
        final(out)@ == old(out)@ + decimal(n as nat),
    decreases n,
{
    if n >= 10 {
        push_decimal(out, n / 10);
    }
    out.append(digit_str(n % 10));
    assert(out@ =~= old(out)@ + decimal(n as nat));
}

/// Appends the decimal form of `n` to `out`.
pub fn push_signed_decimal(out: &mut String, n: i64)
    ensures
        final(out)@ == old(out)@ + signed_decimal(n as int),
{
    if n < 0 {
        out.append("-");
        proof {
            reveal_strlit("-");
        }
        assert("-"@ =~= seq!['-']);
        let magnitude: u64 = (-(n as i128)) as u64;
        push_decimal(out, magnitude);
        assert(out@ =~= old(out)@ + signed_decimal(n as int));
    } else {
        push_decimal(out, n as u64);
    }
}

/// Where the sessions are held.
#[derive(Clone, Copy, Debug, PartialEq, Eq, Structural)]
pub enum Platform {
    XSpaces,
    Discord,
    Unknown,
}

/// The platform that a location code names: `t` and `x` name X Spaces, `d`
/// names Discord; any other code is an unknown platform.
pub open spec fn platform_of(location: Seq<char>) -> Platform {
    if location == seq!['t'] || location == seq!['x'] {
        Platform::XSpaces
    } else if location == seq!['d'] {
        Platform::Discord
    } else {
        Platform::Unknown
    }
}

pub fn platform_from_code(location: &str) -> (r: Platform)
    ensures
        r == platform_of(location@),
{
    if location.unicode_len() == 1 {
        let c = location.get_char(0);
        assert(location@ =~= seq![c]);
        if c == 't' || c == 'x' {
            Platform::XSpaces
        } else if c == 'd' {
            Platform::Discord
        } else {
            Platform::Unknown
        }
    } else {
        Platform::Unknown
    }
}

/// How the event description names each platform.
pub open spec fn event_platform(p: Platform) -> Seq<char> {
    match p {
        Platform::XSpaces => "on X Spaces"@,
        Platform::Discord => "here on Discord in the `coffee-with-cudos` voice channel"@,
        Platform::Unknown => "Unknown Platform"@,
    }
}

/// Where the event description asks for questions, on each platform.
pub open spec fn event_questions(p: Platform) -> Seq<char> {
    match p {
        Platform::XSpaces => "below the X Space or request to speak"@,
        Platform::Discord =>
            "into the channel chat or unmute your microphone and ask them in the voice channel"@,
        Platform::Unknown => "Unknown Chat Info"@,
    }
}

/// How the announcement names each platform.
pub open spec fn announcement_platform(p: Platform) -> Seq<char> {
    match p {
        Platform::XSpaces => "X Spaces"@,
        Platform::Discord => "Discord"@,
        Platform::Unknown => "Unknown Platform"@,
    }
}

/// How the short social post names each platform.
pub open spec fn post_platform(p: Platform) -> Seq<char> {
    match p {
        Platform::XSpaces => "on X Spaces"@,
        Platform::Discord => "on Discord in the `coffee-with-cudos` voice channel"@,
        Platform::Unknown => "Unknown Platform"@,
    }
}

fn event_platform_str(p: Platform) -> (r: &'static str)
    ensures
        r@ == event_platform(p),
{
    match p {
        Platform::XSpaces => "on X Spaces",
        Platform::Discord => "here on Discord in the `coffee-with-cudos` voice channel",
        Platform::Unknown => "Unknown Platform",
    }
}

fn event_questions_str(p: Platform) -> (r: &'static str)
    ensures
        r@ == event_questions(p),
{
    match p {
        Platform::XSpaces => "below the X Space or request to speak",
        Platform::Discord =>
            "into the channel chat or unmute your microphone and ask them in the voice channel",
        Platform::Unknown => "Unknown Chat Info",
    }
}

fn announcement_platform_str(p: Platform) -> (r: &'static str)
    ensures
        r@ == announcement_platform(p),
{
    match p {
        Platform::XSpaces => "X Spaces",
        Platform::Discord => "Discord",
        Platform::Unknown => "Unknown Platform",
    }
}

fn post_platform_str(p: Platform) -> (r: &'static str)
    ensures
        r@ == post_platform(p),
{
    match p {
        Platform::XSpaces => "on X Spaces",
        Platform::Discord => "on Discord in the `coffee-with-cudos` voice channel",
        Platform::Unknown => "Unknown Platform",
    }
}

pub const EVENT_OPENING: &'static str = "Join us for \u{2615}Coffee with CUDOS #";

pub const EVENT_INVITATION: &'static str =
    ".\n\nBring your favourite drink and come have a chat during our office-hours!\nFeel free to post questions ";

pub const EVENT_CLOSING: &'static str =
    ".\nPlease note, nothing covered in these sessions constitutes financial advice. \u{1f680}";

/// The event description for the session numbered `session_number`.
pub open spec fn event_message(location: Seq<char>, session_number: nat) -> Seq<char> {
    let p = platform_of(location);
    EVENT_OPENING@ + decimal(session_number) + " "@ + event_platform(p) + EVENT_INVITATION@
        + event_questions(p) + EVENT_CLOSING@
}

pub fn fmt_msg_event(location: &str, session_number: u32) -> (r: String)
    ensures
        r@ == event_message(location@, session_number as nat),
{
    let p = platform_from_code(location);
    let mut msg = String::from_str(EVENT_OPENING);
    push_decimal(&mut msg, session_number as u64);
    msg.append(" ");
    msg.append(event_platform_str(p));
    msg.append(EVENT_INVITATION);
    msg.append(event_questions_str(p));
    msg.append(EVENT_CLOSING);
    msg
}

pub const ANNOUNCEMENT_OPENING: &'static str = "Hey @In-The-Know!\n\n\u{2615}`coffee-with-cudos` #";

pub const ANNOUNCEMENT_START: &'static str = " office hours will start <t:";

pub const ANNOUNCEMENT_AT: &'static str = ":R> at <t:";

pub const ANNOUNCEMENT_INVITATION: &'static str =
    ":t>!\nSwing by with a hot drink and join us for a chat on ";

pub const ANNOUNCEMENT_TOPICS: &'static str = ".\n\nWe will be chatting about Developers, ";

pub const ANNOUNCEMENT_EVENT_LINK: &'static str =
    ", Validators, and anything else that comes up! You can find the event here:\n\n";

pub const ANNOUNCEMENT_CLOSING: &'static str = "\n\nKeen to see you there!! \u{1f680}";

/// The announcement of the session numbered `session_number`, starting at
/// `unix_timestamp`.
pub open spec fn announcement_message(
    location: Seq<char>,
    session_number: nat,
    unix_timestamp: int,
    topics: Seq<char>,
    url: Seq<char>,
) -> Seq<char> {
    ANNOUNCEMENT_OPENING@ + decimal(session_number) + ANNOUNCEMENT_START@ + signed_decimal(
        unix_timestamp,
    ) + ANNOUNCEMENT_AT@ + signed_decimal(unix_timestamp) + ANNOUNCEMENT_INVITATION@
        + announcement_platform(platform_of(location)) + ANNOUNCEMENT_TOPICS@ + topics
        + ANNOUNCEMENT_EVENT_LINK@ + url + ANNOUNCEMENT_CLOSING@
}

pub fn fmt_msg_announcement(
    location: &str,
    session_number: u32,
    unix_timestamp: i64,
    topics: &str,
    url: &str,
) -> (r: String)
    ensures
        r@ == announcement_message(
            location@,
            session_number as nat,
            unix_timestamp as int,
            topics@,
            url@,
        ),
{
    let p = platform_from_code(location);
    let mut msg = String::from_str(ANNOUNCEMENT_OPENING);
    push_decimal(&mut msg, session_number as u64);
    msg.append(ANNOUNCEMENT_START);
    push_signed_decimal(&mut msg, unix_timestamp);
    msg.append(ANNOUNCEMENT_AT);
    push_signed_decimal(&mut msg, unix_timestamp);
    msg.append(ANNOUNCEMENT_INVITATION);
    msg.append(announcement_platform_str(p));
    msg.append(ANNOUNCEMENT_TOPICS);
    msg.append(topics);
    msg.append(ANNOUNCEMENT_EVENT_LINK);
    msg.append(url);
    msg.append(ANNOUNCEMENT_CLOSING);
    msg
}

pub const POST_OPENING: &'static str = "Join us for \u{2615}\u{fe0f} Coffee with #CUDOS #";

pub const POST_TOPICS: &'static str = ".\nWe will be chatting about Developers, ";

pub const POST_CLOSING: &'static str = ", and Validators.\nSwing by with a hot drink! \u{2615}\u{fe0f}\n";

/// The short social post for the session numbered `session_number`.
pub open spec fn post_message(
    location: Seq<char>,
    session_number: nat,
    topics: Seq<char>,
    url: Seq<char>,
) -> Seq<char> {
    POST_OPENING@ + decimal(session_number) + " "@ + post_platform(platform_of(location))
        + POST_TOPICS@ + topics + POST_CLOSING@ + url
}

pub fn fmt_msg_xeet(location: &str, session_number: u32, topics: &str, url: &str) -> (r: String)
    ensures
        r@ == post_message(location@, session_number as nat, topics@, url@),
{
    let p = platform_from_code(location);
    let mut msg = String::from_str(POST_OPENING);
    push_decimal(&mut msg, session_number as u64);
    msg.append(" ");
    msg.append(post_platform_str(p));
    msg.append(POST_TOPICS);
    msg.append(topics);
    msg.append(POST_CLOSING);
    msg.append(url);
    msg
}

pub const SUB_EVENT_OPENING: &'static str = "Hey @Developers!\n\nCUDOS Caffeine #";

pub const SUB_EVENT_START: &'static str = " is happening <t:";

pub const SUB_EVENT_AT: &'static str = ":R> at <t:";

pub const SUB_EVENT_CLOSING: &'static str =
    ":t> in the #vibe-while-you-code channel with a member or two from the CUDOS team and available @Developer-Rangers!\n\nBring your technical questions and we can help you get set up!";

/// The announcement of the sub-event numbered `caffeine_number`, starting
/// at `caffeine_timestamp`.
pub open spec fn sub_event_message(caffeine_timestamp: int, caffeine_number: nat) -> Seq<char> {
    SUB_EVENT_OPENING@ + decimal(caffeine_number) + SUB_EVENT_START@ + signed_decimal(
        caffeine_timestamp,
    ) + SUB_EVENT_AT@ + signed_decimal(caffeine_timestamp) + SUB_EVENT_CLOSING@
}

pub fn fmt_msg_caffeine(caffeine_timestamp: i64, caffeine_number: u32) -> (r: String)
    ensures
        r@ == sub_event_message(caffeine_timestamp as int, caffeine_number as nat),
{
    let mut msg = String::from_str(SUB_EVENT_OPENING);
    push_decimal(&mut msg, caffeine_number as u64);
    msg.append(SUB_EVENT_START);
    push_signed_decimal(&mut msg, caffeine_timestamp);
    msg.append(SUB_EVENT_AT);
    push_signed_decimal(&mut msg, caffeine_timestamp);
    msg.append(SUB_EVENT_CLOSING);
    msg
}

} // verus!
