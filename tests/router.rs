use vox_bridge::bot::Bot;
use vox_bridge::router::{
    after_join, after_leave, after_speech_failure, session_gone_after_join, session_gone_for_reading, Action,
    Event, JoinOutcome, SpeechFailure,
};
use vox_bridge::store::{OutOfRange, Voice};

fn bot() -> Bot {
    Bot::new(
        vec![Voice { id: 0, label: String::from("A") }, Voice { id: 1, label: String::from("B") }],
        0,
    )
    .unwrap()
}

fn event(channel: &str, user: &str, text: &str) -> Event {
    Event {
        from_bot: false,
        in_guild: true,
        connected: true,
        channel: String::from(channel),
        user: String::from(user),
        text: String::from(text),
    }
}

fn is_nothing(a: &Action) -> bool {
    matches!(a, Action::Nothing)
}

fn said(a: &Action) -> Option<String> {
    match a {
        Action::Say(t) => Some(t.clone()),
        _ => None,
    }
}

fn spoken(a: &Action) -> Option<(String, usize)> {
    match a {
        Action::Speak { text, voice } => Some((text.clone(), *voice)),
        _ => None,
    }
}

#[test]
fn bot_needs_a_valid_default_voice() {
    assert!(matches!(Bot::new(Vec::new(), 29), Err(OutOfRange)));
    assert!(Bot::new(vec![Voice { id: 0, label: String::from("A") }], 0).is_ok());
}

#[test]
fn unauthorized_channel_is_silent_until_authorized() {
    let mut b = bot();
    let a = b.handle(&event("100", "u", "hello"));
    assert!(is_nothing(&a));
    let a = b.handle(&event("100", "u", "/r hello"));
    assert!(is_nothing(&a));

    let a = b.handle(&event("100", "u", "/minitiro"));
    assert!(matches!(a, Action::Join));
    assert!(b.store().is_channel_allowed("100"));
    assert!(b.store().is_user_allowed("u"));

    let a = b.handle(&event("100", "u", "/r hello"));
    assert_eq!(spoken(&a), Some((String::from("hello"), 0)));
    let a = b.handle(&event("100", "u", "hello there"));
    assert_eq!(spoken(&a), Some((String::from("hello"), 0)));
}

#[test]
fn playback_from_unlisted_user_is_dropped() {
    let mut b = bot();
    assert!(matches!(b.handle(&event("100", "u", "/invite")), Action::Join));
    assert!(is_nothing(&b.handle(&event("100", "other", "/r hello"))));
    assert!(is_nothing(&b.handle(&event("100", "other", "/i 1 hello"))));
    assert!(is_nothing(&b.handle(&event("100", "other", "hello"))));
    assert!(is_nothing(&b.handle(&event("200", "u", "hello"))));
    assert!(matches!(b.handle(&event("100", "other", "/readme")), Action::Nothing));
    assert!(spoken(&b.handle(&event("100", "other", "hello"))).is_some());
    assert!(is_nothing(&b.handle(&event("100", "other", "/ignore"))));
    assert!(is_nothing(&b.handle(&event("100", "other", "hello"))));
}

#[test]
fn bots_and_direct_messages_are_ignored() {
    let mut b = bot();
    let mut ev = event("100", "u", "/minitiro");
    ev.from_bot = true;
    assert!(is_nothing(&b.handle(&ev)));
    ev.from_bot = false;
    ev.in_guild = false;
    assert!(is_nothing(&b.handle(&ev)));
    assert!(!b.store().is_channel_allowed("100"));
    assert!(is_nothing(&b.handle(&event("100", "u", "/nosuch"))));
    assert!(is_nothing(&b.handle(&event("100", "u", "/"))));
}

#[test]
fn read_errors_are_reported() {
    let mut b = bot();
    b.handle(&event("100", "u", "/minitiro"));
    assert_eq!(said(&b.handle(&event("100", "u", "/r"))), Some(String::from("読めませんでした")));
    assert_eq!(said(&b.handle(&event("100", "u", "/i"))), Some(String::from("something wrong")));
    assert_eq!(said(&b.handle(&event("100", "u", "/i 2 hi"))), Some(String::from("accepted value: 0 ~ 1")));
    assert_eq!(said(&b.handle(&event("100", "u", "/i x hi"))), Some(String::from("something wrong")));
    assert_eq!(said(&b.handle(&event("100", "u", "/i 1"))), Some(String::from("something wrong")));
    assert_eq!(spoken(&b.handle(&event("100", "u", "/read_with_id 1 hi"))), Some((String::from("hi"), 1)));
    let mut ev = event("100", "u", "/r hi");
    ev.connected = false;
    assert_eq!(said(&b.handle(&ev)), Some(String::from("Not in a voice channel to play in")));
}

#[test]
fn select_voice_through_commands() {
    let mut b = bot();
    assert!(is_nothing(&b.handle(&event("9", "x", "/set 1"))));
    assert_eq!(b.store().selected_voice(), 1);
    assert_eq!(said(&b.handle(&event("9", "x", "/set 5"))), Some(String::from("accepted value: 0 ~ 1")));
    assert_eq!(said(&b.handle(&event("9", "x", "/set"))), Some(String::from("something wrong")));
    assert_eq!(said(&b.handle(&event("9", "x", "/set one"))), Some(String::from("something wrong")));
    assert_eq!(b.store().selected_voice(), 1);
    b.handle(&event("9", "x", "/minitiro"));
    assert_eq!(spoken(&b.handle(&event("9", "x", "/r yo"))), Some((String::from("yo"), 1)));
}

#[test]
fn leave_clears_permissions() {
    let mut b = bot();
    b.handle(&event("100", "u", "/minitiro"));
    assert!(matches!(b.handle(&event("100", "u", "/fire")), Action::Leave));
    assert!(!b.store().is_channel_allowed("100"));
    assert!(!b.store().is_user_allowed("u"));
    let mut ev = event("100", "u", "/leave");
    ev.connected = false;
    assert!(matches!(b.handle(&ev), Action::Reply(t) if t == "Not in a voice channel"));
}

#[test]
fn listings_through_commands() {
    let mut b = Bot::new(
        vec![Voice { id: 3, label: String::from("\"C\"") }, Voice { id: 1, label: String::from("B") }],
        0,
    )
    .unwrap();
    assert_eq!(said(&b.handle(&event("1", "u", "/list"))), Some(String::from("・03 C\n・01 B\n")));
    assert_eq!(said(&b.handle(&event("1", "u", "/list_pretty"))), Some(String::from("・01 B\n・03 C\n")));
}

#[test]
fn join_and_leave_reports() {
    assert!(matches!(after_join(JoinOutcome::Joined, "<#5>"), Action::Say(t) if t == "<#5> に接続！"));
    assert!(matches!(after_join(JoinOutcome::Refused, "<#5>"), Action::Say(t) if t == "そのチャンネルには入れん"));
    assert!(matches!(after_join(JoinOutcome::NoVoiceChannel, "<#5>"), Action::Reply(t) if t == "どのボイスチャンネルに入ればいいかわからへん"));
    let r = after_leave(Some(String::from("NoCall")));
    assert_eq!(r.len(), 2);
    assert_eq!(said(&r[0]), Some(String::from("Failed: NoCall")));
    assert_eq!(said(&r[1]), Some(String::from("ほなまた :wave:")));
    let r = after_leave(None);
    assert_eq!(r.len(), 1);
    assert_eq!(said(&r[0]), Some(String::from("ほなまた :wave:")));
}

#[test]
fn missing_arguments_are_reported_before_the_gate() {
    let mut b = bot();
    assert_eq!(said(&b.handle(&event("100", "u", "/r"))), Some(String::from("読めませんでした")));
    assert_eq!(said(&b.handle(&event("100", "u", "/i"))), Some(String::from("something wrong")));
    assert_eq!(said(&b.handle(&event("100", "u", "/i 1"))), Some(String::from("something wrong")));
    assert_eq!(said(&b.handle(&event("100", "u", "/i z hi"))), Some(String::from("something wrong")));
    assert!(is_nothing(&b.handle(&event("100", "u", "/i 1 hi"))));
    assert!(is_nothing(&b.handle(&event("100", "u", "/i 7 hi"))));
    assert!(is_nothing(&b.handle(&event("100", "u", ""))));
    assert!(!b.store().is_channel_allowed("100"));
    assert!(!b.store().is_user_allowed("u"));
}

#[test]
fn failure_and_session_reports() {
    assert_eq!(said(&after_speech_failure(SpeechFailure::Transport)), Some(String::from("speech engine unreachable")));
    assert_eq!(said(&after_speech_failure(SpeechFailure::Query)), Some(String::from("speech query failed")));
    assert_eq!(said(&after_speech_failure(SpeechFailure::Synthesis)), Some(String::from("speech synthesis failed")));
    assert_eq!(said(&after_speech_failure(SpeechFailure::Playback)), Some(String::from("audio playback failed")));
    assert_eq!(said(&session_gone_for_reading()), Some(String::from("Not in a voice channel to play in")));
    assert!(matches!(session_gone_after_join(), Action::Reply(t) if t == "Not in a voice channel"));
}
