//! The decision taken for each incoming chat message: which state changes
//! and which single outside action follows.

use vstd::prelude::*;
use crate::catalog::{listing, render_listing, sort_by_id, sorted_by_id};
use crate::command::{command_named, is_command, is_command_text, lookup_command, split_words, words, Command};
use crate::store::{AccessStore, StoreModel};
use crate::text::{decimal, numeral_value, parse_numeral, to_decimal};

verus! {

/// An incoming chat message, with what the caller knows around it.
pub struct Event {
    /// The author is an automated account.
    pub from_bot: bool,
    /// The message was posted in a guild, not in a direct conversation.
    pub in_guild: bool,
    /// The bot holds a voice session in the message's guild.
    pub connected: bool,
    pub channel: String,
    pub user: String,
    pub text: String,
}

/// What the caller is to do after a message.
#[derive(Debug)]
pub enum Action {
    Nothing,
    /// Answer the author with this text.
    Reply(String),
    /// Post this text in the message's channel.
    Say(String),
    /// Join the author's voice channel in the message's guild.
    Join,
    /// Leave the voice session of the message's guild.
    Leave,
    /// Synthesize `text` with the speaker `voice` and play it in the session.
    Speak { text: String, voice: usize },
}

/// An [`Action`] as mathematical values.
pub enum ActionModel {
    Nothing,
    Reply(Seq<char>),
    Say(Seq<char>),
    Join,
    Leave,
    Speak(Seq<char>, nat),
}

impl View for Action {
    type V = ActionModel;

    open spec fn view(&self) -> ActionModel {
        match self {
            Action::Nothing => ActionModel::Nothing,
            Action::Reply(t) => ActionModel::Reply(t@),
            Action::Say(t) => ActionModel::Say(t@),
            Action::Join => ActionModel::Join,
            Action::Leave => ActionModel::Leave,
            Action::Speak { text, voice } => ActionModel::Speak(text@, *voice as nat),
        }
    }
}

/// The channel and the author of `ev` are both allowed.
pub open spec fn passes_gate(m: StoreModel, ev: Event) -> bool {
    m.channels.contains(ev.channel@) && m.users.contains(ev.user@)
}

pub open spec fn unreadable_message() -> Seq<char> {
    "読めませんでした"@
}

pub open spec fn malformed_message() -> Seq<char> {
    "something wrong"@
}

pub open spec fn no_session_message() -> Seq<char> {
    "Not in a voice channel to play in"@
}

pub open spec fn not_connected_message() -> Seq<char> {
    "Not in a voice channel"@
}

/// The message that names the voice indexes a catalog of `len` voices has.
pub open spec fn range_message(len: nat) -> Seq<char> {
    "accepted value: 0 ~ "@ + decimal((len - 1) as nat)
}

/// Play `text` with `voice` when a session is open; otherwise say why not.
pub open spec fn speak_if_connected(ev: Event, text: Seq<char>, voice: nat) -> ActionModel {
    if ev.connected {
        ActionModel::Speak(text, voice)
    } else {
        ActionModel::Say(no_session_message())
    }
}

/// Reading the first word of `args` with the selected voice. A missing
/// word is reported before the allow-lists are looked at.
pub open spec fn read_outcome(m: StoreModel, ev: Event, args: Seq<Seq<char>>) -> ActionModel {
    if args.len() == 0 {
        ActionModel::Say(unreadable_message())
    } else if !passes_gate(m, ev) {
        ActionModel::Nothing
    } else {
        speak_if_connected(ev, args[0], m.selected)
    }
}

/// Reading the second word of `args` with the voice the first one names.
/// A missing or malformed argument is reported before the allow-lists are
/// looked at; the range of the voice is checked after them.
pub open spec fn read_with_id_outcome(m: StoreModel, ev: Event, args: Seq<Seq<char>>) -> ActionModel {
    if args.len() < 2 || numeral_value(args[0]) is None {
        ActionModel::Say(malformed_message())
    } else if !passes_gate(m, ev) {
        ActionModel::Nothing
    } else {
        let v = numeral_value(args[0])->Some_0;
        if v >= m.voices.len() {
            ActionModel::Say(range_message(m.voices.len()))
        } else {
            speak_if_connected(ev, args[1], v as nat)
        }
    }
}

/// The command words of `ev`: the words after the prefix.
pub open spec fn command_words(ev: Event) -> Seq<Seq<char>> {
    words(ev.text@.drop_first())
}

/// Whether `ev` asks for something to be read aloud.
pub open spec fn is_playback(ev: Event) -> bool {
    !is_command_text(ev.text@) || {
        let ws = command_words(ev);
        ws.len() > 0 && (command_named(ws[0]) == Some(Command::Read) || command_named(ws[0])
            == Some(Command::ReadWithId))
    }
}

/// The state after `ev`, and the action it calls for.
pub open spec fn step(m: StoreModel, ev: Event) -> (StoreModel, ActionModel) {
    if ev.from_bot || !ev.in_guild {
        (m, ActionModel::Nothing)
    } else if !is_command_text(ev.text@) {
        if passes_gate(m, ev) {
            (m, read_outcome(m, ev, words(ev.text@)))
        } else {
            (m, ActionModel::Nothing)
        }
    } else {
        let ws = command_words(ev);
        if ws.len() == 0 {
            (m, ActionModel::Nothing)
        } else {
            let args = ws.drop_first();
            match command_named(ws[0]) {
                None => (m, ActionModel::Nothing),
                Some(Command::Join) => (
                    StoreModel {
                        channels: m.channels.insert(ev.channel@),
                        users: m.users.insert(ev.user@),
                        ..m
                    },
                    ActionModel::Join,
                ),
                Some(Command::Leave) => (
                    StoreModel {
                        channels: Set::empty(),
                        users: Set::empty(),
                        ..m
                    },
                    if ev.connected {
                        ActionModel::Leave
                    } else {
                        ActionModel::Reply(not_connected_message())
                    },
                ),
                Some(Command::Read) => (m, read_outcome(m, ev, args)),
                Some(Command::ReadWithId) => (m, read_with_id_outcome(m, ev, args)),
                Some(Command::List) => (m, ActionModel::Say(listing(m.voices))),
                Some(Command::ListPretty) => (m, ActionModel::Say(listing(sorted_by_id(m.voices)))),
                Some(Command::Select) => if args.len() == 0 || numeral_value(args[0]) is None {
                    (m, ActionModel::Say(malformed_message()))
                } else {
                    let v = numeral_value(args[0])->Some_0;
                    if v >= m.voices.len() {
                        (m, ActionModel::Say(range_message(m.voices.len())))
                    } else {
                        (StoreModel { selected: v as nat, ..m }, ActionModel::Nothing)
                    }
                },
                Some(Command::Readme) => (
                    StoreModel { users: m.users.insert(ev.user@), ..m },
                    ActionModel::Nothing,
                ),
                Some(Command::Ignore) => (
                    StoreModel { users: m.users.remove(ev.user@), ..m },
                    ActionModel::Nothing,
                ),
            }
        }
    }
}

/// `ev` carries what its reading asks for: a word to read, and for a read
/// with a voice, a numeral before it. Plain messages always qualify.
pub open spec fn has_playback_arguments(ev: Event) -> bool {
    !is_command_text(ev.text@) || {
        let ws = command_words(ev);
        if command_named(ws[0]) == Some(Command::Read) {
            ws.len() >= 2
        } else {
            ws.len() >= 3 && numeral_value(ws[1]) is Some
        }
    }
}

/// A message that asks for reading aloud and carries its arguments, from an
/// author or in a channel that is not allowed, changes nothing and leads to
/// no action at all: no message is sent and nothing is synthesized.
pub proof fn gate_blocks_playback(m: StoreModel, ev: Event)
    requires
        is_playback(ev),
        has_playback_arguments(ev),
        !passes_gate(m, ev),
    ensures
        step(m, ev) == (m, ActionModel::Nothing),
{
}

/// A voice selected with a valid index is the voice of the very next
/// reading: the selection changes nothing else, sends nothing, and a
/// following read command in an allowed channel from an allowed author, with
/// a session open, speaks its word with that voice.
pub proof fn selection_is_observed(m: StoreModel, select: Event, read: Event, v: usize)
    requires
        !select.from_bot,
        select.in_guild,
        is_command_text(select.text@),
        command_words(select).len() >= 2,
        command_named(command_words(select)[0]) == Some(Command::Select),
        numeral_value(command_words(select)[1]) == Some(v),
        v < m.voices.len(),
        !read.from_bot,
        read.in_guild,
        read.connected,
        is_command_text(read.text@),
        command_words(read).len() >= 2,
        command_named(command_words(read)[0]) == Some(Command::Read),
        passes_gate(m, read),
    ensures
        step(m, select) == (StoreModel { selected: v as nat, ..m }, ActionModel::Nothing),
        step(step(m, select).0, read).1 == ActionModel::Speak(command_words(read)[1], v as nat),
{
    assert(command_words(select).drop_first()[0] == command_words(select)[1]);
    assert(command_words(read).drop_first()[0] == command_words(read)[1]);
}

fn range_reply(len: usize) -> (r: Action)
    requires
        len > 0,
    ensures
        r@ == ActionModel::Say(range_message(len as nat)),
{
    let mut t = String::from_str("accepted value: 0 ~ ");
    t.append(to_decimal(len - 1).as_str());
    Action::Say(t)
}

fn speak_reply(ev: &Event, text: &String, voice: usize) -> (r: Action)
    ensures
        r@ == speak_if_connected(*ev, text@, voice as nat),
{
    if ev.connected {
        Action::Speak { text: text.clone(), voice }
    } else {
        Action::Say(String::from_str("Not in a voice channel to play in"))
    }
}

fn allowed(store: &AccessStore, ev: &Event) -> (r: bool)
    ensures
        r == passes_gate(store@, *ev),
{
    store.is_channel_allowed(ev.channel.as_str()) && store.is_user_allowed(ev.user.as_str())
}

fn read(store: &AccessStore, ev: &Event, args: &Vec<String>, from: usize) -> (r: Action)
    requires
        from <= args@.len(),
    ensures
        r@ == read_outcome(
            store@,
            *ev,
            args@.map_values(|w: String| w@).skip(from as int),
        ),
{
    let ghost a = args@.map_values(|w: String| w@).skip(from as int);
    if from >= args.len() {
        return Action::Say(String::from_str("読めませんでした"));
    }
    if !allowed(store, ev) {
        return Action::Nothing;
    }
    assert(a[0] == args@[from as int]@);
    speak_reply(ev, &args[from], store.selected_voice())
}

fn read_with_id(store: &AccessStore, ev: &Event, args: &Vec<String>) -> (r: Action)
    requires
        1 <= args@.len(),
        store.wf(),
    ensures
        r@ == read_with_id_outcome(store@, *ev, args@.map_values(|w: String| w@).drop_first()),
{
    let ghost a = args@.map_values(|w: String| w@).drop_first();
    if args.len() < 3 {
        return Action::Say(String::from_str("something wrong"));
    }
    assert(a[0] == args@[1]@);
    assert(a[1] == args@[2]@);
    match parse_numeral(args[1].as_str()) {
        None => Action::Say(String::from_str("something wrong")),
        Some(v) => {
            if !allowed(store, ev) {
                Action::Nothing
            } else if v >= store.catalog_len() {
                range_reply(store.catalog_len())
            } else {
                speak_reply(ev, &args[2], v)
            }
        },
    }
}

/// What came of an attempt to join the author's voice channel.
#[derive(Debug, Clone, Copy, PartialEq, Eq, Structural)]
pub enum JoinOutcome {
    /// The author is in no voice channel of the guild.
    NoVoiceChannel,
    Joined,
    Refused,
}

pub open spec fn join_outcome_action(outcome: JoinOutcome, mention: Seq<char>) -> ActionModel {
    match outcome {
        JoinOutcome::NoVoiceChannel => ActionModel::Reply("どのボイスチャンネルに入ればいいかわからへん"@),
        JoinOutcome::Joined => ActionModel::Say(mention + " に接続！"@),
        JoinOutcome::Refused => ActionModel::Say("そのチャンネルには入れん"@),
    }
}

/// The message that reports a join; `mention` renders the voice channel.
pub fn after_join(outcome: JoinOutcome, mention: &str) -> (r: Action)
    ensures
        r@ == join_outcome_action(outcome, mention@),
{
    match outcome {
        JoinOutcome::NoVoiceChannel => Action::Reply(String::from_str("どのボイスチャンネルに入ればいいかわからへん")),
        JoinOutcome::Joined => {
            let mut t = String::from_str(mention);
            t.append(" に接続！");
            Action::Say(t)
        },
        JoinOutcome::Refused => Action::Say(String::from_str("そのチャンネルには入れん")),
    }
}

pub open spec fn farewell_message() -> Seq<char> {
    "ほなまた :wave:"@
}

/// The messages that report leaving a voice session: the failure, if
/// leaving failed with the rendered error `failure`, then a farewell.
pub fn after_leave(failure: Option<String>) -> (r: Vec<Action>)
    ensures
        r@.map_values(|a: Action| a@) == match failure {
            Some(e) => seq![ActionModel::Say("Failed: "@ + e@), ActionModel::Say(farewell_message())],
            None => seq![ActionModel::Say(farewell_message())],
        },
{
    let mut r: Vec<Action> = Vec::new();
    match failure {
        Some(e) => {
            let mut t = String::from_str("Failed: ");
            t.append(e.as_str());
            r.push(Action::Say(t));
        },
        None => {},
    }
    r.push(Action::Say(String::from_str("ほなまた :wave:")));
    assert(r@.map_values(|a: Action| a@) =~= match failure {
        Some(e) => seq![ActionModel::Say("Failed: "@ + e@), ActionModel::Say(farewell_message())],
        None => seq![ActionModel::Say(farewell_message())],
    });
    r
}

/// The phase in which reading aloud failed after it was decided.
#[derive(Debug, Clone, Copy, PartialEq, Eq, Structural)]
pub enum SpeechFailure {
    /// The speech engine could not be reached.
    Transport,
    /// The engine gave no usable utterance description.
    Query,
    /// The engine gave no waveform for the description.
    Synthesis,
    /// The waveform could not be turned into a playable stream.
    Playback,
}

pub open spec fn speech_failure_message(f: SpeechFailure) -> Seq<char> {
    match f {
        SpeechFailure::Transport => "speech engine unreachable"@,
        SpeechFailure::Query => "speech query failed"@,
        SpeechFailure::Synthesis => "speech synthesis failed"@,
        SpeechFailure::Playback => "audio playback failed"@,
    }
}

/// The message that reports a failed reading.
pub fn after_speech_failure(f: SpeechFailure) -> (r: Action)
    ensures
        r@ == ActionModel::Say(speech_failure_message(f)),
{
    match f {
        SpeechFailure::Transport => Action::Say(String::from_str("speech engine unreachable")),
        SpeechFailure::Query => Action::Say(String::from_str("speech query failed")),
        SpeechFailure::Synthesis => Action::Say(String::from_str("speech synthesis failed")),
        SpeechFailure::Playback => Action::Say(String::from_str("audio playback failed")),
    }
}

/// The message for a reading when the guild's voice session has gone.
pub fn session_gone_for_reading() -> (r: Action)
    ensures
        r@ == ActionModel::Say(no_session_message()),
{
    Action::Say(String::from_str("Not in a voice channel to play in"))
}

/// The answer when the voice session is missing right after a join.
pub fn session_gone_after_join() -> (r: Action)
    ensures
        r@ == ActionModel::Reply(not_connected_message()),
{
    Action::Reply(String::from_str("Not in a voice channel"))
}

/// Applies `ev` to the store and returns the action it calls for.
pub fn handle_event(store: &mut AccessStore, ev: &Event) -> (r: Action)
    requires
        old(store).wf(),
    ensures
        final(store).wf(),
        (final(store)@, r@) == step(old(store)@, *ev),
{
    if ev.from_bot || !ev.in_guild {
        return Action::Nothing;
    }
    let text = ev.text.as_str();
    if !is_command(text) {
        let ws = split_words(text);
        proof {
            assert(ws@.map_values(|w: String| w@).skip(0) =~= words(ev.text@));
        }
        if !allowed(store, ev) {
            return Action::Nothing;
        }
        return read(store, ev, &ws, 0);
    }
    let n = text.unicode_len();
    let body = text.substring_char(1, n);
    assert(body@ =~= ev.text@.drop_first());
    let ws = split_words(body);
    let ghost wv = ws@.map_values(|w: String| w@);
    if ws.len() == 0 {
        return Action::Nothing;
    }
    assert(wv[0] == ws@[0]@);
    match lookup_command(&ws[0]) {
        None => Action::Nothing,
        Some(Command::Join) => {
            store.authorize_channel(ev.channel.as_str());
            store.authorize_user(ev.user.as_str());
            Action::Join
        },
        Some(Command::Leave) => {
            store.clear_channels();
            store.clear_users();
            if ev.connected {
                Action::Leave
            } else {
                Action::Reply(String::from_str("Not in a voice channel"))
            }
        },
        Some(Command::Read) => {
            assert(wv.skip(1) =~= wv.drop_first());
            read(store, ev, &ws, 1)
        },
        Some(Command::ReadWithId) => read_with_id(store, ev, &ws),
        Some(Command::List) => Action::Say(render_listing(store.voices())),
        Some(Command::ListPretty) => {
            let sorted = sort_by_id(store.voices());
            Action::Say(render_listing(&sorted))
        },
        Some(Command::Select) => {
            if ws.len() < 2 {
                return Action::Say(String::from_str("something wrong"));
            }
            assert(wv.drop_first()[0] == ws@[1]@);
            match parse_numeral(ws[1].as_str()) {
                None => Action::Say(String::from_str("something wrong")),
                Some(v) => {
                    if v >= store.catalog_len() {
                        range_reply(store.catalog_len())
                    } else {
                        let _ = store.set_selected_voice(v);
                        Action::Nothing
                    }
                },
            }
        },
        Some(Command::Readme) => {
            store.authorize_user(ev.user.as_str());
            Action::Nothing
        },
        Some(Command::Ignore) => {
            let _ = store.revoke_user(ev.user.as_str());
            Action::Nothing
        },
    }
}

} // verus!
