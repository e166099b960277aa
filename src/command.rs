//! Splitting a message into words and recognizing the bot's commands.

use vstd::prelude::*;

verus! {

/// The commands the bot understands, each under its names and aliases.
#[derive(Debug, Clone, Copy, PartialEq, Eq, Structural)]
pub enum Command {
    /// Allow the channel and the author, and join the author's voice channel.
    Join,
    /// Forget every allowed channel and user, and leave the voice channel.
    Leave,
    /// Read a word aloud with the selected voice.
    Read,
    /// Read a word aloud with the voice given first.
    ReadWithId,
    /// Show the voice catalog.
    List,
    /// Show the voice catalog ordered by speaker id.
    ListPretty,
    /// Select the voice used by `Read`.
    Select,
    /// Allow the author.
    Readme,
    /// Stop allowing the author.
    Ignore,
}

/// The character that starts a command.
pub open spec fn prefix_char() -> char {
    '/'
}

/// Whether `text` is addressed to the command parser.
pub open spec fn is_command_text(text: Seq<char>) -> bool {
    text.len() > 0 && text[0] == prefix_char()
}

/// The words completed so far, and the word in progress, after reading `s`
/// from the left; words are separated by spaces, and empty ones dropped.
pub open spec fn split_state(s: Seq<char>) -> (Seq<Seq<char>>, Seq<char>)
    decreases s.len(),
{
    if s.len() == 0 {
        (Seq::empty(), Seq::empty())
    } else {
        let (done, cur) = split_state(s.drop_last());
        if s.last() == ' ' {
            if cur.len() > 0 {
                (done.push(cur), Seq::empty())
            } else {
                (done, cur)
            }
        } else {
            (done, cur.push(s.last()))
        }
    }
}

/// The space-separated words of `s`, empty ones dropped.
pub open spec fn words(s: Seq<char>) -> Seq<Seq<char>> {
    let (done, cur) = split_state(s);
    if cur.len() > 0 {
        done.push(cur)
    } else {
        done
    }
}

/// The command that a name stands for.
pub open spec fn command_named(name: Seq<char>) -> Option<Command> {
    if name == "minitiro"@ || name == "召喚"@ || name == "invite"@ || name == "comeon"@ {
        Some(Command::Join)
    } else if name == "fire"@ || name == "首"@ || name == "kill"@ || name == "dead"@ || name
        == "leave"@ {
        Some(Command::Leave)
    } else if name == "r"@ || name == "read"@ {
        Some(Command::Read)
    } else if name == "i"@ || name == "read_with_id"@ {
        Some(Command::ReadWithId)
    } else if name == "list"@ {
        Some(Command::List)
    } else if name == "list_pretty"@ {
        Some(Command::ListPretty)
    } else if name == "set"@ {
        Some(Command::Select)
    } else if name == "readme"@ {
        Some(Command::Readme)
    } else if name == "ignore"@ {
        Some(Command::Ignore)
    } else {
        None
    }
}

/// Whether `text` starts with the command prefix.
pub fn is_command(text: &str) -> (r: bool)
    ensures
        r == is_command_text(text@),
{
    text.unicode_len() > 0 && text.get_char(0) == '/'
}

/// The space-separated words of `s`, empty ones dropped.
pub fn split_words(s: &str) -> (r: Vec<String>)
    ensures
        r@.map_values(|w: String| w@) == words(s@),
{
    let n = s.unicode_len();
    let mut done: Vec<String> = Vec::new();
    let mut cur = String::new();
    let mut i: usize = 0;
    while i < n
        invariant
            n == s@.len(),
            i <= n,
            (done@.map_values(|w: String| w@), cur@) == split_state(s@.take(i as int)),
        decreases n - i,
    {
        let c = s.get_char(i);
        let piece = s.substring_char(i, i + 1);
        proof {
            assert(s@.take(i + 1).drop_last() =~= s@.take(i as int));
            assert(piece@ =~= seq![c]);
        }
        if c == ' ' {
            if cur.as_str().unicode_len() > 0 {
                let ghost before = done@;
                done.push(cur);
                cur = String::new();
                assert(done@.map_values(|w: String| w@) =~= before.map_values(|w: String| w@).push(
                    split_state(s@.take(i as int)).1,
                ));
            }
        } else {
            cur.append(piece);
        }
        i = i + 1;
    }
    assert(s@.take(n as int) =~= s@);
    if cur.as_str().unicode_len() > 0 {
        let ghost before = done@;
        done.push(cur);
        assert(done@.map_values(|w: String| w@) =~= before.map_values(|w: String| w@).push(
            split_state(s@).1,
        ));
    }
    done
}

/// Whether `w` reads exactly as `name`.
fn is_name(w: &String, name: &str) -> (r: bool)
    ensures
        r == (w@ == name@),
{
    *w == String::from_str(name)
}

/// The command that `name` stands for, if any.
pub fn lookup_command(name: &String) -> (r: Option<Command>)
    ensures
        r == command_named(name@),
{
    if is_name(name, "minitiro") || is_name(name, "召喚") || is_name(name, "invite") || is_name(
        name,
        "comeon",
    ) {
        Some(Command::Join)
    } else if is_name(name, "fire") || is_name(name, "首") || is_name(name, "kill") || is_name(
        name,
        "dead",
    ) || is_name(name, "leave") {
        Some(Command::Leave)
    } else if is_name(name, "r") || is_name(name, "read") {
        Some(Command::Read)
    } else if is_name(name, "i") || is_name(name, "read_with_id") {
        Some(Command::ReadWithId)
    } else if is_name(name, "list") {
        Some(Command::List)
    } else if is_name(name, "list_pretty") {
        Some(Command::ListPretty)
    } else if is_name(name, "set") {
        Some(Command::Select)
    } else if is_name(name, "readme") {
        Some(Command::Readme)
    } else if is_name(name, "ignore") {
        Some(Command::Ignore)
    } else {
        None
    }
}

} // verus!
