use vox_bridge::catalog::{flatten_speakers, parse_voices, render_listing, sort_by_id, Speaker, Style};
use vox_bridge::command::{lookup_command, split_words, is_command, Command};
use vox_bridge::speech::{query_url, query_url_encoded, speakers_url, synthesis_url};
use vox_bridge::store::Voice;

fn voice(id: usize, label: &str) -> Voice {
    Voice { id, label: String::from(label) }
}

#[test]
fn speakers_flatten_one_entry_per_style() {
    let speakers = vec![
        Speaker {
            name: String::from("\"Metan\""),
            styles: vec![
                Style { id: String::from("2"), name: String::from("\"normal\"") },
                Style { id: String::from("0"), name: String::from("\"sweet\"") },
            ],
        },
        Speaker { name: String::from("\"Empty\""), styles: Vec::new() },
        Speaker {
            name: String::from("\"Zunda\""),
            styles: vec![Style { id: String::from("3"), name: String::from("\"normal\"") }],
        },
    ];
    let raw = flatten_speakers(&speakers);
    assert_eq!(
        raw,
        vec![
            (String::from("2"), String::from("\"Metan\" \"normal\"")),
            (String::from("0"), String::from("\"Metan\" \"sweet\"")),
            (String::from("3"), String::from("\"Zunda\" \"normal\"")),
        ]
    );
    let voices = parse_voices(&raw).unwrap();
    assert_eq!(voices.len(), 3);
    assert_eq!(voices[0].id, 2);
    assert_eq!(voices[2].id, 3);
    assert_eq!(voices[1].label, "\"Metan\" \"sweet\"");
}

#[test]
fn voices_with_bad_id_are_refused() {
    let raw = vec![(String::from("1"), String::from("a")), (String::from("x"), String::from("b"))];
    assert!(parse_voices(&raw).is_none());
    assert_eq!(parse_voices(&Vec::new()).map(|v| v.len()), Some(0));
}

#[test]
fn listing_renders_lines() {
    let vs = vec![voice(0, "\"A\" \"x\""), voice(12, "B")];
    assert_eq!(render_listing(&vs), "・00 A x\n・12 B\n");
    assert_eq!(render_listing(&Vec::new()), "");
}

#[test]
fn sorting_is_stable_by_id() {
    let vs = vec![voice(3, "c"), voice(1, "a"), voice(3, "d"), voice(0, "z"), voice(1, "b")];
    let sorted = sort_by_id(&vs);
    let got: Vec<(usize, String)> = sorted.iter().map(|v| (v.id, v.label.clone())).collect();
    assert_eq!(
        got,
        vec![
            (0, String::from("z")),
            (1, String::from("a")),
            (1, String::from("b")),
            (3, String::from("c")),
            (3, String::from("d")),
        ]
    );
    assert_eq!(render_listing(&sorted), "・00 z\n・01 a\n・01 b\n・03 c\n・03 d\n");
}

#[test]
fn words_and_commands() {
    assert_eq!(split_words("  a  bc d "), vec!["a", "bc", "d"]);
    assert!(split_words("").is_empty());
    assert!(split_words("   ").is_empty());
    assert!(is_command("/r x"));
    assert!(!is_command("r /x"));
    assert!(!is_command(""));
    assert_eq!(lookup_command(&String::from("召喚")), Some(Command::Join));
    assert_eq!(lookup_command(&String::from("comeon")), Some(Command::Join));
    assert_eq!(lookup_command(&String::from("首")), Some(Command::Leave));
    assert_eq!(lookup_command(&String::from("read")), Some(Command::Read));
    assert_eq!(lookup_command(&String::from("i")), Some(Command::ReadWithId));
    assert_eq!(lookup_command(&String::from("list_pretty")), Some(Command::ListPretty));
    assert_eq!(lookup_command(&String::from("set")), Some(Command::Select));
    assert_eq!(lookup_command(&String::from("readme")), Some(Command::Readme));
    assert_eq!(lookup_command(&String::from("ignore")), Some(Command::Ignore));
    assert_eq!(lookup_command(&String::from("Read")), None);
}

#[test]
fn engine_addresses() {
    assert_eq!(
        query_url("a b&c", 3),
        "http://127.0.0.1:50021/audio_query?speaker=3&text=a%20b%26c"
    );
    assert_eq!(
        query_url("こ", 29),
        "http://127.0.0.1:50021/audio_query?speaker=29&text=%E3%81%93"
    );
    assert_eq!(query_url_encoded("x", 0), "http://127.0.0.1:50021/audio_query?speaker=0&text=x");
    assert_eq!(synthesis_url(29), "http://127.0.0.1:50021/synthesis?speaker=29");
    assert_eq!(speakers_url(), "http://127.0.0.1:50021/speakers");
}
