use rikka::commands::played::fmt_games;
use rikka::commands::played::target_user;
use rikka::commands::played::target_user_parsed;
use rikka::commands::played::GameEntry;
use rikka::commands::played::Played;
use rikka::help::generate_help;
use rikka::model::Message;
use rikka::model::User;
use rikka::Command;
use rikka::CommandError;
use rikka::HelpSection;
use rikka::Rikka;

fn user() -> User {
    User {
        id: 7,
        name: "rikka".to_string(),
        discriminator: "0042".to_string(),
        avatar: Some("beef".to_string()),
        bot: false,
    }
}

fn message(content: &str) -> Message {
    Message {
        id: 1,
        channel_id: 2,
        guild_id: None,
        author: user(),
        content: content.to_string(),
        attachments: Vec::new(),
    }
}

#[test]
fn durations_leave_out_zero_parts() {
    let games = vec![
        GameEntry { name: "chess".to_string(), dur: 3661 },
        GameEntry { name: "go".to_string(), dur: 7200 },
        GameEntry { name: "idle".to_string(), dur: 0 },
        GameEntry { name: "dash".to_string(), dur: 59 },
    ];
    let bullet = "\u{e2}\u{20ac}\u{a2}";
    let expected = format!(
        "{b} **chess** 1h1m1s\n{b} **go** 2h\n{b} **idle** \n{b} **dash** 59s\n",
        b = bullet
    );
    assert_eq!(fmt_games(&games), expected);
    assert_eq!(fmt_games(&Vec::new()), "");
}

#[test]
fn user_from_argument() {
    assert_eq!(target_user(None, 7).ok(), Some(7));
    assert_eq!(target_user(Some("<@123>"), 7).ok(), Some(123));
    assert_eq!(target_user(Some("456"), 7).ok(), Some(456));
    match target_user(Some("nobody"), 7) {
        Err(e) => assert!(e.message().starts_with(
            "no parsing options left, expected mention or id. invalid option 'nobody': parse id: "
        )),
        Ok(_) => panic!("expected an error"),
    }
    match target_user_parsed("x", Err("m".to_string()), Err("p".to_string())) {
        Err(e) => assert_eq!(
            e.message(),
            "no parsing options left, expected mention or id. invalid option 'x': parse id: p: parse mention: m"
        ),
        Ok(_) => panic!("expected an error"),
    }
    assert_eq!(target_user_parsed("x", Ok(1), Err("p".to_string())).ok(), Some(1));
    assert_eq!(target_user_parsed("x", Err("m".to_string()), Ok(2)).ok(), Some(2));
}

#[test]
fn played_answers() {
    let mut r = Rikka::new();
    r.register_prefix("r.");
    r.register_command(&Played).unwrap();
    assert_eq!(Played.name(), "played");
    assert_eq!(Played.receive(&r, &message("r.played")).ok(), Some(7));
    assert_eq!(Played.receive(&r, &message("r.played <@99> extra")).ok(), Some(99));
    assert!(matches!(Played.receive(&r, &message("played")), Err(CommandError::NoMatch)));
    assert_eq!(Played::no_entries_text(&user()), "No entries found for rikka#0042");
    let games = vec![GameEntry { name: "chess".to_string(), dur: 60 }];
    let e = Played::embed(&user(), None, &games, "a day ago", "now");
    assert_eq!(e.title, "rikka");
    assert_eq!(e.description, "*First seen a day ago, last updated now*");
    assert_eq!(e.thumbnail, "https://cdn.discordapp.com/avatars/7/beef.png");
    assert_eq!(e.field_name, "Games");
    assert_eq!(e.games, "\u{e2}\u{20ac}\u{a2} **chess** 1m\n");
    assert_eq!(e.color, 0x79c879);
    let help = generate_help(&r);
    assert_eq!(help.fields.len(), 1);
    assert_eq!(help.fields[0].name, "Fun");
    assert_eq!(help.fields[0].value, "`played`");
    assert_eq!(r.helps()[0].section, HelpSection::Fun);
}
