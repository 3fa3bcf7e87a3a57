use rikka::commands::general::Ping;
use rikka::commands::general::Say;
use rikka::commands::help::Help;
use rikka::error::ConfigError;
use rikka::help::generate_help;
use rikka::help::CommandHelp;
use rikka::help::HelpSection;
use rikka::model::Event;
use rikka::model::Message;
use rikka::model::User;
use rikka::parse::matches_command;
use rikka::rikka::leak;
use rikka::rikka::reply_for;
use rikka::rikka::Action;
use rikka::rikka::Lifecycle;
use rikka::rikka::Signal;
use rikka::rikka::Reply;
use rikka::Command;
use rikka::CommandError;
use rikka::Rikka;

fn user(id: u64, bot: bool) -> User {
    User { id, name: "someone".to_string(), discriminator: "0007".to_string(), avatar: None, bot }
}

fn message(content: &str, bot: bool) -> Message {
    Message {
        id: 100,
        channel_id: 10,
        guild_id: Some(1),
        author: user(5, bot),
        content: content.to_string(),
        attachments: Vec::new(),
    }
}

fn bot_with_commands() -> Rikka {
    let mut r = Rikka::new();
    r.register_prefix("r.");
    r.register_command(&Ping).unwrap();
    r.register_command(&Help).unwrap();
    r.register_command(&Say).unwrap();
    r
}

#[test]
fn duplicate_word_is_refused_and_changes_nothing() {
    let mut r = bot_with_commands();
    let before = r.names().clone();
    let res = r.register_command(&Ping);
    assert!(matches!(res, Err(ConfigError::DuplicateAlias)));
    assert_eq!(r.names(), &before);
    assert_eq!(r.commands().len(), 3);
}

#[test]
fn alias_clash_is_refused() {
    let mut r = bot_with_commands();
    let mut h = CommandHelp::named("pong");
    h.aliases = &["say"];
    assert!(matches!(r.register("pong", vec![h]), Err(ConfigError::DuplicateAlias)));
    let mut twice = CommandHelp::named("a");
    twice.aliases = &["a"];
    assert!(matches!(r.register("a", vec![twice]), Err(ConfigError::DuplicateAlias)));
    let mut fine = CommandHelp::named("b");
    fine.aliases = &["c"];
    assert!(r.register("b", vec![fine]).is_ok());
    assert_eq!(r.names(), &vec!["ping", "help", "say", "b", "c"]);
    assert_eq!(r.owners(), &vec![0, 1, 2, 3, 3]);
    assert_eq!(r.commands(), &vec!["ping", "help", "say", "b"]);
}

#[test]
fn text_without_prefix_does_not_match() {
    let r = bot_with_commands();
    let res = matches_command(&r, &message("ping", false), &["ping"]);
    assert!(matches!(res, Err(CommandError::NoMatch)));
    let res = matches_command(&r, &message("x.ping", false), &["ping"]);
    assert!(matches!(res, Err(CommandError::NoMatch)));
}

#[test]
fn bot_author_never_matches() {
    let r = bot_with_commands();
    let res = matches_command(&r, &message("r.ping", true), &["ping"]);
    assert!(matches!(res, Err(CommandError::NoMatch)));
}

#[test]
fn match_gives_the_argument_text() {
    let r = bot_with_commands();
    let res = matches_command(&r, &message("r.say  hello  world ", false), &["say"]);
    assert_eq!(res.ok(), Some("hello  world".to_string()));
    let res = matches_command(&r, &message("r.say hello", false), &["ping"]);
    assert!(matches!(res, Err(CommandError::NoMatch)));
}

#[test]
fn matching_is_case_sensitive() {
    let r = bot_with_commands();
    let res = matches_command(&r, &message("r.PING", false), &["ping"]);
    assert!(matches!(res, Err(CommandError::NoMatch)));
    let res = matches_command(&r, &message("r.pingping", false), &["ping"]);
    assert!(matches!(res, Err(CommandError::NoMatch)));
}

#[test]
fn say_repeats_its_arguments() {
    let r = bot_with_commands();
    let res = Say.receive(&r, &message("r.say hi there", false));
    assert_eq!(res.ok(), Some(Some("you said \"hi there\"".to_string())));
}

#[test]
fn ping_texts() {
    assert_eq!(Ping::pong(), "Pong!");
    assert_eq!(Ping::pong_after(42), "Pong! - `42ms`");
    assert_eq!(Ping::pong_after(0), "Pong! - `0ms`");
    assert_eq!(Ping::pong_after(-7), "Pong! - `-7ms`");
    assert_eq!(Ping::pong_after(i64::MIN), "Pong! - `-9223372036854775808ms`");
    let r = bot_with_commands();
    assert!(Ping.receive(&r, &message("r.ping", false)).is_ok());
    assert!(Ping.receive(&r, &message("r.say", false)).is_err());
}

#[test]
fn dispatch_sends_a_message_to_its_owner_and_raw_to_all() {
    let r = bot_with_commands();
    let plan = r.dispatch(&Event::MessageCreate(message("r.say hi", false)));
    assert_eq!(
        plan,
        vec![Action::Receive(2), Action::ReceiveRaw(0), Action::ReceiveRaw(1), Action::ReceiveRaw(2)]
    );
    let plan = r.dispatch(&Event::MessageCreate(message("hello", false)));
    assert_eq!(plan, vec![Action::ReceiveRaw(0), Action::ReceiveRaw(1), Action::ReceiveRaw(2)]);
    let plan = r.dispatch(&Event::MessageCreate(message("r.say hi", true)));
    assert_eq!(plan, vec![Action::ReceiveRaw(0), Action::ReceiveRaw(1), Action::ReceiveRaw(2)]);
}

#[test]
fn dispatch_of_other_events() {
    let r = bot_with_commands();
    let plan = r.dispatch(&Event::GuildCreate(9));
    assert_eq!(
        plan,
        vec![
            Action::RequestMembers(9),
            Action::ReceiveRaw(0),
            Action::ReceiveRaw(1),
            Action::ReceiveRaw(2)
        ]
    );
    let plan = r.dispatch(&Event::Other);
    assert_eq!(plan, vec![Action::ReceiveRaw(0), Action::ReceiveRaw(1), Action::ReceiveRaw(2)]);
    assert_eq!(Rikka::new().dispatch(&Event::Other), Vec::new());
}

#[test]
fn replies() {
    assert!(matches!(reply_for(&Ok(None)), Reply::Nothing));
    assert!(matches!(reply_for(&Err(CommandError::NoMatch)), Reply::Nothing));
    match reply_for(&Ok(Some("hi".to_string()))) {
        Reply::Send(t) => assert_eq!(t, "hi"),
        _ => panic!("expected a reply"),
    }
    match reply_for(&Err(CommandError::Generic("boom".to_string()))) {
        Reply::Report(t) => assert_eq!(t, "```An error occured: boom```"),
        _ => panic!("expected a report"),
    }
}

#[test]
fn error_texts() {
    assert_eq!(CommandError::NoMatch.message(), "command doesn't match");
    let e = CommandError::Generic("inner".to_string()).context("outer");
    assert_eq!(e.message(), "outer: inner");
}

#[test]
fn help_overview_lists_commands_by_section() {
    let mut r = bot_with_commands();
    let mut h = CommandHelp::named("log");
    h.aliases = &["logs"];
    h.section = HelpSection::Moderation;
    r.register("logs", vec![h]).unwrap();
    let embed = generate_help(&r);
    assert_eq!(embed.description, "Type `r.help [command]` for detailed usage information");
    assert_eq!(embed.fields.len(), 2);
    assert_eq!(embed.fields[0].name, "General");
    assert_eq!(embed.fields[0].value, "`ping`, `help`, `say`");
    assert_eq!(embed.fields[1].name, "Moderation");
    assert_eq!(embed.fields[1].value, "`log`");
    assert_eq!(embed.title, "Join our server for more information");
    let shown = Help.receive(&r, &message("r.help", false)).ok().unwrap();
    assert_eq!(shown.fields.len(), 2);
    assert!(Help.receive(&r, &message("help", false)).is_err());
}

#[test]
fn help_defaults() {
    let h = CommandHelp::default();
    assert_eq!(h.name, "");
    assert!(h.aliases.is_empty());
    assert_eq!(h.section, HelpSection::General);
    assert_eq!(HelpSection::default(), HelpSection::General);
    assert_eq!(HelpSection::Owner.as_ref(), "Owner");
    assert_eq!(HelpSection::iter().len(), 5);
}

#[test]
fn last_prefix_is_shown_and_all_prefixes_match() {
    let mut r = bot_with_commands();
    r.register_prefix("rt.");
    assert_eq!(r.prefix(), "rt.");
    assert_eq!(r.prefixes(), &vec!["r.".to_string(), "rt.".to_string()]);
    r.register_prefix("r.");
    assert_eq!(r.prefix(), "r.");
    assert_eq!(r.prefixes().len(), 2);
    assert!(matches_command(&r, &message("r.ping", false), &["ping"]).is_ok());
    assert!(matches_command(&r, &message("rt.ping", false), &["ping"]).is_ok());
}

#[test]
fn leak_keeps_the_value() {
    let kept: &'static u64 = leak(17u64);
    assert_eq!(*kept, 17);
}

#[test]
fn lifecycle_moves_forward_only() {
    let s = Lifecycle::Idle;
    assert_eq!(s.step(Signal::Stream), Lifecycle::Idle);
    let s = s.step(Signal::Connect);
    assert_eq!(s, Lifecycle::Connected);
    assert_eq!(s.step(Signal::Fault), Lifecycle::Connected);
    let s = s.step(Signal::Stream);
    assert_eq!(s, Lifecycle::Streaming);
    assert!(s.accepts_events());
    assert_eq!(s.step(Signal::Fault), Lifecycle::Faulted);
    let s = s.step(Signal::Shutdown);
    assert_eq!(s, Lifecycle::ShuttingDown);
    assert!(!s.accepts_events());
    assert_eq!(s.step(Signal::Connect), Lifecycle::ShuttingDown);
    assert_eq!(s.step(Signal::Fault), Lifecycle::ShuttingDown);
    assert_eq!(Lifecycle::Faulted.step(Signal::Stream), Lifecycle::Faulted);
}

#[test]
fn events_are_taken_only_while_streaming() {
    let r = bot_with_commands();
    let ev = Event::MessageCreate(message("r.say hi", false));
    assert_eq!(r.handle(Lifecycle::Streaming, &ev), r.dispatch(&ev));
    assert_eq!(r.handle(Lifecycle::Streaming, &ev).len(), 4);
    assert!(r.handle(Lifecycle::Idle, &ev).is_empty());
    assert!(r.handle(Lifecycle::Connected, &ev).is_empty());
    assert!(r.handle(Lifecycle::ShuttingDown, &ev).is_empty());
    assert!(r.handle(Lifecycle::Faulted, &ev).is_empty());
}

#[test]
fn command_names_and_words() {
    assert_eq!(Ping.name(), "ping");
    assert_eq!(Say.name(), "say");
    assert_eq!(Help.name(), "help");
    let helps = Ping.help(None);
    assert_eq!(helps.len(), 1);
    assert_eq!(helps[0].name, "ping");
    assert!(helps[0].aliases.is_empty());
}
