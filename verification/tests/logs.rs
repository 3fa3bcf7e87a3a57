use rikka::commands::logs::cmd::avatar_with;
use rikka::commands::logs::cmd::bucket;
use rikka::commands::logs::cmd::channel_and_guild;
use rikka::commands::logs::cmd::enable_channel;
use rikka::commands::logs::cmd::enable_channel_parsed;
use rikka::commands::logs::cmd::fmt_attachment_key;
use rikka::commands::logs::cmd::fmt_attachment_url;
use rikka::commands::logs::cmd::fmt_guild_icon;
use rikka::commands::logs::cmd::fmt_user_avatar;
use rikka::commands::logs::cmd::id_to_timestamp;
use rikka::commands::logs::cmd::lookup_guild;
use rikka::commands::logs::cmd::raw_lookup;
use rikka::commands::logs::cmd::route;
use rikka::commands::logs::cmd::ChannelInfo;
use rikka::commands::logs::cmd::GuildInfo;
use rikka::commands::logs::cmd::Logs;
use rikka::commands::logs::cmd::LogsRequest;
use rikka::commands::logs::cmd::OWNER;
use rikka::commands::logs::encrypt::apply_keystream;
use rikka::commands::logs::encrypt::img_hash_secret;
use rikka::commands::logs::encrypt::load_secret;
use rikka::commands::logs::encrypt::msg_enc_key;
use rikka::commands::logs::encrypt::seal;
use rikka::commands::logs::encrypt::secret_from_bytes;
use rikka::commands::logs::encrypt::split_sealed;
use rikka::commands::logs::store::enable_messages;
use rikka::commands::logs::store::fmt_messages_enabled_key;
use rikka::commands::logs::store::fmt_msg_key;
use rikka::commands::logs::store::messages_enabled;
use rikka::commands::logs::store::subspace_prefix;
use rikka::commands::logs::store::write_msg;
use rikka::commands::logs::store::LogKey;
use rikka::commands::logs::store::StoreWrite;
use rikka::commands::logs::store::Subspace;
use rikka::error::ConfigError;
use rikka::model::Attachment;
use rikka::model::Event;
use rikka::model::Message;
use rikka::model::MessageDelete;
use rikka::model::MessageUpdate;
use rikka::model::User;
use rikka::parse::arguments;
use rikka::text::to_decimal;
use rikka::Command;
use rikka::CommandError;
use rikka::HelpSection;
use rikka::Rikka;
use std::collections::HashMap;

const SECRET_HEX: &str = "000102030405060708090a0b0c0d0e0f101112131415161718191a1b1c1d1e1f";

fn logs() -> Logs {
    Logs::new(SECRET_HEX).unwrap()
}

fn author() -> User {
    User {
        id: 7,
        name: "rikka".to_string(),
        discriminator: "0042".to_string(),
        avatar: None,
        bot: false,
    }
}

fn message(id: u64, guild: Option<u64>, content: &str) -> Message {
    Message {
        id,
        channel_id: 11,
        guild_id: guild,
        author: author(),
        content: content.to_string(),
        attachments: Vec::new(),
    }
}

fn guild() -> GuildInfo {
    GuildInfo { id: 1, name: "home".to_string(), icon: Some("a_cafe".to_string()) }
}

struct Store {
    entries: HashMap<LogKey, Vec<u8>>,
    writes: usize,
    snapshots: HashMap<u64, Message>,
}

fn empty_store() -> Store {
    Store { entries: HashMap::new(), writes: 0, snapshots: HashMap::new() }
}

fn apply(store: &mut Store, w: StoreWrite) {
    store.entries.insert(w.key, w.value);
    store.writes += 1;
}

fn enabled_for(store: &Store, ev: &Event) -> Option<u64> {
    let key = raw_lookup(ev)?;
    messages_enabled(store.entries.get(&key).map(|v| v.as_slice()))
}

fn create(store: &mut Store, l: &Logs, msg: &Message) {
    let ev = Event::MessageCreate(msg.clone());
    let enabled = enabled_for(store, &ev);
    if l.store_message(enabled, msg).is_some() {
        apply(store, write_msg(msg.id, msg.content.clone().into_bytes()));
        store.snapshots.insert(msg.id, msg.clone());
    }
}

fn setup() -> (Store, Logs) {
    let l = logs();
    let mut store = empty_store();
    let ch = ChannelInfo { id: 10, guild_id: Some(1), name: "audit".to_string() };
    let (w, reply) = l.handle_messages_enable_command(10, Some(&ch), Some(1)).ok().unwrap();
    assert_eq!(reply, "Enabled message logs in audit");
    apply(&mut store, w);
    create(&mut store, &l, &message(100, Some(1), "hello"));
    (store, l)
}

#[test]
fn update_is_logged_only_when_the_text_changed() {
    let (store, l) = setup();
    assert_eq!(store.entries.get(&LogKey::message(100)), Some(&b"hello".to_vec()));
    let same = MessageUpdate { id: 100, guild_id: Some(1), content: Some("hello".to_string()) };
    let enabled = enabled_for(&store, &Event::MessageUpdate(same.clone()));
    assert_eq!(enabled, Some(10));
    assert!(l.log_update(enabled, store.snapshots.get(&100), &same).is_none());
    let changed = MessageUpdate { id: 100, guild_id: Some(1), content: Some("world".to_string()) };
    let (cid, text) = l.log_update(enabled, store.snapshots.get(&100), &changed).unwrap();
    assert_eq!(cid, 10);
    assert_eq!(text, "world");
    let embed = l.update_embed(&store.snapshots[&100], &text, cid, &guild(), Some(42));
    assert_eq!(embed.title, "Message Update");
    assert_eq!(embed.fields.len(), 4);
    assert_eq!(embed.fields[0].name, "User");
    assert_eq!(embed.fields[0].value, "<@7> rikka#0042 7");
    assert_eq!(embed.fields[1].value, "<#10> 10");
    assert_eq!(embed.fields[2].name, "Old content");
    assert_eq!(embed.fields[2].value, "hello");
    assert_eq!(embed.fields[3].name, "New content");
    assert_eq!(embed.fields[3].value, "world");
    assert_eq!(embed.footer_text, "home");
    assert_eq!(embed.footer_icon, "https://cdn.discordapp.com/icons/1/a_cafe.gif");
    assert_eq!(embed.thumbnail, "https://cdn.discordapp.com/avatars/2.png");
}

#[test]
fn second_edit_is_compared_with_the_first_text() {
    let (store, l) = setup();
    let back = MessageUpdate { id: 100, guild_id: Some(1), content: Some("hello".to_string()) };
    let first = MessageUpdate { id: 100, guild_id: Some(1), content: Some("world".to_string()) };
    assert!(l.log_update(Some(10), store.snapshots.get(&100), &first).is_some());
    assert!(l.log_update(Some(10), store.snapshots.get(&100), &back).is_none());
    assert_eq!(store.writes, 2);
}

#[test]
fn edit_without_text_counts_as_empty() {
    let (store, l) = setup();
    let bare = MessageUpdate { id: 100, guild_id: Some(1), content: None };
    let (_, text) = l.log_update(Some(10), store.snapshots.get(&100), &bare).unwrap();
    assert_eq!(text, "");
    let unknown = MessageUpdate { id: 101, guild_id: Some(1), content: Some("x".to_string()) };
    assert!(l.log_update(Some(10), store.snapshots.get(&101), &unknown).is_none());
}

#[test]
fn deletion_is_logged_with_the_stored_text() {
    let (store, l) = setup();
    let del = MessageDelete { id: 100, guild_id: Some(1) };
    let enabled = enabled_for(&store, &Event::MessageDelete(del.clone()));
    let (cid, urls) = l.log_delete(enabled, store.snapshots.get(&100), &del).unwrap();
    assert_eq!(cid, 10);
    assert!(urls.is_empty());
    let embed = l.delete_embed(&store.snapshots[&100], cid, &guild(), None);
    assert_eq!(embed.title, "Message Deleted");
    assert_eq!(embed.fields.len(), 3);
    assert_eq!(embed.fields[2].name, "Deleted content");
    assert_eq!(embed.fields[2].value, "hello");
    let empty = message(102, Some(1), "");
    assert_eq!(l.delete_embed(&empty, cid, &guild(), None).fields.len(), 2);
}

#[test]
fn deletion_without_guild_is_not_logged() {
    let (store, l) = setup();
    let del = MessageDelete { id: 100, guild_id: None };
    assert!(raw_lookup(&Event::MessageDelete(del.clone())).is_none());
    assert!(l.log_delete(Some(10), store.snapshots.get(&100), &del).is_none());
}

#[test]
fn guild_without_logging_writes_and_logs_nothing() {
    let (mut store, l) = setup();
    let writes = store.writes;
    let msg = message(200, Some(2), "quiet");
    create(&mut store, &l, &msg);
    assert_eq!(store.writes, writes);
    assert!(store.entries.get(&LogKey::message(200)).is_none());
    let upd = MessageUpdate { id: 200, guild_id: Some(2), content: Some("loud".to_string()) };
    let enabled = enabled_for(&store, &Event::MessageUpdate(upd.clone()));
    assert_eq!(enabled, None);
    assert!(l.log_update(enabled, Some(&msg), &upd).is_none());
    let del = MessageDelete { id: 200, guild_id: Some(2) };
    let enabled = enabled_for(&store, &Event::MessageDelete(del.clone()));
    assert!(l.log_delete(enabled, Some(&msg), &del).is_none());
    assert!(raw_lookup(&Event::Other).is_none());
    assert!(raw_lookup(&Event::GuildCreate(2)).is_none());
}

#[test]
fn enable_is_an_upsert() {
    let mut store = empty_store();
    let key = LogKey::config(1);
    assert_eq!(messages_enabled(store.entries.get(&key).map(|v| v.as_slice())), None);
    apply(&mut store, enable_messages(1, 10));
    assert_eq!(messages_enabled(store.entries.get(&key).map(|v| v.as_slice())), Some(10));
    apply(&mut store, enable_messages(1, 10));
    assert_eq!(store.entries.len(), 1);
    apply(&mut store, enable_messages(1, 12));
    assert_eq!(messages_enabled(store.entries.get(&key).map(|v| v.as_slice())), Some(12));
    let other = LogKey::config(2);
    assert_eq!(messages_enabled(store.entries.get(&other).map(|v| v.as_slice())), None);
}

#[test]
fn storing_a_snapshot_twice_is_storing_it_once() {
    let mut once = empty_store();
    apply(&mut once, write_msg(100, b"hello".to_vec()));
    let mut twice = empty_store();
    apply(&mut twice, write_msg(100, b"hello".to_vec()));
    apply(&mut twice, write_msg(100, b"hello".to_vec()));
    assert_eq!(once.entries, twice.entries);
}

#[test]
fn config_value_is_eight_bytes_lowest_first() {
    let w = enable_messages(1, 0x0102030405060708);
    assert_eq!(w.value, vec![8, 7, 6, 5, 4, 3, 2, 1]);
    assert_eq!(w.key, LogKey { subspace: Subspace::MessagesEnabled, id: 1 });
    assert_eq!(messages_enabled(Some(&[10, 0, 0, 0, 0, 0, 0, 0])), Some(10));
    assert_eq!(messages_enabled(Some(&[10, 0, 0, 0, 0, 0, 0, 0, 99])), Some(10));
    assert_eq!(messages_enabled(Some(&[10, 0, 0])), None);
    assert_eq!(messages_enabled(None), None);
}

#[test]
fn keys_of_the_two_ranges_differ() {
    assert_ne!(LogKey::config(5), LogKey::message(5));
    assert_eq!(LogKey::message(5), LogKey { subspace: Subspace::MessageLog, id: 5 });
    assert_eq!(Subspace::MessagesEnabled.id(), 1);
    assert_eq!(Subspace::MessageLog.id(), 2);
    assert_eq!(subspace_prefix(), "logs");
    assert_eq!(bucket(), "rikka-files");
}

#[test]
fn attachments_are_copied_before_the_snapshot() {
    let l = logs();
    let mut msg = message(100, Some(1), "hello");
    msg.attachments.push(Attachment { id: 5, proxy_url: "https://proxy/a".to_string() });
    msg.attachments.push(Attachment { id: 6, proxy_url: "https://proxy/b".to_string() });
    let ups = l.store_message(Some(10), &msg).unwrap();
    assert_eq!(ups.len(), 2);
    assert_eq!(ups[0].url, "https://proxy/a");
    assert_eq!(ups[0].key, fmt_attachment_key(&l.secret, 100, 5));
    assert_eq!(ups[1].url, "https://proxy/b");
    assert_eq!(ups[1].key, fmt_attachment_key(&l.secret, 100, 6));
    assert!(l.store_message(None, &msg).is_none());
    let del = MessageDelete { id: 100, guild_id: Some(1) };
    let (_, urls) = l.log_delete(Some(10), Some(&msg), &del).unwrap();
    assert_eq!(urls.len(), 2);
    assert_eq!(urls[0], fmt_attachment_url(&l.secret, 100, 5));
    assert_eq!(urls[1], format!("https://files.rikka.xyz/{}", ups[1].key));
}

#[test]
fn attachment_key_is_the_keyed_hash_in_hex() {
    let key = load_secret(SECRET_HEX).unwrap();
    let mut input = Vec::new();
    input.extend_from_slice(&100u64.to_le_bytes());
    input.extend_from_slice(&5u64.to_le_bytes());
    let expected = blake3::keyed_hash(&key, &input);
    let text = img_hash_secret(&key, 100, 5);
    assert_eq!(text, expected.to_hex().to_string());
    assert_eq!(text.len(), 64);
    assert!(text.chars().all(|c| c.is_ascii_digit() || ('a'..='f').contains(&c)));
    assert_eq!(text, img_hash_secret(&key, 100, 5));
    assert_ne!(text, img_hash_secret(&key, 5, 100));
    let other = load_secret(&"11".repeat(32)).unwrap();
    assert_ne!(text, img_hash_secret(&other, 100, 5));
    let mut streamed = blake3::Hasher::new_keyed(&key);
    streamed.update(&100u64.to_le_bytes());
    streamed.update(&5u64.to_le_bytes());
    assert_eq!(text, streamed.finalize().to_hex().to_string());
}

#[test]
fn message_key_is_the_keyed_hash_of_the_id() {
    let key = load_secret(SECRET_HEX).unwrap();
    let expected = blake3::keyed_hash(&key, &100u64.to_le_bytes());
    assert_eq!(&msg_enc_key(&key, 100), expected.as_bytes());
    assert_ne!(msg_enc_key(&key, 100), msg_enc_key(&key, 101));
}

#[test]
fn secret_must_be_hex_for_32_bytes() {
    let key = load_secret(SECRET_HEX).unwrap();
    assert_eq!(key[0], 0);
    assert_eq!(key[31], 31);
    assert_eq!(load_secret(&SECRET_HEX.to_uppercase()).unwrap(), key);
    assert!(matches!(load_secret("zz"), Err(ConfigError::MalformedSecret)));
    assert!(matches!(load_secret("abc"), Err(ConfigError::MalformedSecret)));
    assert!(matches!(load_secret("abcd"), Err(ConfigError::SecretLength)));
    assert!(matches!(load_secret(""), Err(ConfigError::SecretLength)));
    assert!(matches!(secret_from_bytes(None), Err(ConfigError::MalformedSecret)));
    assert!(matches!(secret_from_bytes(Some(vec![1; 33])), Err(ConfigError::SecretLength)));
    assert_eq!(secret_from_bytes(Some(vec![9; 32])).unwrap(), [9u8; 32]);
    assert!(Logs::new("00").is_err());
}

#[test]
fn sealing_round_trip() {
    let nonce = [7u8; 16];
    let plain = b"a snapshot".to_vec();
    let stream: Vec<u8> = (0..32u8).map(|i| i.wrapping_mul(37).wrapping_add(11)).collect();
    let blob = seal(&nonce, &plain, &stream).unwrap();
    assert_eq!(blob.len(), 16 + plain.len());
    assert_ne!(&blob[16..], plain.as_slice());
    let (n, body) = split_sealed(&blob).unwrap();
    assert_eq!(n, nonce.to_vec());
    assert_eq!(apply_keystream(&body, &stream).unwrap(), plain);
    assert_eq!(apply_keystream(&[0x0f, 0xf0], &[0xff, 0xff]).unwrap(), vec![0xf0, 0x0f]);
    assert!(apply_keystream(&[1, 2, 3], &[1, 2]).is_none());
    assert!(seal(&nonce, &plain, &[1, 2]).is_none());
    assert!(split_sealed(&[0u8; 15]).is_none());
    assert_eq!(split_sealed(&[0u8; 16]).unwrap().1, Vec::<u8>::new());
}

#[test]
fn routing_of_the_text_command() {
    let toks = |s: &str| arguments(s);
    match route(1, &toks("")) {
        LogsRequest::Reply(t) => assert_eq!(t, "help coming soon"),
        _ => panic!("expected a reply"),
    }
    match route(1, &toks("help")) {
        LogsRequest::Reply(t) => assert_eq!(t, "help coming soon"),
        _ => panic!("expected a reply"),
    }
    match route(1, &toks("what")) {
        LogsRequest::Reply(t) => {
            assert_eq!(t, "Unknown option. Expected one of [\"message\", \"help\"]")
        }
        _ => panic!("expected a reply"),
    }
    match route(1, &toks("message enable")) {
        LogsRequest::Reply(t) => assert_eq!(t, "Only owners may use this command for now :)"),
        _ => panic!("expected a reply"),
    }
    assert!(matches!(route(OWNER, &toks("messages enable")), LogsRequest::Enable(None)));
    match route(OWNER, &toks("message enable <#10> more")) {
        LogsRequest::Enable(Some(t)) => assert_eq!(t, "<#10>"),
        _ => panic!("expected enable"),
    }
    assert!(matches!(route(OWNER, &toks("message disable")), LogsRequest::Silent));
    match route(OWNER, &toks("message")) {
        LogsRequest::Reply(t) => {
            assert_eq!(t, "Unknown option. Expected one of [\"enable\", \"disable\"]")
        }
        _ => panic!("expected a reply"),
    }
}

#[test]
fn arguments_are_split_on_blanks_and_quotes() {
    assert_eq!(arguments("this \"is a longer argument\" here"), vec!["this", "is a longer argument", "here"]);
    assert_eq!(arguments(""), Vec::<String>::new());
}

#[test]
fn receive_routes_a_matching_message() {
    let l = logs();
    let mut r = Rikka::new();
    r.register_prefix("r.");
    r.register_command(&l).unwrap();
    assert_eq!(r.names(), &vec!["log", "logs"]);
    assert_eq!(r.helps()[0].section, HelpSection::Moderation);
    assert_eq!(l.name(), "logs");
    let mut msg = message(1, Some(1), "r.logs message enable <#10>");
    msg.author.id = OWNER;
    match l.receive(&r, &msg).ok().unwrap() {
        LogsRequest::Enable(Some(t)) => assert_eq!(t, "<#10>"),
        _ => panic!("expected enable"),
    }
    msg.content = "r.log help".to_string();
    assert!(matches!(l.receive(&r, &msg), Ok(LogsRequest::Reply(_))));
    msg.content = "r.ping".to_string();
    assert!(matches!(l.receive(&r, &msg), Err(CommandError::NoMatch)));
}

#[test]
fn channel_to_enable() {
    assert_eq!(enable_channel(None, 11).ok(), Some(11));
    assert_eq!(enable_channel(Some("<#10>"), 11).ok(), Some(10));
    match enable_channel(Some("10"), 11) {
        Err(e) => assert!(e.message().starts_with("parse channel id: ")),
        Ok(_) => panic!("a bare number is no mention"),
    }
    assert_eq!(enable_channel_parsed(Some(Ok(3)), 11).ok(), Some(3));
    match enable_channel_parsed(Some(Err("bad".to_string())), 11) {
        Err(e) => assert_eq!(e.message(), "parse channel id: bad"),
        Ok(_) => panic!("expected an error"),
    }
}

#[test]
fn enable_needs_a_known_channel_and_a_guild() {
    let l = logs();
    let ch = ChannelInfo { id: 10, guild_id: Some(1), name: "audit".to_string() };
    match l.handle_messages_enable_command(10, None, Some(1)) {
        Err(e) => assert_eq!(e.message(), "channel not found in cache: 10"),
        Ok(_) => panic!("expected an error"),
    }
    match l.handle_messages_enable_command(10, Some(&ch), None) {
        Err(e) => assert_eq!(e.message(), "message didn't have guild id"),
        Ok(_) => panic!("expected an error"),
    }
}

#[test]
fn channel_and_guild_lookups() {
    let ch = ChannelInfo { id: 10, guild_id: Some(1), name: "audit".to_string() };
    let lost = ChannelInfo { id: 10, guild_id: None, name: "audit".to_string() };
    match channel_and_guild(10, None, Some(guild())) {
        Err(e) => assert_eq!(e.message(), "channel not found in cache: 10"),
        Ok(_) => panic!("expected an error"),
    }
    match channel_and_guild(10, Some(lost), Some(guild())) {
        Err(e) => assert_eq!(e.message(), "channel doesn't contain guild id: 10"),
        Ok(_) => panic!("expected an error"),
    }
    match channel_and_guild(10, Some(ch.clone()), None) {
        Err(e) => assert_eq!(e.message(), "guild not found in cache: 1"),
        Ok(_) => panic!("expected an error"),
    }
    let (c, g) = channel_and_guild(10, Some(ch), Some(guild())).ok().unwrap();
    assert_eq!(c.id, 10);
    assert_eq!(g.name, "home");
}

#[test]
fn picture_addresses() {
    let mut u = author();
    assert_eq!(fmt_user_avatar(&u), "https://cdn.discordapp.com/avatars/2.png");
    u.discriminator = "none".to_string();
    assert_eq!(fmt_user_avatar(&u), "https://cdn.discordapp.com/avatars/0.png");
    u.avatar = Some("a_beef".to_string());
    assert_eq!(fmt_user_avatar(&u), "https://cdn.discordapp.com/avatars/7/a_beef.png");
    assert_eq!(avatar_with(&u, Some(3)), "https://cdn.discordapp.com/avatars/7/a_beef.png");
    let mut g = guild();
    assert_eq!(fmt_guild_icon(&g), "https://cdn.discordapp.com/icons/1/a_cafe.gif");
    g.icon = Some("cafe".to_string());
    assert_eq!(fmt_guild_icon(&g), "https://cdn.discordapp.com/icons/1/cafe.png");
    g.icon = None;
    assert_eq!(fmt_guild_icon(&g), "https://cdn.discordapp.com/icons/1/.png");
}

#[test]
fn timestamps_of_ids() {
    assert_eq!(id_to_timestamp(0), (1420070400, 0));
    assert_eq!(id_to_timestamp(175928847299117063), (1462015105, 796000000));
    assert_eq!(id_to_timestamp(u64::MAX).0, (((u64::MAX >> 22) + 1420070400000) / 1000) as i64);
    assert_eq!(lookup_guild(None), 0);
    assert_eq!(lookup_guild(Some(4)), 4);
}

#[test]
fn decimal_texts() {
    assert_eq!(to_decimal(0), "0");
    assert_eq!(to_decimal(9), "9");
    assert_eq!(to_decimal(10), "10");
    assert_eq!(to_decimal(105484726235607040), "105484726235607040");
    assert_eq!(to_decimal(u64::MAX), "18446744073709551615");
}

#[test]
fn keys_are_tuples_of_name_range_and_id() {
    let name = [0x01, b'l', b'o', b'g', b's', 0x00];
    let mut expected = name.to_vec();
    expected.extend_from_slice(&[0x15, 0x01, 0x15, 0x0a]);
    assert_eq!(fmt_messages_enabled_key(10), expected);
    let mut expected = name.to_vec();
    expected.extend_from_slice(&[0x15, 0x02, 0x16, 0x01, 0x00]);
    assert_eq!(fmt_msg_key(256), expected);
    let mut expected = name.to_vec();
    expected.extend_from_slice(&[0x15, 0x02, 0x14]);
    assert_eq!(fmt_msg_key(0), expected);
    let mut expected = name.to_vec();
    expected.extend_from_slice(&[0x15, 0x01, 0x1c, 0xff, 0xff, 0xff, 0xff, 0xff, 0xff, 0xff, 0xff]);
    assert_eq!(fmt_messages_enabled_key(u64::MAX), expected);
    assert_eq!(LogKey::config(10).bytes(), fmt_messages_enabled_key(10));
    assert_ne!(fmt_messages_enabled_key(10), fmt_msg_key(10));
    assert_ne!(fmt_msg_key(1), fmt_msg_key(256));
}

#[test]
fn snapshot_is_written_only_after_every_copy() {
    let l = logs();
    let w = l.finish_store(100, &vec![true, true], b"hello".to_vec()).unwrap();
    assert_eq!(w.key, LogKey::message(100));
    assert_eq!(w.value, b"hello".to_vec());
    assert!(l.finish_store(100, &Vec::new(), b"hello".to_vec()).is_some());
    assert!(l.finish_store(100, &vec![true, false], b"hello".to_vec()).is_none());
    assert!(l.finish_store(100, &vec![false], b"hello".to_vec()).is_none());
}

#[test]
fn log_command_describes_itself() {
    let l = logs();
    assert_eq!(l.name(), "logs");
    let helps = l.help(None);
    assert_eq!(helps.len(), 1);
    assert_eq!(helps[0].name, "log");
    assert_eq!(helps[0].aliases, &["logs"]);
    assert_eq!(helps[0].section, HelpSection::Moderation);
}
