use crate::commands::logs::encrypt::hex_decoded;
use crate::commands::logs::encrypt::hex_lower;
use crate::commands::logs::encrypt::img_hash_secret;
use crate::commands::logs::encrypt::keyed_hash;
use crate::commands::logs::encrypt::attachment_input;
use crate::commands::logs::encrypt::load_secret;
use crate::commands::logs::store::config_key;
use crate::commands::logs::store::enable_messages;
use crate::commands::logs::store::message_key;
use crate::commands::logs::store::write_msg;
use crate::commands::logs::store::LogKey;
use crate::commands::logs::store::StoreWrite;
use crate::error::CommandError;
use crate::error::ConfigError;
use crate::help::fields_view;
use crate::help::CommandHelp;
use crate::help::HelpField;
use crate::help::HelpSection;
use crate::model::Event;
use crate::model::Message;
use crate::model::MessageDelete;
use crate::model::MessageUpdate;
use crate::model::User;
use crate::parse::argument_tokens;
use crate::parse::arguments;
use crate::parse::match_outcome;
use crate::parse::matches_command;
use crate::parse::parsed_command;
use crate::rikka::Command;
use crate::rikka::Rikka;
use crate::text::begins_with;
use crate::text::decimal;
use crate::text::starts_with;
use crate::text::str_eq;
use crate::text::strings;
use crate::text::strs;
use crate::text::to_decimal;
use twilight_mention::ParseMention;
use twilight_model::id::marker::ChannelMarker;
use twilight_model::id::Id;
use vstd::prelude::*;
use vstd::string::StringExecFns;

verus! {

/// The id of the channel that `ParseMention::parse` of twilight_mention reads
/// from a channel mention, or the text of its error.
pub uninterp spec fn channel_mention(text: Seq<char>) -> Result<u64, Seq<char>>;

/// The number that `str::parse::<u16>` reads from a text, if it reads one.
pub uninterp spec fn u16_text(text: Seq<char>) -> Option<u16>;

/// The audit log of messages: what is kept of a message, and what is posted
/// to a guild's log channel when a message is edited or deleted.
pub struct Logs {
    /// The process-wide secret from which every key is derived.
    pub secret: [u8; 32],
}

/// A guild, as the cache knows it.
#[derive(Clone, Debug)]
pub struct GuildInfo {
    pub id: u64,
    pub name: String,
    pub icon: Option<String>,
}

/// A guild channel, as the cache knows it.
#[derive(Clone, Debug)]
pub struct ChannelInfo {
    pub id: u64,
    pub guild_id: Option<u64>,
    pub name: String,
}

/// An attachment to copy: fetch it from `url`, keep it under `key`.
#[derive(Clone, Debug)]
pub struct Upload {
    pub url: String,
    pub key: String,
}

/// A log entry, ready to be put into an embed.
#[derive(Clone, Debug)]
pub struct LogEmbed {
    pub title: &'static str,
    pub thumbnail: String,
    pub footer_text: String,
    pub footer_icon: String,
    pub fields: Vec<HelpField>,
}

/// What the text command asks for.
#[derive(Clone, Debug)]
pub enum LogsRequest {
    /// Answer with this text.
    Reply(String),
    /// Do nothing and say nothing.
    Silent,
    /// Enable message logs, in the channel named if one is.
    Enable(Option<String>),
}

/// The contents of a [`LogsRequest`].
pub enum RequestView {
    Reply(Seq<char>),
    Silent,
    Enable(Option<Seq<char>>),
}

impl LogsRequest {
    /// The contents of the request.
    pub open spec fn view(&self) -> RequestView {
        match self {
            LogsRequest::Reply(t) => RequestView::Reply(t@),
            LogsRequest::Silent => RequestView::Silent,
            LogsRequest::Enable(Some(t)) => RequestView::Enable(Some(t@)),
            LogsRequest::Enable(None) => RequestView::Enable(None),
        }
    }
}

/// The one account that may change the log's settings.
pub const OWNER: u64 = 105484726235607040;

/// The bucket that holds the copies of attachments.
pub fn bucket() -> (name: &'static str)
    ensures
        name@ == "rikka-files"@,
{
    "rikka-files"
}

/// `ParseMention::parse` of twilight_mention for a channel id, with the id
/// as a number and the error as its text.
#[verifier::external_body]
pub(crate) fn parse_channel_mention(text: &str) -> (parsed: Result<u64, String>)
    ensures
        match parsed {
            Ok(id) => channel_mention(text@) == Ok::<u64, Seq<char>>(id),
            Err(e) => channel_mention(text@) == Err::<u64, Seq<char>>(e@),
        },
{
    Id::<ChannelMarker>::parse(text).map(|id| id.get()).map_err(|e| e.to_string())
}

/// `str::parse::<u16>`, with the error dropped.
#[verifier::external_body]
pub(crate) fn parse_u16(text: &str) -> (parsed: Option<u16>)
    ensures
        parsed == u16_text(text@),
{
    text.parse::<u16>().ok()
}

/// The extension of a picture: `gif` where its name marks it as animated, else `png`.
pub open spec fn file_extension(path: Seq<char>) -> Seq<char> {
    if begins_with(path, "a_"@) {
        "gif"@
    } else {
        "png"@
    }
}

/// The address of a guild's icon.
pub open spec fn guild_icon_url(id: u64, icon: Seq<char>) -> Seq<char> {
    "https://cdn.discordapp.com/icons/"@ + decimal(id as nat) + "/"@ + icon + "."@
        + file_extension(icon)
}

/// What names a user's picture: the user's id and avatar, or the number of
/// a default picture, chosen by the discriminator.
pub open spec fn avatar_path(usr: User, number: Option<u16>) -> Seq<char> {
    match usr.avatar {
        Some(av) => decimal(usr.id as nat) + "/"@ + av@,
        None => match number {
            Some(n) => decimal((n % 5) as nat),
            None => decimal(0),
        },
    }
}

/// The address of a user's picture.
pub open spec fn avatar_url(path: Seq<char>) -> Seq<char> {
    "https://cdn.discordapp.com/avatars/"@ + path + "."@ + file_extension(path)
}

/// The public address of the copy of an attachment, given its key.
pub open spec fn attachment_url(key: Seq<char>) -> Seq<char> {
    "https://files.rikka.xyz/"@ + key
}

/// The key of the copy of an attachment: the keyed hash of the two ids, in
/// lower-case hexadecimal.
pub open spec fn attachment_key(secret: Seq<u8>, mid: u64, aid: u64) -> Seq<char> {
    hex_lower(keyed_hash(secret, attachment_input(mid, aid)))
}

/// How a log entry names the author: mention, name, discriminator, id.
pub open spec fn user_line(usr: User) -> Seq<char> {
    "<@"@ + decimal(usr.id as nat) + "> "@ + usr.name@ + "#"@ + usr.discriminator@ + " "@
        + decimal(usr.id as nat)
}

/// How a log entry names a channel: mention and id.
pub open spec fn channel_line(cid: u64) -> Seq<char> {
    "<#"@ + decimal(cid as nat) + "> "@ + decimal(cid as nat)
}

/// The milliseconds since 1970 at which an id was made.
pub open spec fn timestamp_millis(id: u64) -> int {
    id as int / 4194304 + 1420070400000
}

fn extension(path: &str) -> (ext: &'static str)
    ensures
        ext@ == file_extension(path@),
{
    if starts_with(path, "a_") {
        "gif"
    } else {
        "png"
    }
}

/// The address of a guild's icon; a guild without one has an empty name in its place.
pub fn fmt_guild_icon(g: &GuildInfo) -> (url: String)
    ensures
        url@ == guild_icon_url(
            g.id,
            match g.icon {
                Some(i) => i@,
                None => Seq::empty(),
            },
        ),
{
    let icon = match &g.icon {
        Some(i) => i.clone(),
        None => String::new(),
    };
    let id = to_decimal(g.id);
    let mut url = String::from_str("https://cdn.discordapp.com/icons/");
    url.append(id.as_str());
    url.append("/");
    url.append(icon.as_str());
    url.append(".");
    url.append(extension(icon.as_str()));
    url
}

/// The address of a user's avatar, given the number read from the discriminator.
///
/// A user without an avatar of their own gets one of the five default
/// pictures, chosen by the discriminator, the first where it is no number.
pub fn avatar_with(usr: &User, number: Option<u16>) -> (url: String)
    ensures
        url@ == avatar_url(avatar_path(*usr, number)),
{
    let path = match &usr.avatar {
        Some(av) => {
            let mut p = to_decimal(usr.id);
            p.append("/");
            p.append(av.as_str());
            p
        },
        None => match number {
            Some(n) => to_decimal((n % 5) as u64),
            None => to_decimal(0),
        },
    };
    let mut url = String::from_str("https://cdn.discordapp.com/avatars/");
    url.append(path.as_str());
    url.append(".");
    url.append(extension(path.as_str()));
    url
}

/// The address of a user's avatar.
pub fn fmt_user_avatar(usr: &User) -> (url: String)
    ensures
        url@ == avatar_url(avatar_path(*usr, u16_text(usr.discriminator@))),
{
    let number = parse_u16(usr.discriminator.as_str());
    avatar_with(usr, number)
}

/// The key under which a copy of an attachment is kept: derived from the two
/// ids and the secret, and from nothing else.
pub fn fmt_attachment_key(secret: &[u8; 32], mid: u64, aid: u64) -> (key: String)
    ensures
        key@ == attachment_key(secret@, mid, aid),
{
    img_hash_secret(secret, mid, aid)
}

/// The public address of the copy of an attachment.
pub fn fmt_attachment_url(secret: &[u8; 32], mid: u64, aid: u64) -> (url: String)
    ensures
        url@ == attachment_url(attachment_key(secret@, mid, aid)),
{
    let key = fmt_attachment_key(secret, mid, aid);
    let mut url = String::from_str("https://files.rikka.xyz/");
    url.append(key.as_str());
    url
}

/// The time at which an id was made, as seconds since 1970 and the
/// nanoseconds within the second.
pub fn id_to_timestamp(id: u64) -> (t: (i64, u32))
    ensures
        t.0 == timestamp_millis(id) / 1000,
        t.1 == (timestamp_millis(id) % 1000) * 1000000,
{
    let shifted: u64 = id >> 22;
    assert(shifted == id / 4194304 && shifted <= 0x3ff_ffff_ffff) by (bit_vector)
        requires
            shifted == id >> 22,
    ;
    let ms: u64 = shifted + 1420070400000;
    let s: i64 = (ms / 1000) as i64;
    let ns: u32 = ((ms % 1000) * 1000000) as u32;
    (s, ns)
}

fn user_field(usr: &User) -> (f: HelpField)
    ensures
        f.name@ == "User"@,
        f.value@ == user_line(*usr),
{
    let id = to_decimal(usr.id);
    let mut v = String::from_str("<@");
    v.append(id.as_str());
    v.append("> ");
    v.append(usr.name.as_str());
    v.append("#");
    v.append(usr.discriminator.as_str());
    v.append(" ");
    v.append(id.as_str());
    HelpField { name: String::from_str("User"), value: v }
}

fn channel_field(cid: u64) -> (f: HelpField)
    ensures
        f.name@ == "User"@,
        f.value@ == channel_line(cid),
{
    let id = to_decimal(cid);
    let mut v = String::from_str("<#");
    v.append(id.as_str());
    v.append("> ");
    v.append(id.as_str());
    HelpField { name: String::from_str("User"), value: v }
}

/// The two fields that every log entry starts with: who wrote the message,
/// and the channel of the log.
pub open spec fn head_fields(msg: Message, cid: u64) -> Seq<(Seq<char>, Seq<char>)> {
    seq![("User"@, user_line(msg.author)), ("User"@, channel_line(cid))]
}

/// The fields of the entry for an edit: the head, the stored text, the new text.
pub open spec fn update_fields(msg: Message, cid: u64, new_content: Seq<char>) -> Seq<
    (Seq<char>, Seq<char>),
> {
    head_fields(msg, cid) + seq![("Old content"@, msg.content@), ("New content"@, new_content)]
}

/// The fields of the entry for a deletion: the head and, unless it is
/// empty, the stored text.
pub open spec fn delete_fields(msg: Message, cid: u64) -> Seq<(Seq<char>, Seq<char>)> {
    if msg.content@.len() > 0 {
        head_fields(msg, cid) + seq![("Deleted content"@, msg.content@)]
    } else {
        head_fields(msg, cid)
    }
}

/// The text that an edit brings; an edit without text counts as empty.
pub open spec fn new_content(upd: MessageUpdate) -> Seq<char> {
    match upd.content {
        Some(c) => c@,
        None => Seq::empty(),
    }
}

/// The guild under which an event's configuration is looked up: a message
/// without a guild is looked up under guild 0.
pub open spec fn guild_or_zero(guild_id: Option<u64>) -> u64 {
    match guild_id {
        Some(g) => g,
        None => 0u64,
    }
}

/// The guild under which an event's configuration is looked up: a message
/// without a guild is looked up under guild 0.
pub fn lookup_guild(guild_id: Option<u64>) -> (gid: u64)
    ensures
        gid == guild_or_zero(guild_id),
{
    match guild_id {
        Some(g) => g,
        None => 0,
    }
}

/// The configuration key to read before an event is handled. Only created,
/// edited and deleted messages concern the log, and a deletion that names no
/// guild cannot be looked up.
pub fn raw_lookup(ev: &Event) -> (key: Option<LogKey>)
    ensures
        key == match *ev {
            Event::MessageCreate(m) => Some(config_key(guild_or_zero(m.guild_id))),
            Event::MessageUpdate(u) => Some(config_key(guild_or_zero(u.guild_id))),
            Event::MessageDelete(d) => match d.guild_id {
                Some(g) => Some(config_key(g)),
                None => None,
            },
            _ => None,
        },
{
    match ev {
        Event::MessageCreate(m) => Some(LogKey::config(lookup_guild(m.guild_id))),
        Event::MessageUpdate(u) => Some(LogKey::config(lookup_guild(u.guild_id))),
        Event::MessageDelete(d) => match d.guild_id {
            Some(g) => Some(LogKey::config(g)),
            None => None,
        },
        _ => None,
    }
}

/// One upload for each attachment, in order: its address and its derived key.
pub open spec fn uploads_for(secret: Seq<u8>, msg: Message) -> Seq<(Seq<char>, Seq<char>)> {
    Seq::new(
        msg.attachments@.len(),
        |i: int|
            (msg.attachments@[i].proxy_url@, attachment_key(secret, msg.id, msg.attachments@[i].id)),
    )
}

/// The address and the key of each upload.
pub open spec fn uploads_view(ups: Seq<Upload>) -> Seq<(Seq<char>, Seq<char>)> {
    ups.map_values(|u: Upload| (u.url@, u.key@))
}

/// The addresses of the copies of a message's attachments, in order.
pub open spec fn attachment_urls(secret: Seq<u8>, msg: Message, mid: u64) -> Seq<Seq<char>> {
    Seq::new(
        msg.attachments@.len(),
        |i: int| attachment_url(attachment_key(secret, mid, msg.attachments@[i].id)),
    )
}

/// The guild that a channel belongs to, and the channel itself, from what
/// the cache knows of them.
pub fn channel_and_guild(cid: u64, channel: Option<ChannelInfo>, guild: Option<GuildInfo>) -> (res:
    Result<(ChannelInfo, GuildInfo), CommandError>)
    ensures
        match channel {
            None => res matches Err(e) && e is Generic && e.message_spec()
                == "channel not found in cache: "@ + decimal(cid as nat),
            Some(ch) => match ch.guild_id {
                None => res matches Err(e) && e is Generic && e.message_spec()
                    == "channel doesn't contain guild id: "@ + decimal(cid as nat),
                Some(gid) => match guild {
                    None => res matches Err(e) && e is Generic && e.message_spec()
                        == "guild not found in cache: "@ + decimal(gid as nat),
                    Some(g) => res == Ok::<(ChannelInfo, GuildInfo), CommandError>((ch, g)),
                },
            },
        },
{
    match channel {
        None => {
            let mut m = String::from_str("channel not found in cache: ");
            m.append(to_decimal(cid).as_str());
            Err(CommandError::Generic(m))
        },
        Some(ch) => match ch.guild_id {
            None => {
                let mut m = String::from_str("channel doesn't contain guild id: ");
                m.append(to_decimal(cid).as_str());
                Err(CommandError::Generic(m))
            },
            Some(gid) => match guild {
                None => {
                    let mut m = String::from_str("guild not found in cache: ");
                    m.append(to_decimal(gid).as_str());
                    Err(CommandError::Generic(m))
                },
                Some(g) => Ok((ch, g)),
            },
        },
    }
}

/// The words that call the log command.
pub fn logs_alias() -> (words: Vec<&'static str>)
    ensures
        strs(words@) == seq!["logs"@, "log"@],
{
    let mut words: Vec<&'static str> = Vec::new();
    words.push("logs");
    words.push("log");
    assert(strs(words@) =~= seq!["logs"@, "log"@]);
    words
}

/// The reply to a first argument that names no kind of log.
pub open spec fn unknown_type() -> Seq<char> {
    "Unknown option. Expected one of [\"message\", \"help\"]"@
}

/// The reply to a second argument that is neither `enable` nor `disable`.
pub open spec fn unknown_option() -> Seq<char> {
    "Unknown option. Expected one of [\"enable\", \"disable\"]"@
}

/// What the arguments of the log command ask for, by whom.
pub open spec fn route_spec(author: u64, tokens: Seq<Seq<char>>) -> RequestView {
    if tokens.len() == 0 || tokens[0] == "help"@ {
        RequestView::Reply("help coming soon"@)
    } else if tokens[0] == "message"@ || tokens[0] == "messages"@ {
        if author != OWNER {
            RequestView::Reply("Only owners may use this command for now :)"@)
        } else if tokens.len() >= 2 && tokens[1] == "enable"@ {
            RequestView::Enable(
                if tokens.len() >= 3 {
                    Some(tokens[2])
                } else {
                    None
                },
            )
        } else if tokens.len() >= 2 && tokens[1] == "disable"@ {
            RequestView::Silent
        } else {
            RequestView::Reply(unknown_option())
        }
    } else {
        RequestView::Reply(unknown_type())
    }
}

/// The channel to log to, from what the mention parser made of the argument:
/// the channel of the message itself where no argument was given.
pub open spec fn enable_channel_spec(
    parsed: Option<Result<u64, Seq<char>>>,
    msg_channel: u64,
) -> Result<u64, Seq<char>> {
    match parsed {
        None => Ok(msg_channel),
        Some(Ok(cid)) => Ok(cid),
        Some(Err(e)) => Err("parse channel id: "@ + e),
    }
}

/// The view of a parsed argument.
pub open spec fn mention_view(parsed: Option<Result<u64, String>>) -> Option<Result<u64, Seq<char>>> {
    match parsed {
        None => None,
        Some(Ok(cid)) => Some(Ok(cid)),
        Some(Err(e)) => Some(Err(e@)),
    }
}

/// Decides on the arguments of the log command: see [`route_spec`].
pub fn route(author: u64, tokens: &Vec<String>) -> (req: LogsRequest)
    ensures
        req@ == route_spec(author, strings(tokens@)),
{
    if tokens.len() == 0 || str_eq(tokens[0].as_str(), "help") {
        return LogsRequest::Reply(String::from_str("help coming soon"));
    }
    if str_eq(tokens[0].as_str(), "message") || str_eq(tokens[0].as_str(), "messages") {
        if author != OWNER {
            return LogsRequest::Reply(
                String::from_str("Only owners may use this command for now :)"),
            );
        }
        if tokens.len() >= 2 && str_eq(tokens[1].as_str(), "enable") {
            if tokens.len() >= 3 {
                return LogsRequest::Enable(Some(tokens[2].clone()));
            }
            return LogsRequest::Enable(None);
        }
        if tokens.len() >= 2 && str_eq(tokens[1].as_str(), "disable") {
            return LogsRequest::Silent;
        }
        return LogsRequest::Reply(
            String::from_str("Unknown option. Expected one of [\"enable\", \"disable\"]"),
        );
    }
    LogsRequest::Reply(String::from_str("Unknown option. Expected one of [\"message\", \"help\"]"))
}

/// Picks the channel to log to from a parsed argument: see [`enable_channel_spec`].
pub fn enable_channel_parsed(parsed: Option<Result<u64, String>>, msg_channel: u64) -> (res: Result<
    u64,
    CommandError,
>)
    ensures
        match enable_channel_spec(mention_view(parsed), msg_channel) {
            Ok(cid) => res == Ok::<u64, CommandError>(cid),
            Err(text) => res matches Err(e) && e is Generic && e.message_spec() == text,
        },
{
    match parsed {
        None => Ok(msg_channel),
        Some(Ok(cid)) => Ok(cid),
        Some(Err(e)) => {
            let mut m = String::from_str("parse channel id: ");
            m.append(e.as_str());
            Err(CommandError::Generic(m))
        },
    }
}

/// Picks the channel to log to: the one mentioned in the argument, or the
/// channel of the message where there is no argument.
pub fn enable_channel(arg: Option<&str>, msg_channel: u64) -> (res: Result<u64, CommandError>)
    ensures
        match enable_channel_spec(
            match arg {
                Some(a) => Some(channel_mention(a@)),
                None => None,
            },
            msg_channel,
        ) {
            Ok(cid) => res == Ok::<u64, CommandError>(cid),
            Err(text) => res matches Err(e) && e is Generic && e.message_spec() == text,
        },
{
    let parsed = match arg {
        Some(a) => Some(parse_channel_mention(a)),
        None => None,
    };
    enable_channel_parsed(parsed, msg_channel)
}

impl Logs {
    /// Sets the log up with the secret in its hexadecimal form. Fails where
    /// the text is no hexadecimal for 32 bytes.
    pub fn new(secret_hex: &str) -> (res: Result<Logs, ConfigError>)
        ensures
            match hex_decoded(secret_hex@) {
                None => res matches Err(e) && e is MalformedSecret,
                Some(bytes) => if bytes.len() == 32 {
                    res matches Ok(l) && l.secret@ == bytes
                } else {
                    res matches Err(e) && e is SecretLength
                },
            },
    {
        match load_secret(secret_hex) {
            Ok(secret) => Ok(Logs { secret }),
            Err(e) => Err(e),
        }
    }

    /// Handles the text command.
    ///
    /// The message must match one of the command's words. Its arguments then
    /// decide: see [`route_spec`].
    pub fn receive(&self, bot: &Rikka, msg: &Message) -> (res: Result<LogsRequest, CommandError>)
        requires
            bot.wf(),
        ensures
            match match_outcome(
                msg.author.bot,
                parsed_command(bot.prefixes_view(), bot.words(), msg.content@),
                seq!["logs"@, "log"@],
            ) {
                Some(args) => res matches Ok(req) && req@ == route_spec(
                    msg.author.id,
                    argument_tokens(args),
                ),
                None => res matches Err(e) && e is NoMatch,
            },
    {
        let words = logs_alias();
        match matches_command(bot, msg, words.as_slice()) {
            Ok(args) => {
                let tokens = arguments(args.as_str());
                Ok(route(msg.author.id, &tokens))
            },
            Err(e) => Err(e),
        }
    }

    /// Enables message logs in channel `cid` for the guild of the message.
    ///
    /// The channel must be known to the cache and the message must come from
    /// a guild. The result is the write to make and the reply to send after it.
    pub fn handle_messages_enable_command(
        &self,
        cid: u64,
        channel: Option<&ChannelInfo>,
        guild_id: Option<u64>,
    ) -> (res: Result<(StoreWrite, String), CommandError>)
        ensures
            match channel {
                None => res matches Err(e) && e is Generic && e.message_spec()
                    == "channel not found in cache: "@ + decimal(cid as nat),
                Some(ch) => match guild_id {
                    None => res matches Err(e) && e is Generic && e.message_spec()
                        == "message didn't have guild id"@,
                    Some(gid) => res matches Ok(done) && done.0.key == config_key(gid)
                        && done.0.value@ == vstd::bytes::spec_u64_to_le_bytes(cid)
                        && done.1@ == "Enabled message logs in "@ + ch.name@,
                },
            },
    {
        match channel {
            None => {
                let mut m = String::from_str("channel not found in cache: ");
                m.append(to_decimal(cid).as_str());
                Err(CommandError::Generic(m))
            },
            Some(ch) => match guild_id {
                None => Err(CommandError::Generic(String::from_str("message didn't have guild id"))),
                Some(gid) => {
                    let mut reply = String::from_str("Enabled message logs in ");
                    reply.append(ch.name.as_str());
                    Ok((enable_messages(gid, cid), reply))
                },
            },
        }
    }

    /// Plans the storing of a created message.
    ///
    /// Where logging is disabled for the guild there is nothing to do. Where
    /// it is enabled, every attachment is copied first, under its derived
    /// key; the snapshot is written once all copies are made, and not at all
    /// where one fails.
    pub fn store_message(&self, enabled: Option<u64>, msg: &Message) -> (plan: Option<Vec<Upload>>)
        ensures
            enabled is None ==> plan is None,
            enabled is Some ==> (plan matches Some(ups) && uploads_view(ups@) == uploads_for(
                self.secret@,
                *msg,
            )),
    {
        if enabled.is_none() {
            return None;
        }
        let mut ups: Vec<Upload> = Vec::new();
        let mut i: usize = 0;
        while i < msg.attachments.len()
            invariant
                i <= msg.attachments.len(),
                ups@.len() == i,
                forall|k: int|
                    0 <= k < i ==> uploads_view(ups@)[k] == uploads_for(self.secret@, *msg)[k],
            decreases msg.attachments.len() - i,
        {
            let att = &msg.attachments[i];
            let ghost before = ups@;
            ups.push(
                Upload { url: att.proxy_url.clone(), key: fmt_attachment_key(&self.secret, msg.id, att.id) },
            );
            assert forall|k: int| 0 <= k < i + 1 implies uploads_view(ups@)[k] == uploads_for(
                self.secret@,
                *msg,
            )[k] by {
                if k < i {
                    assert(uploads_view(ups@)[k] == uploads_view(before)[k]);
                }
            }
            i += 1;
        }
        assert(uploads_view(ups@) =~= uploads_for(self.secret@, *msg));
        Some(ups)
    }

    /// Ends the storing of a message, given for each attachment whether its
    /// copy was made: the snapshot is written when every copy was made, and
    /// not at all when one failed.
    pub fn finish_store(&self, mid: u64, copied: &Vec<bool>, snapshot: Vec<u8>) -> (w: Option<
        StoreWrite,
    >)
        ensures
            match w {
                Some(w) => (forall|i: int| 0 <= i < copied@.len() ==> copied@[i]) && w.key
                    == message_key(mid) && w.value@ == snapshot@,
                None => exists|i: int| 0 <= i < copied@.len() && !copied@[i],
            },
    {
        let mut i: usize = 0;
        while i < copied.len()
            invariant
                i <= copied.len(),
                forall|k: int| 0 <= k < i ==> copied@[k],
            decreases copied.len() - i,
        {
            if !copied[i] {
                return None;
            }
            i += 1;
        }
        Some(write_msg(mid, snapshot))
    }

    /// Decides whether an edit is logged, and where.
    ///
    /// It is logged to the guild's log channel when logging is enabled, a
    /// snapshot of the message is stored, and the new text differs from the
    /// stored one. The stored snapshot stays as it is.
    pub fn log_update(&self, enabled: Option<u64>, stored: Option<&Message>, upd: &MessageUpdate) -> (res:
        Option<(u64, String)>)
        ensures
            match (enabled, stored) {
                (Some(cid), Some(msg)) => if msg.content@ == new_content(*upd) {
                    res is None
                } else {
                    res matches Some(r) && r.0 == cid && r.1@ == new_content(*upd)
                },
                _ => res is None,
            },
    {
        let cid = match enabled {
            Some(cid) => cid,
            None => {
                return None;
            },
        };
        let msg = match stored {
            Some(msg) => msg,
            None => {
                return None;
            },
        };
        let text = match &upd.content {
            Some(c) => c.clone(),
            None => String::new(),
        };
        if str_eq(msg.content.as_str(), text.as_str()) {
            return None;
        }
        Some((cid, text))
    }

    /// Renders the log entry for an edit.
    pub fn update_embed(&self, msg: &Message, text: &str, cid: u64, guild: &GuildInfo, number: Option<u16>) -> (embed:
        LogEmbed)
        ensures
            embed.title@ == "Message Update"@,
            embed.thumbnail@ == avatar_url(avatar_path(msg.author, number)),
            embed.footer_text@ == guild.name@,
            embed.footer_icon@ == guild_icon_url(
                guild.id,
                match guild.icon {
                    Some(i) => i@,
                    None => Seq::empty(),
                },
            ),
            fields_view(embed.fields@) == update_fields(*msg, cid, text@),
    {
        let mut fields: Vec<HelpField> = Vec::new();
        fields.push(user_field(&msg.author));
        fields.push(channel_field(cid));
        fields.push(HelpField { name: String::from_str("Old content"), value: msg.content.clone() });
        fields.push(HelpField { name: String::from_str("New content"), value: String::from_str(text) });
        assert(fields_view(fields@) =~= update_fields(*msg, cid, text@));
        LogEmbed {
            title: "Message Update",
            thumbnail: avatar_with(&msg.author, number),
            footer_text: guild.name.clone(),
            footer_icon: fmt_guild_icon(guild),
            fields,
        }
    }

    /// Decides whether a deletion is logged, and where.
    ///
    /// It is logged when the event names a guild, logging is enabled for it
    /// and a snapshot of the message is stored. The result is the log channel
    /// and the addresses of the attachments' copies, which are posted first.
    pub fn log_delete(&self, enabled: Option<u64>, stored: Option<&Message>, del: &MessageDelete) -> (res:
        Option<(u64, Vec<String>)>)
        ensures
            match (del.guild_id, enabled, stored) {
                (Some(_), Some(cid), Some(msg)) => res matches Some(r) && r.0 == cid && strings(
                    r.1@,
                ) == attachment_urls(self.secret@, *msg, del.id),
                _ => res is None,
            },
    {
        if del.guild_id.is_none() {
            return None;
        }
        let cid = match enabled {
            Some(cid) => cid,
            None => {
                return None;
            },
        };
        let msg = match stored {
            Some(msg) => msg,
            None => {
                return None;
            },
        };
        let mut urls: Vec<String> = Vec::new();
        let mut i: usize = 0;
        while i < msg.attachments.len()
            invariant
                i <= msg.attachments.len(),
                urls@.len() == i,
                forall|k: int|
                    0 <= k < i ==> strings(urls@)[k] == attachment_urls(self.secret@, *msg, del.id)[k],
            decreases msg.attachments.len() - i,
        {
            let ghost before = urls@;
            urls.push(fmt_attachment_url(&self.secret, del.id, msg.attachments[i].id));
            assert forall|k: int| 0 <= k < i + 1 implies strings(urls@)[k] == attachment_urls(
                self.secret@,
                *msg,
                del.id,
            )[k] by {
                if k < i {
                    assert(strings(urls@)[k] == strings(before)[k]);
                }
            }
            i += 1;
        }
        assert(strings(urls@) =~= attachment_urls(self.secret@, *msg, del.id));
        Some((cid, urls))
    }

    /// Renders the log entry for a deletion; the text is shown unless it is empty.
    pub fn delete_embed(&self, msg: &Message, cid: u64, guild: &GuildInfo, number: Option<u16>) -> (embed:
        LogEmbed)
        ensures
            embed.title@ == "Message Deleted"@,
            embed.thumbnail@ == avatar_url(avatar_path(msg.author, number)),
            embed.footer_text@ == guild.name@,
            embed.footer_icon@ == guild_icon_url(
                guild.id,
                match guild.icon {
                    Some(i) => i@,
                    None => Seq::empty(),
                },
            ),
            fields_view(embed.fields@) == delete_fields(*msg, cid),
    {
        let mut fields: Vec<HelpField> = Vec::new();
        fields.push(user_field(&msg.author));
        fields.push(channel_field(cid));
        if !msg.content.as_str().is_empty() {
            fields.push(
                HelpField { name: String::from_str("Deleted content"), value: msg.content.clone() },
            );
        }
        assert(fields_view(fields@) =~= delete_fields(*msg, cid));
        LogEmbed {
            title: "Message Deleted",
            thumbnail: avatar_with(&msg.author, number),
            footer_text: guild.name.clone(),
            footer_icon: fmt_guild_icon(guild),
            fields,
        }
    }
}

impl Command for Logs {
    fn name(&self) -> (name: &'static str)
        ensures
            name@ == "logs"@,
    {
        "logs"
    }

    fn help(&self, msg: Option<&Message>) -> (helps: Vec<CommandHelp>)
        ensures
            helps@.len() == 1,
            helps@[0].name@ == "log"@,
            helps@[0].aliases@.len() == 1,
            helps@[0].aliases@[0]@ == "logs"@,
            helps@[0].section == HelpSection::Moderation,
            helps@[0].words() == seq!["log"@, "logs"@],
    {
        let mut help = CommandHelp::named("log");
        help.aliases = &["logs"];
        help.section = HelpSection::Moderation;
        assert(help.words() =~= seq!["log"@, "logs"@]);
        let mut helps: Vec<CommandHelp> = Vec::new();
        helps.push(help);
        helps
    }
}

} // verus!
