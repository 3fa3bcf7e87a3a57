use crate::commands::logs::cmd::avatar_path;
use crate::commands::logs::cmd::avatar_url;
use crate::commands::logs::cmd::avatar_with;
use crate::error::CommandError;
use crate::help::CommandHelp;
use crate::help::HelpSection;
use crate::model::Message;
use crate::model::User;
use crate::parse::argument_tokens;
use crate::parse::arguments;
use crate::parse::match_outcome;
use crate::parse::matches_command;
use crate::parse::parsed_command;
use crate::rikka::Command;
use crate::rikka::Rikka;
use crate::text::decimal;
use crate::text::strs;
use crate::text::to_decimal;
use twilight_mention::ParseMention;
use twilight_model::id::marker::UserMarker;
use twilight_model::id::Id;
use vstd::prelude::*;
use vstd::string::StringExecFns;

verus! {

/// The id of the user that `ParseMention::parse` of twilight_mention reads
/// from a user mention, or the text of its error.
pub uninterp spec fn user_mention(text: Seq<char>) -> Result<u64, Seq<char>>;

/// The number that `str::parse::<u64>` reads from a text, or the text of its error.
pub uninterp spec fn u64_text(text: Seq<char>) -> Result<u64, Seq<char>>;

/// Shows how long a user has played which games.
pub struct Played;

/// One game and the seconds spent in it.
#[derive(Clone, Debug)]
pub struct GameEntry {
    pub name: String,
    pub dur: u64,
}

/// The answer for a user who has played something.
#[derive(Clone, Debug)]
pub struct PlayedEmbed {
    pub title: String,
    pub description: String,
    pub thumbnail: String,
    pub field_name: &'static str,
    pub games: String,
    pub color: u32,
}

/// `ParseMention::parse` of twilight_mention for a user id, with the id as a
/// number and the error as its text.
#[verifier::external_body]
pub(crate) fn parse_user_mention(text: &str) -> (parsed: Result<u64, String>)
    ensures
        match parsed {
            Ok(id) => user_mention(text@) == Ok::<u64, Seq<char>>(id),
            Err(e) => user_mention(text@) == Err::<u64, Seq<char>>(e@),
        },
{
    Id::<UserMarker>::parse(text).map(|id| id.get()).map_err(|e| e.to_string())
}

/// `str::parse::<u64>`, with the error as its text.
#[verifier::external_body]
pub(crate) fn parse_u64(text: &str) -> (parsed: Result<u64, String>)
    ensures
        match parsed {
            Ok(id) => u64_text(text@) == Ok::<u64, Seq<char>>(id),
            Err(e) => u64_text(text@) == Err::<u64, Seq<char>>(e@),
        },
{
    text.parse::<u64>().map_err(|e| e.to_string())
}

/// The view of a parser's result.
pub open spec fn result_view(r: Result<u64, String>) -> Result<u64, Seq<char>> {
    match r {
        Ok(id) => Ok(id),
        Err(e) => Err(e@),
    }
}

/// The text for an argument that is neither a mention nor an id.
pub open spec fn no_options_left(arg: Seq<char>, id_error: Seq<char>, mention_error: Seq<char>) -> Seq<
    char,
> {
    "no parsing options left, expected mention or id. invalid option '"@ + arg + "': parse id: "@
        + id_error + ": parse mention: "@ + mention_error
}

/// The user asked about: the one mentioned, else the one whose id is given.
pub open spec fn target_user_spec(
    arg: Seq<char>,
    mention: Result<u64, Seq<char>>,
    plain: Result<u64, Seq<char>>,
) -> Result<u64, Seq<char>> {
    match mention {
        Ok(id) => Ok(id),
        Err(m) => match plain {
            Ok(id) => Ok(id),
            Err(p) => Err(no_options_left(arg, p, m)),
        },
    }
}

/// One part of a duration: the number and its unit, or nothing for zero.
pub open spec fn part(n: nat, unit: Seq<char>) -> Seq<char> {
    if n > 0 {
        decimal(n) + unit
    } else {
        Seq::empty()
    }
}

/// A game's line: its name in bold, then hours, minutes and seconds, each
/// left out where it is zero.
pub open spec fn game_line(name: Seq<char>, dur: nat) -> Seq<char> {
    "\u{e2}\u{20ac}\u{a2} **"@ + name + "** "@ + part(dur / 60 / 60, "h"@) + part(
        dur / 60 % 60,
        "m"@,
    ) + part(dur % 60, "s"@) + "\n"@
}

/// The lines of all games, in order.
pub open spec fn games_text(games: Seq<GameEntry>) -> Seq<char>
    decreases games.len(),
{
    if games.len() == 0 {
        Seq::empty()
    } else {
        games_text(games.drop_last()) + game_line(games.last().name@, games.last().dur as nat)
    }
}

/// The line under the title: when the user was first and last seen.
pub open spec fn seen_text(first_seen: Seq<char>, last_updated: Seq<char>) -> Seq<char> {
    "*First seen "@ + first_seen + ", last updated "@ + last_updated + "*"@
}

/// The reply for a user who has played nothing.
pub open spec fn no_entries(usr: User) -> Seq<char> {
    "No entries found for "@ + usr.name@ + "#"@ + usr.discriminator@
}

fn push_part(out: &mut String, n: u64, unit: &str)
    ensures
        final(out)@ == old(out)@ + part(n as nat, unit@),
{
    if n > 0 {
        out.append(to_decimal(n).as_str());
        out.append(unit);
        assert(out@ =~= old(out)@ + part(n as nat, unit@));
    } else {
        assert(out@ =~= old(out)@ + part(n as nat, unit@));
    }
}

/// Picks the user from what the two parsers made of the argument: see [`target_user_spec`].
pub fn target_user_parsed(arg: &str, mention: Result<u64, String>, plain: Result<u64, String>) -> (res:
    Result<u64, CommandError>)
    ensures
        match target_user_spec(arg@, result_view(mention), result_view(plain)) {
            Ok(id) => res == Ok::<u64, CommandError>(id),
            Err(text) => res matches Err(e) && e is Generic && e.message_spec() == text,
        },
{
    match mention {
        Ok(id) => Ok(id),
        Err(m) => match plain {
            Ok(id) => Ok(id),
            Err(p) => {
                let mut text = String::from_str(
                    "no parsing options left, expected mention or id. invalid option '",
                );
                text.append(arg);
                text.append("': parse id: ");
                text.append(p.as_str());
                text.append(": parse mention: ");
                text.append(m.as_str());
                Err(CommandError::Generic(text))
            },
        },
    }
}

/// Picks the user asked about: the author where there is no argument, else
/// the user mentioned or the one whose id is given.
pub fn target_user(arg: Option<&str>, author: u64) -> (res: Result<u64, CommandError>)
    ensures
        match arg {
            None => res == Ok::<u64, CommandError>(author),
            Some(a) => match target_user_spec(a@, user_mention(a@), u64_text(a@)) {
                Ok(id) => res == Ok::<u64, CommandError>(id),
                Err(text) => res matches Err(e) && e is Generic && e.message_spec() == text,
            },
        },
{
    match arg {
        None => Ok(author),
        Some(a) => {
            let mention = parse_user_mention(a);
            let plain = parse_u64(a);
            target_user_parsed(a, mention, plain)
        },
    }
}

/// Writes the list of games.
pub fn fmt_games(games: &Vec<GameEntry>) -> (text: String)
    ensures
        text@ == games_text(games@),
{
    let mut text = String::new();
    let mut i: usize = 0;
    assert(games@.take(0) =~= Seq::empty());
    while i < games.len()
        invariant
            i <= games.len(),
            text@ == games_text(games@.take(i as int)),
        decreases games.len() - i,
    {
        proof {
            assert(games@.take(i + 1).drop_last() =~= games@.take(i as int));
            assert(games@.take(i + 1).last() == games@[i as int]);
        }
        let dur = games[i].dur;
        let ghost before = text@;
        text.append("\u{e2}\u{20ac}\u{a2} **");
        text.append(games[i].name.as_str());
        text.append("** ");
        push_part(&mut text, dur / 60 / 60, "h");
        push_part(&mut text, dur / 60 % 60, "m");
        push_part(&mut text, dur % 60, "s");
        text.append("\n");
        assert(text@ =~= before + game_line(games@[i as int].name@, dur as nat));
        i += 1;
    }
    assert(games@.take(i as int) =~= games@);
    text
}

impl Played {
    /// The command.
    pub fn new() -> Played {
        Played
    }

    /// The user that a message asks about, where it matches the word `played`.
    pub fn receive(&self, bot: &Rikka, msg: &Message) -> (res: Result<u64, CommandError>)
        requires
            bot.wf(),
        ensures
            match match_outcome(
                msg.author.bot,
                parsed_command(bot.prefixes_view(), bot.words(), msg.content@),
                seq!["played"@],
            ) {
                None => res matches Err(e) && e is NoMatch,
                Some(args) => if argument_tokens(args).len() == 0 {
                    res == Ok::<u64, CommandError>(msg.author.id)
                } else {
                    match target_user_spec(
                        argument_tokens(args)[0],
                        user_mention(argument_tokens(args)[0]),
                        u64_text(argument_tokens(args)[0]),
                    ) {
                        Ok(id) => res == Ok::<u64, CommandError>(id),
                        Err(text) => res matches Err(e) && e is Generic && e.message_spec()
                            == text,
                    }
                },
            },
    {
        let mut words: Vec<&'static str> = Vec::new();
        words.push("played");
        assert(strs(words@) =~= seq!["played"@]);
        match matches_command(bot, msg, words.as_slice()) {
            Ok(args) => {
                let tokens = arguments(args.as_str());
                if tokens.len() > 0 {
                    target_user(Some(tokens[0].as_str()), msg.author.id)
                } else {
                    target_user(None, msg.author.id)
                }
            },
            Err(e) => Err(e),
        }
    }

    /// The text for a user without entries.
    pub fn no_entries_text(usr: &User) -> (text: String)
        ensures
            text@ == no_entries(*usr),
    {
        let mut text = String::from_str("No entries found for ");
        text.append(usr.name.as_str());
        text.append("#");
        text.append(usr.discriminator.as_str());
        text
    }

    /// The answer for a user with entries. The two times come as texts.
    pub fn embed(usr: &User, number: Option<u16>, games: &Vec<GameEntry>, first_seen: &str, last_updated: &str) -> (embed:
        PlayedEmbed)
        ensures
            embed.title@ == usr.name@,
            embed.description@ == seen_text(first_seen@, last_updated@),
            embed.thumbnail@ == avatar_url(avatar_path(*usr, number)),
            embed.field_name@ == "Games"@,
            embed.games@ == games_text(games@),
            embed.color == 0x79c879,
    {
        let mut description = String::from_str("*First seen ");
        description.append(first_seen);
        description.append(", last updated ");
        description.append(last_updated);
        description.append("*");
        PlayedEmbed {
            title: usr.name.clone(),
            description,
            thumbnail: avatar_with(usr, number),
            field_name: "Games",
            games: fmt_games(games),
            color: 0x79c879,
        }
    }
}

impl Command for Played {
    fn name(&self) -> (name: &'static str)
        ensures
            name@ == "played"@,
    {
        "played"
    }

    fn help(&self, msg: Option<&Message>) -> (helps: Vec<CommandHelp>)
        ensures
            helps@.len() == 1,
            helps@[0].name@ == "played"@,
            helps@[0].section == HelpSection::Fun,
    {
        let mut help = CommandHelp::named("played");
        help.section = HelpSection::Fun;
        let mut helps: Vec<CommandHelp> = Vec::new();
        helps.push(help);
        helps
    }
}

} // verus!
