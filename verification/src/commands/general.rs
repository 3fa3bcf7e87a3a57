use crate::error::CommandError;
use crate::error::CommandResult;
use crate::help::CommandHelp;
use crate::model::Message;
use crate::parse::match_outcome;
use crate::parse::matches_command;
use crate::parse::parsed_command;
use crate::rikka::Command;
use crate::rikka::Rikka;
use crate::text::decimal;
use crate::text::strs;
use crate::text::to_decimal;
use vstd::prelude::*;
use vstd::string::StringExecFns;

verus! {

/// Answers "Pong!" and then says how long the answer took.
pub struct Ping;

/// Repeats what was said.
pub struct Say;

/// A whole number in base ten, with a minus sign where it is negative.
pub open spec fn signed_decimal(n: int) -> Seq<char> {
    if n < 0 {
        "-"@ + decimal((-n) as nat)
    } else {
        decimal(n as nat)
    }
}

/// The second text of a ping: the round trip in milliseconds.
pub open spec fn pong_text(millis: int) -> Seq<char> {
    "Pong! - `"@ + signed_decimal(millis) + "ms`"@
}

/// The reply of `say`: the arguments between quotation marks.
pub open spec fn said(args: Seq<char>) -> Seq<char> {
    "you said \""@ + args + "\""@
}

fn one_word(word: &'static str) -> (words: Vec<&'static str>)
    ensures
        strs(words@) == seq![word@],
{
    let mut words: Vec<&'static str> = Vec::new();
    words.push(word);
    assert(strs(words@) =~= seq![word@]);
    words
}

fn one_help(name: &'static str) -> (helps: Vec<CommandHelp>)
    ensures
        helps@.len() == 1,
        helps@[0].name@ == name@,
        helps@[0].aliases@.len() == 0,
{
    let mut helps: Vec<CommandHelp> = Vec::new();
    helps.push(CommandHelp::named(name));
    helps
}

impl Ping {
    /// The first text of a ping.
    pub fn pong() -> (text: &'static str)
        ensures
            text@ == "Pong!"@,
    {
        "Pong!"
    }

    /// The text that replaces the first one once the round trip is known.
    pub fn pong_after(millis: i64) -> (text: String)
        ensures
            text@ == pong_text(millis as int),
    {
        let mut text = String::from_str("Pong! - `");
        if millis < 0 {
            let magnitude: u64 = ((-(millis + 1)) as u64) + 1;
            text.append("-");
            text.append(to_decimal(magnitude).as_str());
        } else {
            text.append(to_decimal(millis as u64).as_str());
        }
        text.append("ms`");
        text
    }

    /// Whether the message is a ping: it is when it matches the word `ping`.
    pub fn receive(&self, bot: &Rikka, msg: &Message) -> (res: Result<(), CommandError>)
        requires
            bot.wf(),
        ensures
            match match_outcome(
                msg.author.bot,
                parsed_command(bot.prefixes_view(), bot.words(), msg.content@),
                seq!["ping"@],
            ) {
                Some(_) => res is Ok,
                None => res matches Err(e) && e is NoMatch,
            },
    {
        let words = one_word("ping");
        match matches_command(bot, msg, words.as_slice()) {
            Ok(_) => Ok(()),
            Err(e) => Err(e),
        }
    }
}

impl Command for Ping {
    fn name(&self) -> (name: &'static str)
        ensures
            name@ == "ping"@,
    {
        "ping"
    }

    fn help(&self, msg: Option<&Message>) -> (helps: Vec<CommandHelp>)
        ensures
            helps@.len() == 1,
            helps@[0].name@ == "ping"@,
            helps@[0].aliases@.len() == 0,
    {
        one_help("ping")
    }
}

impl Say {
    /// Repeats the arguments of a message that matches the word `say`.
    pub fn receive(&self, bot: &Rikka, msg: &Message) -> (res: CommandResult)
        requires
            bot.wf(),
        ensures
            match match_outcome(
                msg.author.bot,
                parsed_command(bot.prefixes_view(), bot.words(), msg.content@),
                seq!["say"@],
            ) {
                Some(args) => res matches Ok(Some(text)) && text@ == said(args),
                None => res matches Err(e) && e is NoMatch,
            },
    {
        let words = one_word("say");
        match matches_command(bot, msg, words.as_slice()) {
            Ok(args) => {
                let mut text = String::from_str("you said \"");
                text.append(args.as_str());
                text.append("\"");
                Ok(Some(text))
            },
            Err(e) => Err(e),
        }
    }
}

impl Command for Say {
    fn name(&self) -> (name: &'static str)
        ensures
            name@ == "say"@,
    {
        "say"
    }

    fn help(&self, msg: Option<&Message>) -> (helps: Vec<CommandHelp>)
        ensures
            helps@.len() == 1,
            helps@[0].name@ == "say"@,
            helps@[0].aliases@.len() == 0,
    {
        one_help("say")
    }
}

} // verus!
