use crate::error::CommandError;
use crate::model::Message;
use crate::rikka::Rikka;
use crate::text::begins_with;
use crate::text::str_eq;
use crate::text::strings;
use crate::text::strs;
use twilight_command_parser::Arguments;
use twilight_command_parser::CommandParserConfig;
use twilight_command_parser::Parser;
use vstd::prelude::*;

verus! {

#[verifier::external_type_specification]
#[verifier::external_body]
pub struct ExParser<'a>(Parser<'a>);

/// The prefixes that a parser is configured with, in the order in which it tries them.
pub uninterp spec fn parser_prefixes(parser: Parser<'static>) -> Seq<Seq<char>>;

/// The commands that a parser is configured with, in the order in which it
/// tries them. All of them are case-sensitive.
pub uninterp spec fn parser_commands(parser: Parser<'static>) -> Seq<Seq<char>>;

/// What `twilight_command_parser::Parser::parse` finds in `text` when it is
/// configured with these prefixes and these case-sensitive commands, each in
/// the order given: the command's name and the trimmed text after it.
pub uninterp spec fn parsed_command(
    prefixes: Seq<Seq<char>>,
    commands: Seq<Seq<char>>,
    text: Seq<char>,
) -> Option<(Seq<char>, Seq<char>)>;

/// The arguments that `twilight_command_parser::Arguments` yields for `text`,
/// from first to last.
pub uninterp spec fn argument_tokens(text: Seq<char>) -> Seq<Seq<char>>;

/// Whether any of the prefixes is an initial part of `text`.
pub open spec fn has_prefix(prefixes: Seq<Seq<char>>, text: Seq<char>) -> bool {
    exists|i: int| 0 <= i < prefixes.len() && begins_with(text, #[trigger] prefixes[i])
}

/// The view of a parse result.
pub open spec fn found_view(found: Option<(String, String)>) -> Option<(Seq<char>, Seq<char>)> {
    match found {
        Some(c) => Some((c.0@, c.1@)),
        None => None,
    }
}

/// `list` with `item` at its end, unless it holds `item` already.
pub open spec fn with_new(list: Seq<Seq<char>>, item: Seq<char>) -> Seq<Seq<char>> {
    if list.contains(item) {
        list
    } else {
        list.push(item)
    }
}

/// `Parser::new` of twilight_command_parser on an empty configuration
/// (`CommandParserConfig::new`): a parser without prefixes and commands.
#[verifier::external_body]
pub(crate) fn parser_new() -> (parser: Parser<'static>)
    ensures
        parser_prefixes(parser).len() == 0,
        parser_commands(parser).len() == 0,
{
    Parser::new(CommandParserConfig::new())
}

/// `CommandParserConfig::add_command` on the parser's configuration, with
/// case-sensitive matching: the command goes to the end of the list unless
/// the list holds it already. The prefixes stay.
#[verifier::external_body]
pub(crate) fn parser_add_command(parser: &mut Parser<'static>, name: &'static str)
    ensures
        parser_commands(*final(parser)) == with_new(parser_commands(*old(parser)), name@),
        parser_prefixes(*final(parser)) == parser_prefixes(*old(parser)),
{
    parser.config_mut().add_command(name, true);
}

/// `CommandParserConfig::add_prefix` on the parser's configuration: the
/// prefix goes to the end of the list unless the list holds it already. The
/// commands stay.
#[verifier::external_body]
pub(crate) fn parser_add_prefix(parser: &mut Parser<'static>, prefix: String)
    ensures
        parser_prefixes(*final(parser)) == with_new(parser_prefixes(*old(parser)), prefix@),
        parser_commands(*final(parser)) == parser_commands(*old(parser)),
{
    parser.config_mut().add_prefix(prefix);
}

/// `Parser::parse` of twilight_command_parser, with the command found given
/// as its name and its argument text. The parser looks for a configured
/// prefix at the start of the text and gives up without one; the name it
/// reports is one of the configured commands.
#[verifier::external_body]
pub(crate) fn parse_command(parser: &Parser<'static>, text: &str) -> (found: Option<
    (String, String),
>)
    ensures
        found_view(found) == parsed_command(
            parser_prefixes(*parser),
            parser_commands(*parser),
            text@,
        ),
        !has_prefix(parser_prefixes(*parser), text@) ==> found is None,
        found matches Some(c) ==> parser_commands(*parser).contains(c.0@),
{
    parser.parse(text).map(|c| (c.name.to_string(), c.arguments.as_str().to_string()))
}

/// Splits argument text with the iterator `Arguments` of twilight_command_parser.
#[verifier::external_body]
pub(crate) fn split_arguments(text: &str) -> (tokens: Vec<String>)
    ensures
        strings(tokens@) == argument_tokens(text@),
{
    Arguments::new(text).map(|t| t.to_string()).collect()
}

/// The arguments of a command, split on blanks; a quoted part is one argument.
pub fn arguments(text: &str) -> (tokens: Vec<String>)
    ensures
        strings(tokens@) == argument_tokens(text@),
{
    split_arguments(text)
}

/// Whether `word` is among `cmds`.
pub fn contains_word(cmds: &[&'static str], word: &str) -> (found: bool)
    ensures
        found == strs(cmds@).contains(word@),
{
    let mut i: usize = 0;
    while i < cmds.len()
        invariant
            i <= cmds.len(),
            forall|k: int| 0 <= k < i ==> strs(cmds@)[k] != word@,
        decreases cmds.len() - i,
    {
        if str_eq(cmds[i], word) {
            assert(strs(cmds@)[i as int] == word@);
            return true;
        }
        i += 1;
    }
    false
}

/// What `matches_command` decides once the text has been parsed: the argument
/// text when a human wrote the message and the command found is one of `cmds`.
pub open spec fn match_outcome(
    author_is_bot: bool,
    parsed: Option<(Seq<char>, Seq<char>)>,
    cmds: Seq<Seq<char>>,
) -> Option<Seq<char>> {
    if author_is_bot {
        None
    } else {
        match parsed {
            Some(c) => if cmds.contains(c.0) {
                Some(c.1)
            } else {
                None
            },
            None => None,
        }
    }
}

/// Decides on a parse result: see [`match_outcome`].
pub fn match_parsed(
    author_is_bot: bool,
    parsed: Option<(String, String)>,
    cmds: &[&'static str],
) -> (res: Result<String, CommandError>)
    ensures
        match match_outcome(author_is_bot, found_view(parsed), strs(cmds@)) {
            Some(args) => res matches Ok(a) && a@ == args,
            None => res matches Err(e) && e is NoMatch,
        },
{
    if author_is_bot {
        return Err(CommandError::NoMatch);
    }
    match parsed {
        Some(c) => {
            if contains_word(cmds, c.0.as_str()) {
                Ok(c.1)
            } else {
                Err(CommandError::NoMatch)
            }
        },
        None => Err(CommandError::NoMatch),
    }
}

/// Matches a message against the bot's prefixes and one command's words.
///
/// Gives the argument text when the message was written by a human, starts
/// with a configured prefix, and names one of `cmds` as its first word.
/// Everything else is `NoMatch`; in particular a bot's message and a text
/// without a configured prefix never match.
pub fn matches_command(bot: &Rikka, msg: &Message, cmds: &[&'static str]) -> (res: Result<
    String,
    CommandError,
>)
    requires
        bot.wf(),
    ensures
        match match_outcome(
            msg.author.bot,
            parsed_command(bot.prefixes_view(), bot.words(), msg.content@),
            strs(cmds@),
        ) {
            Some(args) => res matches Ok(a) && a@ == args,
            None => res matches Err(e) && e is NoMatch,
        },
        msg.author.bot ==> res is Err,
        !has_prefix(bot.prefixes_view(), msg.content@) ==> res is Err,
{
    if msg.author.bot {
        return Err(CommandError::NoMatch);
    }
    let found = bot.parse(msg.content.as_str());
    match_parsed(false, found, cmds)
}

} // verus!
