use crate::error::CommandError;
use crate::help::fields_view;
use crate::help::generate_help;
use crate::help::help_description;
use crate::help::help_fields;
use crate::help::CommandHelp;
use crate::help::HelpEmbed;
use crate::help::HelpSection;
use crate::model::Message;
use crate::parse::match_outcome;
use crate::parse::matches_command;
use crate::parse::parsed_command;
use crate::rikka::Command;
use crate::rikka::Rikka;
use crate::text::strs;
use vstd::prelude::*;

verus! {

/// Shows the overview of all commands.
pub struct Help;

impl Help {
    /// The overview, for a message that matches the word `help`.
    pub fn receive(&self, bot: &Rikka, msg: &Message) -> (res: Result<HelpEmbed, CommandError>)
        requires
            bot.wf(),
        ensures
            match match_outcome(
                msg.author.bot,
                parsed_command(bot.prefixes_view(), bot.words(), msg.content@),
                seq!["help"@],
            ) {
                Some(_) => res matches Ok(embed) && embed.description@ == help_description(
                    bot.prefix_view(),
                ) && fields_view(embed.fields@) == help_fields(
                    bot.helps_view(),
                    HelpSection::all(),
                ),
                None => res matches Err(e) && e is NoMatch,
            },
    {
        let mut words: Vec<&'static str> = Vec::new();
        words.push("help");
        assert(strs(words@) =~= seq!["help"@]);
        match matches_command(bot, msg, words.as_slice()) {
            Ok(_) => Ok(generate_help(bot)),
            Err(e) => Err(e),
        }
    }
}

impl Command for Help {
    fn name(&self) -> (name: &'static str)
        ensures
            name@ == "help"@,
    {
        "help"
    }

    fn help(&self, msg: Option<&Message>) -> (helps: Vec<CommandHelp>)
        ensures
            helps@.len() == 1,
            helps@[0].name@ == "help"@,
            helps@[0].aliases@.len() == 0,
    {
        let mut helps: Vec<CommandHelp> = Vec::new();
        helps.push(CommandHelp::named("help"));
        helps
    }
}

} // verus!
