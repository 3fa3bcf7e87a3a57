use crate::rikka::Rikka;
use vstd::prelude::*;
use vstd::string::StringExecFns;

verus! {

/// The heading under which a command is listed.
#[derive(Clone, Copy, Debug, PartialEq, Eq, Structural)]
pub enum HelpSection {
    General,
    Info,
    Moderation,
    Owner,
    Fun,
}

impl Default for HelpSection {
    fn default() -> (section: Self)
        ensures
            section == HelpSection::General,
    {
        HelpSection::General
    }
}

impl HelpSection {
    /// The heading's text.
    pub open spec fn title(self) -> Seq<char> {
        match self {
            HelpSection::General => "General"@,
            HelpSection::Info => "Info"@,
            HelpSection::Moderation => "Moderation"@,
            HelpSection::Owner => "Owner"@,
            HelpSection::Fun => "Fun"@,
        }
    }

    /// The heading's text.
    pub fn as_ref(&self) -> (text: &'static str)
        ensures
            text@ == self.title(),
    {
        match self {
            HelpSection::General => "General",
            HelpSection::Info => "Info",
            HelpSection::Moderation => "Moderation",
            HelpSection::Owner => "Owner",
            HelpSection::Fun => "Fun",
        }
    }

    /// Every section, in the order in which the overview lists them.
    pub open spec fn all() -> Seq<HelpSection> {
        seq![
            HelpSection::General,
            HelpSection::Info,
            HelpSection::Moderation,
            HelpSection::Owner,
            HelpSection::Fun,
        ]
    }

    /// Every section, in the order in which the overview lists them.
    pub fn iter() -> (sections: Vec<HelpSection>)
        ensures
            sections@ == Self::all(),
    {
        let mut v: Vec<HelpSection> = Vec::new();
        v.push(HelpSection::General);
        v.push(HelpSection::Info);
        v.push(HelpSection::Moderation);
        v.push(HelpSection::Owner);
        v.push(HelpSection::Fun);
        assert(v@ =~= Self::all());
        v
    }
}

/// What a command says about itself. Written once, when the command registers.
#[derive(Clone, Debug)]
pub struct CommandHelp {
    pub name: &'static str,
    pub aliases: &'static [&'static str],
    pub section: HelpSection,
    pub description: &'static str,
    pub usage: &'static str,
    pub detailed: &'static str,
    pub examples: &'static [&'static str],
}

impl Default for CommandHelp {
    fn default() -> (help: Self)
        ensures
            help.name@.len() == 0,
            help.aliases@.len() == 0,
            help.section == HelpSection::General,
            help.description@.len() == 0,
            help.usage@.len() == 0,
            help.detailed@.len() == 0,
            help.examples@.len() == 0,
    {
        proof {
            reveal_strlit("");
        }
        CommandHelp {
            name: "",
            aliases: &[],
            section: HelpSection::General,
            description: "",
            usage: "",
            detailed: "",
            examples: &[],
        }
    }
}

impl CommandHelp {
    /// Help for a command that has a name and nothing else to say.
    pub fn named(name: &'static str) -> (help: Self)
        ensures
            help.name@ == name@,
            help.aliases@.len() == 0,
            help.section == HelpSection::General,
    {
        let mut help = CommandHelp::default();
        help.name = name;
        help
    }

    /// The name and the aliases, name first: every word that calls the command.
    pub open spec fn words(&self) -> Seq<Seq<char>> {
        seq![self.name@] + crate::text::strs(self.aliases@)
    }
}

/// Every word that calls one of the commands described, in order.
pub open spec fn all_words(helps: Seq<CommandHelp>) -> Seq<Seq<char>>
    decreases helps.len(),
{
    if helps.len() == 0 {
        Seq::empty()
    } else {
        all_words(helps.drop_last()) + helps.last().words()
    }
}

/// One titled entry of the overview.
#[derive(Clone, Debug)]
pub struct HelpField {
    pub name: String,
    pub value: String,
}

/// The overview of all commands, ready to be put into an embed.
#[derive(Clone, Debug)]
pub struct HelpEmbed {
    pub author_name: &'static str,
    pub author_url: &'static str,
    pub icon_url: &'static str,
    pub title: &'static str,
    pub url: &'static str,
    pub description: String,
    pub fields: Vec<HelpField>,
}

/// The title and the text of each field.
pub open spec fn fields_view(fields: Seq<HelpField>) -> Seq<(Seq<char>, Seq<char>)> {
    fields.map_values(|f: HelpField| (f.name@, f.value@))
}

/// A command's name between backticks.
pub open spec fn quoted(name: Seq<char>) -> Seq<char> {
    "`"@ + name + "`"@
}

/// The names of the commands of one section, each between backticks, with a
/// comma and a blank between two of them.
pub open spec fn listing(helps: Seq<CommandHelp>, section: HelpSection) -> Seq<char>
    decreases helps.len(),
{
    if helps.len() == 0 {
        Seq::empty()
    } else {
        let before = listing(helps.drop_last(), section);
        let last = helps.last();
        if last.section != section {
            before
        } else if before.len() > 0 {
            before + ", "@ + quoted(last.name@)
        } else {
            quoted(last.name@)
        }
    }
}

/// One field for each of `sections` that has a command, in that order.
pub open spec fn help_fields(helps: Seq<CommandHelp>, sections: Seq<HelpSection>) -> Seq<
    (Seq<char>, Seq<char>),
>
    decreases sections.len(),
{
    if sections.len() == 0 {
        Seq::empty()
    } else {
        let before = help_fields(helps, sections.drop_last());
        let section = sections.last();
        if listing(helps, section).len() > 0 {
            before.push((section.title(), listing(helps, section)))
        } else {
            before
        }
    }
}

/// The line under the title: how to ask for details.
pub open spec fn help_description(prefix: Seq<char>) -> Seq<char> {
    "Type `"@ + prefix + "help [command]` for detailed usage information"@
}

/// Lists the commands of one section.
pub fn section_listing(helps: &Vec<CommandHelp>, section: HelpSection) -> (buf: String)
    ensures
        buf@ == listing(helps@, section),
{
    let mut buf = String::new();
    let mut i: usize = 0;
    assert(helps@.take(0) =~= Seq::empty());
    while i < helps.len()
        invariant
            i <= helps.len(),
            buf@ == listing(helps@.take(i as int), section),
        decreases helps.len() - i,
    {
        proof {
            assert(helps@.take(i + 1).drop_last() =~= helps@.take(i as int));
            assert(helps@.take(i + 1).last() == helps@[i as int]);
        }
        if helps[i].section == section {
            if !buf.as_str().is_empty() {
                buf.append(", ");
            }
            buf.append("`");
            buf.append(helps[i].name);
            buf.append("`");
            assert(buf@ =~= listing(helps@.take(i + 1), section));
        }
        i += 1;
    }
    assert(helps@.take(i as int) =~= helps@);
    buf
}

/// Builds the overview: a fixed heading, a hint that shows the prefix, and
/// one field per section that has a command, with the commands in order of
/// registration.
pub fn generate_help(bot: &Rikka) -> (embed: HelpEmbed)
    ensures
        embed.description@ == help_description(bot.prefix_view()),
        fields_view(embed.fields@) == help_fields(bot.helps_view(), HelpSection::all()),
        embed.author_name@ == "Rikka v3 Command Help"@,
        embed.author_url@ == "https://github.com/coadler/rikka.rs"@,
        embed.title@ == "Join our server for more information"@,
        embed.url@ == "https://discord.gg/Na6knqq"@,
        embed.icon_url@
            == "https://cdn.discordapp.com/avatars/319571495666057227/b14a77bf6f87d2ccc4a9c2d4e52cfe4b.webp?size=1024"@,
{
    let mut description = String::from_str("Type `");
    description.append(bot.prefix());
    description.append("help [command]` for detailed usage information");
    let sections = HelpSection::iter();
    let mut fields: Vec<HelpField> = Vec::new();
    let mut i: usize = 0;
    assert(sections@.take(0) =~= Seq::empty());
    assert(fields_view(fields@) =~= help_fields(bot.helps_view(), sections@.take(0)));
    while i < sections.len()
        invariant
            i <= sections.len(),
            fields_view(fields@) == help_fields(bot.helps_view(), sections@.take(i as int)),
        decreases sections.len() - i,
    {
        proof {
            assert(sections@.take(i + 1).drop_last() =~= sections@.take(i as int));
            assert(sections@.take(i + 1).last() == sections@[i as int]);
        }
        let section = sections[i];
        let buf = section_listing(bot.helps(), section);
        if !buf.as_str().is_empty() {
            let ghost before = fields@;
            fields.push(HelpField { name: String::from_str(section.as_ref()), value: buf });
            assert(fields_view(fields@) =~= fields_view(before).push(
                (section.title(), listing(bot.helps_view(), section)),
            ));
        }
        i += 1;
    }
    assert(sections@.take(i as int) =~= sections@);
    HelpEmbed {
        author_name: "Rikka v3 Command Help",
        author_url: "https://github.com/coadler/rikka.rs",
        icon_url: "https://cdn.discordapp.com/avatars/319571495666057227/b14a77bf6f87d2ccc4a9c2d4e52cfe4b.webp?size=1024",
        title: "Join our server for more information",
        url: "https://discord.gg/Na6knqq",
        description,
        fields,
    }
}

} // verus!
