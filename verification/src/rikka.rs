use crate::error::CommandError;
use crate::error::CommandResult;
use crate::error::ConfigError;
use crate::help::all_words;
use crate::help::CommandHelp;
use crate::model::Event;
use crate::model::Message;
use crate::parse::parse_command;
use crate::parse::parser_add_command;
use crate::parse::parser_add_prefix;
use crate::parse::parser_commands;
use crate::parse::parser_new;
use crate::parse::parser_prefixes;
use crate::parse::found_view;
use crate::parse::has_prefix;
use crate::parse::parsed_command;
use crate::parse::with_new;
use crate::text::str_eq;
use crate::text::strings;
use crate::text::strs;
use twilight_command_parser::Parser;
use vstd::prelude::*;
use vstd::string::StringExecFns;

verus! {

/// What every command offers to the registry.
pub trait Command {
    /// The name under which the command shows up in diagnostics.
    fn name(&self) -> &'static str;

    /// The help entries of the command; each names the words that call it.
    fn help(&self, msg: Option<&Message>) -> Vec<CommandHelp>;
}

/// The registry: the commands with their words, and the prefixes.
///
/// It is filled before the first event is handled and only read afterwards.
pub struct Rikka {
    /// The help entries of all commands, in order of registration.
    pub(crate) helps: Vec<CommandHelp>,
    /// Every word that calls a command, in order of registration.
    pub(crate) names: Vec<&'static str>,
    /// For each word, the index of the command that registered it.
    pub(crate) owners: Vec<usize>,
    /// One diagnostic name per registered command.
    pub(crate) cmds: Vec<&'static str>,
    /// The prefix registered last; the help text shows it.
    pub(crate) prefix: String,
    /// Every prefix registered so far, each once.
    pub(crate) prefixes: Vec<String>,
    /// The parser, configured with the prefixes and the words.
    pub(crate) parser: Parser<'static>,
}

/// One thing to do for an event. Each is carried out on its own: none waits
/// for another, and a failure of one stops no other.
#[derive(Clone, Copy, Debug, PartialEq, Eq, Structural)]
pub enum Action {
    /// Ask the gateway for the members of the guild.
    RequestMembers(u64),
    /// Hand the message to the command with this index.
    Receive(usize),
    /// Hand the raw event to the command with this index.
    ReceiveRaw(usize),
}

/// What to do with the outcome of a command.
#[derive(Clone, Debug)]
pub enum Reply {
    /// Send this text to the channel the message came from.
    Send(String),
    /// Nothing to do.
    Nothing,
    /// The command failed: log the error and send this text to the channel.
    Report(String),
}

impl Reply {
    /// The text to send, if any, and whether it is a reply (`true`) or the
    /// report of a failure (`false`).
    pub open spec fn view(&self) -> Option<(bool, Seq<char>)> {
        match self {
            Reply::Send(s) => Some((true, s@)),
            Reply::Nothing => None,
            Reply::Report(s) => Some((false, s@)),
        }
    }
}

/// Where the event loop stands in the life of one connection.
#[derive(Clone, Copy, Debug, PartialEq, Eq, Structural)]
pub enum Lifecycle {
    /// Nothing has happened yet.
    Idle,
    /// The gateway is reached; no event has been asked for.
    Connected,
    /// Events are taken, in the order in which they arrive.
    Streaming,
    /// No new event is taken; the work already started runs to its end.
    ShuttingDown,
    /// The loop has failed.
    Faulted,
}

/// What moves the event loop from one state to the next.
#[derive(Clone, Copy, Debug, PartialEq, Eq, Structural)]
pub enum Signal {
    Connect,
    Stream,
    Shutdown,
    Fault,
}

impl Lifecycle {
    /// The state after a signal. A signal that does not fit the state changes nothing.
    pub open spec fn next(self, signal: Signal) -> Lifecycle {
        match (self, signal) {
            (Lifecycle::Idle, Signal::Connect) => Lifecycle::Connected,
            (Lifecycle::Connected, Signal::Stream) => Lifecycle::Streaming,
            (Lifecycle::Streaming, Signal::Shutdown) => Lifecycle::ShuttingDown,
            (Lifecycle::Streaming, Signal::Fault) => Lifecycle::Faulted,
            _ => self,
        }
    }

    /// How far a state is from the start. No signal ever lowers it.
    pub open spec fn rank(self) -> nat {
        match self {
            Lifecycle::Idle => 0,
            Lifecycle::Connected => 1,
            Lifecycle::Streaming => 2,
            Lifecycle::ShuttingDown => 3,
            Lifecycle::Faulted => 3,
        }
    }

    /// Moves to the next state: see [`Lifecycle::next`].
    pub fn step(self, signal: Signal) -> (after: Lifecycle)
        ensures
            after == self.next(signal),
    {
        match (self, signal) {
            (Lifecycle::Idle, Signal::Connect) => Lifecycle::Connected,
            (Lifecycle::Connected, Signal::Stream) => Lifecycle::Streaming,
            (Lifecycle::Streaming, Signal::Shutdown) => Lifecycle::ShuttingDown,
            (Lifecycle::Streaming, Signal::Fault) => Lifecycle::Faulted,
            _ => self,
        }
    }

    /// Whether events are taken in this state: only while streaming.
    pub fn accepts_events(self) -> (taken: bool)
        ensures
            taken == (self == Lifecycle::Streaming),
    {
        match self {
            Lifecycle::Streaming => true,
            _ => false,
        }
    }
}

/// The loop only moves forward, and once it shuts down or fails it stays so.
pub proof fn lemma_lifecycle_forward(state: Lifecycle, signal: Signal)
    ensures
        state.next(signal).rank() >= state.rank(),
        state == Lifecycle::ShuttingDown || state == Lifecycle::Faulted ==> state.next(signal)
            == state,
        state.next(signal) == Lifecycle::Streaming && state != Lifecycle::Streaming ==> state
            == Lifecycle::Connected,
{
}

/// `ReceiveRaw(0)`, ..., `ReceiveRaw(n - 1)`.
pub open spec fn raw_actions(n: nat) -> Seq<Action> {
    Seq::new(n, |i: int| Action::ReceiveRaw(i as usize))
}

impl Rikka {
    /// The words that call a command, in order of registration.
    pub closed spec fn words(&self) -> Seq<Seq<char>> {
        strs(self.names@)
    }

    /// The configured prefixes, in order of registration.
    pub closed spec fn prefixes_view(&self) -> Seq<Seq<char>> {
        strings(self.prefixes@)
    }

    /// The prefix registered last; empty before the first.
    pub closed spec fn prefix_view(&self) -> Seq<char> {
        self.prefix@
    }

    /// The help entries of all commands, in order of registration.
    pub closed spec fn helps_view(&self) -> Seq<CommandHelp> {
        self.helps@
    }

    /// For each word, the index of the command that registered it.
    pub closed spec fn owners_view(&self) -> Seq<usize> {
        self.owners@
    }

    /// The diagnostic names of the commands, in order of registration.
    pub closed spec fn commands_view(&self) -> Seq<&'static str> {
        self.cmds@
    }

    /// The registry is consistent: no word is taken twice, the words are
    /// those of the help entries, every word belongs to a registered
    /// command, and the parser knows exactly the prefixes and the words.
    pub closed spec fn wf(&self) -> bool {
        &&& self.words().no_duplicates()
        &&& self.words() == all_words(self.helps@)
        &&& self.owners@.len() == self.names@.len()
        &&& forall|k: int| 0 <= k < self.owners@.len() ==> (#[trigger] self.owners@[k]) < self.cmds@.len()
        &&& parser_commands(self.parser) == self.words()
        &&& parser_prefixes(self.parser) == self.prefixes_view()
    }

    /// What a consistent registry guarantees to its readers.
    pub proof fn lemma_wf(&self)
        requires
            self.wf(),
        ensures
            self.words().no_duplicates(),
            self.words() == all_words(self.helps_view()),
            self.owners_view().len() == self.words().len(),
            forall|k: int|
                0 <= k < self.owners_view().len() ==> (#[trigger] self.owners_view()[k])
                    < self.commands_view().len(),
    {
    }

    /// The help entries of all commands.
    pub fn helps(&self) -> (helps: &Vec<CommandHelp>)
        ensures
            helps@ == self.helps_view(),
    {
        &self.helps
    }

    /// Every word that calls a command.
    pub fn names(&self) -> (names: &Vec<&'static str>)
        ensures
            strs(names@) == self.words(),
    {
        &self.names
    }

    /// For each word, the index of the command that registered it.
    pub fn owners(&self) -> (owners: &Vec<usize>)
        ensures
            owners@ == self.owners_view(),
    {
        &self.owners
    }

    /// The diagnostic names of the commands.
    pub fn commands(&self) -> (cmds: &Vec<&'static str>)
        ensures
            cmds@ == self.commands_view(),
    {
        &self.cmds
    }

    /// The prefix registered last.
    pub fn prefix(&self) -> (prefix: &str)
        ensures
            prefix@ == self.prefix_view(),
    {
        self.prefix.as_str()
    }

    /// Every prefix registered so far.
    pub fn prefixes(&self) -> (prefixes: &Vec<String>)
        ensures
            strings(prefixes@) == self.prefixes_view(),
    {
        &self.prefixes
    }

    /// Looks for a command at the start of a text: a registered prefix, then
    /// a registered word. Gives the word and the trimmed text after it.
    pub fn parse(&self, text: &str) -> (found: Option<(String, String)>)
        requires
            self.wf(),
        ensures
            found_view(found) == parsed_command(
                self.prefixes_view(),
                self.words(),
                text@,
            ),
            !has_prefix(self.prefixes_view(), text@) ==> found is None,
            found matches Some(c) ==> self.words().contains(c.0@),
    {
        parse_command(&self.parser, text)
    }

    /// An empty registry.
    pub fn new() -> (bot: Rikka)
        ensures
            bot.wf(),
            bot.helps_view().len() == 0,
            bot.words().len() == 0,
            bot.commands_view().len() == 0,
            bot.prefix_view().len() == 0,
            bot.prefixes_view().len() == 0,
    {
        let bot = Rikka {
            helps: Vec::new(),
            names: Vec::new(),
            owners: Vec::new(),
            cmds: Vec::new(),
            prefix: String::new(),
            prefixes: Vec::new(),
            parser: parser_new(),
        };
        assert(bot.prefixes_view() =~= Seq::empty());
        assert(parser_commands(bot.parser) =~= Seq::empty());
        assert(parser_prefixes(bot.parser) =~= Seq::empty());
        assert(bot.words() =~= Seq::empty());
        assert(all_words(bot.helps@) =~= Seq::empty());
        bot
    }

    /// Adds a prefix, unless it is registered already. The one given last is
    /// the one the help text shows.
    pub fn register_prefix(&mut self, pre: &str)
        requires
            old(self).wf(),
        ensures
            final(self).wf(),
            final(self).prefix_view() == pre@,
            final(self).prefixes_view() == with_new(old(self).prefixes_view(), pre@),
            final(self).helps_view() == old(self).helps_view(),
            final(self).words() == old(self).words(),
            final(self).owners_view() == old(self).owners_view(),
            final(self).commands_view() == old(self).commands_view(),
    {
        self.prefix = String::from_str(pre);
        let mut known = false;
        let mut i: usize = 0;
        while i < self.prefixes.len()
            invariant
                i <= self.prefixes.len(),
                known == exists|k: int| 0 <= k < i && #[trigger] self.prefixes_view()[k] == pre@,
            decreases self.prefixes.len() - i,
        {
            if str_eq(self.prefixes[i].as_str(), pre) {
                assert(self.prefixes_view()[i as int] == pre@);
                known = true;
            }
            i += 1;
        }
        assert(known == self.prefixes_view().contains(pre@));
        if !known {
            self.prefixes.push(String::from_str(pre));
            assert(self.prefixes_view() =~= old(self).prefixes_view().push(pre@));
        }
        parser_add_prefix(&mut self.parser, String::from_str(pre));
    }
}

/// The words of `helps`, one after the other.
pub fn collect_words(helps: &Vec<CommandHelp>) -> (words: Vec<&'static str>)
    ensures
        strs(words@) == all_words(helps@),
{
    let mut words: Vec<&'static str> = Vec::new();
    let mut i: usize = 0;
    assert(strs(words@) =~= all_words(helps@.take(0)));
    while i < helps.len()
        invariant
            i <= helps.len(),
            strs(words@) == all_words(helps@.take(i as int)),
        decreases helps.len() - i,
    {
        let ghost before = words@;
        words.push(helps[i].name);
        let mut j: usize = 0;
        assert(strs(words@) =~= strs(before) + seq![helps[i as int].name@] + strs(
            helps[i as int].aliases@.take(0),
        ));
        while j < helps[i].aliases.len()
            invariant
                i < helps.len(),
                j <= helps[i as int].aliases.len(),
                strs(words@) == strs(before) + seq![helps[i as int].name@] + strs(
                    helps[i as int].aliases@.take(j as int),
                ),
            decreases helps[i as int].aliases.len() - j,
        {
            let ghost prev = words@;
            let ghost al = helps[i as int].aliases@;
            words.push(helps[i].aliases[j]);
            assert(strs(words@) =~= strs(prev).push(al[j as int]@));
            assert(al.take(j + 1) =~= al.take(j as int).push(al[j as int]));
            assert(strs(al.take(j + 1)) =~= strs(al.take(j as int)).push(al[j as int]@));
            assert(strs(words@) =~= strs(before) + seq![helps[i as int].name@] + strs(
                helps[i as int].aliases@.take(j + 1),
            ));
            j += 1;
        }
        proof {
            let h = helps@[i as int];
            assert(h.aliases@.take(j as int) =~= h.aliases@);
            assert(helps@.take(i + 1).drop_last() =~= helps@.take(i as int));
            assert(helps@.take(i + 1).last() == h);
            assert(strs(words@) =~= all_words(helps@.take(i as int)) + h.words());
        }
        i += 1;
    }
    assert(helps@.take(i as int) =~= helps@);
    words
}

/// Whether no text occurs twice in `words`.
pub fn all_distinct(words: &Vec<&'static str>) -> (distinct: bool)
    ensures
        distinct == strs(words@).no_duplicates(),
{
    let mut i: usize = 0;
    while i < words.len()
        invariant
            i <= words.len(),
            forall|a: int, b: int|
                0 <= a < i && 0 <= b < words.len() && a != b ==> strs(words@)[a] != strs(
                    words@,
                )[b],
        decreases words.len() - i,
    {
        let mut j: usize = 0;
        while j < words.len()
            invariant
                i < words.len(),
                j <= words.len(),
                forall|b: int| 0 <= b < j && b != i ==> strs(words@)[i as int] != strs(words@)[b],
            decreases words.len() - j,
        {
            if j != i && str_eq(words[i], words[j]) {
                assert(strs(words@)[i as int] == strs(words@)[j as int]);
                return false;
            }
            j += 1;
        }
        i += 1;
    }
    true
}

impl Rikka {
    /// Registers a command under `name` with the help entries `helps`.
    ///
    /// A word may belong to one command only. Where a word of `helps` is
    /// already taken, or occurs twice in `helps`, nothing is registered and
    /// the error says so.
    pub fn register(&mut self, name: &'static str, helps: Vec<CommandHelp>) -> (res: Result<
        (),
        ConfigError,
    >)
        requires
            old(self).wf(),
        ensures
            final(self).wf(),
            res is Ok <==> (old(self).words() + all_words(helps@)).no_duplicates(),
            res matches Err(e) ==> e is DuplicateAlias && *final(self) == *old(self),
            res is Ok ==> {
                &&& final(self).words() == old(self).words() + all_words(helps@)
                &&& final(self).helps_view() == old(self).helps_view() + helps@
                &&& final(self).commands_view() == old(self).commands_view().push(name)
                &&& final(self).owners_view() == old(self).owners_view() + Seq::new(
                    all_words(helps@).len(),
                    |k: int| old(self).commands_view().len() as usize,
                )
                &&& final(self).prefix_view() == old(self).prefix_view()
                &&& final(self).prefixes_view() == old(self).prefixes_view()
            },
    {
        let fresh = collect_words(&helps);
        let mut combined: Vec<&'static str> = Vec::new();
        let mut i: usize = 0;
        while i < self.names.len()
            invariant
                i <= self.names.len(),
                combined@ == self.names@.take(i as int),
            decreases self.names.len() - i,
        {
            combined.push(self.names[i]);
            assert(combined@ =~= self.names@.take(i + 1));
            i += 1;
        }
        assert(self.names@.take(i as int) =~= self.names@);
        let mut owners: Vec<usize> = Vec::new();
        let mut i: usize = 0;
        while i < self.owners.len()
            invariant
                i <= self.owners.len(),
                owners@ == self.owners@.take(i as int),
            decreases self.owners.len() - i,
        {
            owners.push(self.owners[i]);
            assert(owners@ =~= self.owners@.take(i + 1));
            i += 1;
        }
        assert(self.owners@.take(i as int) =~= self.owners@);
        let index = self.cmds.len();
        let mut k: usize = 0;
        while k < fresh.len()
            invariant
                k <= fresh.len(),
                combined@ == self.names@ + fresh@.take(k as int),
                owners@ == self.owners@ + Seq::new(k as nat, |x: int| index),
            decreases fresh.len() - k,
        {
            combined.push(fresh[k]);
            owners.push(index);
            assert(combined@ =~= self.names@ + fresh@.take(k + 1));
            assert(owners@ =~= self.owners@ + Seq::new((k + 1) as nat, |x: int| index));
            k += 1;
        }
        assert(fresh@.take(k as int) =~= fresh@);
        assert(strs(combined@) =~= self.words() + all_words(helps@));
        if !all_distinct(&combined) {
            return Err(ConfigError::DuplicateAlias);
        }
        proof {
            lemma_all_words_concat(self.helps@, helps@);
        }
        let mut k: usize = 0;
        while k < fresh.len()
            invariant
                k <= fresh.len(),
                strs(combined@).no_duplicates(),
                combined@ == old(self).names@ + fresh@,
                parser_commands(self.parser) == strs(old(self).names@ + fresh@.take(k as int)),
                parser_prefixes(self.parser) == parser_prefixes(old(self).parser),
                self.names == old(self).names,
                self.helps == old(self).helps,
                self.owners == old(self).owners,
                self.cmds == old(self).cmds,
                self.prefix == old(self).prefix,
                self.prefixes == old(self).prefixes,
            decreases fresh.len() - k,
        {
            proof {
                let sofar = strs(old(self).names@ + fresh@.take(k as int));
                let all = strs(combined@);
                let at = old(self).names@.len() + k;
                assert(all[at] == fresh@[k as int]@);
                assert forall|x: int| 0 <= x < sofar.len() implies sofar[x] != fresh@[k as int]@ by {
                    assert(sofar[x] == all[x]);
                }
                assert(!sofar.contains(fresh@[k as int]@));
                assert(strs(old(self).names@ + fresh@.take(k + 1)) =~= sofar.push(
                    fresh@[k as int]@,
                ));
            }
            parser_add_command(&mut self.parser, fresh[k]);
            k += 1;
        }
        assert(fresh@.take(k as int) =~= fresh@);
        let mut helps = helps;
        self.helps.append(&mut helps);
        self.names = combined;
        self.owners = owners;
        self.cmds.push(name);
        Ok(())
    }

    /// Registers a command with the help entries it reports.
    ///
    /// Fails, and changes nothing, where one of its words is already taken.
    pub fn register_command<T: Command>(&mut self, cmd: &T) -> (res: Result<(), ConfigError>)
        requires
            old(self).wf(),
        ensures
            final(self).wf(),
            res matches Err(e) ==> e is DuplicateAlias && *final(self) == *old(self),
            res is Ok ==> {
                &&& final(self).commands_view().len() == old(self).commands_view().len() + 1
                &&& final(self).words().len() >= old(self).words().len()
                &&& final(self).words().take(old(self).words().len() as int) == old(self).words()
                &&& final(self).prefix_view() == old(self).prefix_view()
                &&& final(self).prefixes_view() == old(self).prefixes_view()
            },
    {
        let helps = cmd.help(None);
        let res = self.register(cmd.name(), helps);
        proof {
            if res is Ok {
                assert(self.words().take(old(self).words().len() as int) =~= old(self).words());
            }
        }
        res
    }

    /// The index of the command that owns `word`, if any does.
    pub open spec fn owner_of(&self, word: Seq<char>) -> Option<usize> {
        if self.words().contains(word) {
            Some(self.owners_view()[self.words().index_of(word)])
        } else {
            None
        }
    }

    /// The command that a message is meant for, given what the parser found
    /// in it: none for a bot's message or where nothing was found.
    pub open spec fn target(&self, author_is_bot: bool, parsed: Option<(Seq<char>, Seq<char>)>) -> Option<
        usize,
    > {
        if author_is_bot {
            None
        } else {
            match parsed {
                Some(c) => self.owner_of(c.0),
                None => None,
            }
        }
    }

    /// Finds the command that owns `word`.
    pub fn find_owner(&self, word: &str) -> (owner: Option<usize>)
        requires
            self.wf(),
        ensures
            owner == self.owner_of(word@),
            owner matches Some(c) ==> c < self.commands_view().len(),
    {
        let mut k: usize = 0;
        while k < self.names.len()
            invariant
                self.wf(),
                k <= self.names.len(),
                forall|x: int| 0 <= x < k ==> self.words()[x] != word@,
            decreases self.names.len() - k,
        {
            if str_eq(self.names[k], word) {
                proof {
                    let w = self.words();
                    assert(w[k as int] == word@);
                    let idx = w.index_of(word@);
                    assert(0 <= idx < w.len() && w[idx] == word@);
                    assert(idx == k);
                }
                return Some(self.owners[k]);
            }
            k += 1;
        }
        None
    }

    /// What an event makes the bot do, as a function of the event and of what
    /// the parser found in a created message.
    pub open spec fn plan(&self, event: Event, parsed: Option<(Seq<char>, Seq<char>)>) -> Seq<
        Action,
    > {
        let first = match event {
            Event::GuildCreate(g) => seq![Action::RequestMembers(g)],
            Event::MessageCreate(m) => match self.target(m.author.bot, parsed) {
                Some(c) => seq![Action::Receive(c)],
                None => Seq::empty(),
            },
            _ => Seq::empty(),
        };
        first + raw_actions(self.commands_view().len())
    }

    /// Plans the work for one event, given what the parser found in it.
    pub fn dispatch_parsed(&self, event: &Event, parsed: Option<(String, String)>) -> (actions:
        Vec<Action>)
        requires
            self.wf(),
        ensures
            actions@ == self.plan(*event, found_view(parsed)),
    {
        let mut actions: Vec<Action> = Vec::new();
        match event {
            Event::GuildCreate(g) => {
                actions.push(Action::RequestMembers(*g));
            },
            Event::MessageCreate(m) => {
                if !m.author.bot {
                    match parsed {
                        Some(c) => {
                            match self.find_owner(c.0.as_str()) {
                                Some(owner) => {
                                    actions.push(Action::Receive(owner));
                                },
                                None => {},
                            }
                        },
                        None => {},
                    }
                }
            },
            _ => {},
        }
        let ghost first = actions@;
        let mut i: usize = 0;
        assert(actions@ =~= first + raw_actions(0));
        while i < self.cmds.len()
            invariant
                i <= self.cmds.len(),
                actions@ == first + raw_actions(i as nat),
            decreases self.cmds.len() - i,
        {
            actions.push(Action::ReceiveRaw(i));
            assert(actions@ =~= first + raw_actions((i + 1) as nat));
            i += 1;
        }
        actions
    }

    /// Plans the work for one event in a given state of the loop: outside
    /// of streaming no event is taken, so there is nothing to do.
    pub fn handle(&self, state: Lifecycle, event: &Event) -> (actions: Vec<Action>)
        requires
            self.wf(),
        ensures
            state != Lifecycle::Streaming ==> actions@.len() == 0,
            state == Lifecycle::Streaming ==> actions@ == self.plan(
                *event,
                match *event {
                    Event::MessageCreate(m) => parsed_command(
                        self.prefixes_view(),
                        self.words(),
                        m.content@,
                    ),
                    _ => None,
                },
            ),
    {
        if state.accepts_events() {
            self.dispatch(event)
        } else {
            Vec::new()
        }
    }

    /// Plans the work for one event.
    ///
    /// A created message goes to the one command that owns its first word, if
    /// a human wrote it and it starts with a prefix; a new guild has its
    /// members requested; and every command sees every event raw, in order
    /// of registration.
    pub fn dispatch(&self, event: &Event) -> (actions: Vec<Action>)
        requires
            self.wf(),
        ensures
            actions@ == self.plan(
                *event,
                match *event {
                    Event::MessageCreate(m) => parsed_command(
                        self.prefixes_view(),
                        self.words(),
                        m.content@,
                    ),
                    _ => None,
                },
            ),
    {
        let parsed = match event {
            Event::MessageCreate(m) => parse_command(&self.parser, m.content.as_str()),
            _ => None,
        };
        self.dispatch_parsed(event, parsed)
    }
}

/// The text that reports a failed command to the channel.
pub open spec fn error_report(message: Seq<char>) -> Seq<char> {
    "```An error occured: "@ + message + "```"@
}

/// Decides what to do with the outcome of a command: a reply is sent, a
/// failure is reported, and neither "no reply" nor "no match" does anything.
pub fn reply_for(result: &CommandResult) -> (reply: Reply)
    ensures
        reply@ == match *result {
            Ok(Some(text)) => Some((true, text@)),
            Ok(None) => None,
            Err(CommandError::NoMatch) => None,
            Err(CommandError::Generic(m)) => Some((false, error_report(m@))),
        },
{
    match result {
        Ok(Some(text)) => Reply::Send(text.clone()),
        Ok(None) => Reply::Nothing,
        Err(CommandError::NoMatch) => Reply::Nothing,
        Err(CommandError::Generic(m)) => {
            let mut out = String::from_str("```An error occured: ");
            out.append(m.as_str());
            out.append("```");
            Reply::Report(out)
        },
    }
}

/// The words of two lists of help entries, one after the other, are the words
/// of the joined list.
pub proof fn lemma_all_words_concat(a: Seq<CommandHelp>, b: Seq<CommandHelp>)
    ensures
        all_words(a + b) == all_words(a) + all_words(b),
    decreases b.len(),
{
    if b.len() == 0 {
        assert(a + b =~= a);
        assert(all_words(a) + all_words(b) =~= all_words(a));
    } else {
        lemma_all_words_concat(a, b.drop_last());
        assert((a + b).drop_last() =~= a + b.drop_last());
        assert((a + b).last() == b.last());
        assert(all_words(a + b) =~= all_words(a) + all_words(b));
    }
}

/// Keeps a value for the rest of the process and hands out a shared reference to it.
pub fn leak<T>(cmd: T) -> (kept: &'static T)
    ensures
        *kept == cmd,
{
    leak_box(Box::new(cmd))
}

/// `Box::leak`: the reference points at the value that was in the box.
#[verifier::external_body]
fn leak_box<T>(b: Box<T>) -> (kept: &'static T)
    ensures
        *kept == *b,
{
    Box::leak(b)
}

} // verus!
