use vstd::prelude::*;
use vstd::string::StringExecFns;

verus! {

/// Why a command produced no reply of its own.
pub enum CommandError {
    /// The text was not meant for this command. This is the normal outcome for
    /// most commands on most messages and is never reported.
    NoMatch,
    /// Anything else; the message is shown to the user.
    Generic(String),
}

/// What a command hands back: a reply to send, nothing, or an error.
pub type CommandResult = Result<Option<String>, CommandError>;

/// A mistake in the start-up configuration. The process must not start with one.
#[derive(Debug)]
pub enum ConfigError {
    /// A command name or alias is already taken.
    DuplicateAlias,
    /// The secret is not valid hexadecimal.
    MalformedSecret,
    /// The secret does not decode to exactly 32 bytes.
    SecretLength,
}

impl CommandError {
    /// The text shown for this error.
    pub fn message(&self) -> (text: String)
        ensures
            text@ == self.message_spec(),
    {
        match self {
            CommandError::NoMatch => "command doesn't match".to_owned(),
            CommandError::Generic(m) => m.clone(),
        }
    }

    /// The text shown for this error.
    pub open spec fn message_spec(&self) -> Seq<char> {
        match self {
            CommandError::NoMatch => "command doesn't match"@,
            CommandError::Generic(m) => m@,
        }
    }

    /// Puts a context in front of an error message, as `context: cause`.
    pub fn context(self, what: &str) -> (wrapped: CommandError)
        ensures
            wrapped is Generic,
            wrapped.message_spec() == crate::text::concat3(what@, ": "@, self.message_spec()),
    {
        let inner = self.message();
        let mut out = what.to_owned();
        out.append(": ");
        out.append(inner.as_str());
        CommandError::Generic(out)
    }
}

} // verus!
