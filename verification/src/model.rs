use vstd::prelude::*;

verus! {

/// An account, as far as the bot looks at it.
#[derive(Clone, Debug)]
pub struct User {
    pub id: u64,
    pub name: String,
    /// The four digits after the name.
    pub discriminator: String,
    pub avatar: Option<String>,
    /// Set for automated accounts; such authors never reach a command.
    pub bot: bool,
}

/// A file that hangs on a message.
#[derive(Clone, Debug)]
pub struct Attachment {
    pub id: u64,
    /// Where the file can be fetched from.
    pub proxy_url: String,
}

/// A message at the moment it was created. This is also what the audit log keeps.
#[derive(Clone, Debug)]
pub struct Message {
    pub id: u64,
    pub channel_id: u64,
    pub guild_id: Option<u64>,
    pub author: User,
    pub content: String,
    pub attachments: Vec<Attachment>,
}

/// An edit of a message.
#[derive(Clone, Debug)]
pub struct MessageUpdate {
    pub id: u64,
    pub guild_id: Option<u64>,
    /// The new text, where the edit carries one.
    pub content: Option<String>,
}

/// The removal of a message.
#[derive(Clone, Debug)]
pub struct MessageDelete {
    pub id: u64,
    pub guild_id: Option<u64>,
}

/// What arrives from the gateway, reduced to what the bot decides on.
#[derive(Clone, Debug)]
pub enum Event {
    MessageCreate(Message),
    MessageUpdate(MessageUpdate),
    MessageDelete(MessageDelete),
    /// A guild became available; the value is its id.
    GuildCreate(u64),
    /// Any other event. Commands still see that something arrived.
    Other,
}

} // verus!
