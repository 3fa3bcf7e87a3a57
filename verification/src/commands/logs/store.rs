use crate::commands::logs::encrypt::le_bytes;
use crate::commands::logs::encrypt::le_number;
use vstd::bytes::lemma_auto_spec_u64_to_from_le_bytes;
use vstd::bytes::spec_u64_from_le_bytes;
use vstd::bytes::spec_u64_to_le_bytes;
use vstd::prelude::*;
use vstd::slice::slice_subrange;

verus! {

/// The two ranges of the log's keyspace. They share no key.
#[derive(Clone, Copy, Debug, PartialEq, Eq, Hash, Structural)]
pub enum Subspace {
    /// Guild id to the channel that receives the guild's log.
    MessagesEnabled,
    /// Message id to the message's snapshot.
    MessageLog,
}

/// A key of the log: a range and the id of a guild or of a message.
#[derive(Clone, Copy, Debug, PartialEq, Eq, Hash, Structural)]
pub struct LogKey {
    pub subspace: Subspace,
    pub id: u64,
}

/// A point write: whatever the key held before, it holds `value` afterwards.
#[derive(Clone, Debug)]
pub struct StoreWrite {
    pub key: LogKey,
    pub value: Vec<u8>,
}

/// The contents of the log's keyspace.
pub type LogState = Map<LogKey, Seq<u8>>;

impl Subspace {
    /// The number that stands for the range inside a key.
    pub fn id(self) -> (n: u16)
        ensures
            n == range_number(self),
    {
        match self {
            Subspace::MessagesEnabled => 1,
            Subspace::MessageLog => 2,
        }
    }
}

/// The name under which all keys of the log live: the four letters `logs`.
pub fn subspace_prefix() -> (name: &'static str)
    ensures
        name@ == "logs"@,
{
    "logs"
}

/// The key of a guild's configuration.
pub open spec fn config_key(gid: u64) -> LogKey {
    LogKey { subspace: Subspace::MessagesEnabled, id: gid }
}

/// The key of a message's snapshot.
pub open spec fn message_key(mid: u64) -> LogKey {
    LogKey { subspace: Subspace::MessageLog, id: mid }
}

/// The state after a point write.
pub open spec fn written(state: LogState, key: LogKey, value: Seq<u8>) -> LogState {
    state.insert(key, value)
}

/// The channel that a configuration value names: its first eight bytes as a
/// number, lowest byte first. A shorter value names none.
pub open spec fn decoded_channel(value: Seq<u8>) -> Option<u64> {
    if value.len() >= 8 {
        Some(spec_u64_from_le_bytes(value.subrange(0, 8)))
    } else {
        None
    }
}

/// What a point read of `key` gives.
pub open spec fn read(state: LogState, key: LogKey) -> Option<Seq<u8>> {
    if state.contains_key(key) {
        Some(state[key])
    } else {
        None
    }
}

/// The channel that receives the log of a guild, if logging is enabled for it.
pub open spec fn enabled_in(state: LogState, gid: u64) -> Option<u64> {
    match read(state, config_key(gid)) {
        Some(value) => decoded_channel(value),
        None => None,
    }
}

/// The state after a sequence of point writes, the first one first.
pub open spec fn replay(state: LogState, writes: Seq<(LogKey, Seq<u8>)>) -> LogState
    decreases writes.len(),
{
    if writes.len() == 0 {
        state
    } else {
        written(replay(state, writes.drop_last()), writes.last().0, writes.last().1)
    }
}

/// A byte string inside a tuple: every zero byte is followed by `0xff`.
pub open spec fn escaped(v: Seq<u8>) -> Seq<u8>
    decreases v.len(),
{
    if v.len() == 0 {
        Seq::empty()
    } else if v.last() == 0 {
        escaped(v.drop_last()) + seq![0u8, 0xffu8]
    } else {
        escaped(v.drop_last()).push(v.last())
    }
}

/// A byte string as a tuple element: the code `0x01`, the escaped bytes, and a closing zero.
pub open spec fn packed_bytes(v: Seq<u8>) -> Seq<u8> {
    seq![1u8] + escaped(v) + seq![0u8]
}

/// A number in as few bytes as it needs, highest first; none for zero.
pub open spec fn big_endian(n: nat) -> Seq<u8>
    decreases n,
{
    if n == 0 {
        Seq::empty()
    } else {
        big_endian(n / 256).push((n % 256) as u8)
    }
}

/// An unsigned number as a tuple element: the code `0x14` plus the number of
/// bytes, then the bytes.
pub open spec fn packed_uint(n: nat) -> Seq<u8> {
    seq![(0x14 + big_endian(n).len()) as u8] + big_endian(n)
}

/// The bytes `logs`.
pub open spec fn prefix_bytes() -> Seq<u8> {
    seq![108u8, 111u8, 103u8, 115u8]
}

/// The number that stands for a range inside a key.
pub open spec fn range_number(subspace: Subspace) -> u16 {
    match subspace {
        Subspace::MessagesEnabled => 1u16,
        Subspace::MessageLog => 2u16,
    }
}

/// The bytes of a key: the tuple of the name `logs`, the range's number and the id.
pub open spec fn key_bytes(key: LogKey) -> Seq<u8> {
    packed_bytes(prefix_bytes()) + packed_uint(range_number(key.subspace) as nat) + packed_uint(
        key.id as nat,
    )
}

/// Packs a key with the tuple layer of foundationdb_tuple: the subspace of
/// all keys, narrowed by `prefix` as a byte string and by `range`, packs
/// `id`. The three elements follow each other in the tuple encoding.
#[verifier::external_body]
pub(crate) fn pack_key(prefix: &[u8], range: u16, id: u64) -> (key: Vec<u8>)
    requires
        prefix@.len() <= 0xffff,
    ensures
        key@ == packed_bytes(prefix@) + packed_uint(range as nat) + packed_uint(id as nat),
{
    foundationdb_tuple::Subspace::all().subspace(&prefix).subspace(&range).pack(&id)
}

impl LogKey {
    /// The key of a guild's configuration.
    pub fn config(gid: u64) -> (key: LogKey)
        ensures
            key == config_key(gid),
    {
        LogKey { subspace: Subspace::MessagesEnabled, id: gid }
    }

    /// The key of a message's snapshot.
    pub fn message(mid: u64) -> (key: LogKey)
        ensures
            key == message_key(mid),
    {
        LogKey { subspace: Subspace::MessageLog, id: mid }
    }

    /// The key as the store holds it.
    pub fn bytes(&self) -> (raw: Vec<u8>)
        ensures
            raw@ == key_bytes(*self),
    {
        let mut prefix: Vec<u8> = Vec::new();
        prefix.push(108);
        prefix.push(111);
        prefix.push(103);
        prefix.push(115);
        assert(prefix@ =~= prefix_bytes());
        pack_key(prefix.as_slice(), self.subspace.id(), self.id)
    }
}

/// The key of a guild's configuration, as the store holds it.
pub fn fmt_messages_enabled_key(gid: u64) -> (raw: Vec<u8>)
    ensures
        raw@ == key_bytes(config_key(gid)),
{
    LogKey::config(gid).bytes()
}

/// The key of a message's snapshot, as the store holds it.
pub fn fmt_msg_key(mid: u64) -> (raw: Vec<u8>)
    ensures
        raw@ == key_bytes(message_key(mid)),
{
    LogKey::message(mid).bytes()
}

/// Every key starts with the eight bytes that name the log and the range,
/// so no key of one range is a key of the other.
pub proof fn lemma_ranges_disjoint(gid: u64, mid: u64)
    ensures
        key_bytes(config_key(gid)).subrange(0, 8) == seq![
            1u8,
            108u8,
            111u8,
            103u8,
            115u8,
            0u8,
            0x15u8,
            1u8,
        ],
        key_bytes(message_key(mid)).subrange(0, 8) == seq![
            1u8,
            108u8,
            111u8,
            103u8,
            115u8,
            0u8,
            0x15u8,
            2u8,
        ],
        key_bytes(config_key(gid)) != key_bytes(message_key(mid)),
{
    reveal_with_fuel(escaped, 6);
    reveal_with_fuel(big_endian, 3);
    let p = prefix_bytes();
    assert(p.drop_last() =~= seq![108u8, 111u8, 103u8]);
    assert(p.drop_last().drop_last() =~= seq![108u8, 111u8]);
    assert(p.drop_last().drop_last().drop_last() =~= seq![108u8]);
    assert(p.drop_last().drop_last().drop_last().drop_last() =~= Seq::<u8>::empty());
    assert(escaped(p) =~= p);
    assert(big_endian(1) =~= seq![1u8]);
    assert(big_endian(2) =~= seq![2u8]);
    let a = key_bytes(config_key(gid));
    let b = key_bytes(message_key(mid));
    assert(a.subrange(0, 8) =~= seq![1u8, 108u8, 111u8, 103u8, 115u8, 0u8, 0x15u8, 1u8]);
    assert(b.subrange(0, 8) =~= seq![1u8, 108u8, 111u8, 103u8, 115u8, 0u8, 0x15u8, 2u8]);
    assert(a.subrange(0, 8)[7] != b.subrange(0, 8)[7]);
}

/// Two numbers with the same bytes are the same number.
pub proof fn lemma_big_endian_injective(a: nat, b: nat)
    requires
        big_endian(a) == big_endian(b),
    ensures
        a == b,
    decreases a,
{
    if a == 0 || b == 0 {
        if a != 0 {
            assert(big_endian(a).len() == big_endian(a / 256).len() + 1);
        }
        if b != 0 {
            assert(big_endian(b).len() == big_endian(b / 256).len() + 1);
        }
    } else {
        let x = big_endian(a / 256);
        let y = big_endian(b / 256);
        let p = (a % 256) as u8;
        let q = (b % 256) as u8;
        assert(x.push(p).last() == y.push(q).last());
        assert(x.push(p).drop_last() =~= x);
        assert(y.push(q).drop_last() =~= y);
        lemma_big_endian_injective(a / 256, b / 256);
    }
}

/// Different keys have different bytes.
pub proof fn lemma_key_bytes_injective(a: LogKey, b: LogKey)
    requires
        key_bytes(a) == key_bytes(b),
    ensures
        a == b,
{
    lemma_ranges_disjoint(a.id, b.id);
    lemma_ranges_disjoint(b.id, a.id);
    reveal_with_fuel(big_endian, 3);
    assert(big_endian(1) =~= seq![1u8]);
    assert(big_endian(2) =~= seq![2u8]);
    assert(a.subspace == b.subspace);
    let head = packed_bytes(prefix_bytes()) + packed_uint(range_number(a.subspace) as nat);
    let ka = key_bytes(a);
    let kb = key_bytes(b);
    assert(ka.subrange(head.len() as int, ka.len() as int) =~= packed_uint(a.id as nat));
    assert(kb.subrange(head.len() as int, kb.len() as int) =~= packed_uint(b.id as nat));
    let ua = packed_uint(a.id as nat);
    let ub = packed_uint(b.id as nat);
    assert(ua == ub);
    assert(ua.subrange(1, ua.len() as int) =~= big_endian(a.id as nat));
    assert(ub.subrange(1, ub.len() as int) =~= big_endian(b.id as nat));
    lemma_big_endian_injective(a.id as nat, b.id as nat);
}

/// The write that enables logging for a guild, or moves its log to another
/// channel: the guild's configuration key takes the channel id as eight
/// bytes, lowest first.
pub fn enable_messages(gid: u64, cid: u64) -> (w: StoreWrite)
    ensures
        w.key == config_key(gid),
        w.value@ == spec_u64_to_le_bytes(cid),
        decoded_channel(w.value@) == Some(cid),
{
    let value = le_bytes(cid);
    proof {
        lemma_auto_spec_u64_to_from_le_bytes();
        assert(value@.subrange(0, 8) =~= value@);
    }
    StoreWrite { key: LogKey::config(gid), value }
}

/// Reads a guild's configuration from the value found under its key.
///
/// Logging is enabled exactly when a value is there and holds a channel id.
pub fn messages_enabled(value: Option<&[u8]>) -> (channel: Option<u64>)
    ensures
        channel == match value {
            Some(bytes) => decoded_channel(bytes@),
            None => None,
        },
{
    match value {
        Some(bytes) => {
            if bytes.len() >= 8 {
                let head = slice_subrange(bytes, 0, 8);
                proof {
                    assert(head@.subrange(0, 8) =~= bytes@.subrange(0, 8));
                }
                Some(le_number(head))
            } else {
                None
            }
        },
        None => None,
    }
}

/// The write that stores a message's snapshot under the message's key.
/// Writing the same snapshot again changes nothing.
pub fn write_msg(mid: u64, snapshot: Vec<u8>) -> (w: StoreWrite)
    ensures
        w.key == message_key(mid),
        w.value@ == snapshot@,
{
    StoreWrite { key: LogKey::message(mid), value: snapshot }
}

/// A guild for which no write ever touched the configuration key has logging disabled.
pub proof fn lemma_never_enabled(writes: Seq<(LogKey, Seq<u8>)>, gid: u64)
    requires
        forall|i: int| 0 <= i < writes.len() ==> (#[trigger] writes[i]).0 != config_key(gid),
    ensures
        enabled_in(replay(Map::empty(), writes), gid) is None,
        !replay(Map::empty(), writes).contains_key(config_key(gid)),
    decreases writes.len(),
{
    if writes.len() > 0 {
        assert forall|i: int| 0 <= i < writes.drop_last().len() implies (
        #[trigger] writes.drop_last()[i]).0 != config_key(gid) by {
            assert(writes.drop_last()[i] == writes[i]);
        }
        lemma_never_enabled(writes.drop_last(), gid);
        assert(writes.last() == writes[writes.len() - 1]);
    }
}

/// After logging is enabled for a guild, the guild's configuration names the
/// channel given. A second enable overwrites the first, and enabling one
/// guild changes nothing for another.
pub proof fn lemma_enable_upserts(state: LogState, gid: u64, cid: u64, cid2: u64, other: u64)
    ensures
        enabled_in(written(state, config_key(gid), spec_u64_to_le_bytes(cid)), gid) == Some(cid),
        enabled_in(
            written(
                written(state, config_key(gid), spec_u64_to_le_bytes(cid)),
                config_key(gid),
                spec_u64_to_le_bytes(cid2),
            ),
            gid,
        ) == Some(cid2),
        written(
            written(state, config_key(gid), spec_u64_to_le_bytes(cid)),
            config_key(gid),
            spec_u64_to_le_bytes(cid),
        ) == written(state, config_key(gid), spec_u64_to_le_bytes(cid)),
        other != gid ==> enabled_in(
            written(state, config_key(gid), spec_u64_to_le_bytes(cid)),
            other,
        ) == enabled_in(state, other),
{
    lemma_auto_spec_u64_to_from_le_bytes();
    assert(spec_u64_to_le_bytes(cid).subrange(0, 8) =~= spec_u64_to_le_bytes(cid));
    assert(spec_u64_to_le_bytes(cid2).subrange(0, 8) =~= spec_u64_to_le_bytes(cid2));
    assert(written(
        written(state, config_key(gid), spec_u64_to_le_bytes(cid)),
        config_key(gid),
        spec_u64_to_le_bytes(cid),
    ) =~= written(state, config_key(gid), spec_u64_to_le_bytes(cid)));
}

/// A stored snapshot is read back as it was written, and writing it a second
/// time leaves the state as the first write left it. Configuration entries are
/// not touched by it.
pub proof fn lemma_snapshot_stored(state: LogState, mid: u64, snapshot: Seq<u8>, gid: u64)
    ensures
        read(written(state, message_key(mid), snapshot), message_key(mid)) == Some(snapshot),
        written(written(state, message_key(mid), snapshot), message_key(mid), snapshot)
            == written(state, message_key(mid), snapshot),
        enabled_in(written(state, message_key(mid), snapshot), gid) == enabled_in(state, gid),
{
    assert(written(written(state, message_key(mid), snapshot), message_key(mid), snapshot)
        =~= written(state, message_key(mid), snapshot));
}

/// The state after a message was created: its snapshot is written where
/// logging is enabled for its guild, and nothing is written where it is not.
pub open spec fn after_create(state: LogState, gid: u64, mid: u64, snapshot: Seq<u8>) -> LogState {
    if enabled_in(state, gid) is Some {
        written(state, message_key(mid), snapshot)
    } else {
        state
    }
}

/// A message created while logging is enabled has its snapshot stored as it
/// was; one created while logging is disabled has none, unless one was there
/// before.
pub proof fn lemma_snapshot_iff_enabled(state: LogState, gid: u64, mid: u64, snapshot: Seq<u8>)
    ensures
        enabled_in(state, gid) is Some ==> read(
            after_create(state, gid, mid, snapshot),
            message_key(mid),
        ) == Some(snapshot),
        enabled_in(state, gid) is None ==> read(
            after_create(state, gid, mid, snapshot),
            message_key(mid),
        ) == read(state, message_key(mid)),
        enabled_in(after_create(state, gid, mid, snapshot), gid) == enabled_in(state, gid),
{
}

} // verus!
