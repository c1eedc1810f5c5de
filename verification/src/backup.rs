//! The recovery synchronizer. It keeps a private shadow copy of the
//! universe, mirrors every accepted mutation to a recovery store under a
//! key derived from this instance's listening address, reloads an
//! orphaned snapshot after an unclean restart, and erases its entry on
//! clean shutdown.
//!
//! The store behind it is one of three: disabled (every operation is a
//! silent no-op), an in-memory store verified exactly, or a remote redis
//! server reached through trusted wrappers. Mirroring is best-effort by
//! design: a store outage must never block lighting control, so no store
//! failure ever reaches the caller.

use vstd::prelude::*;
use vstd::string::StringExecFns;
use redis::{Commands, ConnectionLike};
use crate::codec::{hex_encode, serialize_universe, deserialize_universe, spec_snapshot_universe};
use crate::dmx::{spec_blank, spec_set, Fade, Universe, DMX_MAX};
use crate::store::MemStore;

verus! {

#[verifier::external_type_specification]
#[verifier::external_body]
pub struct ExClient(redis::Client);

#[verifier::external_type_specification]
#[verifier::external_body]
pub struct ExConnection(redis::Connection);

/// Relies on redis::Client::open, which parses the location URL and
/// performs no I/O; `None` when the URL is malformed.
#[verifier::external_body]
fn client_open(location: &str) -> (client: Option<redis::Client>) {
    redis::Client::open(location).ok()
}

/// Relies on redis::Client::get_connection, which connects to the
/// server; `None` when the connection cannot be made.
#[verifier::external_body]
fn client_connect(client: &redis::Client) -> (connection: Option<redis::Connection>) {
    client.get_connection().ok()
}

/// Relies on redis::ConnectionLike::req_command to ask the server for
/// periodic snapshots (CONFIG SET save); reports only whether the server
/// accepted.
#[verifier::external_body]
fn configure_snapshots(connection: &mut redis::Connection) -> (accepted: bool) {
    let mut command = redis::Cmd::new();
    command.arg("CONFIG").arg("SET").arg("save").arg("60 1");
    connection.req_command(&command).is_ok()
}

/// Relies on redis::Commands::set (the SET command); reports only
/// whether the server accepted the write.
#[verifier::external_body]
fn redis_save(connection: &mut redis::Connection, key: &String, value: &Vec<u8>) -> (accepted:
    bool) {
    let result: redis::RedisResult<()> = connection.set(key.as_str(), value.as_slice());
    result.is_ok()
}

/// Relies on redis::Commands::get (the GET command); `None` when the key
/// is absent or the server cannot be reached.
#[verifier::external_body]
fn redis_load(connection: &mut redis::Connection, key: &String) -> (value: Option<Vec<u8>>) {
    let result: redis::RedisResult<Option<Vec<u8>>> = connection.get(key.as_str());
    match result {
        Ok(value) => value,
        Err(_) => None,
    }
}

/// Relies on redis::Commands::del (the DEL command); reports only
/// whether the server accepted the delete.
#[verifier::external_body]
fn redis_erase(connection: &mut redis::Connection, key: &String) -> (accepted: bool) {
    let result: redis::RedisResult<()> = connection.del(key.as_str());
    result.is_ok()
}

/// A recovery store: absent, in memory, or a remote redis server.
pub enum Store {
    Disabled,
    Memory(MemStore),
    Redis(redis::Connection),
}

impl Store {
    pub open spec fn is_disabled(&self) -> bool {
        self is Disabled
    }

    pub open spec fn is_memory(&self) -> bool {
        self is Memory
    }

    pub open spec fn is_external(&self) -> bool {
        self is Redis
    }

    /// The contents of the store as far as they are modeled: exact for
    /// the in-memory store, empty for the others.
    pub open spec fn mem(&self) -> Map<Seq<char>, Seq<u8>> {
        match self {
            Store::Memory(m) => m@,
            _ => Map::empty(),
        }
    }

    pub open spec fn wf(&self) -> bool {
        match self {
            Store::Memory(m) => m.wf(),
            _ => true,
        }
    }

    /// The two stores are of the same kind (disabled, memory, remote).
    pub open spec fn same_kind(&self, other: &Store) -> bool {
        &&& (self.is_disabled() <==> other.is_disabled())
        &&& (self.is_memory() <==> other.is_memory())
        &&& (self.is_external() <==> other.is_external())
    }

    /// Whether any store is configured at all.
    fn active(&self) -> (configured: bool)
        ensures
            configured == !self.is_disabled(),
    {
        match self {
            Store::Disabled => false,
            _ => true,
        }
    }

    /// Overwrite the entry under `key`, best-effort.
    fn save_entry(&mut self, key: &String, value: Vec<u8>)
        requires
            old(self).wf(),
        ensures
            final(self).wf(),
            old(self).same_kind(final(self)),
            old(self).is_memory() ==> final(self).mem() == old(self).mem().insert(key@, value@),
            !old(self).is_memory() ==> final(self).mem() == old(self).mem(),
    {
        match self {
            Store::Disabled => {},
            Store::Memory(m) => {
                m.save(key, value);
            },
            Store::Redis(connection) => {
                let _accepted = redis_save(connection, key, &value);
            },
        }
    }

    /// Read the entry under `key`, best-effort.
    fn load_entry(&mut self, key: &String) -> (value: Option<Vec<u8>>)
        requires
            old(self).wf(),
        ensures
            final(self).wf(),
            old(self).same_kind(final(self)),
            final(self).mem() == old(self).mem(),
            old(self).is_disabled() ==> value is None,
            old(self).is_memory() ==> match value {
                Some(v) => old(self).mem().contains_key(key@) && v@ == old(self).mem()[key@],
                None => !old(self).mem().contains_key(key@),
            },
    {
        match self {
            Store::Disabled => None,
            Store::Memory(m) => m.load(key),
            Store::Redis(connection) => redis_load(connection, key),
        }
    }

    /// Delete the entry under `key`, best-effort.
    fn erase_entry(&mut self, key: &String)
        requires
            old(self).wf(),
        ensures
            final(self).wf(),
            old(self).same_kind(final(self)),
            old(self).is_memory() ==> final(self).mem() == old(self).mem().remove(key@),
            !old(self).is_memory() ==> final(self).mem() == old(self).mem(),
    {
        match self {
            Store::Disabled => {},
            Store::Memory(m) => {
                m.erase(key);
            },
            Store::Redis(connection) => {
                let _accepted = redis_erase(connection, key);
            },
        }
    }
}

/// The store key this instance owns: a deterministic function of the
/// listening address alone, so two instances collide exactly when they
/// share an address.
pub open spec fn spec_backup_key(address: Seq<char>) -> Seq<char> {
    "vulcan:"@ + address + ":universe"@
}

fn build_key(address: &String) -> (key: String)
    ensures
        key@ == spec_backup_key(address@),
{
    let mut key = "vulcan:".to_owned();
    key.append(address.as_str());
    key.append(":universe");
    key
}

/// The recovery synchronizer: a shadow copy of the universe plus the
/// store entry it mirrors the shadow into.
pub struct BackupHandler {
    address: String,
    key: String,
    store: Store,
    universe: Universe,
}

impl BackupHandler {
    /// The listening address this instance identifies itself by.
    pub closed spec fn spec_address(&self) -> Seq<char> {
        self.address@
    }

    /// The store key this instance reads and writes.
    pub closed spec fn spec_key(&self) -> Seq<char> {
        self.key@
    }

    /// The shadow copy of the universe.
    pub closed spec fn shadow(&self) -> Seq<u8> {
        self.universe@
    }

    pub closed spec fn store_wf(&self) -> bool {
        self.store.wf()
    }

    pub closed spec fn is_disabled(&self) -> bool {
        self.store.is_disabled()
    }

    pub closed spec fn is_memory(&self) -> bool {
        self.store.is_memory()
    }

    pub closed spec fn is_external(&self) -> bool {
        self.store.is_external()
    }

    /// The modeled store contents (exact for the in-memory store).
    pub closed spec fn mem(&self) -> Map<Seq<char>, Seq<u8>> {
        self.store.mem()
    }

    pub open spec fn wf(&self) -> bool {
        &&& self.shadow().len() == DMX_MAX
        &&& self.spec_key() == spec_backup_key(self.spec_address())
        &&& self.store_wf()
    }

    /// Build a handler over the given store. The shadow starts blank.
    pub fn with_store(address: String, store: Store) -> (handler: BackupHandler)
        requires
            store.wf(),
        ensures
            handler.wf(),
            handler.spec_address() == address@,
            handler.shadow() == spec_blank(),
            handler.is_disabled() == store.is_disabled(),
            handler.is_memory() == store.is_memory(),
            handler.is_external() == store.is_external(),
            handler.mem() == store.mem(),
    {
        let key = build_key(&address);
        BackupHandler { address, key, store, universe: Universe::new() }
    }

    /// Build a handler that mirrors to the redis server at
    /// `server_location`. With no location, or when the connection
    /// attempt fails, the handler degrades to a silent no-op for its
    /// entire lifetime: lighting control works without a recovery path.
    pub fn new(address: String, server_location: Option<String>) -> (handler: BackupHandler)
        ensures
            handler.wf(),
            handler.spec_address() == address@,
            handler.shadow() == spec_blank(),
            !handler.is_memory(),
            server_location is None ==> handler.is_disabled(),
    {
        let store = match server_location {
            Some(location) => match client_open(location.as_str()) {
                Some(client) => match client_connect(&client) {
                    Some(mut connection) => {
                        let _accepted = configure_snapshots(&mut connection);
                        Store::Redis(connection)
                    },
                    None => Store::Disabled,
                },
                None => Store::Disabled,
            },
            None => Store::Disabled,
        };
        BackupHandler::with_store(address, store)
    }
}

/// Nothing about the handler's identity or store kind changed.
pub open spec fn frame(pre: &BackupHandler, post: &BackupHandler) -> bool {
    &&& post.wf()
    &&& post.spec_address() == pre.spec_address()
    &&& post.spec_key() == pre.spec_key()
    &&& post.is_disabled() == pre.is_disabled()
    &&& post.is_memory() == pre.is_memory()
    &&& post.is_external() == pre.is_external()
}

/// The handler mirrored one fade: with a store configured, the fade is
/// applied to the shadow, and the in-memory store now holds the encoded
/// new shadow under this instance's key; with none, nothing happened.
pub open spec fn fade_recorded(pre: &BackupHandler, post: &BackupHandler, fade: Fade) -> bool {
    &&& frame(pre, post)
    &&& pre.is_disabled() ==> post.shadow() == pre.shadow() && post.mem() == pre.mem()
    &&& !pre.is_disabled() ==> post.shadow() == spec_set(pre.shadow(), fade.channel, fade.value)
    &&& pre.is_memory() ==> post.mem() == pre.mem().insert(
        pre.spec_key(),
        hex_encode(spec_set(pre.shadow(), fade.channel, fade.value)),
    )
    &&& !pre.is_memory() ==> post.mem() == pre.mem()
}

/// The handler mirrored a full replacement: with a store configured, the
/// shadow is now `u`, and the in-memory store holds its encoding under
/// this instance's key; with none, nothing happened.
pub open spec fn universe_recorded(pre: &BackupHandler, post: &BackupHandler, u: Seq<u8>) -> bool {
    &&& frame(pre, post)
    &&& pre.is_disabled() ==> post.shadow() == pre.shadow() && post.mem() == pre.mem()
    &&& !pre.is_disabled() ==> post.shadow() == u
    &&& pre.is_memory() ==> post.mem() == pre.mem().insert(pre.spec_key(), hex_encode(u))
    &&& !pre.is_memory() ==> post.mem() == pre.mem()
}

/// The handler's own store entry is gone; the shadow is untouched.
pub open spec fn entry_erased(pre: &BackupHandler, post: &BackupHandler) -> bool {
    &&& frame(pre, post)
    &&& post.shadow() == pre.shadow()
    &&& pre.is_memory() ==> post.mem() == pre.mem().remove(pre.spec_key())
    &&& !pre.is_memory() ==> post.mem() == pre.mem()
}

impl BackupHandler {
    /// Apply one fade to the shadow universe and overwrite the store
    /// entry with the new shadow. A store failure is swallowed; with no
    /// store configured this is a silent no-op.
    pub fn backup_fade(&mut self, fade: Fade)
        requires
            old(self).wf(),
        ensures
            fade_recorded(old(self), final(self), fade),
    {
        if self.store.active() {
            self.universe.set(fade.channel, fade.value);
            let text = serialize_universe(&self.universe);
            self.store.save_entry(&self.key, text);
        }
    }

    /// Replace the shadow universe wholesale and overwrite the store
    /// entry with it. Same failure policy as `backup_fade`.
    pub fn backup_universe(&mut self, universe: Universe)
        requires
            old(self).wf(),
            universe.wf(),
        ensures
            universe_recorded(old(self), final(self), universe@),
    {
        if self.store.active() {
            self.universe = universe;
            let text = serialize_universe(&self.universe);
            self.store.save_entry(&self.key, text);
        }
    }

    /// Look for an orphaned snapshot under this instance's key. When one
    /// is there it becomes the new shadow and is returned for
    /// reapplication to the output driver; a malformed snapshot yields a
    /// blank universe rather than an error. `None` on a clean start, and
    /// always `None` with no store configured.
    pub fn reload_backup(&mut self) -> (found: Option<Universe>)
        requires
            old(self).wf(),
        ensures
            frame(old(self), final(self)),
            final(self).mem() == old(self).mem(),
            old(self).is_disabled() ==> found is None,
            match found {
                Some(u) => u.wf() && final(self).shadow() == u@,
                None => final(self).shadow() == old(self).shadow(),
            },
            old(self).is_memory() ==> match found {
                Some(u) => old(self).mem().contains_key(old(self).spec_key()) && u@
                    == spec_snapshot_universe(old(self).mem()[old(self).spec_key()]),
                None => !old(self).mem().contains_key(old(self).spec_key()),
            },
    {
        match self.store.load_entry(&self.key) {
            Some(text) => {
                let universe = deserialize_universe(&text);
                self.universe = universe.duplicate();
                Some(universe)
            },
            None => None,
        }
    }

    /// Erase this instance's store entry, best-effort. This is what
    /// distinguishes a clean shutdown from a crash, and it is harmless
    /// to call more than once.
    pub fn teardown(&mut self)
        requires
            old(self).wf(),
        ensures
            entry_erased(old(self), final(self)),
    {
        self.store.erase_entry(&self.key);
    }

    /// Finish a clean shutdown: erase this instance's store entry and
    /// hand the store back, so a later instance can be built over it.
    pub fn into_store(self) -> (store: Store)
        requires
            self.wf(),
        ensures
            store.wf(),
            store.is_disabled() == self.is_disabled(),
            store.is_memory() == self.is_memory(),
            store.is_external() == self.is_external(),
            self.is_memory() ==> store.mem() == self.mem().remove(self.spec_key()),
            !self.is_memory() ==> store.mem() == self.mem(),
    {
        let mut handler = self;
        handler.teardown();
        let BackupHandler { store, .. } = handler;
        store
    }

    /// Abandon the handler without erasing its entry, as an unclean
    /// shutdown does: the store keeps whatever snapshot was last
    /// mirrored, for the next instance at this address to find.
    pub fn abandon(self) -> (store: Store)
        requires
            self.wf(),
        ensures
            store.wf(),
            store.is_disabled() == self.is_disabled(),
            store.is_memory() == self.is_memory(),
            store.is_external() == self.is_external(),
            store.mem() == self.mem(),
    {
        let BackupHandler { store, .. } = self;
        store
    }
}

/// Recovery: recording universe `u0` in full and then fades for
/// channels 2, 5 and 6, with no clean shutdown in between, leaves a
/// snapshot that reloads to exactly the mirrored state — the three
/// faded channels at their new values, every other channel as `u0` had
/// it.
pub proof fn lemma_recovery_snapshot(u0: Seq<u8>)
    requires
        u0.len() == DMX_MAX,
    ensures
        ({
            let mirrored = spec_set(spec_set(spec_set(u0, 2, 150), 5, 255), 6, 150);
            &&& spec_snapshot_universe(hex_encode(mirrored)) == mirrored
            &&& crate::dmx::spec_get(mirrored, 2) == 150
            &&& crate::dmx::spec_get(mirrored, 5) == 255
            &&& crate::dmx::spec_get(mirrored, 6) == 150
            &&& forall|c: u32|
                crate::dmx::in_range(c) && c != 2 && c != 5 && c != 6 ==> crate::dmx::spec_get(
                    mirrored,
                    c,
                ) == crate::dmx::spec_get(u0, c)
        }),
{
    let mirrored = spec_set(spec_set(spec_set(u0, 2, 150), 5, 255), 6, 150);
    crate::codec::lemma_universe_round_trip(mirrored);
}

/// Clean shutdown: once an instance's entry is erased, a later instance
/// at the same address derives the same key and finds no entry, so its
/// reload reports a clean start.
pub proof fn lemma_clean_shutdown(m: Map<Seq<char>, Seq<u8>>, address: Seq<char>)
    ensures
        !m.remove(spec_backup_key(address)).contains_key(spec_backup_key(address)),
{
}

} // verus!
