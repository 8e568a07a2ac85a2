//! The connection-ownership directory: which instance holds which connection.
//!
//! Ownership lives in a shared key-value store as two records per connection,
//! both with a time to live that every heartbeat renews. This module builds
//! the keys, the topics and the command batches; the embedding program sends
//! them. A small model of the store says what the batches achieve.

use vstd::prelude::*;
use vstd::string::*;

verus! {

/// Seconds an ownership entry lives without a heartbeat.
pub const OWNERSHIP_TTL_SECS: u64 = 30;

/// `gw:{group}:i2c:{instance}:{connection}`
pub open spec fn forward_key(group: Seq<char>, instance: Seq<char>, connection: Seq<char>) -> Seq<
    char,
> {
    "gw:"@ + group + ":i2c:"@ + instance + ":"@ + connection
}

/// `gw:{group}:c2i:{connection}`
pub open spec fn reverse_key(group: Seq<char>, connection: Seq<char>) -> Seq<char> {
    "gw:"@ + group + ":c2i:"@ + connection
}

/// `gw:{group}:{instance}`, the topic only `instance` listens on.
pub open spec fn instance_topic(group: Seq<char>, instance: Seq<char>) -> Seq<char> {
    "gw:"@ + group + ":"@ + instance
}

/// `gw:{group}:broadcast`, the topic every instance of the group listens on.
pub open spec fn broadcast_topic(group: Seq<char>) -> Seq<char> {
    "gw:"@ + group + ":broadcast"@
}

/// The forward key: it marks `connection` as held by `instance`.
pub fn make_forward_key(group: &str, instance: &str, connection: &str) -> (key: String)
    ensures
        key@ == forward_key(group@, instance@, connection@),
{
    let mut key = String::from_str("gw:");
    key.append(group);
    key.append(":i2c:");
    key.append(instance);
    key.append(":");
    key.append(connection);
    key
}

/// The reverse key: under it the store holds the id of the owning instance.
pub fn make_reverse_key(group: &str, connection: &str) -> (key: String)
    ensures
        key@ == reverse_key(group@, connection@),
{
    let mut key = String::from_str("gw:");
    key.append(group);
    key.append(":c2i:");
    key.append(connection);
    key
}

pub fn make_instance_topic(group: &str, instance: &str) -> (topic: String)
    ensures
        topic@ == instance_topic(group@, instance@),
{
    let mut topic = String::from_str("gw:");
    topic.append(group);
    topic.append(":");
    topic.append(instance);
    topic
}

pub fn make_broadcast_topic(group: &str) -> (topic: String)
    ensures
        topic@ == broadcast_topic(group@),
{
    let mut topic = String::from_str("gw:");
    topic.append(group);
    topic.append(":broadcast");
    topic
}

/// One command for the key-value store.
#[derive(Debug, Clone, PartialEq)]
pub enum KvCommand {
    /// Store `value` under `key`, without expiry.
    Write { key: String, value: String },
    /// Let `key` expire `seconds` from now, if it exists.
    Expire { key: String, seconds: u64 },
    /// Delete `key`.
    Delete { key: String },
    /// Read `key`.
    Read { key: String },
}

pub ghost enum KvCommandView {
    Write { key: Seq<char>, value: Seq<char> },
    Expire { key: Seq<char>, seconds: int },
    Delete { key: Seq<char> },
    Read { key: Seq<char> },
}

impl View for KvCommand {
    type V = KvCommandView;

    open spec fn view(&self) -> KvCommandView {
        match *self {
            KvCommand::Write { key, value } => KvCommandView::Write { key: key@, value: value@ },
            KvCommand::Expire { key, seconds } => KvCommandView::Expire {
                key: key@,
                seconds: seconds as int,
            },
            KvCommand::Delete { key } => KvCommandView::Delete { key: key@ },
            KvCommand::Read { key } => KvCommandView::Read { key: key@ },
        }
    }
}

/// The commands in `v`, as mathematical values.
pub open spec fn commands_view(v: Seq<KvCommand>) -> Seq<KvCommandView> {
    v.map_values(|c: KvCommand| c@)
}

/// The batch that records `instance` as owner of `connection`.
pub open spec fn claim_commands(group: Seq<char>, instance: Seq<char>, connection: Seq<char>) -> Seq<
    KvCommandView,
> {
    seq![
        KvCommandView::Write { key: forward_key(group, instance, connection), value: "1"@ },
        KvCommandView::Expire {
            key: forward_key(group, instance, connection),
            seconds: OWNERSHIP_TTL_SECS as int,
        },
        KvCommandView::Write { key: reverse_key(group, connection), value: instance },
        KvCommandView::Expire {
            key: reverse_key(group, connection),
            seconds: OWNERSHIP_TTL_SECS as int,
        },
    ]
}

/// The batch that renews both entries of `connection`.
pub open spec fn refresh_commands(
    group: Seq<char>,
    instance: Seq<char>,
    connection: Seq<char>,
) -> Seq<KvCommandView> {
    seq![
        KvCommandView::Expire {
            key: forward_key(group, instance, connection),
            seconds: OWNERSHIP_TTL_SECS as int,
        },
        KvCommandView::Expire {
            key: reverse_key(group, connection),
            seconds: OWNERSHIP_TTL_SECS as int,
        },
    ]
}

/// The batch that deletes both entries of `connection`.
pub open spec fn release_commands(
    group: Seq<char>,
    instance: Seq<char>,
    connection: Seq<char>,
) -> Seq<KvCommandView> {
    seq![
        KvCommandView::Delete { key: forward_key(group, instance, connection) },
        KvCommandView::Delete { key: reverse_key(group, connection) },
    ]
}

/// Builds the batch that claims `connection` for `instance`.
pub fn claim(group: &str, instance: &str, connection: &str) -> (batch: Vec<KvCommand>)
    ensures
        commands_view(batch@) == claim_commands(group@, instance@, connection@),
{
    let mut batch: Vec<KvCommand> = Vec::new();
    batch.push(
        KvCommand::Write {
            key: make_forward_key(group, instance, connection),
            value: String::from_str("1"),
        },
    );
    batch.push(
        KvCommand::Expire {
            key: make_forward_key(group, instance, connection),
            seconds: OWNERSHIP_TTL_SECS,
        },
    );
    batch.push(
        KvCommand::Write { key: make_reverse_key(group, connection), value: String::from_str(instance) },
    );
    batch.push(
        KvCommand::Expire { key: make_reverse_key(group, connection), seconds: OWNERSHIP_TTL_SECS },
    );
    assert(commands_view(batch@) =~= claim_commands(group@, instance@, connection@));
    batch
}

/// Builds the batch that a heartbeat of `connection` sends.
pub fn refresh(group: &str, instance: &str, connection: &str) -> (batch: Vec<KvCommand>)
    ensures
        commands_view(batch@) == refresh_commands(group@, instance@, connection@),
{
    let mut batch: Vec<KvCommand> = Vec::new();
    batch.push(
        KvCommand::Expire {
            key: make_forward_key(group, instance, connection),
            seconds: OWNERSHIP_TTL_SECS,
        },
    );
    batch.push(
        KvCommand::Expire { key: make_reverse_key(group, connection), seconds: OWNERSHIP_TTL_SECS },
    );
    assert(commands_view(batch@) =~= refresh_commands(group@, instance@, connection@));
    batch
}

/// Builds the batch that gives `connection` up.
pub fn release(group: &str, instance: &str, connection: &str) -> (batch: Vec<KvCommand>)
    ensures
        commands_view(batch@) == release_commands(group@, instance@, connection@),
{
    let mut batch: Vec<KvCommand> = Vec::new();
    batch.push(KvCommand::Delete { key: make_forward_key(group, instance, connection) });
    batch.push(KvCommand::Delete { key: make_reverse_key(group, connection) });
    assert(commands_view(batch@) =~= release_commands(group@, instance@, connection@));
    batch
}

/// The read that asks who owns `connection`.
pub fn owner_query(group: &str, connection: &str) -> (q: KvCommand)
    ensures
        q@ == (KvCommandView::Read { key: reverse_key(group@, connection@) }),
{
    KvCommand::Read { key: make_reverse_key(group, connection) }
}

// ---------------------------------------------------------------------------
// A model of the store
// ---------------------------------------------------------------------------

/// One record of the store: its value and the instant at which it expires.
pub ghost struct KvEntry {
    pub value: Seq<char>,
    pub expires_at: Option<int>,
}

/// The store: records by key. An expired record counts as absent.
pub type KvStore = Map<Seq<char>, KvEntry>;

/// Whether `key` holds a record that has not expired at `now`.
pub open spec fn live(store: KvStore, key: Seq<char>, now: int) -> bool {
    store.contains_key(key) && (store[key].expires_at is None || now
        < store[key].expires_at.unwrap())
}

/// What a read of `key` returns at `now`.
pub open spec fn value_at(store: KvStore, key: Seq<char>, now: int) -> Option<Seq<char>> {
    if live(store, key, now) {
        Some(store[key].value)
    } else {
        None
    }
}

/// Seconds that `key` has left at `now`, where it is live and will expire.
pub open spec fn ttl_at(store: KvStore, key: Seq<char>, now: int) -> Option<int> {
    if live(store, key, now) && store[key].expires_at is Some {
        Some(store[key].expires_at.unwrap() - now)
    } else {
        None
    }
}

/// The store after `cmd` ran at `now`.
pub open spec fn apply(store: KvStore, cmd: KvCommandView, now: int) -> KvStore {
    match cmd {
        KvCommandView::Write { key, value } => store.insert(key, KvEntry { value, expires_at: None }),
        KvCommandView::Expire { key, seconds } => if live(store, key, now) {
            store.insert(key, KvEntry { value: store[key].value, expires_at: Some(now + seconds) })
        } else {
            store
        },
        KvCommandView::Delete { key } => store.remove(key),
        KvCommandView::Read { key } => store,
    }
}

/// The store after the whole batch ran at `now`, first command first.
pub open spec fn apply_all(store: KvStore, batch: Seq<KvCommandView>, now: int) -> KvStore
    decreases batch.len(),
{
    if batch.len() == 0 {
        store
    } else {
        apply(apply_all(store, batch.drop_last(), now), batch.last(), now)
    }
}

/// The instance that the directory names as owner of `connection` at `now`.
pub open spec fn owner_of(store: KvStore, group: Seq<char>, connection: Seq<char>, now: int) -> Option<
    Seq<char>,
> {
    value_at(store, reverse_key(group, connection), now)
}

/// The store after `instance` claimed `connection` at `now`.
pub open spec fn after_claim(
    store: KvStore,
    group: Seq<char>,
    instance: Seq<char>,
    connection: Seq<char>,
    now: int,
) -> KvStore {
    apply_all(store, claim_commands(group, instance, connection), now)
}

/// The store after a heartbeat of `connection` at `now`.
pub open spec fn after_refresh(
    store: KvStore,
    group: Seq<char>,
    instance: Seq<char>,
    connection: Seq<char>,
    now: int,
) -> KvStore {
    apply_all(store, refresh_commands(group, instance, connection), now)
}

/// The store after `instance` released `connection` at `now`.
pub open spec fn after_release(
    store: KvStore,
    group: Seq<char>,
    instance: Seq<char>,
    connection: Seq<char>,
    now: int,
) -> KvStore {
    apply_all(store, release_commands(group, instance, connection), now)
}

/// The store after `n` heartbeats of `connection`, all at `now`.
pub open spec fn after_refreshes(
    store: KvStore,
    group: Seq<char>,
    instance: Seq<char>,
    connection: Seq<char>,
    now: int,
    n: nat,
) -> KvStore
    decreases n,
{
    if n == 0 {
        store
    } else {
        after_refresh(
            after_refreshes(store, group, instance, connection, now, (n - 1) as nat),
            group,
            instance,
            connection,
            now,
        )
    }
}

proof fn apply_pair(store: KvStore, a: KvCommandView, b: KvCommandView, now: int)
    ensures
        apply_all(store, seq![a, b], now) == apply(apply(store, a, now), b, now),
{
    let s2 = seq![a, b];
    assert(s2.drop_last() =~= seq![a]);
    assert(seq![a].drop_last() =~= Seq::<KvCommandView>::empty());
    reveal_with_fuel(apply_all, 3);
}

proof fn apply_four(
    store: KvStore,
    a: KvCommandView,
    b: KvCommandView,
    c: KvCommandView,
    d: KvCommandView,
    now: int,
)
    ensures
        apply_all(store, seq![a, b, c, d], now) == apply(
            apply(apply(apply(store, a, now), b, now), c, now),
            d,
            now,
        ),
{
    let s4 = seq![a, b, c, d];
    assert(s4.drop_last() =~= seq![a, b, c]);
    assert(seq![a, b, c].drop_last() =~= seq![a, b]);
    apply_pair(store, a, b, now);
    reveal_with_fuel(apply_all, 3);
}

/// The forward key and the reverse key of a group never coincide.
pub proof fn keys_differ(
    group: Seq<char>,
    instance: Seq<char>,
    connection: Seq<char>,
    other: Seq<char>,
)
    ensures
        forward_key(group, instance, connection) != reverse_key(group, other),
{
    reveal_strlit("gw:");
    reveal_strlit(":i2c:");
    reveal_strlit(":c2i:");
    reveal_strlit(":");
    let f = forward_key(group, instance, connection);
    let r = reverse_key(group, other);
    let k = (3 + group.len() + 1) as int;
    assert(f[k] == 'i');
    assert(r[k] == 'c');
}

/// Within a group, different connections have different reverse keys, so the
/// directory holds at most one owner per connection id.
pub proof fn reverse_key_injective(group: Seq<char>, a: Seq<char>, b: Seq<char>)
    requires
        reverse_key(group, a) == reverse_key(group, b),
    ensures
        a == b,
{
    let prefix = "gw:"@ + group + ":c2i:"@;
    let n = prefix.len() as int;
    assert(reverse_key(group, a) =~= prefix + a);
    assert(reverse_key(group, b) =~= prefix + b);
    assert((prefix + a).subrange(n, n + a.len()) =~= a);
    assert((prefix + b).subrange(n, n + b.len()) =~= b);
    assert((prefix + a).len() == n + a.len());
    assert((prefix + b).len() == n + b.len());
}

/// Within a group, the forward keys of two instances with ids of UUID shape
/// coincide only for the same instance and the same connection: no instance
/// can take another's forward entry for its own.
pub proof fn forward_key_injective(
    group: Seq<char>,
    a: Seq<char>,
    b: Seq<char>,
    c: Seq<char>,
    d: Seq<char>,
)
    requires
        crate::ident::uuid_shaped(a),
        crate::ident::uuid_shaped(b),
        forward_key(group, a, c) == forward_key(group, b, d),
    ensures
        a == b,
        c == d,
{
    let prefix = "gw:"@ + group + ":i2c:"@;
    let n = prefix.len() as int;
    let left = forward_key(group, a, c);
    let right = forward_key(group, b, d);
    assert(left =~= prefix + a + ":"@ + c);
    assert(right =~= prefix + b + ":"@ + d);
    assert(left.subrange(n, n + 36) =~= a);
    assert(right.subrange(n, n + 36) =~= b);
    let m = n + 36 + ":"@.len();
    assert(left.len() == m + c.len());
    assert(right.len() == m + d.len());
    assert(left.subrange(m, m + c.len()) =~= c);
    assert(right.subrange(m, m + d.len()) =~= d);
}

/// Ownership after a claim: from the moment `instance` claims `connection`
/// until the time to live runs out, the directory names `instance` as its
/// owner and holds the forward entry, whatever the store held before. A later
/// claim by another instance therefore replaces an earlier one.
pub proof fn claim_establishes_ownership(
    store: KvStore,
    group: Seq<char>,
    instance: Seq<char>,
    connection: Seq<char>,
    now: int,
    t: int,
)
    requires
        now <= t < now + OWNERSHIP_TTL_SECS,
    ensures
        owner_of(after_claim(store, group, instance, connection, now), group, connection, t)
            == Some(instance),
        value_at(
            after_claim(store, group, instance, connection, now),
            forward_key(group, instance, connection),
            t,
        ) == Some("1"@),
        ttl_at(
            after_claim(store, group, instance, connection, now),
            reverse_key(group, connection),
            now,
        ) == Some(OWNERSHIP_TTL_SECS as int),
{
    let c = claim_commands(group, instance, connection);
    apply_four(store, c[0], c[1], c[2], c[3], now);
    assert(c =~= seq![c[0], c[1], c[2], c[3]]);
    keys_differ(group, instance, connection, connection);
}

/// Ownership under heartbeats: a heartbeat at `now` keeps a live owner entry
/// as it is and makes it last for the full time to live from `now`.
pub proof fn refresh_extends_ownership(
    store: KvStore,
    group: Seq<char>,
    instance: Seq<char>,
    connection: Seq<char>,
    now: int,
    t: int,
)
    requires
        owner_of(store, group, connection, now) is Some,
        now <= t < now + OWNERSHIP_TTL_SECS,
    ensures
        owner_of(after_refresh(store, group, instance, connection, now), group, connection, t)
            == owner_of(store, group, connection, now),
        ttl_at(
            after_refresh(store, group, instance, connection, now),
            reverse_key(group, connection),
            now,
        ) == Some(OWNERSHIP_TTL_SECS as int),
{
    let c = refresh_commands(group, instance, connection);
    apply_pair(store, c[0], c[1], now);
    assert(c =~= seq![c[0], c[1]]);
    keys_differ(group, instance, connection, connection);
}

/// The heartbeat policy: where the time to live covers three heartbeat
/// intervals, an owner entry that was renewed at `now` is still there two
/// intervals later, so one missed heartbeat does not cost the ownership.
pub proof fn one_missed_heartbeat_is_survived(
    store: KvStore,
    group: Seq<char>,
    instance: Seq<char>,
    connection: Seq<char>,
    now: int,
    interval: int,
)
    requires
        interval > 0,
        3 * interval <= OWNERSHIP_TTL_SECS,
        owner_of(store, group, connection, now) is Some,
    ensures
        owner_of(
            after_refresh(store, group, instance, connection, now),
            group,
            connection,
            now + 2 * interval,
        ) == owner_of(store, group, connection, now),
{
    refresh_extends_ownership(store, group, instance, connection, now, now + 2 * interval);
}

/// A heartbeat for entries that are gone changes nothing.
pub proof fn refresh_of_absent_is_noop(
    store: KvStore,
    group: Seq<char>,
    instance: Seq<char>,
    connection: Seq<char>,
    now: int,
)
    requires
        !live(store, forward_key(group, instance, connection), now),
        !live(store, reverse_key(group, connection), now),
    ensures
        after_refresh(store, group, instance, connection, now) == store,
{
    let c = refresh_commands(group, instance, connection);
    apply_pair(store, c[0], c[1], now);
    assert(c =~= seq![c[0], c[1]]);
}

/// Expiry: once the time to live has passed since the last claim or
/// heartbeat of a connection, and nothing was written since, the directory
/// names no owner for it and its forward entry is gone.
pub proof fn ownership_expires(
    store: KvStore,
    group: Seq<char>,
    instance: Seq<char>,
    connection: Seq<char>,
    now: int,
    t: int,
)
    requires
        t >= now + OWNERSHIP_TTL_SECS,
    ensures
        owner_of(after_claim(store, group, instance, connection, now), group, connection, t)
            is None,
        value_at(
            after_claim(store, group, instance, connection, now),
            forward_key(group, instance, connection),
            t,
        ) is None,
        owner_of(after_refresh(store, group, instance, connection, now), group, connection, now)
            is Some ==> owner_of(
            after_refresh(store, group, instance, connection, now),
            group,
            connection,
            t,
        ) is None,
{
    let c = claim_commands(group, instance, connection);
    apply_four(store, c[0], c[1], c[2], c[3], now);
    assert(c =~= seq![c[0], c[1], c[2], c[3]]);
    let r = refresh_commands(group, instance, connection);
    apply_pair(store, r[0], r[1], now);
    assert(r =~= seq![r[0], r[1]]);
    keys_differ(group, instance, connection, connection);
}

/// One heartbeat more at the same instant changes nothing.
pub proof fn refresh_twice_is_once(
    store: KvStore,
    group: Seq<char>,
    instance: Seq<char>,
    connection: Seq<char>,
    now: int,
)
    ensures
        after_refresh(
            after_refresh(store, group, instance, connection, now),
            group,
            instance,
            connection,
            now,
        ) == after_refresh(store, group, instance, connection, now),
{
    let c = refresh_commands(group, instance, connection);
    let once = after_refresh(store, group, instance, connection, now);
    apply_pair(store, c[0], c[1], now);
    apply_pair(once, c[0], c[1], now);
    assert(c =~= seq![c[0], c[1]]);
    keys_differ(group, instance, connection, connection);
    assert(after_refresh(once, group, instance, connection, now) =~= once);
}

/// Heartbeat idempotence: any number of heartbeats of one connection at the
/// same instant leave the store as a single one does, with the full time to
/// live on the owner entry if it was live.
pub proof fn refreshes_are_idempotent(
    store: KvStore,
    group: Seq<char>,
    instance: Seq<char>,
    connection: Seq<char>,
    now: int,
    n: nat,
)
    requires
        n >= 1,
    ensures
        after_refreshes(store, group, instance, connection, now, n) == after_refresh(
            store,
            group,
            instance,
            connection,
            now,
        ),
        owner_of(store, group, connection, now) is Some ==> ttl_at(
            after_refreshes(store, group, instance, connection, now, n),
            reverse_key(group, connection),
            now,
        ) == Some(OWNERSHIP_TTL_SECS as int),
    decreases n,
{
    if n == 1 {
        assert(after_refreshes(store, group, instance, connection, now, 0) == store);
    } else {
        refreshes_are_idempotent(store, group, instance, connection, now, (n - 1) as nat);
        refresh_twice_is_once(store, group, instance, connection, now);
    }
    if owner_of(store, group, connection, now) is Some {
        refresh_extends_ownership(store, group, instance, connection, now, now);
    }
}

/// Release: afterwards the directory names no owner for the connection and
/// its forward entry is gone; releasing again changes nothing.
pub proof fn release_clears_ownership(
    store: KvStore,
    group: Seq<char>,
    instance: Seq<char>,
    connection: Seq<char>,
    now: int,
    t: int,
)
    ensures
        owner_of(after_release(store, group, instance, connection, now), group, connection, t)
            is None,
        value_at(
            after_release(store, group, instance, connection, now),
            forward_key(group, instance, connection),
            t,
        ) is None,
        after_release(
            after_release(store, group, instance, connection, now),
            group,
            instance,
            connection,
            now,
        ) == after_release(store, group, instance, connection, now),
{
    let c = release_commands(group, instance, connection);
    let once = after_release(store, group, instance, connection, now);
    apply_pair(store, c[0], c[1], now);
    apply_pair(once, c[0], c[1], now);
    assert(c =~= seq![c[0], c[1]]);
    assert(after_release(once, group, instance, connection, now) =~= once);
}

} // verus!
