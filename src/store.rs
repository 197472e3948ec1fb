use vstd::prelude::*;
use vstd::utf8::encode_utf8;

verus! {

/// Failure of a cache operation.
#[derive(Debug, Clone, Copy, PartialEq, Eq, Structural)]
pub enum CacheStoreError {
    /// No backend connection could be obtained.
    Disconnected,
    /// The backend reported an error, or the call timed out.
    Failed,
    /// The value exceeds the configured size cap.
    TooLarge,
}

/// Which server-side purge script runs for a pattern.
#[derive(Debug, Clone, Copy, PartialEq, Eq, Structural)]
pub enum CachePurgeVariant {
    /// Deletes every matched key, and the base key of every matched bucket marker.
    Bucket,
    /// Deletes exactly the matched keys.
    Auth,
}

/// How a backend round trip went wrong, before it is mapped to a `CacheStoreError`.
#[derive(Debug, Clone, Copy, PartialEq, Eq, Structural)]
pub enum BackendFault {
    /// The pool handed out no connection in time.
    NoConnection,
    /// The backend answered with an error, or the call timed out.
    CommandFailed,
}

/// One set-with-expiry command: `key` holds `value` for `ttl` seconds.
#[derive(Debug, Clone, PartialEq, Eq)]
pub struct SetEx {
    pub key: String,
    pub value: String,
    pub ttl: usize,
}

/// The backend work of one successful `set`.
#[derive(Debug, Clone, PartialEq, Eq)]
pub enum CacheWrite {
    /// A single set-with-expiry command.
    Single(SetEx),
    /// Two set-with-expiry commands, the data entry then its bucket marker, sent as one
    /// all-or-nothing transaction.
    Bucketed(SetEx, SetEx),
}

/// A server-side script run with one argument.
#[derive(Debug, Clone, PartialEq, Eq)]
pub struct ScriptCall {
    pub source: &'static str,
    pub argument: String,
}

/// The configured limits of a cache store.
#[derive(Debug, Clone, Copy, PartialEq, Eq, Structural)]
pub struct CacheStore {
    /// The largest TTL, in seconds, that any entry is written with.
    pub max_key_expiration: usize,
    /// The largest value, in bytes, that is accepted.
    pub max_key_size: usize,
}

/// Builds the cache store from its configured limits.
pub struct CacheStoreBuilder;

/// A set-with-expiry command as the backend sees it: key, value and TTL.
pub type SetExView = (Seq<char>, Seq<char>, nat);

/// What the backend holds: for each key, its value and its remaining TTL.
pub type Keyspace = Map<Seq<char>, (Seq<char>, nat)>;

impl SetEx {
    pub open spec fn view(&self) -> SetExView {
        (self.key@, self.value@, self.ttl as nat)
    }
}

impl CacheWrite {
    /// The commands of this write, in the order they are sent.
    pub open spec fn commands(&self) -> Seq<SetExView> {
        match self {
            CacheWrite::Single(c) => seq![c.view()],
            CacheWrite::Bucketed(c, m) => seq![c.view(), m.view()],
        }
    }

    /// Whether the commands go as one transaction.
    pub open spec fn is_atomic(&self) -> bool {
        self is Bucketed
    }
}

/// The size in bytes of a value, as it is sent to the backend.
pub open spec fn byte_len(value: Seq<char>) -> nat {
    encode_utf8(value).len()
}

/// `ttl` held to at most `max`.
pub open spec fn capped_ttl(ttl: nat, max: nat) -> nat {
    if ttl <= max {
        ttl
    } else {
        max
    }
}

/// What `set` asks of the backend, or why it asks nothing.
pub open spec fn set_commands(
    store: CacheStore,
    key: Seq<char>,
    value: Seq<char>,
    ttl: nat,
    key_bucket: Option<Seq<char>>,
) -> Result<Seq<SetExView>, CacheStoreError> {
    if byte_len(value) > store.max_key_size {
        Err(CacheStoreError::TooLarge)
    } else {
        let t = capped_ttl(ttl, store.max_key_expiration as nat);
        match key_bucket {
            None => Ok(seq![(key, value, t)]),
            Some(kb) => Ok(seq![(key, value, t), (kb, Seq::<char>::empty(), t)]),
        }
    }
}

/// The keyspace after the commands ran in order.
pub open spec fn apply_commands(db: Keyspace, cmds: Seq<SetExView>) -> Keyspace
    decreases cmds.len(),
{
    if cmds.len() == 0 {
        db
    } else {
        apply_commands(db.insert(cmds[0].0, (cmds[0].1, cmds[0].2)), cmds.drop_first())
    }
}

/// The keyspace `elapsed` seconds later: entries whose TTL ran out are gone, the others
/// have that much less time left.
pub open spec fn expire(db: Keyspace, elapsed: nat) -> Keyspace {
    Map::new(
        |k: Seq<char>| db.contains_key(k) && db[k].1 > elapsed,
        |k: Seq<char>| (db[k].0, (db[k].1 - elapsed) as nat),
    )
}

/// What a get-by-key command returns on the keyspace.
pub open spec fn lookup(db: Keyspace, key: Seq<char>) -> Option<Seq<char>> {
    if db.contains_key(key) {
        Some(db[key].0)
    } else {
        None
    }
}

/// The error that a backend fault is reported as.
pub open spec fn fault_error(f: BackendFault) -> CacheStoreError {
    match f {
        BackendFault::NoConnection => CacheStoreError::Disconnected,
        BackendFault::CommandFailed => CacheStoreError::Failed,
    }
}

/// The text of the bucket purge script.
pub open spec fn bucket_script() -> Seq<char> {
    BUCKET_SCRIPT@
}

/// The text of the auth purge script.
pub open spec fn auth_script() -> Seq<char> {
    AUTH_SCRIPT@
}

/// The script source that a purge variant runs.
pub open spec fn purge_script(variant: CachePurgeVariant) -> Seq<char> {
    match variant {
        CachePurgeVariant::Bucket => bucket_script(),
        CachePurgeVariant::Auth => auth_script(),
    }
}

/// Collects every key matching ARGV[1]; a key of the shape `<base>:b:<bucket>` also
/// brings `<base>`; all of them go in one deletion, none when nothing matched.
pub const BUCKET_SCRIPT: &'static str = r#"
    local re = '^(.+):b:.+$'
    local targets = {}

    for _, bucket_key in pairs(redis.call('KEYS', ARGV[1])) do
        local base_key = bucket_key:match(re)

        if base_key then
            table.insert(targets, base_key)
        end

        table.insert(targets, bucket_key)
    end

    if next(targets) then
        redis.call('DEL', unpack(targets))
    end
"#;

/// Deletes exactly the keys matching ARGV[1], in one deletion, none when nothing matched.
pub const AUTH_SCRIPT: &'static str = r#"
    local targets = redis.call('KEYS', ARGV[1])

    if next(targets) then
        redis.call('DEL', unpack(targets))
    end
"#;

impl CacheStoreBuilder {
    /// A store with the given TTL cap (seconds) and value size cap (bytes).
    pub fn new(max_key_expiration: usize, max_key_size: usize) -> (r: CacheStore)
        ensures
            r.max_key_expiration == max_key_expiration,
            r.max_key_size == max_key_size,
    {
        CacheStore { max_key_expiration, max_key_size }
    }
}

impl CachePurgeVariant {
    /// The source of the server-side script of this variant.
    pub fn get_script(&self) -> (r: &'static str)
        ensures
            r@ == purge_script(*self),
    {
        match *self {
            CachePurgeVariant::Bucket => BUCKET_SCRIPT,
            CachePurgeVariant::Auth => AUTH_SCRIPT,
        }
    }
}

/// Caps a requested TTL at the configured maximum.
pub fn cap_ttl(ttl: usize, max_key_expiration: usize) -> (r: usize)
    ensures
        r as nat == capped_ttl(ttl as nat, max_key_expiration as nat),
{
    if ttl <= max_key_expiration {
        ttl
    } else {
        max_key_expiration
    }
}

/// Maps the outcome of a backend round trip to the store's error taxonomy.
pub fn settle<T>(outcome: Result<T, BackendFault>) -> (r: Result<T, CacheStoreError>)
    ensures
        match outcome {
            Ok(v) => r == Ok::<T, CacheStoreError>(v),
            Err(f) => r == Err::<T, CacheStoreError>(fault_error(f)),
        },
{
    match outcome {
        Ok(v) => Ok(v),
        Err(BackendFault::NoConnection) => Err(CacheStoreError::Disconnected),
        Err(BackendFault::CommandFailed) => Err(CacheStoreError::Failed),
    }
}

impl CacheStore {
    /// The backend work that stores `value` under `key` for `ttl` seconds, capped at
    /// the store's maximum; with `key_bucket`, the bucket marker goes in the same
    /// transaction with an empty value and the same TTL. A value over the size cap
    /// is refused before any backend work.
    pub fn set(&self, key: &str, value: &str, ttl: usize, key_bucket: Option<String>) -> (r:
        Result<CacheWrite, CacheStoreError>)
        ensures
            match r {
                Ok(w) => set_commands(
                    *self,
                    key@,
                    value@,
                    ttl as nat,
                    match key_bucket {
                        Some(kb) => Some(kb@),
                        None => None,
                    },
                ) == Ok::<Seq<SetExView>, CacheStoreError>(w.commands()) && w.is_atomic()
                    == key_bucket.is_some(),
                Err(e) => set_commands(
                    *self,
                    key@,
                    value@,
                    ttl as nat,
                    match key_bucket {
                        Some(kb) => Some(kb@),
                        None => None,
                    },
                ) == Err::<Seq<SetExView>, CacheStoreError>(e),
            },
    {
        if value.as_bytes().len() > self.max_key_size {
            return Err(CacheStoreError::TooLarge);
        }
        let ttl_cap = cap_ttl(ttl, self.max_key_expiration);
        let data = SetEx { key: key.to_string(), value: value.to_string(), ttl: ttl_cap };
        match key_bucket {
            Some(kb) => {
                let ghost kbv = kb@;
                let marker = SetEx { key: kb, value: String::new(), ttl: ttl_cap };
                let w = CacheWrite::Bucketed(data, marker);
                assert(w.commands() =~= seq![
                    (key@, value@, ttl_cap as nat),
                    (kbv, Seq::<char>::empty(), ttl_cap as nat),
                ]);
                Ok(w)
            },
            None => Ok(CacheWrite::Single(data)),
        }
    }

    /// The script call that purges every key matching `key_pattern` in the way of
    /// `variant`.
    pub fn purge_pattern(&self, variant: &CachePurgeVariant, key_pattern: &str) -> (r:
        ScriptCall)
        ensures
            r.source@ == purge_script(*variant),
            r.argument@ == key_pattern@,
    {
        ScriptCall { source: variant.get_script(), argument: key_pattern.to_string() }
    }
}

/// The keyspace after one accepted `set`: its commands applied on `db`.
pub open spec fn after_set(
    store: CacheStore,
    db: Keyspace,
    key: Seq<char>,
    value: Seq<char>,
    ttl: nat,
    key_bucket: Option<Seq<char>>,
) -> Keyspace {
    apply_commands(db, set_commands(store, key, value, ttl, key_bucket)->Ok_0)
}

proof fn lemma_apply_one(db: Keyspace, c: SetExView)
    ensures
        apply_commands(db, seq![c]) == db.insert(c.0, (c.1, c.2)),
{
    let rest = seq![c].drop_first();
    assert(rest =~= Seq::<SetExView>::empty());
    assert(apply_commands(db.insert(c.0, (c.1, c.2)), rest) == db.insert(c.0, (c.1, c.2)));
}

proof fn lemma_apply_two(db: Keyspace, c: SetExView, d: SetExView)
    ensures
        apply_commands(db, seq![c, d]) == db.insert(c.0, (c.1, c.2)).insert(d.0, (d.1, d.2)),
{
    assert(seq![c, d].drop_first() =~= seq![d]);
    lemma_apply_one(db.insert(c.0, (c.1, c.2)), d);
}

/// For every requested TTL, a plain write that is accepted leaves the key with the
/// requested TTL held to the store's maximum.
pub proof fn lemma_set_caps_ttl(
    store: CacheStore,
    db: Keyspace,
    key: Seq<char>,
    value: Seq<char>,
    ttl: nat,
)
    requires
        byte_len(value) <= store.max_key_size,
    ensures
        set_commands(store, key, value, ttl, None) is Ok,
        after_set(store, db, key, value, ttl, None).contains_key(key),
        after_set(store, db, key, value, ttl, None)[key].1 == capped_ttl(
            ttl,
            store.max_key_expiration as nat,
        ),
        capped_ttl(ttl, store.max_key_expiration as nat) <= store.max_key_expiration,
{
    lemma_apply_one(db, (key, value, capped_ttl(ttl, store.max_key_expiration as nat)));
}

/// A value over the size cap is refused with `TooLarge`, bucketed or not, and brings
/// no command to the backend.
pub proof fn lemma_too_large_writes_nothing(
    store: CacheStore,
    key: Seq<char>,
    value: Seq<char>,
    ttl: nat,
    key_bucket: Option<Seq<char>>,
)
    requires
        byte_len(value) > store.max_key_size,
    ensures
        set_commands(store, key, value, ttl, key_bucket) == Err::<Seq<SetExView>, CacheStoreError>(
            CacheStoreError::TooLarge,
        ),
{
}

/// A plain write followed by a get of the same key gives the value back while its
/// capped TTL has not run out, and nothing afterwards.
pub proof fn lemma_set_then_get(
    store: CacheStore,
    db: Keyspace,
    key: Seq<char>,
    value: Seq<char>,
    ttl: nat,
    elapsed: nat,
)
    requires
        byte_len(value) <= store.max_key_size,
    ensures
        elapsed < capped_ttl(ttl, store.max_key_expiration as nat) ==> lookup(
            expire(after_set(store, db, key, value, ttl, None), elapsed),
            key,
        ) == Some(value),
        elapsed >= capped_ttl(ttl, store.max_key_expiration as nat) ==> lookup(
            expire(after_set(store, db, key, value, ttl, None), elapsed),
            key,
        ) is None,
{
    lemma_apply_one(db, (key, value, capped_ttl(ttl, store.max_key_expiration as nat)));
}

/// A bucketed write that is accepted goes as one transaction, and leaves both the data
/// key and its marker present with the same TTL; the data key holds the value and the
/// marker an empty value when the two keys differ.
pub proof fn lemma_bucketed_write(
    store: CacheStore,
    db: Keyspace,
    key: Seq<char>,
    value: Seq<char>,
    ttl: nat,
    key_bucket: Seq<char>,
)
    requires
        byte_len(value) <= store.max_key_size,
    ensures
        set_commands(store, key, value, ttl, Some(key_bucket)) is Ok,
        after_set(store, db, key, value, ttl, Some(key_bucket)).contains_key(key),
        after_set(store, db, key, value, ttl, Some(key_bucket)).contains_key(key_bucket),
        after_set(store, db, key, value, ttl, Some(key_bucket))[key].1 == after_set(
            store,
            db,
            key,
            value,
            ttl,
            Some(key_bucket),
        )[key_bucket].1,
        after_set(store, db, key, value, ttl, Some(key_bucket))[key].1 == capped_ttl(
            ttl,
            store.max_key_expiration as nat,
        ),
        key != key_bucket ==> after_set(store, db, key, value, ttl, Some(key_bucket))[key].0
            == value,
        after_set(store, db, key, value, ttl, Some(key_bucket))[key_bucket].0
            == Seq::<char>::empty(),
{
    let t = capped_ttl(ttl, store.max_key_expiration as nat);
    lemma_apply_two(db, (key, value, t), (key_bucket, Seq::<char>::empty(), t));
}

/// Whether the bucket-marker delimiter `:b:` starts at `i` in `key`, with a non-empty
/// base before it and a non-empty bucket after it.
pub open spec fn is_marker_split(key: Seq<char>, i: int) -> bool {
    1 <= i && i + 3 < key.len() && key.subrange(i, i + 3) == ":b:"@
}

/// The base key of a bucket marker `<base>:b:<bucket>`, as the bucket script's greedy
/// pattern `^(.+):b:.+$` reads it: the base before the last such delimiter.
pub open spec fn marker_base(key: Seq<char>) -> Option<Seq<char>> {
    if exists|i: int| is_marker_split(key, i) {
        let i = choose|i: int|
            is_marker_split(key, i) && forall|j: int| is_marker_split(key, j) ==> j <= i;
        Some(key.subrange(0, i))
    } else {
        None
    }
}

/// The keys that the script of `variant` deletes, given the keys that its pattern
/// matched on the backend.
pub open spec fn purge_targets(variant: CachePurgeVariant, matched: Set<Seq<char>>) -> Set<
    Seq<char>,
> {
    match variant {
        CachePurgeVariant::Auth => matched,
        CachePurgeVariant::Bucket => matched + Set::new(
            |b: Seq<char>| exists|k: Seq<char>| #[trigger]
                matched.contains(k) && marker_base(k) == Some(b),
        ),
    }
}

/// The keyspace after a purge deleted `targets`.
pub open spec fn after_purge(db: Keyspace, targets: Set<Seq<char>>) -> Keyspace {
    db.remove_keys(targets)
}

proof fn lemma_marker_base_of(base: Seq<char>, bucket: Seq<char>)
    requires
        base.len() > 0,
        bucket.len() > 0,
        forall|i: int| 0 <= i < bucket.len() ==> bucket[i] != ':',
    ensures
        marker_base(base + ":b:"@ + bucket) == Some(base),
{
    reveal_strlit(":b:");
    let key = base + ":b:"@ + bucket;
    let n = base.len() as int;
    assert(key.subrange(n, n + 3) =~= ":b:"@);
    assert(is_marker_split(key, n));
    assert forall|j: int| is_marker_split(key, j) implies j <= n by {
        if j > n {
            let w = key.subrange(j, j + 3);
            assert(w[0] == key[j]);
            assert(w[2] == key[j + 2]);
            if j == n + 1 {
                assert(key[j] == 'b');
            } else if j == n + 2 {
                assert(key[j + 2] == bucket[1]);
            } else {
                assert(key[j] == bucket[j - n - 3]);
            }
        }
    }
    let i = choose|i: int|
        is_marker_split(key, i) && forall|j: int| is_marker_split(key, j) ==> j <= i;
    assert(i == n);
    assert(key.subrange(0, n) =~= base);
}

/// A bucket purge whose pattern matched the marker `<base>:b:<bucket>` deletes the
/// marker and `base`, and keeps every other key that neither matched nor is the base of
/// a matched marker. It does not hold of a bucket id holding `:`, whose marker the
/// script reads with a longer base.
pub proof fn lemma_bucket_purge(
    db: Keyspace,
    matched: Set<Seq<char>>,
    base: Seq<char>,
    bucket: Seq<char>,
)
    requires
        base.len() > 0,
        bucket.len() > 0,
        forall|i: int| 0 <= i < bucket.len() ==> bucket[i] != ':',
        matched.contains(base + ":b:"@ + bucket),
    ensures
        !after_purge(db, purge_targets(CachePurgeVariant::Bucket, matched)).contains_key(base),
        !after_purge(db, purge_targets(CachePurgeVariant::Bucket, matched)).contains_key(
            base + ":b:"@ + bucket,
        ),
        forall|k: Seq<char>|
            db.contains_key(k) && !matched.contains(k) && !(exists|m: Seq<char>| #[trigger]
                matched.contains(m) && marker_base(m) == Some(k)) ==> after_purge(
                db,
                purge_targets(CachePurgeVariant::Bucket, matched),
            ).contains_key(k) && after_purge(
                db,
                purge_targets(CachePurgeVariant::Bucket, matched),
            )[k] == db[k],
{
    lemma_marker_base_of(base, bucket);
    let marker = base + ":b:"@ + bucket;
    assert(matched.contains(marker) && marker_base(marker) == Some(base));
    assert(purge_targets(CachePurgeVariant::Bucket, matched).contains(base));
}

/// An auth purge deletes exactly the keys that its pattern matched, and leaves every
/// other key as it was.
pub proof fn lemma_auth_purge(db: Keyspace, matched: Set<Seq<char>>)
    ensures
        after_purge(db, purge_targets(CachePurgeVariant::Auth, matched)).dom() == db.dom()
            - matched,
        forall|k: Seq<char>|
            #[trigger] after_purge(db, purge_targets(CachePurgeVariant::Auth, matched)).contains_key(
                k,
            ) ==> after_purge(db, purge_targets(CachePurgeVariant::Auth, matched))[k] == db[k],
{
    assert(after_purge(db, purge_targets(CachePurgeVariant::Auth, matched)).dom() =~= db.dom()
        - matched);
}

/// A purge whose pattern matched no key leaves the keyspace as it was, whichever the
/// variant.
pub proof fn lemma_purge_nothing(variant: CachePurgeVariant, db: Keyspace)
    ensures
        after_purge(db, purge_targets(variant, Set::<Seq<char>>::empty())) == db,
{
    assert(purge_targets(variant, Set::<Seq<char>>::empty()) =~= Set::<Seq<char>>::empty());
    assert(after_purge(db, Set::<Seq<char>>::empty()) =~= db);
}

} // verus!
