//! The persisted administrative catalogs: engine records, API keys, and
//! the singleton gateway settings row.  Each table's contract states the
//! exact row-level effect; ids are unique as the underlying store's
//! primary keys enforce.

use vstd::prelude::*;
use vstd::pervasive::VecAdditionalExecFns;
use crate::errors::{CatalogError, StoreError};
use crate::ident;

verus! {

/// One row of the engines catalog.
#[derive(Debug, PartialEq, Eq)]
pub struct EngineRecord {
    pub id: String,
    pub name: String,
    pub base_url: String,
    pub kind: String,
    pub status: String,
    pub group_name: String,
    pub weight: i64,
    pub priority: i64,
    pub enabled: bool,
    pub created_at: i64,
    pub updated_at: i64,
}

impl EngineRecord {
    /// A field-for-field copy, equal to the original.
    pub fn duplicate(&self) -> (r: EngineRecord)
        ensures
            r == *self,
    {
        EngineRecord {
            id: self.id.clone(),
            name: self.name.clone(),
            base_url: self.base_url.clone(),
            kind: self.kind.clone(),
            status: self.status.clone(),
            group_name: self.group_name.clone(),
            weight: self.weight,
            priority: self.priority,
            enabled: self.enabled,
            created_at: self.created_at,
            updated_at: self.updated_at,
        }
    }
}

/// What a create or update request carries; absent fields fall back to
/// the documented defaults.
pub struct EnginePayload {
    pub name: String,
    pub base_url: String,
    pub kind: String,
    pub status: Option<String>,
    pub group_name: Option<String>,
    pub weight: Option<i64>,
    pub priority: Option<i64>,
    pub enabled: Option<bool>,
}

pub open spec fn payload_status(p: EnginePayload) -> Seq<char> {
    match p.status {
        Some(s) => s@,
        None => "active"@,
    }
}

pub open spec fn payload_group(p: EnginePayload) -> Seq<char> {
    match p.group_name {
        Some(s) => s@,
        None => "default"@,
    }
}

pub open spec fn payload_weight(p: EnginePayload) -> i64 {
    match p.weight {
        Some(w) => w,
        None => 100,
    }
}

pub open spec fn payload_priority(p: EnginePayload) -> i64 {
    match p.priority {
        Some(w) => w,
        None => 0,
    }
}

pub open spec fn payload_enabled(p: EnginePayload) -> bool {
    match p.enabled {
        Some(b) => b,
        None => true,
    }
}

/// The record's mutable fields are exactly the payload with defaults
/// applied.
pub open spec fn record_matches_payload(r: EngineRecord, p: EnginePayload) -> bool {
    &&& r.name@ == p.name@
    &&& r.base_url@ == p.base_url@
    &&& r.kind@ == p.kind@
    &&& r.status@ == payload_status(p)
    &&& r.group_name@ == payload_group(p)
    &&& r.weight == payload_weight(p)
    &&& r.priority == payload_priority(p)
    &&& r.enabled == payload_enabled(p)
}

pub open spec fn unique_engine_ids(rows: Seq<EngineRecord>) -> bool {
    forall|i: int, j: int|
        0 <= i < j < rows.len() ==> (#[trigger] rows[i].id)@ != (#[trigger] rows[j].id)@
}

pub open spec fn has_engine(rows: Seq<EngineRecord>, id: Seq<char>) -> bool {
    exists|i: int| 0 <= i < rows.len() && (#[trigger] rows[i].id)@ == id
}

/// The engines catalog.
pub struct EngineTable {
    pub rows: Vec<EngineRecord>,
}

impl EngineTable {
    pub open spec fn wf(self) -> bool {
        unique_engine_ids(self.rows@)
    }

    pub fn new() -> (r: EngineTable)
        ensures
            r.wf(),
            r.rows@.len() == 0,
    {
        EngineTable { rows: Vec::new() }
    }

    /// All rows, in insertion order.
    pub fn list(&self) -> (r: Vec<EngineRecord>)
        ensures
            r@ == self.rows@,
    {
        let n = self.rows.len();
        let mut out: Vec<EngineRecord> = Vec::new();
        let mut i: usize = 0;
        while i < n
            invariant
                0 <= i <= n,
                n == self.rows@.len(),
                out@ == self.rows@.subrange(0, i as int),
            decreases n - i,
        {
            out.push(self.rows[i].duplicate());
            proof {
                assert(self.rows@.subrange(0, i + 1) =~= self.rows@.subrange(0, i as int).push(
                    self.rows@[i as int],
                ));
            }
            i = i + 1;
        }
        proof {
            assert(self.rows@.subrange(0, n as int) =~= self.rows@);
        }
        out
    }

    /// Lookup by id.
    pub fn get(&self, id: &str) -> (r: Result<EngineRecord, CatalogError>)
        ensures
            match r {
                Ok(rec) => exists|k: int|
                    0 <= k < self.rows@.len() && #[trigger] self.rows@[k] == rec && rec.id@ == id@,
                Err(e) => e == CatalogError::NotFound && !has_engine(self.rows@, id@),
            },
    {
        let n = self.rows.len();
        let mut i: usize = 0;
        while i < n
            invariant
                0 <= i <= n,
                n == self.rows@.len(),
                forall|j: int| 0 <= j < i ==> (#[trigger] self.rows@[j].id)@ != id@,
            decreases n - i,
        {
            if crate::strutil::str_eq(self.rows[i].id.as_str(), id) {
                return Ok(self.rows[i].duplicate());
            }
            i = i + 1;
        }
        Err(CatalogError::NotFound)
    }

    /// Creates a row from the payload: fresh id, defaults applied, both
    /// timestamps set to now.  A duplicate id — possible only if the
    /// random id collides — is rejected, never overwritten.
    pub fn create(&mut self, payload: EnginePayload, now: i64) -> (r: Result<
        EngineRecord,
        StoreError,
    >)
        requires
            old(self).wf(),
        ensures
            final(self).wf(),
            match r {
                Ok(rec) => {
                    &&& record_matches_payload(rec, payload)
                    &&& rec.created_at == now
                    &&& rec.updated_at == now
                    &&& rec.id@.len() == 36
                    &&& !has_engine(old(self).rows@, rec.id@)
                    &&& final(self).rows@ == old(self).rows@.push(rec)
                },
                Err(e) => e == StoreError::DuplicateId && old(self).rows@.len() > 0 && final(
                    self).rows@ == old(self).rows@,
            },
    {
        let rec = EngineRecord {
            id: ident::new_uuid_string(),
            name: payload.name,
            base_url: payload.base_url,
            kind: payload.kind,
            status: match payload.status {
                Some(s) => s,
                None => String::from_str("active"),
            },
            group_name: match payload.group_name {
                Some(s) => s,
                None => String::from_str("default"),
            },
            weight: match payload.weight {
                Some(w) => w,
                None => 100,
            },
            priority: match payload.priority {
                Some(w) => w,
                None => 0,
            },
            enabled: match payload.enabled {
                Some(b) => b,
                None => true,
            },
            created_at: now,
            updated_at: now,
        };
        let n = self.rows.len();
        let mut i: usize = 0;
        while i < n
            invariant
                0 <= i <= n,
                n == self.rows@.len(),
                self.rows@ == old(self).rows@,
                unique_engine_ids(self.rows@),
                forall|j: int| 0 <= j < i ==> (#[trigger] self.rows@[j].id)@ != rec.id@,
            decreases n - i,
        {
            if crate::strutil::str_eq(self.rows[i].id.as_str(), rec.id.as_str()) {
                return Err(StoreError::DuplicateId);
            }
            i = i + 1;
        }
        let out = rec.duplicate();
        self.rows.push(rec);
        Ok(out)
    }

    /// Replaces the mutable fields of the row with this id, stamps the
    /// update time, and returns the new row; the id and creation time are
    /// kept.  Fails exactly when no row carries the id.
    pub fn update(&mut self, id: &str, payload: EnginePayload, now: i64) -> (r: Result<
        EngineRecord,
        CatalogError,
    >)
        requires
            old(self).wf(),
        ensures
            final(self).wf(),
            match r {
                Ok(rec) => {
                    &&& record_matches_payload(rec, payload)
                    &&& rec.updated_at == now
                    &&& rec.id@ == id@
                    &&& exists|k: int|
                        0 <= k < old(self).rows@.len() && (#[trigger] old(self).rows@[k].id)@ == id@
                            && rec.created_at == old(self).rows@[k].created_at && final(self).rows@
                            == old(self).rows@.update(k, rec)
                },
                Err(e) => e == CatalogError::NotFound && !has_engine(old(self).rows@, id@) && final(
                    self).rows@ == old(self).rows@,
            },
    {
        let n = self.rows.len();
        let mut i: usize = 0;
        while i < n
            invariant
                0 <= i <= n,
                n == self.rows@.len(),
                self.rows@ == old(self).rows@,
                unique_engine_ids(self.rows@),
                forall|j: int| 0 <= j < i ==> (#[trigger] self.rows@[j].id)@ != id@,
            decreases n - i,
        {
            if crate::strutil::str_eq(self.rows[i].id.as_str(), id) {
                let rec = EngineRecord {
                    id: self.rows[i].id.clone(),
                    name: payload.name,
                    base_url: payload.base_url,
                    kind: payload.kind,
                    status: match payload.status {
                        Some(s) => s,
                        None => String::from_str("active"),
                    },
                    group_name: match payload.group_name {
                        Some(s) => s,
                        None => String::from_str("default"),
                    },
                    weight: match payload.weight {
                        Some(w) => w,
                        None => 100,
                    },
                    priority: match payload.priority {
                        Some(w) => w,
                        None => 0,
                    },
                    enabled: match payload.enabled {
                        Some(b) => b,
                        None => true,
                    },
                    created_at: self.rows[i].created_at,
                    updated_at: now,
                };
                let out = rec.duplicate();
                self.rows.set(i, rec);
                proof {
                    assert forall|a: int, b: int|
                        0 <= a < b < self.rows@.len() implies (#[trigger] self.rows@[a].id)@ != (
                    #[trigger] self.rows@[b].id)@ by {
                        assert(old(self).rows@[a].id@ != old(self).rows@[b].id@);
                    }
                }
                return Ok(out);
            }
            i = i + 1;
        }
        Err(CatalogError::NotFound)
    }

    /// Removes the row with this id.  Fails exactly when no row carries
    /// it.
    pub fn delete(&mut self, id: &str) -> (r: Result<(), CatalogError>)
        requires
            old(self).wf(),
        ensures
            final(self).wf(),
            match r {
                Ok(()) => exists|k: int|
                    0 <= k < old(self).rows@.len() && (#[trigger] old(self).rows@[k].id)@ == id@
                        && final(self).rows@ == old(self).rows@.remove(k),
                Err(e) => e == CatalogError::NotFound && !has_engine(old(self).rows@, id@) && final(
                    self).rows@ == old(self).rows@,
            },
    {
        let n = self.rows.len();
        let mut i: usize = 0;
        while i < n
            invariant
                0 <= i <= n,
                n == self.rows@.len(),
                self.rows@ == old(self).rows@,
                unique_engine_ids(self.rows@),
                forall|j: int| 0 <= j < i ==> (#[trigger] self.rows@[j].id)@ != id@,
            decreases n - i,
        {
            if crate::strutil::str_eq(self.rows[i].id.as_str(), id) {
                self.rows.remove(i);
                proof {
                    assert forall|a: int, b: int|
                        0 <= a < b < self.rows@.len() implies (#[trigger] self.rows@[a].id)@ != (
                    #[trigger] self.rows@[b].id)@ by {
                        let olda = if a < i as int { a } else { a + 1 };
                        let oldb = if b < i as int { b } else { b + 1 };
                        assert(self.rows@[a] == old(self).rows@[olda]);
                        assert(self.rows@[b] == old(self).rows@[oldb]);
                        assert(old(self).rows@[olda].id@ != old(self).rows@[oldb].id@);
                    }
                }
                return Ok(());
            }
            i = i + 1;
        }
        Err(CatalogError::NotFound)
    }
}

/// One row of the API-key catalog.
#[derive(Debug, PartialEq, Eq)]
pub struct ApiKeyRecord {
    pub id: String,
    pub name: String,
    pub key: String,
    pub created_at: i64,
}

impl ApiKeyRecord {
    /// A field-for-field copy, equal to the original.
    pub fn duplicate(&self) -> (r: ApiKeyRecord)
        ensures
            r == *self,
    {
        ApiKeyRecord {
            id: self.id.clone(),
            name: self.name.clone(),
            key: self.key.clone(),
            created_at: self.created_at,
        }
    }
}

pub open spec fn unique_key_ids(rows: Seq<ApiKeyRecord>) -> bool {
    forall|i: int, j: int|
        0 <= i < j < rows.len() ==> (#[trigger] rows[i].id)@ != (#[trigger] rows[j].id)@
}

pub open spec fn has_key_id(rows: Seq<ApiKeyRecord>, id: Seq<char>) -> bool {
    exists|i: int| 0 <= i < rows.len() && (#[trigger] rows[i].id)@ == id
}

/// Newest first, as the listing is served.
pub open spec fn sorted_newest_first(rows: Seq<ApiKeyRecord>) -> bool {
    forall|i: int, j: int|
        0 <= i < j < rows.len() ==> (#[trigger] rows[i]).created_at >= (#[trigger] rows[j]).created_at
}

/// `post` is `pre` with `rec` inserted at the first position whose row is
/// not newer than `now` — where the newest-first order puts a row created
/// now.
pub open spec fn inserted_newest_first(
    pre: Seq<ApiKeyRecord>,
    post: Seq<ApiKeyRecord>,
    rec: ApiKeyRecord,
    now: i64,
) -> bool {
    exists|k: int|
        {
            &&& 0 <= k <= pre.len()
            &&& (forall|j: int| 0 <= j < k ==> (#[trigger] pre[j]).created_at > now)
            &&& (k < pre.len() ==> pre[k].created_at <= now)
            &&& post == pre.insert(k, rec)
        }
}

/// The API-key catalog, kept in the order the listing promises: most
/// recently created first.
pub struct ApiKeyTable {
    pub rows: Vec<ApiKeyRecord>,
}

impl ApiKeyTable {
    pub open spec fn wf(self) -> bool {
        unique_key_ids(self.rows@) && sorted_newest_first(self.rows@)
    }

    pub fn new() -> (r: ApiKeyTable)
        ensures
            r.wf(),
            r.rows@.len() == 0,
    {
        ApiKeyTable { rows: Vec::new() }
    }

    /// All rows, newest first.
    pub fn list(&self) -> (r: Vec<ApiKeyRecord>)
        ensures
            r@ == self.rows@,
    {
        let n = self.rows.len();
        let mut out: Vec<ApiKeyRecord> = Vec::new();
        let mut i: usize = 0;
        while i < n
            invariant
                0 <= i <= n,
                n == self.rows@.len(),
                out@ == self.rows@.subrange(0, i as int),
            decreases n - i,
        {
            out.push(self.rows[i].duplicate());
            proof {
                assert(self.rows@.subrange(0, i + 1) =~= self.rows@.subrange(0, i as int).push(
                    self.rows@[i as int],
                ));
            }
            i = i + 1;
        }
        proof {
            assert(self.rows@.subrange(0, n as int) =~= self.rows@);
        }
        out
    }

    /// Mints a key: fresh id, fresh 32-character secret, created now, and
    /// placed where the newest-first order puts it.  A colliding random id
    /// is rejected, never overwritten.
    #[verifier::rlimit(50)]
    pub fn create(&mut self, name: String, now: i64) -> (r: Result<ApiKeyRecord, StoreError>)
        requires
            old(self).wf(),
        ensures
            final(self).wf(),
            match r {
                Ok(rec) => {
                    &&& rec.name@ == name@
                    &&& rec.created_at == now
                    &&& rec.id@.len() == 36
                    &&& rec.key@.len() == ident::KEY_LEN
                    &&& ident::all_alnum(rec.key@)
                    &&& !has_key_id(old(self).rows@, rec.id@)
                    &&& inserted_newest_first(old(self).rows@, final(self).rows@, rec, now)
                },
                Err(e) => e == StoreError::DuplicateId && old(self).rows@.len() > 0 && final(
                    self).rows@ == old(self).rows@,
            },
    {
        let rec = ApiKeyRecord {
            id: ident::new_uuid_string(),
            name,
            key: ident::generate_key(),
            created_at: now,
        };
        let n = self.rows.len();
        let mut i: usize = 0;
        while i < n
            invariant
                0 <= i <= n,
                n == self.rows@.len(),
                self.rows@ == old(self).rows@,
                unique_key_ids(self.rows@),
                sorted_newest_first(self.rows@),
                forall|j: int| 0 <= j < i ==> (#[trigger] self.rows@[j].id)@ != rec.id@,
            decreases n - i,
        {
            if crate::strutil::str_eq(self.rows[i].id.as_str(), rec.id.as_str()) {
                return Err(StoreError::DuplicateId);
            }
            i = i + 1;
        }
        let mut k: usize = 0;
        while k < n && self.rows[k].created_at > now
            invariant
                0 <= k <= n,
                n == self.rows@.len(),
                self.rows@ == old(self).rows@,
                forall|j: int| 0 <= j < k ==> (#[trigger] self.rows@[j]).created_at > now,
            decreases n - k,
        {
            k = k + 1;
        }
        let out = rec.duplicate();
        self.rows.insert(k, rec);
        proof {
            let pre = old(self).rows@;
            let post = self.rows@;
            assert forall|a: int, b: int| 0 <= a < b < post.len() implies (#[trigger] post[a].id)@
                != (#[trigger] post[b].id)@ by {
                if a < k as int && b < k as int {
                    assert(post[a] == pre[a] && post[b] == pre[b]);
                } else if a < k as int && b == k as int {
                    assert(post[a] == pre[a]);
                } else if a < k as int && b > k as int {
                    assert(post[a] == pre[a] && post[b] == pre[b - 1]);
                } else if a == k as int {
                    assert(post[b] == pre[b - 1]);
                } else {
                    assert(post[a] == pre[a - 1] && post[b] == pre[b - 1]);
                }
            }
            assert forall|a: int, b: int| 0 <= a < b < post.len() implies (
            #[trigger] post[a]).created_at >= (#[trigger] post[b]).created_at by {
                if a < k as int && b < k as int {
                    assert(post[a] == pre[a] && post[b] == pre[b]);
                } else if a < k as int && b == k as int {
                    assert(post[a] == pre[a]);
                } else if a < k as int && b > k as int {
                    assert(post[a] == pre[a] && post[b] == pre[b - 1]);
                } else if a == k as int {
                    assert(post[b] == pre[b - 1]);
                    if k as int <= b - 1 {
                        assert(pre[k as int].created_at >= pre[b - 1].created_at);
                    }
                } else {
                    assert(post[a] == pre[a - 1] && post[b] == pre[b - 1]);
                }
            }
            let kk = k as int;
            assert(inserted_newest_first(pre, self.rows@, out, now)) by {
                assert(0 <= kk <= pre.len() && (forall|j: int|
                    0 <= j < kk ==> (#[trigger] pre[j]).created_at > now) && (kk < pre.len()
                    ==> pre[kk].created_at <= now) && self.rows@ == pre.insert(kk, out));
            }
        }
        Ok(out)
    }

    /// Removes the key with this id.  Fails exactly when no row carries
    /// it.
    pub fn delete(&mut self, id: &str) -> (r: Result<(), CatalogError>)
        requires
            old(self).wf(),
        ensures
            final(self).wf(),
            match r {
                Ok(()) => exists|k: int|
                    0 <= k < old(self).rows@.len() && (#[trigger] old(self).rows@[k].id)@ == id@
                        && final(self).rows@ == old(self).rows@.remove(k),
                Err(e) => e == CatalogError::NotFound && !has_key_id(old(self).rows@, id@) && final(
                    self).rows@ == old(self).rows@,
            },
    {
        let n = self.rows.len();
        let mut i: usize = 0;
        while i < n
            invariant
                0 <= i <= n,
                n == self.rows@.len(),
                self.rows@ == old(self).rows@,
                unique_key_ids(self.rows@),
                sorted_newest_first(self.rows@),
                forall|j: int| 0 <= j < i ==> (#[trigger] self.rows@[j].id)@ != id@,
            decreases n - i,
        {
            if crate::strutil::str_eq(self.rows[i].id.as_str(), id) {
                self.rows.remove(i);
                proof {
                    let pre = old(self).rows@;
                    let post = self.rows@;
                    assert forall|a: int, b: int|
                        0 <= a < b < post.len() implies (#[trigger] post[a].id)@ != (
                    #[trigger] post[b].id)@ && post[a].created_at >= post[b].created_at by {
                        let olda = if a < i as int { a } else { a + 1 };
                        let oldb = if b < i as int { b } else { b + 1 };
                        assert(post[a] == pre[olda]);
                        assert(post[b] == pre[oldb]);
                        assert(pre[olda].id@ != pre[oldb].id@);
                        assert(pre[olda].created_at >= pre[oldb].created_at);
                    }
                }
                return Ok(());
            }
            i = i + 1;
        }
        Err(CatalogError::NotFound)
    }

    /// Replaces the secret of the key with this id with a fresh draw; the
    /// id, name and creation time are kept.  Fails exactly when no row
    /// carries the id.
    pub fn rotate(&mut self, id: &str) -> (r: Result<ApiKeyRecord, CatalogError>)
        requires
            old(self).wf(),
        ensures
            final(self).wf(),
            match r {
                Ok(rec) => {
                    &&& rec.id@ == id@
                    &&& rec.key@.len() == ident::KEY_LEN
                    &&& ident::all_alnum(rec.key@)
                    &&& exists|k: int|
                        {
                            &&& 0 <= k < old(self).rows@.len()
                            &&& (#[trigger] old(self).rows@[k].id)@ == id@
                            &&& rec.name == old(self).rows@[k].name
                            &&& rec.created_at == old(self).rows@[k].created_at
                            &&& final(self).rows@ == old(self).rows@.update(k, rec)
                        }
                },
                Err(e) => e == CatalogError::NotFound && !has_key_id(old(self).rows@, id@) && final(
                    self).rows@ == old(self).rows@,
            },
    {
        let n = self.rows.len();
        let mut i: usize = 0;
        while i < n
            invariant
                0 <= i <= n,
                n == self.rows@.len(),
                self.rows@ == old(self).rows@,
                unique_key_ids(self.rows@),
                sorted_newest_first(self.rows@),
                forall|j: int| 0 <= j < i ==> (#[trigger] self.rows@[j].id)@ != id@,
            decreases n - i,
        {
            if crate::strutil::str_eq(self.rows[i].id.as_str(), id) {
                let rec = ApiKeyRecord {
                    id: self.rows[i].id.clone(),
                    name: self.rows[i].name.clone(),
                    key: ident::generate_key(),
                    created_at: self.rows[i].created_at,
                };
                let out = rec.duplicate();
                self.rows.set(i, rec);
                proof {
                    let pre = old(self).rows@;
                    let post = self.rows@;
                    assert forall|a: int, b: int|
                        0 <= a < b < post.len() implies (#[trigger] post[a].id)@ != (
                    #[trigger] post[b].id)@ && post[a].created_at >= post[b].created_at by {
                        assert(pre[a].id@ != pre[b].id@);
                        assert(pre[a].created_at >= pre[b].created_at);
                    }
                }
                return Ok(out);
            }
            i = i + 1;
        }
        Err(CatalogError::NotFound)
    }
}

/// The singleton gateway settings row.
#[derive(Debug, PartialEq, Eq)]
pub struct GatewaySettingsRecord {
    pub id: String,
    pub strategy: String,
    pub failover_enabled: bool,
    pub vip_enabled: bool,
    pub notes: String,
    pub updated_at: i64,
}

impl GatewaySettingsRecord {
    /// A field-for-field copy, equal to the original.
    pub fn duplicate(&self) -> (r: GatewaySettingsRecord)
        ensures
            r == *self,
    {
        GatewaySettingsRecord {
            id: self.id.clone(),
            strategy: self.strategy.clone(),
            failover_enabled: self.failover_enabled,
            vip_enabled: self.vip_enabled,
            notes: self.notes.clone(),
            updated_at: self.updated_at,
        }
    }
}

/// What an update request carries.
pub struct GatewaySettingsPayload {
    pub strategy: String,
    pub failover_enabled: bool,
    pub vip_enabled: bool,
    pub notes: String,
}

/// The settings store: at most the one `default` row.
pub struct SettingsStore {
    pub row: Option<GatewaySettingsRecord>,
}

impl SettingsStore {
    pub fn new() -> (r: SettingsStore)
        ensures
            r.row is None,
    {
        SettingsStore { row: None }
    }

    /// Seeds the default settings row when none exists; never overwrites
    /// an existing one.  Idempotent.
    pub fn ensure_defaults(&mut self, now: i64)
        ensures
            old(self).row is Some ==> final(self).row == old(self).row,
            old(self).row is None ==> match final(self).row {
                Some(rec) => {
                    &&& rec.id@ == "default"@
                    &&& rec.strategy@ == "weighted"@
                    &&& rec.failover_enabled == true
                    &&& rec.vip_enabled == false
                    &&& rec.notes@ == "默认策略"@
                    &&& rec.updated_at == now
                },
                None => false,
            },
    {
        if self.row.is_none() {
            self.row = Some(
                GatewaySettingsRecord {
                    id: String::from_str("default"),
                    strategy: String::from_str("weighted"),
                    failover_enabled: true,
                    vip_enabled: false,
                    notes: String::from_str("默认策略"),
                    updated_at: now,
                },
            );
        }
    }

    /// The settings row.  Fails exactly when none was seeded.
    pub fn get(&self) -> (r: Result<GatewaySettingsRecord, CatalogError>)
        ensures
            match r {
                Ok(rec) => self.row == Some(rec),
                Err(e) => e == CatalogError::NotFound && self.row is None,
            },
    {
        match &self.row {
            Some(rec) => Ok(rec.duplicate()),
            None => Err(CatalogError::NotFound),
        }
    }

    /// Replaces the settings wholesale, keeping the id and stamping the
    /// update time.  Fails exactly when no row was seeded.
    pub fn update(&mut self, payload: GatewaySettingsPayload, now: i64) -> (r: Result<
        GatewaySettingsRecord,
        CatalogError,
    >)
        ensures
            match r {
                Ok(rec) => {
                    &&& old(self).row is Some
                    &&& rec.id == old(self).row.unwrap().id
                    &&& rec.strategy@ == payload.strategy@
                    &&& rec.failover_enabled == payload.failover_enabled
                    &&& rec.vip_enabled == payload.vip_enabled
                    &&& rec.notes@ == payload.notes@
                    &&& rec.updated_at == now
                    &&& final(self).row == Some(rec)
                },
                Err(e) => e == CatalogError::NotFound && old(self).row is None && final(self).row
                    == old(self).row,
            },
    {
        match &self.row {
            None => Err(CatalogError::NotFound),
            Some(existing) => {
                let rec = GatewaySettingsRecord {
                    id: existing.id.clone(),
                    strategy: payload.strategy,
                    failover_enabled: payload.failover_enabled,
                    vip_enabled: payload.vip_enabled,
                    notes: payload.notes,
                    updated_at: now,
                };
                let out = rec.duplicate();
                self.row = Some(rec);
                Ok(out)
            },
        }
    }
}

} // verus!
