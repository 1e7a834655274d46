//! The API-endpoint catalog of the dashboard: the table of upstream API
//! surfaces, with partial updates and the enable/disable toggles.

use vstd::prelude::*;
use vstd::string::*;
use crate::errors::{CatalogError, StoreError};
use crate::models::{ApiConfig, ApiEndpoint, ApiType};

verus! {

impl ApiConfig {
    /// A field-for-field copy, equal to this value.
    pub fn duplicate(&self) -> (r: ApiConfig)
        ensures
            r == *self,
    {
        ApiConfig {
            model_name: self.model_name.clone(),
            api_key: match &self.api_key {
                Some(k) => Some(k.clone()),
                None => None,
            },
            max_tokens: self.max_tokens,
            timeout: self.timeout,
            retry_count: self.retry_count,
        }
    }
}

impl ApiType {
    /// A copy, equal to this value.
    pub fn duplicate(&self) -> (r: ApiType)
        ensures
            r == *self,
    {
        match self {
            ApiType::OpenAI => ApiType::OpenAI,
            ApiType::Anthropic => ApiType::Anthropic,
            ApiType::Codex => ApiType::Codex,
            ApiType::OpenCode => ApiType::OpenCode,
            ApiType::Custom(s) => ApiType::Custom(s.clone()),
        }
    }

    /// The kind named by a request's tag; anything unrecognized is the
    /// catch-all custom kind.
    pub fn from_tag(tag: &str) -> (r: ApiType)
        ensures
            tag@ == "openai"@ ==> r == ApiType::OpenAI,
            tag@ == "anthropic"@ ==> r == ApiType::Anthropic,
            tag@ == "codex"@ ==> r == ApiType::Codex,
            tag@ == "opencode"@ ==> r == ApiType::OpenCode,
            (tag@ != "openai"@ && tag@ != "anthropic"@ && tag@ != "codex"@ && tag@
                != "opencode"@) ==> match r {
                ApiType::Custom(s) => s@ == "unknown"@,
                _ => false,
            },
    {
        proof {
            reveal_strlit("openai");
            reveal_strlit("anthropic");
            reveal_strlit("codex");
            reveal_strlit("opencode");
            assert("openai"@.len() == 6);
            assert("anthropic"@.len() == 9);
            assert("codex"@.len() == 5);
            assert("opencode"@.len() == 8);
        }
        if crate::strutil::str_eq(tag, "openai") {
            ApiType::OpenAI
        } else if crate::strutil::str_eq(tag, "anthropic") {
            ApiType::Anthropic
        } else if crate::strutil::str_eq(tag, "codex") {
            ApiType::Codex
        } else if crate::strutil::str_eq(tag, "opencode") {
            ApiType::OpenCode
        } else {
            ApiType::Custom(String::from_str("unknown"))
        }
    }
}

impl ApiEndpoint {
    /// A field-for-field copy, equal to this value.
    pub fn duplicate(&self) -> (r: ApiEndpoint)
        ensures
            r == *self,
    {
        ApiEndpoint {
            id: self.id.clone(),
            name: self.name.clone(),
            api_type: self.api_type.duplicate(),
            base_url: self.base_url.clone(),
            enabled: self.enabled,
            config: self.config.duplicate(),
        }
    }
}

pub open spec fn unique_endpoint_ids(rows: Seq<ApiEndpoint>) -> bool {
    forall|i: int, j: int|
        0 <= i < j < rows.len() ==> (#[trigger] rows[i].id)@ != (#[trigger] rows[j].id)@
}

pub open spec fn has_endpoint(rows: Seq<ApiEndpoint>, id: Seq<char>) -> bool {
    exists|i: int| 0 <= i < rows.len() && (#[trigger] rows[i].id)@ == id
}

/// A partial update: only the given fields are replaced.
pub open spec fn endpoint_updated(
    pre: ApiEndpoint,
    post: ApiEndpoint,
    name: Option<Seq<char>>,
    base_url: Option<Seq<char>>,
    enabled: Option<bool>,
) -> bool {
    &&& post.id == pre.id
    &&& post.api_type == pre.api_type
    &&& post.config == pre.config
    &&& match name {
        Some(n) => post.name@ == n,
        None => post.name == pre.name,
    }
    &&& match base_url {
        Some(u) => post.base_url@ == u,
        None => post.base_url == pre.base_url,
    }
    &&& match enabled {
        Some(b) => post.enabled == b,
        None => post.enabled == pre.enabled,
    }
}

/// The API-endpoint catalog.
pub struct ApiEndpointTable {
    pub rows: Vec<ApiEndpoint>,
}

impl ApiEndpointTable {
    pub open spec fn wf(self) -> bool {
        unique_endpoint_ids(self.rows@)
    }

    pub fn new() -> (r: ApiEndpointTable)
        ensures
            r.wf(),
            r.rows@.len() == 0,
    {
        ApiEndpointTable { rows: Vec::new() }
    }

    /// Seeds the one demonstration entry an empty catalog is served with;
    /// a non-empty catalog is untouched.
    pub fn seed_demo_if_empty(&mut self)
        requires
            old(self).wf(),
        ensures
            final(self).wf(),
            old(self).rows@.len() > 0 ==> final(self).rows@ == old(self).rows@,
            old(self).rows@.len() == 0 ==> {
                &&& final(self).rows@.len() == 1
                &&& final(self).rows@[0].id@ == "demo-api-1"@
                &&& final(self).rows@[0].name@ == "OpenAI Compatible"@
                &&& final(self).rows@[0].api_type == ApiType::OpenAI
                &&& final(self).rows@[0].base_url@ == "/v1"@
                &&& final(self).rows@[0].enabled == true
            },
    {
        if self.rows.len() == 0 {
            self.rows.push(
                ApiEndpoint {
                    id: String::from_str("demo-api-1"),
                    name: String::from_str("OpenAI Compatible"),
                    api_type: ApiType::OpenAI,
                    base_url: String::from_str("/v1"),
                    enabled: true,
                    config: ApiConfig {
                        model_name: String::from_str("deepseek-chat"),
                        api_key: None,
                        max_tokens: Some(4096),
                        timeout: Some(30),
                        retry_count: Some(3),
                    },
                },
            );
        }
    }

    /// All rows, in insertion order.
    pub fn list(&self) -> (r: Vec<ApiEndpoint>)
        ensures
            r@ == self.rows@,
    {
        let n = self.rows.len();
        let mut out: Vec<ApiEndpoint> = Vec::new();
        let mut i: usize = 0;
        while i < n
            invariant
                0 <= i <= n,
                n == self.rows@.len(),
                out@ == self.rows@.subrange(0, i as int),
            decreases n - i,
        {
            out.push(self.rows[i].duplicate());
            proof {
                assert(self.rows@.subrange(0, i + 1) =~= self.rows@.subrange(0, i as int).push(
                    self.rows@[i as int],
                ));
            }
            i = i + 1;
        }
        proof {
            assert(self.rows@.subrange(0, n as int) =~= self.rows@);
        }
        out
    }

    /// Lookup by id.
    pub fn get(&self, id: &str) -> (r: Result<ApiEndpoint, CatalogError>)
        ensures
            match r {
                Ok(rec) => exists|k: int|
                    0 <= k < self.rows@.len() && #[trigger] self.rows@[k] == rec && rec.id@ == id@,
                Err(e) => e == CatalogError::NotFound && !has_endpoint(self.rows@, id@),
            },
    {
        let n = self.rows.len();
        let mut i: usize = 0;
        while i < n
            invariant
                0 <= i <= n,
                n == self.rows@.len(),
                forall|j: int| 0 <= j < i ==> (#[trigger] self.rows@[j].id)@ != id@,
            decreases n - i,
        {
            if crate::strutil::str_eq(self.rows[i].id.as_str(), id) {
                return Ok(self.rows[i].duplicate());
            }
            i = i + 1;
        }
        Err(CatalogError::NotFound)
    }

    /// Appends a fully built endpoint.  The id must be fresh; a duplicate
    /// is rejected, never overwritten.
    pub fn insert(&mut self, endpoint: ApiEndpoint) -> (r: Result<(), StoreError>)
        requires
            old(self).wf(),
        ensures
            final(self).wf(),
            match r {
                Ok(()) => !has_endpoint(old(self).rows@, endpoint.id@) && final(self).rows@ == old(
                    self).rows@.push(endpoint),
                Err(e) => e == StoreError::DuplicateId && has_endpoint(old(self).rows@,
                    endpoint.id@) && final(self).rows@ == old(self).rows@,
            },
    {
        let n = self.rows.len();
        let mut i: usize = 0;
        while i < n
            invariant
                0 <= i <= n,
                n == self.rows@.len(),
                self.rows@ == old(self).rows@,
                unique_endpoint_ids(self.rows@),
                forall|j: int| 0 <= j < i ==> (#[trigger] self.rows@[j].id)@ != endpoint.id@,
            decreases n - i,
        {
            if crate::strutil::str_eq(self.rows[i].id.as_str(), endpoint.id.as_str()) {
                return Err(StoreError::DuplicateId);
            }
            i = i + 1;
        }
        self.rows.push(endpoint);
        Ok(())
    }

    /// Applies a partial update to the row with this id: only the fields
    /// given are replaced.  Fails exactly when no row carries the id.
    pub fn update(
        &mut self,
        id: &str,
        name: Option<String>,
        base_url: Option<String>,
        enabled: Option<bool>,
    ) -> (r: Result<ApiEndpoint, CatalogError>)
        requires
            old(self).wf(),
        ensures
            final(self).wf(),
            match r {
                Ok(rec) => exists|k: int|
                    {
                        &&& 0 <= k < old(self).rows@.len()
                        &&& (#[trigger] old(self).rows@[k].id)@ == id@
                        &&& endpoint_updated(
                            old(self).rows@[k],
                            rec,
                            match name {
                                Some(n) => Some(n@),
                                None => None,
                            },
                            match base_url {
                                Some(u) => Some(u@),
                                None => None,
                            },
                            enabled,
                        )
                        &&& final(self).rows@ == old(self).rows@.update(k, rec)
                    },
                Err(e) => e == CatalogError::NotFound && !has_endpoint(old(self).rows@, id@)
                    && final(self).rows@ == old(self).rows@,
            },
    {
        let n = self.rows.len();
        let mut i: usize = 0;
        while i < n
            invariant
                0 <= i <= n,
                n == self.rows@.len(),
                self.rows@ == old(self).rows@,
                unique_endpoint_ids(self.rows@),
                forall|j: int| 0 <= j < i ==> (#[trigger] self.rows@[j].id)@ != id@,
            decreases n - i,
        {
            if crate::strutil::str_eq(self.rows[i].id.as_str(), id) {
                let rec = ApiEndpoint {
                    id: self.rows[i].id.clone(),
                    name: match name {
                        Some(v) => v,
                        None => self.rows[i].name.clone(),
                    },
                    api_type: self.rows[i].api_type.duplicate(),
                    base_url: match base_url {
                        Some(v) => v,
                        None => self.rows[i].base_url.clone(),
                    },
                    enabled: match enabled {
                        Some(v) => v,
                        None => self.rows[i].enabled,
                    },
                    config: self.rows[i].config.duplicate(),
                };
                let out = rec.duplicate();
                vstd::pervasive::VecAdditionalExecFns::set(&mut self.rows, i, rec);
                proof {
                    assert forall|a: int, b: int|
                        0 <= a < b < self.rows@.len() implies (#[trigger] self.rows@[a].id)@ != (
                    #[trigger] self.rows@[b].id)@ by {
                        assert(old(self).rows@[a].id@ != old(self).rows@[b].id@);
                    }
                }
                return Ok(out);
            }
            i = i + 1;
        }
        Err(CatalogError::NotFound)
    }

    /// Sets the enabled flag of the row with this id.  Fails exactly when
    /// no row carries it.
    pub fn set_enabled(&mut self, id: &str, enabled: bool) -> (r: Result<ApiEndpoint, CatalogError>)
        requires
            old(self).wf(),
        ensures
            final(self).wf(),
            match r {
                Ok(rec) => rec.enabled == enabled && exists|k: int|
                    {
                        &&& 0 <= k < old(self).rows@.len()
                        &&& (#[trigger] old(self).rows@[k].id)@ == id@
                        &&& endpoint_updated(old(self).rows@[k], rec, None, None, Some(enabled))
                        &&& final(self).rows@ == old(self).rows@.update(k, rec)
                    },
                Err(e) => e == CatalogError::NotFound && !has_endpoint(old(self).rows@, id@)
                    && final(self).rows@ == old(self).rows@,
            },
    {
        self.update(id, None, None, Some(enabled))
    }

    /// Removes the row with this id.  Fails exactly when no row carries
    /// it.
    pub fn delete(&mut self, id: &str) -> (r: Result<(), CatalogError>)
        requires
            old(self).wf(),
        ensures
            final(self).wf(),
            match r {
                Ok(()) => exists|k: int|
                    0 <= k < old(self).rows@.len() && (#[trigger] old(self).rows@[k].id)@ == id@
                        && final(self).rows@ == old(self).rows@.remove(k),
                Err(e) => e == CatalogError::NotFound && !has_endpoint(old(self).rows@, id@)
                    && final(self).rows@ == old(self).rows@,
            },
    {
        let n = self.rows.len();
        let mut i: usize = 0;
        while i < n
            invariant
                0 <= i <= n,
                n == self.rows@.len(),
                self.rows@ == old(self).rows@,
                unique_endpoint_ids(self.rows@),
                forall|j: int| 0 <= j < i ==> (#[trigger] self.rows@[j].id)@ != id@,
            decreases n - i,
        {
            if crate::strutil::str_eq(self.rows[i].id.as_str(), id) {
                self.rows.remove(i);
                proof {
                    assert forall|a: int, b: int|
                        0 <= a < b < self.rows@.len() implies (#[trigger] self.rows@[a].id)@ != (
                    #[trigger] self.rows@[b].id)@ by {
                        let olda = if a < i as int { a } else { a + 1 };
                        let oldb = if b < i as int { b } else { b + 1 };
                        assert(self.rows@[a] == old(self).rows@[olda]);
                        assert(self.rows@[b] == old(self).rows@[oldb]);
                        assert(old(self).rows@[olda].id@ != old(self).rows@[oldb].id@);
                    }
                }
                return Ok(());
            }
            i = i + 1;
        }
        Err(CatalogError::NotFound)
    }
}

/// The toggle message of the enable and disable calls.
pub fn toggle_message(name: &str, enabled: bool) -> (r: String)
    ensures
        enabled ==> r@ == "API "@ + name@ + " enabled"@,
        !enabled ==> r@ == "API "@ + name@ + " disabled"@,
{
    let mut s = String::from_str("API ");
    s.append(name);
    if enabled {
        s.append(" enabled");
    } else {
        s.append(" disabled");
    }
    s
}

} // verus!
