//! Per-instance state: the aggregate a loaded extension instance owns
//! exclusively — its handle table of in-flight HTTP responses, its rate
//! limiter (absent until first configured), and its settings store.
//!
//! The `host_` methods are the host ends of the capabilities injected into
//! the sandbox: each takes the instance state and plain values, so the glue
//! that lifts them over the sandbox ABI has nothing left to decide.

use vstd::prelude::*;

use crate::limiter::RateLimiter;
use crate::resource_table::{push_transition, ResourceTable, ResourceTableError};
use crate::response::{clone_bytes, clone_string_pairs, pairs_view, IncomingResponse};
use crate::settings::{Settings, Value, ValueView};

verus! {

/// State owned by one loaded extension instance.
pub struct State {
    incoming_responses: ResourceTable<IncomingResponse>,
    limiter: Option<RateLimiter>,
    settings: Settings,
}

impl State {
    /// The slots of the instance's response table.
    pub closed spec fn response_slots(self) -> Seq<Option<IncomingResponse>> {
        self.incoming_responses.slots()
    }

    /// The free list of the instance's response table.
    pub closed spec fn response_free_list(self) -> Seq<usize> {
        self.incoming_responses.free_list()
    }

    /// The response a handle refers to, if any.
    pub open spec fn response_at(self, handle: u32) -> Option<IncomingResponse> {
        crate::resource_table::slot_at(self.response_slots(), handle)
    }

    /// The instance's rate limiter, if one was configured.
    pub closed spec fn limiter_spec(self) -> Option<RateLimiter> {
        self.limiter
    }

    /// The limiter's configuration — (burst, period in milliseconds) — if one
    /// was configured.
    pub open spec fn limiter_config(self) -> Option<(u32, u32)> {
        match self.limiter_spec() {
            Some(l) => Some((l.burst_spec(), l.period_ms_spec())),
            None => None,
        }
    }

    /// The instance's settings store.
    pub closed spec fn settings_spec(self) -> Settings {
        self.settings
    }

    /// Well-formedness of all three aggregates.
    pub open spec fn wf(self) -> bool {
        &&& self.incoming_responses_wf()
        &&& self.settings_spec().wf()
        &&& match self.limiter_spec() {
            Some(l) => l.wf(),
            None => true,
        }
    }

    /// Well-formedness of the response table alone.
    pub closed spec fn incoming_responses_wf(self) -> bool {
        self.incoming_responses.wf()
    }

    /// Read access to the settings store.
    pub fn settings(&self) -> (r: &Settings)
        ensures
            *r == self.settings_spec(),
    {
        &self.settings
    }

    /// Host-side mutation of the settings store: insert or overwrite a key.
    pub fn set_setting(&mut self, key: String, value: Value)
        requires
            old(self).wf(),
        ensures
            final(self).wf(),
            final(self).settings_spec()@ == old(self).settings_spec()@.insert(key@, value@),
            final(self).limiter_spec() == old(self).limiter_spec(),
            final(self).response_slots() == old(self).response_slots(),
            final(self).response_free_list() == old(self).response_free_list(),
    {
        self.settings.insert(key, value);
    }

    /// The configured limiter, if any.
    pub fn limiter(&self) -> (r: Option<&RateLimiter>)
        ensures
            match r {
                Some(l) => self.limiter_spec() == Some(*l),
                None => self.limiter_spec() is None,
            },
    {
        self.limiter.as_ref()
    }

    /// Install (or replace) the instance's rate limiter.
    pub fn set_limiter(&mut self, limiter: RateLimiter)
        requires
            old(self).wf(),
            limiter.wf(),
        ensures
            final(self).wf(),
            final(self).limiter_spec() == Some(limiter),
            final(self).settings_spec() == old(self).settings_spec(),
            final(self).response_slots() == old(self).response_slots(),
            final(self).response_free_list() == old(self).response_free_list(),
    {
        self.limiter = Some(limiter);
    }

    /// Capability `burst`: the configured burst capacity, or `None` when no
    /// limiter was configured yet.
    pub fn host_burst(&self) -> (r: Option<u32>)
        ensures
            r == match self.limiter_config() {
                Some(c) => Some(c.0),
                None => None::<u32>,
            },
    {
        match &self.limiter {
            Some(l) => Some(l.burst()),
            None => None,
        }
    }

    /// Capability `period-ms`: the configured refill period, or `None` when
    /// no limiter was configured yet.
    pub fn host_period_ms(&self) -> (r: Option<u32>)
        ensures
            r == match self.limiter_config() {
                Some(c) => Some(c.1),
                None => None::<u32>,
            },
    {
        match &self.limiter {
            Some(l) => Some(l.period_ms()),
            None => None,
        }
    }

    /// Capability `set-burst`: configure the burst capacity, installing a
    /// default limiter first when none exists. Zero is rejected and leaves
    /// the (possibly just-installed) configuration unchanged.
    pub fn host_set_burst(&mut self, burst: u32) -> (r: Result<(), ()>)
        requires
            old(self).wf(),
        ensures
            final(self).wf(),
            r is Ok <==> burst != 0,
            ({
                let prior = match old(self).limiter_config() {
                    Some(c) => c,
                    None => (1u32, 1u32),
                };
                final(self).limiter_config() == Some(
                    if burst != 0 {
                        (burst, prior.1)
                    } else {
                        prior
                    },
                )
            }),
            final(self).settings_spec() == old(self).settings_spec(),
            final(self).response_slots() == old(self).response_slots(),
            final(self).response_free_list() == old(self).response_free_list(),
    {
        let mut limiter = match self.limiter.take() {
            Some(l) => l,
            None => RateLimiter::default(),
        };
        let r = limiter.set_burst(burst);
        self.limiter = Some(limiter);
        r
    }

    /// Capability `set-period-ms`: configure the refill period, installing a
    /// default limiter first when none exists. Zero is rejected and leaves
    /// the (possibly just-installed) configuration unchanged.
    pub fn host_set_period_ms(&mut self, period_ms: u32) -> (r: Result<(), ()>)
        requires
            old(self).wf(),
        ensures
            final(self).wf(),
            r is Ok <==> period_ms != 0,
            ({
                let prior = match old(self).limiter_config() {
                    Some(c) => c,
                    None => (1u32, 1u32),
                };
                final(self).limiter_config() == Some(
                    if period_ms != 0 {
                        (prior.0, period_ms)
                    } else {
                        prior
                    },
                )
            }),
            final(self).settings_spec() == old(self).settings_spec(),
            final(self).response_slots() == old(self).response_slots(),
            final(self).response_free_list() == old(self).response_free_list(),
    {
        let mut limiter = match self.limiter.take() {
            Some(l) => l,
            None => RateLimiter::default(),
        };
        let r = limiter.set_period_ms(period_ms);
        self.limiter = Some(limiter);
        r
    }

    /// Capability `ready`: probe the limiter for one token. Without a
    /// configured limiter every operation is allowed, so this is `true`.
    pub fn host_ready(&self) -> (r: bool)
        ensures
            self.limiter_spec() is None ==> r == true,
    {
        match &self.limiter {
            Some(l) => l.ready(),
            None => true,
        }
    }

    /// Capability `block`: wait until the limiter grants one token; returns
    /// immediately when no limiter was configured.
    pub fn host_block(&self) {
        match &self.limiter {
            Some(l) => l.block(),
            None => (),
        }
    }

    /// Capability `get` of the settings store: a clone of the value under
    /// the key, or an error exactly when the key is absent.
    pub fn host_get(&self, key: &String) -> (r: Result<Value, ()>)
        requires
            self.wf(),
        ensures
            match r {
                Ok(value) => self.settings_spec()@.contains_key(key@) && value@
                    == self.settings_spec()@[key@],
                Err(_) => !self.settings_spec()@.contains_key(key@),
            },
    {
        match self.settings.get(key) {
            Some(value) => Ok(value.clone()),
            None => Err(()),
        }
    }

    /// Whether the instance can accept one more stored response: a freed
    /// slot is available or a fresh slot index still fits in a handle.
    pub fn response_capacity_left(&self) -> (r: bool)
        ensures
            r == (self.response_free_list().len() > 0 || self.response_slots().len() < u32::MAX),
    {
        self.incoming_responses.can_push()
    }

    /// Store a received HTTP response in the instance's handle table and
    /// return the handle that now refers to it. The requirement that a fresh
    /// slot index fit in `u32` is a machine limit.
    pub fn host_store_response(&mut self, response: IncomingResponse) -> (r: Result<
        u32,
        ResourceTableError,
    >)
        requires
            old(self).wf(),
            old(self).response_free_list().len() > 0 || old(self).response_slots().len()
                < u32::MAX,
        ensures
            final(self).wf(),
            match r {
                Ok(handle) => {
                    &&& push_transition(
                        old(self).response_slots(),
                        old(self).response_free_list(),
                        final(self).response_slots(),
                        final(self).response_free_list(),
                        handle,
                        response,
                    )
                    &&& final(self).response_at(handle) == Some(response)
                },
                Err(_) => false,
            },
            final(self).settings_spec() == old(self).settings_spec(),
            final(self).limiter_spec() == old(self).limiter_spec(),
    {
        self.incoming_responses.push(response)
    }

    /// Resource method `status-code`: non-consuming, fails with `NotPresent`
    /// exactly when the handle is dead.
    pub fn host_response_status_code(&self, handle: u32) -> (r: Result<u16, ResourceTableError>)
        ensures
            match r {
                Ok(status) => self.response_at(handle) matches Some(resp) && status
                    == resp.status_spec(),
                Err(e) => self.response_at(handle) is None && e == ResourceTableError::NotPresent,
            },
    {
        match self.incoming_responses.get(handle) {
            Ok(response) => Ok(response.status_code()),
            Err(e) => Err(e),
        }
    }

    /// Resource method `headers`: a copy of the buffered header pairs, or
    /// `NotPresent` exactly when the handle is dead.
    pub fn host_response_headers(&self, handle: u32) -> (r: Result<
        Vec<(String, String)>,
        ResourceTableError,
    >)
        ensures
            match r {
                Ok(headers) => self.response_at(handle) matches Some(resp) && pairs_view(headers@)
                    == pairs_view(resp.headers_spec()),
                Err(e) => self.response_at(handle) is None && e == ResourceTableError::NotPresent,
            },
    {
        match self.incoming_responses.get(handle) {
            Ok(response) => Ok(clone_string_pairs(response.headers())),
            Err(e) => Err(e),
        }
    }

    /// Resource method `bytes`: a copy of the buffered body, or `NotPresent`
    /// exactly when the handle is dead.
    pub fn host_response_bytes(&self, handle: u32) -> (r: Result<Vec<u8>, ResourceTableError>)
        ensures
            match r {
                Ok(bytes) => self.response_at(handle) matches Some(resp) && bytes@
                    == resp.bytes_spec(),
                Err(e) => self.response_at(handle) is None && e == ResourceTableError::NotPresent,
            },
    {
        match self.incoming_responses.get(handle) {
            Ok(response) => Ok(clone_bytes(response.bytes())),
            Err(e) => Err(e),
        }
    }

    /// Resource destructor: release the response a handle refers to. A
    /// double release fails with `NotPresent` and changes nothing.
    pub fn host_response_drop(&mut self, handle: u32) -> (r: Result<(), ResourceTableError>)
        requires
            old(self).wf(),
        ensures
            final(self).wf(),
            match r {
                Ok(_) => {
                    &&& old(self).response_at(handle) is Some
                    &&& crate::resource_table::delete_transition(
                        old(self).response_slots(),
                        old(self).response_free_list(),
                        final(self).response_slots(),
                        final(self).response_free_list(),
                        handle,
                    )
                },
                Err(e) => {
                    &&& old(self).response_at(handle) is None
                    &&& e == ResourceTableError::NotPresent
                    &&& final(self).response_slots() == old(self).response_slots()
                    &&& final(self).response_free_list() == old(self).response_free_list()
                },
            },
            final(self).settings_spec() == old(self).settings_spec(),
            final(self).limiter_spec() == old(self).limiter_spec(),
    {
        match self.incoming_responses.delete(handle) {
            Ok(_) => Ok(()),
            Err(e) => Err(e),
        }
    }
}

impl Default for State {
    /// A fresh instance state: empty response table, no limiter, empty
    /// settings.
    fn default() -> (r: Self)
        ensures
            r.wf(),
            r.response_slots() == Seq::<Option<IncomingResponse>>::empty(),
            r.response_free_list() == Seq::<usize>::empty(),
            r.limiter_spec() is None,
            r.settings_spec()@ == Map::<Seq<char>, ValueView>::empty(),
    {
        State {
            incoming_responses: ResourceTable::new(),
            limiter: None,
            settings: Settings::new(),
        }
    }
}

} // verus!
