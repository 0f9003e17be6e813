//! Per-app sandbox: the enforcement boundary around one running app.
//!
//! One sandbox exists per app for the app's lifetime.  It owns the app's
//! local state (current URL, confirmed-permission cache, key/value storage,
//! notification list) exclusively — no two sandboxes ever share state — and
//! funnels every privileged operation through the policy registry and every
//! structured remote request through the protocol bridge.
//!
//! Lifecycle: `Uninitialized -> Ready -> ShuttingDown -> Closed`.  `Ready`
//! is the only state in which gated operations may succeed; `Closed` is
//! terminal, and after shutdown every operation fails rather than silently
//! doing nothing.

use vstd::prelude::*;
use vstd::hash_map::StringHashMap;

use crate::bridge::{MCPBridge, MCPProtocolHandler};
use crate::client::MCPClient;
use crate::codec::{MCPRequest, MCPResponse, MCPResponseView, RequestView, decode_response_spec,
    encode_request_spec};
use crate::registry::ResourceController;
use crate::textutil::{str_to_string, vec_contains_str};

verus! {

/// Static capability flags fixed at sandbox construction, distinct from
/// dynamically granted permissions: each gates an entire class of
/// operation.
pub struct SandboxConfig {
    pub network: bool,
    pub storage: bool,
    pub notifications: bool,
    pub system: bool,
    pub mcp: bool,
}

/// Configuration of one app: its stable identifier, start URL, declared
/// permission surface, and capability flags.
pub struct PWAConfig {
    pub name: String,
    pub url: String,
    pub permissions: Vec<String>,
    pub sandbox: SandboxConfig,
}

/// The sandbox's lifecycle.  Only `Ready` serves gated operations;
/// `Closed` is terminal and irreversible.
#[derive(Debug, PartialEq, Eq, Structural, Clone, Copy)]
pub enum SandboxPhase {
    Uninitialized,
    Ready,
    ShuttingDown,
    Closed,
}

/// A sandbox-level failure, always a typed result, never a panic.
#[derive(Debug, PartialEq, Eq, Structural, Clone, Copy)]
pub enum SandboxError {
    /// The storage capability flag is unset.
    StoragePermissionDenied,
    /// The notification capability flag is unset.
    NotificationPermissionDenied,
    /// The MCP capability flag is unset.
    McpPermissionDenied,
    /// The URL does not parse; the sandbox state is untouched.
    InvalidUrl,
    /// Bytes that are not the encoding of any response.
    SerializationError,
    /// The bridge connection is gone or the bridge is shut down.
    ConnectionLost,
    /// A request is already in flight on the connection.
    Busy,
    /// The sandbox is not ready: not yet started, or already shut down.
    Closed,
}

impl SandboxError {
    /// The failure's fixed, user-visible wording: denials look the same
    /// whether they come from a static capability flag or from the dynamic
    /// registry.
    pub open spec fn spec_message(self) -> Seq<char> {
        match self {
            SandboxError::StoragePermissionDenied => "Storage permission denied"@,
            SandboxError::NotificationPermissionDenied => "Notifications permission denied"@,
            SandboxError::McpPermissionDenied => "MCP permission denied"@,
            SandboxError::InvalidUrl => "Invalid URL"@,
            SandboxError::SerializationError => "Serialization error"@,
            SandboxError::ConnectionLost => "Connection lost"@,
            SandboxError::Busy => "Request already in flight"@,
            SandboxError::Closed => "Sandbox is closed"@,
        }
    }

    /// The failure's wording, for hosts that surface it.
    pub fn message(&self) -> (r: String)
        ensures
            r@ == self.spec_message(),
    {
        match self {
            SandboxError::StoragePermissionDenied => str_to_string("Storage permission denied"),
            SandboxError::NotificationPermissionDenied => str_to_string(
                "Notifications permission denied",
            ),
            SandboxError::McpPermissionDenied => str_to_string("MCP permission denied"),
            SandboxError::InvalidUrl => str_to_string("Invalid URL"),
            SandboxError::SerializationError => str_to_string("Serialization error"),
            SandboxError::ConnectionLost => str_to_string("Connection lost"),
            SandboxError::Busy => str_to_string("Request already in flight"),
            SandboxError::Closed => str_to_string("Sandbox is closed"),
        }
    }
}

/// Whether `url::Url::parse` accepts the string; the answer depends on the
/// characters alone.
pub uninterp spec fn url_is_valid(s: Seq<char>) -> bool;

/// Relies on `url::Url::parse`: validates a URL string, deterministically
/// in the string alone.
#[verifier::external_body]
fn parse_url_ok(s: &str) -> (r: bool)
    ensures
        r == url_is_valid(s@),
{
    url::Url::parse(s).is_ok()
}

/// The enforcement boundary and state owner of one running app.
pub struct PWASandbox {
    config: PWAConfig,
    phase: SandboxPhase,
    url: Option<String>,
    permissions: StringHashMap<bool>,
    storage: StringHashMap<String>,
    notifications: Vec<String>,
}

impl PWASandbox {
    /// The sandbox's lifecycle phase.
    pub closed spec fn spec_phase(self) -> SandboxPhase {
        self.phase
    }

    /// The app's configuration, fixed at construction.
    pub closed spec fn spec_config(self) -> PWAConfig {
        self.config
    }

    /// The app's stable identifier.
    pub open spec fn app_id(self) -> Seq<char> {
        self.spec_config().name@
    }

    /// Whether the app's static manifest declares `perm` at all.
    pub open spec fn declared(self, perm: Seq<char>) -> bool {
        self.spec_config().permissions.deep_view().contains(perm)
    }

    /// The URL currently loaded, if any.
    pub closed spec fn current_url(self) -> Option<Seq<char>> {
        match self.url {
            Some(u) => Some(u@),
            None => None,
        }
    }

    /// The cache of previously confirmed permission decisions.
    pub closed spec fn perm_cache(self) -> Map<Seq<char>, bool> {
        self.permissions@
    }

    /// The app-local key/value store.
    pub closed spec fn storage_map(self) -> Map<Seq<char>, Seq<char>> {
        self.storage@.map_values(|v: String| v@)
    }

    /// The notifications recorded so far, in order of emission.
    pub closed spec fn notes(self) -> Seq<Seq<char>> {
        self.notifications.deep_view()
    }

    /// Everything but the phase: used to state that an operation touches
    /// nothing it is not about.
    pub open spec fn same_state_as(self, other: Self) -> bool {
        &&& self.spec_config() == other.spec_config()
        &&& self.current_url() == other.current_url()
        &&& self.perm_cache() == other.perm_cache()
        &&& self.storage_map() == other.storage_map()
        &&& self.notes() == other.notes()
    }

    /// Creates the sandbox around a configuration.  Nothing is held yet:
    /// no URL, no cached decisions, no stored data, no notifications.
    pub fn new(config: PWAConfig) -> (r: Self)
        ensures
            r.spec_phase() == SandboxPhase::Uninitialized,
            r.spec_config() == config,
            r.current_url() is None,
            r.perm_cache() == Map::<Seq<char>, bool>::empty(),
            r.storage_map() == Map::<Seq<char>, Seq<char>>::empty(),
            r.notes() == Seq::<Seq<char>>::empty(),
    {
        let r = PWASandbox {
            config,
            phase: SandboxPhase::Uninitialized,
            url: None,
            permissions: StringHashMap::new(),
            storage: StringHashMap::new(),
            notifications: Vec::new(),
        };
        proof {
            assert(r.storage_map() =~= Map::<Seq<char>, Seq<char>>::empty());
        }
        r
    }

    /// Idempotent initialization: a fresh or already ready sandbox becomes
    /// ready; a sandbox once shut down cannot be started again.
    pub fn start(&mut self) -> (r: Result<(), SandboxError>)
        ensures
            final(self).same_state_as(*old(self)),
            (old(self).spec_phase() == SandboxPhase::Uninitialized || old(self).spec_phase()
                == SandboxPhase::Ready) ==> r is Ok && final(self).spec_phase()
                == SandboxPhase::Ready,
            !(old(self).spec_phase() == SandboxPhase::Uninitialized || old(self).spec_phase()
                == SandboxPhase::Ready) ==> r == Result::<(), SandboxError>::Err(
                SandboxError::Closed,
            ) && final(self).spec_phase() == old(self).spec_phase(),
    {
        match self.phase {
            SandboxPhase::Uninitialized => {
                self.phase = SandboxPhase::Ready;
                Ok(())
            },
            SandboxPhase::Ready => Ok(()),
            _ => Err(SandboxError::Closed),
        }
    }

    /// Parses and validates the URL, storing it on success; malformed input
    /// is rejected with `InvalidUrl` without mutating any state.
    pub fn load_url(&mut self, url: &str) -> (r: Result<(), SandboxError>)
        ensures
            final(self).spec_phase() == old(self).spec_phase(),
            old(self).spec_phase() != SandboxPhase::Ready ==> r == Result::<(), SandboxError>::Err(
                SandboxError::Closed,
            ) && *final(self) == *old(self),
            old(self).spec_phase() == SandboxPhase::Ready && url_is_valid(url@) ==> {
                &&& r is Ok
                &&& final(self).current_url() == Some(url@)
                &&& final(self).spec_config() == old(self).spec_config()
                &&& final(self).perm_cache() == old(self).perm_cache()
                &&& final(self).storage_map() == old(self).storage_map()
                &&& final(self).notes() == old(self).notes()
            },
            old(self).spec_phase() == SandboxPhase::Ready && !url_is_valid(url@) ==> r
                == Result::<(), SandboxError>::Err(SandboxError::InvalidUrl) && *final(self)
                == *old(self),
    {
        if !matches!(self.phase, SandboxPhase::Ready) {
            return Err(SandboxError::Closed);
        }
        if !parse_url_ok(url) {
            return Err(SandboxError::InvalidUrl);
        }
        self.url = Some(str_to_string(url));
        Ok(())
    }

    /// Whether the sandbox holds a cached confirmation of `perm`.
    pub open spec fn cached_allowed(self, perm: Seq<char>) -> bool {
        self.perm_cache().contains_key(perm) && self.perm_cache()[perm]
    }

    /// Asks whether the app may use `permission`.  A permission the static
    /// manifest never declared is `false` without consulting the registry.
    /// A declared one is decided by the registry, and a confirmed decision
    /// is cached so a repeated check for the same permission answers from
    /// the cache without a registry round trip.  The cache never expires on
    /// its own: a host that revokes permissions at the registry pairs the
    /// revocation with [`Self::invalidate_permission_cache`].
    pub fn request_permission(&mut self, permission: &str, registry: &ResourceController) -> (r:
        Result<bool, SandboxError>)
        ensures
            final(self).spec_phase() == old(self).spec_phase(),
            final(self).spec_config() == old(self).spec_config(),
            final(self).current_url() == old(self).current_url(),
            final(self).storage_map() == old(self).storage_map(),
            final(self).notes() == old(self).notes(),
            old(self).spec_phase() != SandboxPhase::Ready ==> r == Result::<
                bool,
                SandboxError,
            >::Err(SandboxError::Closed) && *final(self) == *old(self),
            old(self).spec_phase() == SandboxPhase::Ready ==> {
                let declared = old(self).declared(permission@);
                let cached = old(self).cached_allowed(permission@);
                let granted = registry.app_granted(old(self).app_id(), permission@);
                let allowed = declared && (cached || granted);
                &&& r == Result::<bool, SandboxError>::Ok(allowed)
                &&& allowed ==> final(self).perm_cache() == old(self).perm_cache().insert(
                    permission@,
                    true,
                )
                &&& !allowed ==> final(self).perm_cache() == old(self).perm_cache()
            },
    {
        if !matches!(self.phase, SandboxPhase::Ready) {
            return Err(SandboxError::Closed);
        }
        if !vec_contains_str(&self.config.permissions, permission) {
            return Ok(false);
        }
        match self.permissions.get(permission) {
            Some(true) => {
                proof {
                    assert(old(self).perm_cache() =~= old(self).perm_cache().insert(
                        permission@,
                        true,
                    ));
                }
                return Ok(true);
            },
            _ => {},
        }
        let result = registry.check_permission(self.config.name.as_str(), permission);
        if result {
            self.permissions.insert(str_to_string(permission), true);
        }
        Ok(result)
    }

    /// Forgets every cached permission decision.  A host that revokes or
    /// re-applies permissions at the registry calls this so the sandbox
    /// consults the registry afresh.
    pub fn invalidate_permission_cache(&mut self)
        ensures
            final(self).spec_phase() == old(self).spec_phase(),
            final(self).spec_config() == old(self).spec_config(),
            final(self).current_url() == old(self).current_url(),
            final(self).storage_map() == old(self).storage_map(),
            final(self).notes() == old(self).notes(),
            final(self).perm_cache() == Map::<Seq<char>, bool>::empty(),
    {
        self.permissions.clear();
    }

    /// Stores one key/value pair in the app-local store, last write wins.
    /// Gated by the static storage capability: with the flag unset the
    /// store is untouched and the caller sees `StoragePermissionDenied`.
    pub fn store_data(&mut self, key: &str, value: &str) -> (r: Result<(), SandboxError>)
        ensures
            final(self).spec_phase() == old(self).spec_phase(),
            old(self).spec_phase() != SandboxPhase::Ready ==> r == Result::<(), SandboxError>::Err(
                SandboxError::Closed,
            ) && *final(self) == *old(self),
            old(self).spec_phase() == SandboxPhase::Ready && !old(self).spec_config().sandbox.storage
                ==> r == Result::<(), SandboxError>::Err(SandboxError::StoragePermissionDenied)
                && *final(self) == *old(self),
            old(self).spec_phase() == SandboxPhase::Ready && old(self).spec_config().sandbox.storage
                ==> {
                &&& r is Ok
                &&& final(self).storage_map() == old(self).storage_map().insert(key@, value@)
                &&& final(self).spec_config() == old(self).spec_config()
                &&& final(self).current_url() == old(self).current_url()
                &&& final(self).perm_cache() == old(self).perm_cache()
                &&& final(self).notes() == old(self).notes()
            },
    {
        if !matches!(self.phase, SandboxPhase::Ready) {
            return Err(SandboxError::Closed);
        }
        if !self.config.sandbox.storage {
            return Err(SandboxError::StoragePermissionDenied);
        }
        let ghost before = self.storage@;
        self.storage.insert(str_to_string(key), str_to_string(value));
        proof {
            assert(self.storage_map() =~= old(self).storage_map().insert(key@, value@));
        }
        Ok(())
    }

    /// Reads one key from the app-local store.  Gated exactly as
    /// [`Self::store_data`]: with the capability unset the caller sees the
    /// same denial and never stale or partial data.
    pub fn get_data(&self, key: &str) -> (r: Result<Option<String>, SandboxError>)
        ensures
            self.spec_phase() != SandboxPhase::Ready ==> r == Result::<
                Option<String>,
                SandboxError,
            >::Err(SandboxError::Closed),
            self.spec_phase() == SandboxPhase::Ready && !self.spec_config().sandbox.storage ==> r
                == Result::<Option<String>, SandboxError>::Err(
                SandboxError::StoragePermissionDenied,
            ),
            self.spec_phase() == SandboxPhase::Ready && self.spec_config().sandbox.storage ==> match r {
                Ok(Some(v)) => self.storage_map().contains_key(key@) && v@ == self.storage_map()[key@],
                Ok(None) => !self.storage_map().contains_key(key@),
                Err(_) => false,
            },
    {
        if !matches!(self.phase, SandboxPhase::Ready) {
            return Err(SandboxError::Closed);
        }
        if !self.config.sandbox.storage {
            return Err(SandboxError::StoragePermissionDenied);
        }
        match self.storage.get(key) {
            Some(v) => Ok(Some(v.clone())),
            None => Ok(None),
        }
    }

    /// Appends a notification to the app's list; recording is the whole
    /// delivery guarantee.  Gated by the static notification capability.
    pub fn send_notification(&mut self, message: &str) -> (r: Result<(), SandboxError>)
        ensures
            final(self).spec_phase() == old(self).spec_phase(),
            old(self).spec_phase() != SandboxPhase::Ready ==> r == Result::<(), SandboxError>::Err(
                SandboxError::Closed,
            ) && *final(self) == *old(self),
            old(self).spec_phase() == SandboxPhase::Ready
                && !old(self).spec_config().sandbox.notifications ==> r == Result::<
                (),
                SandboxError,
            >::Err(SandboxError::NotificationPermissionDenied) && *final(self) == *old(self),
            old(self).spec_phase() == SandboxPhase::Ready
                && old(self).spec_config().sandbox.notifications ==> {
                &&& r is Ok
                &&& final(self).notes() == old(self).notes().push(message@)
                &&& final(self).spec_config() == old(self).spec_config()
                &&& final(self).current_url() == old(self).current_url()
                &&& final(self).perm_cache() == old(self).perm_cache()
                &&& final(self).storage_map() == old(self).storage_map()
            },
    {
        if !matches!(self.phase, SandboxPhase::Ready) {
            return Err(SandboxError::Closed);
        }
        if !self.config.sandbox.notifications {
            return Err(SandboxError::NotificationPermissionDenied);
        }
        self.notifications.push(str_to_string(message));
        proof {
            assert(self.notes() =~= old(self).notes().push(message@));
        }
        Ok(())
    }

    /// What one structured remote request comes to: denial by phase or
    /// capability, a client already busy, a lost connection, a response
    /// that does not decode, or the decoded response.
    pub open spec fn mcp_outcome<H: MCPProtocolHandler>(
        self,
        client_busy: bool,
        bridge: MCPBridge<H>,
        connection_id: u64,
        req: RequestView,
    ) -> Result<MCPResponseView, SandboxError> {
        if self.spec_phase() != SandboxPhase::Ready {
            Err(SandboxError::Closed)
        } else if !self.spec_config().sandbox.mcp {
            Err(SandboxError::McpPermissionDenied)
        } else if client_busy {
            Err(SandboxError::Busy)
        } else {
            match bridge.message_outcome(connection_id, encode_request_spec(req)) {
                Err(_) => Err(SandboxError::ConnectionLost),
                Ok(bytes) => match decode_response_spec(bytes) {
                    Some(v) => Ok(v),
                    None => Err(SandboxError::SerializationError),
                },
            }
        }
    }

    /// Issues one structured request through the bridge: serializes the
    /// request, performs a single-in-flight round trip on the client's
    /// connection, and deserializes the response.  Gated by the static MCP
    /// capability; transport failures surface as `ConnectionLost`, bytes
    /// that decode as no response as `SerializationError`.
    pub fn mcp_request<H: MCPProtocolHandler>(
        &self,
        request: &MCPRequest,
        client: &mut MCPClient,
        bridge: &MCPBridge<H>,
        connection_id: u64,
    ) -> (r: Result<MCPResponse, SandboxError>)
        ensures
            match r {
                Ok(resp) => self.mcp_outcome(
                    old(client).in_flight(),
                    *bridge,
                    connection_id,
                    request@,
                ) == Ok::<MCPResponseView, SandboxError>(resp@),
                Err(e) => self.mcp_outcome(
                    old(client).in_flight(),
                    *bridge,
                    connection_id,
                    request@,
                ) == Err::<MCPResponseView, SandboxError>(e),
            },
            old(client).in_flight() ==> *final(client) == *old(client),
            !old(client).in_flight() ==> !final(client).in_flight(),
    {
        if !matches!(self.phase, SandboxPhase::Ready) {
            return Err(SandboxError::Closed);
        }
        if !self.config.sandbox.mcp {
            return Err(SandboxError::McpPermissionDenied);
        }
        let message = request.into_bytes();
        let response_bytes = match client.send(bridge, connection_id, &message) {
            Ok(bytes) => bytes,
            Err(e) => {
                if matches!(e, crate::client::ClientError::Busy) {
                    return Err(SandboxError::Busy);
                }
                return Err(SandboxError::ConnectionLost);
            },
        };
        match MCPResponse::from_bytes(&response_bytes) {
            Ok(resp) => Ok(resp),
            Err(_) => Err(SandboxError::SerializationError),
        }
    }

    /// Releases the sandbox's state and closes it for good: the store, the
    /// cache, the notification list and the URL are gone, and every later
    /// operation fails with `Closed` rather than silently doing nothing.
    pub fn shutdown(&mut self) -> (r: Result<(), SandboxError>)
        ensures
            r is Ok,
            final(self).spec_phase() == SandboxPhase::Closed,
            final(self).spec_config() == old(self).spec_config(),
            final(self).current_url() is None,
            final(self).perm_cache() == Map::<Seq<char>, bool>::empty(),
            final(self).storage_map() == Map::<Seq<char>, Seq<char>>::empty(),
            final(self).notes() == Seq::<Seq<char>>::empty(),
    {
        self.phase = SandboxPhase::ShuttingDown;
        self.url = None;
        self.permissions.clear();
        self.storage.clear();
        self.notifications.clear();
        self.phase = SandboxPhase::Closed;
        proof {
            assert(self.storage_map() =~= Map::<Seq<char>, Seq<char>>::empty());
            assert(self.notes() =~= Seq::<Seq<char>>::empty());
        }
        Ok(())
    }
}

} // verus!
