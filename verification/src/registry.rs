//! Policy registry: the single source of truth for "may app X do Y".
//!
//! Named resource policies and per-app permission grants are held in two
//! string-keyed maps.  Checks are closed by default: an app with no grant
//! entry holds no permission at all.

use vstd::prelude::*;
use vstd::hash_map::StringHashMap;

use crate::textutil::{vec_contains_str, clone_string_vec, str_to_string};

verus! {

/// A named bundle of permissions, restrictions, and a timeout, applicable
/// to any app by name.
pub struct ResourcePolicy {
    pub name: String,
    pub description: String,
    pub permissions: Vec<String>,
    pub restrictions: Vec<String>,
    pub timeout: u64,
}

/// Mathematical image of a [`ResourcePolicy`]: every string as a sequence
/// of characters.
pub struct PolicyView {
    pub name: Seq<char>,
    pub description: Seq<char>,
    pub permissions: Seq<Seq<char>>,
    pub restrictions: Seq<Seq<char>>,
    pub timeout: u64,
}

impl View for ResourcePolicy {
    type V = PolicyView;

    open spec fn view(&self) -> PolicyView {
        PolicyView {
            name: self.name@,
            description: self.description@,
            permissions: self.permissions.deep_view(),
            restrictions: self.restrictions.deep_view(),
            timeout: self.timeout,
        }
    }
}

/// A request gated by the registry: an app asks to use a named resource.
/// The payload is an opaque byte value interpreted by whoever executes the
/// granted action, never by the registry itself.
pub struct ResourceRequest {
    pub app_id: String,
    pub resource: String,
    pub action: String,
    pub data: Vec<u8>,
}

/// The registry's answer: either the payload is forwarded, or the request
/// is denied with a structured error message.
pub struct ResourceResponse {
    pub success: bool,
    pub error: Option<String>,
    pub data: Option<Vec<u8>>,
}

/// Registry of named policies and per-app permission grants.
pub struct ResourceController {
    permissions: StringHashMap<Vec<String>>,
    policies: StringHashMap<ResourcePolicy>,
}

impl ResourceController {
    /// The grant table: app identifier -> permissions currently held.
    pub closed spec fn grants(self) -> Map<Seq<char>, Seq<Seq<char>>> {
        self.permissions@.map_values(|v: Vec<String>| v.deep_view())
    }

    /// The policy table: policy name -> registered policy.
    pub closed spec fn policy_map(self) -> Map<Seq<char>, PolicyView> {
        self.policies@.map_values(|p: ResourcePolicy| p@)
    }

    /// Whether `app` currently holds `perm`.  Closed by default: no grant
    /// entry means no permission.
    pub open spec fn app_granted(self, app: Seq<char>, perm: Seq<char>) -> bool {
        self.grants().contains_key(app) && self.grants()[app].contains(perm)
    }

    /// Creates an empty registry: no policies, no grants, so every
    /// permission check is denied.
    pub fn new() -> (r: Self)
        ensures
            r.grants() == Map::<Seq<char>, Seq<Seq<char>>>::empty(),
            r.policy_map() == Map::<Seq<char>, PolicyView>::empty(),
    {
        let r = ResourceController {
            permissions: StringHashMap::new(),
            policies: StringHashMap::new(),
        };
        proof {
            assert(r.grants() =~= Map::<Seq<char>, Seq<Seq<char>>>::empty());
            assert(r.policy_map() =~= Map::<Seq<char>, PolicyView>::empty());
        }
        r
    }

    /// Inserts the policy under its name, overwriting any policy already
    /// registered under that name.  Grants are untouched.
    pub fn register_policy(&mut self, policy: ResourcePolicy)
        ensures
            final(self).policy_map() == old(self).policy_map().insert(policy.name@, policy@),
            final(self).grants() == old(self).grants(),
    {
        let ghost old_self = *self;
        let name = policy.name.clone();
        self.policies.insert(name, policy);
        proof {
            assert(final(self).policy_map() =~= old_self.policy_map().insert(
                policy.name@,
                policy@,
            ));
            assert(final(self).grants() =~= old_self.grants());
        }
    }

    /// Replaces the app's entire grant set with `permissions` (not
    /// additive).  Policies are untouched.
    pub fn grant_permissions(&mut self, app_id: &str, permissions: Vec<String>)
        ensures
            final(self).grants() == old(self).grants().insert(app_id@, permissions.deep_view()),
            final(self).policy_map() == old(self).policy_map(),
    {
        let ghost old_self = *self;
        let key = str_to_string(app_id);
        self.permissions.insert(key, permissions);
        proof {
            assert(final(self).grants() =~= old_self.grants().insert(
                app_id@,
                permissions.deep_view(),
            ));
            assert(final(self).policy_map() =~= old_self.policy_map());
        }
    }

    /// Pure read: whether `app_id` currently holds `permission`.  An app
    /// with no grant entry yields `false`.
    pub fn check_permission(&self, app_id: &str, permission: &str) -> (r: bool)
        ensures
            r == self.app_granted(app_id@, permission@),
    {
        match self.permissions.get(app_id) {
            Some(app_perms) => vec_contains_str(app_perms, permission),
            None => false,
        }
    }

    /// Looks up the named policy and grants its permission set to the app.
    /// Fails with [`RegistryError::PolicyNotFound`] when the name is not
    /// registered, leaving the grant table unchanged.
    pub fn apply_policy(&mut self, app_id: &str, policy_name: &str) -> (r: Result<
        (),
        RegistryError,
    >)
        ensures
            r is Ok <==> old(self).policy_map().contains_key(policy_name@),
            r is Ok ==> final(self).grants() == old(self).grants().insert(
                app_id@,
                old(self).policy_map()[policy_name@].permissions,
            ),
            r is Err ==> *final(self) == *old(self) && r == Result::<(), RegistryError>::Err(
                RegistryError::PolicyNotFound,
            ),
            final(self).policy_map() == old(self).policy_map(),
    {
        let granted: Vec<String> = match self.policies.get(policy_name) {
            Some(policy) => clone_string_vec(&policy.permissions),
            None => {
                return Err(RegistryError::PolicyNotFound);
            },
        };
        self.grant_permissions(app_id, granted);
        Ok(())
    }

    /// Deletes the app's grant set entirely; subsequent checks for that app
    /// return `false`.  Policies are untouched.
    pub fn revoke_permissions(&mut self, app_id: &str)
        ensures
            final(self).grants() == old(self).grants().remove(app_id@),
            final(self).policy_map() == old(self).policy_map(),
    {
        let ghost old_self = *self;
        self.permissions.remove(app_id);
        proof {
            assert(final(self).grants() =~= old_self.grants().remove(app_id@));
            assert(final(self).policy_map() =~= old_self.policy_map());
        }
    }

    /// Returns a copy of the app's current grant set, empty when the app
    /// holds no grants.
    pub fn get_app_permissions(&self, app_id: &str) -> (r: Vec<String>)
        ensures
            self.grants().contains_key(app_id@) ==> r.deep_view() == self.grants()[app_id@],
            !self.grants().contains_key(app_id@) ==> r.deep_view() == Seq::<Seq<char>>::empty(),
    {
        match self.permissions.get(app_id) {
            Some(app_perms) => clone_string_vec(app_perms),
            None => {
                let r = Vec::<String>::new();
                proof {
                    assert(r.deep_view() =~= Seq::<Seq<char>>::empty());
                }
                r
            },
        }
    }

    /// What [`Self::handle_request`] answers: the payload forwarded on a
    /// granted resource, a structured denial otherwise.
    pub open spec fn response_to(self, req: ResourceRequest) -> ResponseView {
        if self.app_granted(req.app_id@, req.resource@) {
            ResponseView { success: true, error: None, data: Some(req.data@) }
        } else {
            ResponseView {
                success: false,
                error: Some("Permission denied: "@ + req.resource@),
                data: None,
            }
        }
    }

    /// Convenience entry point: denies with a structured response (never a
    /// panic or an exception) when the requested resource is not in the
    /// app's grant set; otherwise forwards the payload.  Interpreting the
    /// payload is the caller's concern — this layer only gates.
    pub fn handle_request(&self, request: ResourceRequest) -> (r: ResourceResponse)
        ensures
            r@ == self.response_to(request),
    {
        if !self.check_permission(request.app_id.as_str(), request.resource.as_str()) {
            let mut message = str_to_string("Permission denied: ");
            message.append(request.resource.as_str());
            return ResourceResponse { success: false, error: Some(message), data: None };
        }
        ResourceResponse { success: true, error: None, data: Some(request.data) }
    }
}

/// Mathematical image of a [`ResourceResponse`].
pub struct ResponseView {
    pub success: bool,
    pub error: Option<Seq<char>>,
    pub data: Option<Seq<u8>>,
}

impl View for ResourceResponse {
    type V = ResponseView;

    open spec fn view(&self) -> ResponseView {
        ResponseView {
            success: self.success,
            error: match self.error {
                Some(e) => Some(e@),
                None => None,
            },
            data: match self.data {
                Some(d) => Some(d@),
                None => None,
            },
        }
    }
}

/// The registry's failure: the only error it ever reports is a lookup of an
/// unregistered policy name.
#[derive(Debug, PartialEq, Eq, Structural, Clone, Copy)]
pub enum RegistryError {
    PolicyNotFound,
}

/// A permission never granted to an app is always denied, and gating a
/// request on it yields the structured denial, never the payload.
pub proof fn lemma_never_granted_denied(rc: ResourceController, req: ResourceRequest)
    requires
        !rc.app_granted(req.app_id@, req.resource@),
    ensures
        !rc.response_to(req).success,
        rc.response_to(req).data is None,
        rc.response_to(req).error == Some("Permission denied: "@ + req.resource@),
{
}

/// Replacing an app's grant set with `S` makes a permission check for that
/// app succeed exactly on the members of `S`.
pub proof fn lemma_grant_then_check(
    before: ResourceController,
    after: ResourceController,
    app: Seq<char>,
    granted: Seq<Seq<char>>,
    perm: Seq<char>,
)
    requires
        after.grants() == before.grants().insert(app, granted),
    ensures
        after.app_granted(app, perm) <==> granted.contains(perm),
{
}

/// After a revocation every permission check for the revoked app is denied.
pub proof fn lemma_revoke_then_check(
    before: ResourceController,
    after: ResourceController,
    app: Seq<char>,
    perm: Seq<char>,
)
    requires
        after.grants() == before.grants().remove(app),
    ensures
        !after.app_granted(app, perm),
{
}

} // verus!
