//! Tenants (projects) and the tenant authorization guard: an identity is
//! let through to a tenant only when the tenant lists its subject as a
//! member.
use vstd::prelude::*;
use vstd::string::*;

use crate::error::{client_error, client_failure, internal_error, internal_failure, SBError, StoreFault};
use crate::identity::{authorize_header_at, identity_outcome, str_view, GuardError};
use crate::ids::{decodes_to, is_object_id_text, ObjectKey};
use crate::users::key_view;

verus! {

pub const PROJECTS_SERVICE: &'static str = "projects";

pub const NO_PROJECT: &'static str = "No project found";

pub const INVALID_PROJECT_ID: &'static str = "Invalid identifier.";

pub const PROJECT_QUERY_FAILED: &'static str = "Failure finding project.";

/// A tenant: its id (given by storage on creation), its name, and the ids of
/// its members, in no particular order.
#[derive(Clone, Debug)]
pub struct Project {
    pub id: Option<ObjectKey>,
    pub name: String,
    pub users: Vec<String>,
}

/// An identity whose membership of a tenant was confirmed.
#[derive(Clone, Debug)]
pub struct ProjectUser {
    pub token: String,
    pub sub: String,
    pub project: Project,
}

/// An identity verified for a request on a tenant whose membership is yet
/// to be looked up.
#[derive(Clone, Debug)]
pub struct PendingProjectAccess {
    pub token: String,
    pub sub: String,
    pub project_id: ObjectKey,
}

/// `sub` is listed among `users`.
pub open spec fn is_member(users: Seq<String>, sub: Seq<char>) -> bool {
    exists|i: int| 0 <= i < users.len() && (#[trigger] users[i])@ == sub
}

/// `p` is the tenant with id `key` and lists `sub` as a member.
pub open spec fn grants_access(p: Project, key: Seq<u8>, sub: Seq<char>) -> bool {
    key_view(p.id) == Some(key) && is_member(p.users@, sub)
}

impl Project {
    /// A new tenant named `name` whose one member is its creator.
    pub fn owned_by(name: &str, creator: &str) -> (r: Project)
        ensures
            r.id is None,
            r.name@ == name@,
            r.users@.len() == 1,
            r.users@[0]@ == creator@,
    {
        let mut users: Vec<String> = Vec::new();
        users.push(String::from_str(creator));
        Project { id: None, name: String::from_str(name), users }
    }

    /// Whether `sub` is a member.
    pub fn has_member(&self, sub: &str) -> (r: bool)
        ensures
            r == is_member(self.users@, sub@),
    {
        let wanted = String::from_str(sub);
        let mut i: usize = 0;
        while i < self.users.len()
            invariant
                0 <= i <= self.users@.len(),
                wanted@ == sub@,
                forall|j: int| 0 <= j < i ==> (#[trigger] self.users@[j])@ != sub@,
            decreases self.users@.len() - i,
        {
            if self.users[i] == wanted {
                return true;
            }
            i = i + 1;
        }
        false
    }

    /// Whether this is the tenant with id `key` and `sub` is a member.
    pub fn grants(&self, key: &ObjectKey, sub: &str) -> (r: bool)
        ensures
            r == grants_access(*self, key.bytes@, sub@),
    {
        match &self.id {
            Some(k) => k.same_as(key) && self.has_member(sub),
            None => false,
        }
    }
}

/// `p` carries token `t` and subject `s`, and the key that the tenant id
/// stands for.
pub open spec fn pending_for(
    p: PendingProjectAccess,
    t: Seq<char>,
    s: Seq<char>,
    project_id: Option<Seq<char>>,
) -> bool {
    &&& p.token@ == t
    &&& p.sub@ == s
    &&& match project_id {
        Some(id) => decodes_to(id, p.project_id.bytes@),
        None => false,
    }
}

/// What the first step of the tenant guard decides: the identity guard's
/// refusal, if any, comes first; then a route without a tenant id is
/// misconfigured, and a tenant id that is not an identifier is a bad
/// request. Otherwise the token, the subject and the tenant key.
pub open spec fn tenant_request_ok(
    header: Option<Seq<char>>,
    project_id: Option<Seq<char>>,
    secret: Seq<char>,
    now: int,
) -> Result<(Seq<char>, Seq<char>), GuardError> {
    match identity_outcome(header, secret, now) {
        Err(e) => Err(e),
        Ok(id) => match project_id {
            None => Err(GuardError::MissingTenantId),
            Some(p) => if is_object_id_text(p) {
                Ok(id)
            } else {
                Err(GuardError::InvalidTenantId)
            },
        },
    }
}

/// `r` is what the first step of the tenant guard returns when it decides
/// `decided`: the same refusal, or the pending access that carries the
/// token, the subject and the tenant key.
pub open spec fn begins_as(
    r: Result<PendingProjectAccess, GuardError>,
    decided: Result<(Seq<char>, Seq<char>), GuardError>,
    project_id: Option<Seq<char>>,
) -> bool {
    match decided {
        Err(e) => r == Err::<PendingProjectAccess, GuardError>(e),
        Ok((t, s)) => match r {
            Ok(p) => pending_for(p, t, s, project_id),
            Err(_) => false,
        },
    }
}

/// The first step of the tenant guard at instant `now`: verify the identity,
/// then read the tenant id. What comes out names the membership lookup to
/// make in storage.
pub fn begin_project_guard_at(
    header: Option<&str>,
    project_id: Option<&str>,
    secret: &str,
    now: u64,
) -> (r: Result<PendingProjectAccess, GuardError>)
    ensures
        begins_as(r, tenant_request_ok(str_view(header), str_view(project_id), secret@, now as int), str_view(project_id)),
{
    let user = authorize_header_at(header, secret, now);
    let user = match user {
        Err(e) => {
            return Err(e);
        },
        Ok(u) => u,
    };
    let id_text = match project_id {
        None => {
            return Err(GuardError::MissingTenantId);
        },
        Some(p) => p,
    };
    match ObjectKey::parse(id_text) {
        None => Err(GuardError::InvalidTenantId),
        Some(k) => Ok(PendingProjectAccess { token: user.token, sub: user.sub, project_id: k }),
    }
}

/// The last step of the tenant guard, given what the membership lookup
/// found. A failed lookup is an internal failure; no tenant, or one that is
/// not the tenant asked for or does not list the subject, is unauthorized.
/// Only then is the identity let through, with the tenant it was checked
/// against.
pub fn finish_project_guard(
    pending: PendingProjectAccess,
    lookup: Result<Option<Project>, StoreFault>,
) -> (r: Result<ProjectUser, GuardError>)
    ensures
        lookup is Err ==> r == Err::<ProjectUser, GuardError>(GuardError::StorageUnavailable),
        lookup matches Ok(None) ==> r == Err::<ProjectUser, GuardError>(GuardError::NoTenantAccess),
        lookup matches Ok(Some(p)) ==> (grants_access(p, pending.project_id.bytes@, pending.sub@)
            <==> r is Ok),
        lookup matches Ok(Some(p)) && !grants_access(p, pending.project_id.bytes@, pending.sub@)
            ==> r == Err::<ProjectUser, GuardError>(GuardError::NoTenantAccess),
        r matches Ok(u) ==> u.token@ == pending.token@ && u.sub@ == pending.sub@ && grants_access(
            u.project,
            pending.project_id.bytes@,
            u.sub@,
        ),
        r matches Ok(u) ==> (lookup matches Ok(Some(p)) && u.project == p),
{
    match lookup {
        Err(_) => Err(GuardError::StorageUnavailable),
        Ok(None) => Err(GuardError::NoTenantAccess),
        Ok(Some(p)) => {
            if p.grants(&pending.project_id, pending.sub.as_str()) {
                Ok(ProjectUser { token: pending.token, sub: pending.sub, project: p })
            } else {
                Err(GuardError::NoTenantAccess)
            }
        },
    }
}

/// Reads a project id. A text that is not an identifier is a client-class
/// failure, found before any storage access.
pub fn parse_project_id(project_id: &str) -> (r: Result<ObjectKey, SBError>)
    ensures
        r is Ok <==> is_object_id_text(project_id@),
        r matches Ok(k) ==> decodes_to(project_id@, k.bytes@),
        r matches Err(e) ==> client_failure(e, PROJECTS_SERVICE@, INVALID_PROJECT_ID@),
{
    match ObjectKey::parse(project_id) {
        Some(k) => Ok(k),
        None => Err(client_error(PROJECTS_SERVICE, INVALID_PROJECT_ID)),
    }
}

/// A lookup of a project by id on behalf of `requester`: the project when
/// the requester is a member, `None` when it is not (unauthorized), a
/// client-class failure when there is no such project.
pub fn finish_get_project(found: Result<Option<Project>, StoreFault>, requester: &str) -> (r: Result<
    Option<Project>,
    SBError,
>)
    ensures
        found matches Ok(Some(p)) ==> (r matches Ok(o) && (is_member(p.users@, requester@) ==> o
            == Some(p)) && (!is_member(p.users@, requester@) ==> o is None)),
        found matches Ok(None) ==> (r matches Err(e) && client_failure(
            e,
            PROJECTS_SERVICE@,
            NO_PROJECT@,
        )),
        found is Err ==> (r matches Err(e) && internal_failure(
            e,
            PROJECTS_SERVICE@,
            PROJECT_QUERY_FAILED@,
        )),
{
    match found {
        Err(_) => Err(internal_error(PROJECTS_SERVICE, PROJECT_QUERY_FAILED)),
        Ok(None) => Err(client_error(PROJECTS_SERVICE, NO_PROJECT)),
        Ok(Some(p)) => if p.has_member(requester) {
            Ok(Some(p))
        } else {
            Ok(None)
        },
    }
}

} // verus!
