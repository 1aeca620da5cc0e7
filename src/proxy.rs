//! Tenant-scoped document proxy: every operation names a collection inside
//! the storage namespace of one tenant, derived from the tenant's id alone,
//! and only for an identity whose membership of that tenant was confirmed.
//! Filters, documents and updates are handed to storage as the caller gave
//! them.
use vstd::prelude::*;
use vstd::string::*;

use crate::error::{client_error, client_failure, SBError};
use crate::ids::{decodes_to, hex_lower, is_object_id_text, lemma_hex_lower_injective, ObjectKey};
use crate::projects::ProjectUser;
use crate::users::key_view;

verus! {

pub const MONGODB_SERVICE: &'static str = "mongodb";

pub const INVALID_DOCUMENT_ID: &'static str = "Failure making oid object.";

pub const INVALID_TENANT_ID: &'static str = "Invalid project identifier.";

pub const FOREIGN_TENANT: &'static str = "No project access";

/// The prefix of every tenant namespace.
pub const NAMESPACE_PREFIX: &'static str = "project-";

/// Collections whose name starts with this character are internal and never
/// listed.
pub const RESERVED_PREFIX: char = '_';

/// The collection that holds a tenant's own user records.
pub const TENANT_USERS_COLLECTION: &'static str = "_auth";

/// The update operator that wraps a caller's update, so that the fields it
/// gives are replaced and no other field of a document is touched.
pub const REPLACE_FIELDS_OPERATOR: &'static str = "$set";

/// A collection inside a tenant namespace.
#[derive(Clone, Debug)]
pub struct DocumentTarget {
    pub database: String,
    pub collection: String,
}

/// The storage namespace of the tenant with id `key`.
pub open spec fn project_namespace(key: Seq<u8>) -> Seq<char> {
    NAMESPACE_PREFIX@ + hex_lower(key)
}

/// Distinct tenants have distinct namespaces, so an operation for one
/// tenant never reaches the documents of another.
pub proof fn lemma_tenant_isolation(a: Seq<u8>, b: Seq<u8>)
    requires
        a != b,
    ensures
        project_namespace(a) != project_namespace(b),
{
    if project_namespace(a) == project_namespace(b) {
        let n = NAMESPACE_PREFIX@.len();
        assert(hex_lower(a) =~= project_namespace(a).subrange(n as int, project_namespace(a).len() as int));
        assert(hex_lower(b) =~= project_namespace(b).subrange(n as int, project_namespace(b).len() as int));
        lemma_hex_lower_injective(a, b);
    }
}

/// The tenant that an operation on `project_id` may reach for `identity`:
/// the id must be an identifier, and the one of the tenant whose
/// membership was confirmed for the identity.
pub open spec fn tenant_for(identity: ProjectUser, project_id: Seq<char>) -> Option<Seq<u8>> {
    if is_object_id_text(project_id) && exists|k: Seq<u8>|
        decodes_to(project_id, k) && key_view(identity.project.id) == Some(k) {
        key_view(identity.project.id)
    } else {
        None
    }
}

/// An identity confirmed for one tenant reaches no other: for the id of any
/// other tenant, no namespace is granted.
pub proof fn lemma_foreign_tenant_refused(identity: ProjectUser, project_id: Seq<char>, other: Seq<u8>)
    requires
        decodes_to(project_id, other),
        key_view(identity.project.id) != Some(other),
    ensures
        tenant_for(identity, project_id) is None,
{
    assert forall|k: Seq<u8>| decodes_to(project_id, k) implies k == other by {
        assert(k =~= other);
    }
}

/// The name of the namespace of a tenant.
pub fn tenant_database(key: &ObjectKey) -> (r: String)
    ensures
        r@ == project_namespace(key.bytes@),
{
    let hex = key.to_hex();
    String::from_str(NAMESPACE_PREFIX).concat(hex.as_str())
}

/// The namespace that `identity` may reach for `project_id`. A text that is
/// not an identifier, or the id of another tenant than the one the identity
/// was confirmed for, is refused before any storage access.
pub fn tenant_namespace(identity: &ProjectUser, project_id: &str) -> (r: Result<String, SBError>)
    ensures
        tenant_for(*identity, project_id@) matches Some(k) ==> (r matches Ok(d) && d@
            == project_namespace(k)),
        !is_object_id_text(project_id@) ==> (r matches Err(e) && client_failure(
            e,
            MONGODB_SERVICE@,
            INVALID_TENANT_ID@,
        )),
        is_object_id_text(project_id@) && tenant_for(*identity, project_id@) is None ==> (r matches Err(
            e,
        ) && client_failure(e, MONGODB_SERVICE@, FOREIGN_TENANT@)),
{
    let key = match ObjectKey::parse(project_id) {
        None => {
            return Err(client_error(MONGODB_SERVICE, INVALID_TENANT_ID));
        },
        Some(k) => k,
    };
    match &identity.project.id {
        Some(granted) => {
            if granted.same_as(&key) {
                Ok(tenant_database(&key))
            } else {
                proof {
                    assert forall|k: Seq<u8>| decodes_to(project_id@, k) implies k == key.bytes@ by {
                        assert(k =~= key.bytes@);
                    }
                }
                Err(client_error(MONGODB_SERVICE, FOREIGN_TENANT))
            }
        },
        None => Err(client_error(MONGODB_SERVICE, FOREIGN_TENANT)),
    }
}

/// A collection of the tenant that `identity` may reach for `project_id`.
pub fn collection_target(identity: &ProjectUser, project_id: &str, collection_name: &str) -> (r:
    Result<DocumentTarget, SBError>)
    ensures
        tenant_for(*identity, project_id@) matches Some(k) ==> (r matches Ok(t) && t.database@
            == project_namespace(k) && t.collection@ == collection_name@),
        is_object_id_text(project_id@) && tenant_for(*identity, project_id@) is None ==> (r matches Err(
            e,
        ) && client_failure(e, MONGODB_SERVICE@, FOREIGN_TENANT@)),
        !is_object_id_text(project_id@) ==> (r matches Err(e) && client_failure(
            e,
            MONGODB_SERVICE@,
            INVALID_TENANT_ID@,
        )),
{
    let database = tenant_namespace(identity, project_id)?;
    Ok(DocumentTarget { database, collection: String::from_str(collection_name) })
}

/// One document, by id, in a collection of the tenant that `identity` may
/// reach for `project_id`. A document id that is not an identifier is
/// refused before any storage access.
pub fn document_target(
    identity: &ProjectUser,
    project_id: &str,
    collection_name: &str,
    document_id: &str,
) -> (r: Result<(DocumentTarget, ObjectKey), SBError>)
    ensures
        tenant_for(*identity, project_id@) matches Some(k) ==> (is_object_id_text(document_id@) ==> (
        r matches Ok((t, d)) && t.database@ == project_namespace(k) && t.collection@
            == collection_name@ && decodes_to(document_id@, d.bytes@))),
        is_object_id_text(project_id@) && tenant_for(*identity, project_id@) is None ==> (r matches Err(
            e,
        ) && client_failure(e, MONGODB_SERVICE@, FOREIGN_TENANT@)),
        !is_object_id_text(project_id@) ==> (r matches Err(e) && client_failure(
            e,
            MONGODB_SERVICE@,
            INVALID_TENANT_ID@,
        )),
        tenant_for(*identity, project_id@) is Some && !is_object_id_text(document_id@) ==> (r matches Err(
            e,
        ) && client_failure(e, MONGODB_SERVICE@, INVALID_DOCUMENT_ID@)),
{
    let target = collection_target(identity, project_id, collection_name)?;
    match ObjectKey::parse(document_id) {
        Some(d) => Ok((target, d)),
        None => Err(client_error(MONGODB_SERVICE, INVALID_DOCUMENT_ID)),
    }
}

/// The collection of a tenant's own user records.
pub fn tenant_users_target(identity: &ProjectUser, project_id: &str) -> (r: Result<
    DocumentTarget,
    SBError,
>)
    ensures
        tenant_for(*identity, project_id@) matches Some(k) ==> (r matches Ok(t) && t.database@
            == project_namespace(k) && t.collection@ == TENANT_USERS_COLLECTION@),
        is_object_id_text(project_id@) && tenant_for(*identity, project_id@) is None ==> (r matches Err(
            e,
        ) && client_failure(e, MONGODB_SERVICE@, FOREIGN_TENANT@)),
        !is_object_id_text(project_id@) ==> (r matches Err(e) && client_failure(
            e,
            MONGODB_SERVICE@,
            INVALID_TENANT_ID@,
        )),
{
    collection_target(identity, project_id, TENANT_USERS_COLLECTION)
}

/// A collection name that is listed to callers: it does not start with the
/// reserved prefix.
pub open spec fn is_visible_name(name: Seq<char>) -> bool {
    name.len() == 0 || name[0] != RESERVED_PREFIX
}

/// Whether a collection is listed to callers.
pub fn is_visible_collection(name: &str) -> (r: bool)
    ensures
        r == is_visible_name(name@),
{
    if name.unicode_len() == 0 {
        true
    } else {
        name.get_char(0) != RESERVED_PREFIX
    }
}

/// The collections of a namespace that are listed to callers, in the order
/// given.
pub fn visible_collections(names: &Vec<String>) -> (r: Vec<String>)
    ensures
        r@.map_values(|s: String| s@) == names@.map_values(|s: String| s@).filter(
            |n: Seq<char>| is_visible_name(n),
        ),
{
    let ghost view = names@.map_values(|s: String| s@);
    let ghost keep = |n: Seq<char>| is_visible_name(n);
    let mut r: Vec<String> = Vec::new();
    let mut i: usize = 0;
    while i < names.len()
        invariant
            0 <= i <= names@.len(),
            view == names@.map_values(|s: String| s@),
            keep == (|n: Seq<char>| is_visible_name(n)),
            r@.map_values(|s: String| s@) == view.subrange(0, i as int).filter(keep),
        decreases names@.len() - i,
    {
        let name = &names[i];
        proof {
            assert(view.subrange(0, i + 1).drop_last() =~= view.subrange(0, i as int));
            assert(view.subrange(0, i + 1).last() == name@);
            reveal_with_fuel(Seq::filter, 1);
        }
        if is_visible_collection(name.as_str()) {
            r.push(name.clone());
            assert(r@.map_values(|s: String| s@) =~= view.subrange(0, i as int).filter(keep).push(name@));
        } else {
            assert(r@.map_values(|s: String| s@) =~= view.subrange(0, i as int).filter(keep));
        }
        i = i + 1;
    }
    assert(view.subrange(0, names@.len() as int) =~= view);
    r
}

} // verus!
