//! A plain-value model of the policy engine's entity data: each entity is a
//! namespaced type name, an id, and the uids of its parents in the
//! hierarchy. Records are translated into these declarations here; turning a
//! declaration into an engine value happens behind the trusted wrappers.
use vstd::prelude::*;

use crate::records::{Pod, Role, User};

verus! {

/// A reference to an entity: its type name and its id.
pub struct EntityRef {
    pub entity_type: String,
    pub id: String,
}

/// An entity declaration: the entity's own uid parts and the uids of its
/// parents. Entities carry no attributes in this model.
pub struct EntityDecl {
    pub entity_type: String,
    pub id: String,
    pub parents: Vec<EntityRef>,
}

/// Holds when `d` declares the user with the given id and role: a
/// `Kubernetes::User` whose single parent is the `Kubernetes::Role` named by
/// the role.
pub open spec fn is_user_decl(d: EntityDecl, id: Seq<char>, role: Seq<char>) -> bool {
    &&& d.entity_type@ == "Kubernetes::User"@
    &&& d.id@ == id
    &&& d.parents@.len() == 1
    &&& d.parents@[0].entity_type@ == "Kubernetes::Role"@
    &&& d.parents@[0].id@ == role
}

/// Holds when `d` declares the role with the given id: a `Kubernetes::Role`
/// with no parents.
pub open spec fn is_role_decl(d: EntityDecl, id: Seq<char>) -> bool {
    &&& d.entity_type@ == "Kubernetes::Role"@
    &&& d.id@ == id
    &&& d.parents@.len() == 0
}

/// Holds when `d` declares the pod with the given id: a `Kubernetes::Info`
/// with no parents.
pub open spec fn is_pod_decl(d: EntityDecl, id: Seq<char>) -> bool {
    &&& d.entity_type@ == "Kubernetes::Info"@
    &&& d.id@ == id
    &&& d.parents@.len() == 0
}

impl User {
    /// Declares this user as an entity that is a member of its role.
    pub fn to_entity_decl(&self) -> (d: EntityDecl)
        ensures
            is_user_decl(d, self.id@, self.role@),
    {
        let parent = EntityRef { entity_type: "Kubernetes::Role".to_owned(), id: self.role.clone() };
        let d = EntityDecl {
            entity_type: "Kubernetes::User".to_owned(),
            id: self.id.clone(),
            parents: vec![parent],
        };
        d
    }
}

impl Role {
    /// Declares this role as an entity with no parents.
    pub fn to_entity_decl(&self) -> (d: EntityDecl)
        ensures
            is_role_decl(d, self.id@),
    {
        EntityDecl {
            entity_type: "Kubernetes::Role".to_owned(),
            id: self.id.clone(),
            parents: Vec::new(),
        }
    }
}

impl Pod {
    /// Declares this pod as an entity with no parents.
    pub fn to_entity_decl(&self) -> (d: EntityDecl)
        ensures
            is_pod_decl(d, self.id@),
    {
        EntityDecl {
            entity_type: "Kubernetes::Info".to_owned(),
            id: self.id.clone(),
            parents: Vec::new(),
        }
    }
}

/// Builds the declarations of the fixed entity store: the two users, the
/// "admin" role, and the "nginx" pod.
pub fn get_entity_decls() -> (v: Vec<EntityDecl>)
    ensures
        v@.len() == 4,
        is_user_decl(v@[0], "Alice"@, "admin"@),
        is_user_decl(v@[1], "Bob"@, "viewer"@),
        is_role_decl(v@[2], "admin"@),
        is_pod_decl(v@[3], "nginx"@),
{
    let alice = User { id: "Alice".to_owned(), role: "admin".to_owned() };
    let bob = User { id: "Bob".to_owned(), role: "viewer".to_owned() };
    let admin = Role { id: "admin".to_owned() };
    let nginx = Pod { id: "nginx".to_owned() };
    let mut v: Vec<EntityDecl> = Vec::new();
    v.push(alice.to_entity_decl());
    v.push(bob.to_entity_decl());
    v.push(admin.to_entity_decl());
    v.push(nginx.to_entity_decl());
    v
}

} // verus!
