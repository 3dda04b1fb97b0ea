//! Orchestration of one authorization question: turn the entity
//! declarations into engine values, parse and validate the policy inputs,
//! and ask the engine whether the request is allowed. All branching on what
//! the engine reported happens here, in verified code, and every result is
//! pinned to the engine's own (named) parses, store and decision.
use vstd::prelude::*;

use crate::engine;
use crate::engine::{
    decision_of, eid_of, entities_of, entity_of, entity_type_of, policies_of, schema_of, uid_of,
    uid_of_entity, valid_entity_store, valid_entity_type, valid_policy_src, valid_schema_src,
    validation_of,
};
use crate::entities::{get_entity_decls, is_pod_decl, is_role_decl, is_user_decl, EntityDecl};
use crate::errors::Error;

verus! {

/// The uid a type-name string and an id string denote.
pub open spec fn decl_uid(t: Seq<char>, id: Seq<char>) -> cedar_policy::EntityUid {
    uid_of(entity_type_of(t), eid_of(id))
}

/// The parent uids an entity declaration denotes, in order.
pub open spec fn decl_parent_uids(d: EntityDecl) -> Seq<cedar_policy::EntityUid> {
    Seq::new(d.parents@.len(), |j: int| decl_uid(d.parents@[j].entity_type@, d.parents@[j].id@))
}

/// The engine entity an entity declaration denotes.
pub open spec fn decl_entity(d: EntityDecl) -> cedar_policy::Entity {
    entity_of(decl_uid(d.entity_type@, d.id@), decl_parent_uids(d))
}

/// Whether the engine accepts every type name of a declaration.
pub open spec fn decl_types_valid(d: EntityDecl) -> bool {
    &&& valid_entity_type(d.entity_type@)
    &&& forall|j: int|
        0 <= j < d.parents@.len() ==> valid_entity_type(#[trigger] d.parents@[j].entity_type@)
}

/// Turns an entity declaration into an engine entity. Fails exactly when
/// the declaration's own type name, or a parent's, is not a type name the
/// engine accepts; on success the entity is the one the declaration denotes.
pub fn entity_from_decl(d: &EntityDecl) -> (r: Result<cedar_policy::Entity, Error>)
    ensures
        r is Ok <==> decl_types_valid(*d),
        r matches Ok(ent) ==> ent == decl_entity(*d),
        r matches Err(e) ==> e matches Error::Type,
{
    let tn = match engine::parse_entity_type(d.entity_type.as_str()) {
        Some(t) => t,
        None => {
            return Err(Error::Type);
        },
    };
    let uid = engine::euid_of(tn, engine::entity_id_of(d.id.as_str()));
    let mut parents: Vec<cedar_policy::EntityUid> = Vec::new();
    let mut i: usize = 0;
    while i < d.parents.len()
        invariant
            i <= d.parents@.len(),
            parents@.len() == i,
            forall|j: int| 0 <= j < i ==> valid_entity_type(#[trigger] d.parents@[j].entity_type@),
            forall|j: int|
                0 <= j < i ==> parents@[j] == decl_uid(
                    d.parents@[j].entity_type@,
                    d.parents@[j].id@,
                ),
        decreases d.parents@.len() - i,
    {
        let ptn = match engine::parse_entity_type(d.parents[i].entity_type.as_str()) {
            Some(t) => t,
            None => {
                return Err(Error::Type);
            },
        };
        parents.push(engine::euid_of(ptn, engine::entity_id_of(d.parents[i].id.as_str())));
        i += 1;
    }
    proof {
        assert(parents@ =~= decl_parent_uids(*d));
    }
    Ok(engine::entity_new(uid, parents))
}

/// The entity declared for a user with this id and role.
pub open spec fn user_entity_of(id: Seq<char>, role: Seq<char>) -> cedar_policy::Entity {
    entity_of(decl_uid("Kubernetes::User"@, id), seq![decl_uid("Kubernetes::Role"@, role)])
}

/// The entity declared for a role with this id.
pub open spec fn role_entity_of(id: Seq<char>) -> cedar_policy::Entity {
    entity_of(decl_uid("Kubernetes::Role"@, id), Seq::empty())
}

/// The entity declared for a pod with this id.
pub open spec fn pod_entity_of(id: Seq<char>) -> cedar_policy::Entity {
    entity_of(decl_uid("Kubernetes::Info"@, id), Seq::empty())
}

/// The entities of the fixed store, in order: the two users, the "admin"
/// role, and the "nginx" pod.
pub open spec fn store_entities() -> Seq<cedar_policy::Entity> {
    seq![
        user_entity_of("Alice"@, "admin"@),
        user_entity_of("Bob"@, "viewer"@),
        role_entity_of("admin"@),
        pod_entity_of("nginx"@),
    ]
}

/// Whether the engine accepts the three entity type names of the store.
pub open spec fn store_types_valid() -> bool {
    &&& valid_entity_type("Kubernetes::User"@)
    &&& valid_entity_type("Kubernetes::Role"@)
    &&& valid_entity_type("Kubernetes::Info"@)
}

proof fn lemma_user_decl(d: EntityDecl, id: Seq<char>, role: Seq<char>)
    requires
        is_user_decl(d, id, role),
    ensures
        decl_types_valid(d) <==> (valid_entity_type("Kubernetes::User"@) && valid_entity_type(
            "Kubernetes::Role"@,
        )),
        decl_entity(d) == user_entity_of(id, role),
{
    assert(decl_parent_uids(d) =~= seq![decl_uid("Kubernetes::Role"@, role)]);
    if valid_entity_type("Kubernetes::User"@) && valid_entity_type("Kubernetes::Role"@) {
        assert forall|j: int| 0 <= j < d.parents@.len() implies valid_entity_type(
            #[trigger] d.parents@[j].entity_type@,
        ) by {
            assert(j == 0);
        }
    }
    if decl_types_valid(d) {
        assert(valid_entity_type(d.parents@[0].entity_type@));
    }
}

proof fn lemma_role_decl(d: EntityDecl, id: Seq<char>)
    requires
        is_role_decl(d, id),
    ensures
        decl_types_valid(d) <==> valid_entity_type("Kubernetes::Role"@),
        decl_entity(d) == role_entity_of(id),
{
    assert(decl_parent_uids(d) =~= Seq::<cedar_policy::EntityUid>::empty());
}

proof fn lemma_pod_decl(d: EntityDecl, id: Seq<char>)
    requires
        is_pod_decl(d, id),
    ensures
        decl_types_valid(d) <==> valid_entity_type("Kubernetes::Info"@),
        decl_entity(d) == pod_entity_of(id),
{
    assert(decl_parent_uids(d) =~= Seq::<cedar_policy::EntityUid>::empty());
}

/// Builds the fixed entity store as engine entities. Succeeds exactly when
/// the engine accepts the store's three type names and the built store
/// itself; on success the store is the one the declarations denote. Every
/// failure is an internal error.
pub fn get_entity_set() -> (r: Result<cedar_policy::Entities, Error>)
    ensures
        r is Ok <==> (store_types_valid() && valid_entity_store(store_entities())),
        r matches Ok(es) ==> es == entities_of(store_entities()),
        r matches Err(e) ==> e matches Error::Type,
{
    let decls = get_entity_decls();
    proof {
        lemma_user_decl(decls@[0], "Alice"@, "admin"@);
        lemma_user_decl(decls@[1], "Bob"@, "viewer"@);
        lemma_role_decl(decls@[2], "admin"@);
        lemma_pod_decl(decls@[3], "nginx"@);
    }
    let e0 = match entity_from_decl(&decls[0]) {
        Ok(e) => e,
        Err(e) => {
            return Err(e);
        },
    };
    let e1 = match entity_from_decl(&decls[1]) {
        Ok(e) => e,
        Err(e) => {
            return Err(e);
        },
    };
    let e2 = match entity_from_decl(&decls[2]) {
        Ok(e) => e,
        Err(e) => {
            return Err(e);
        },
    };
    let e3 = match entity_from_decl(&decls[3]) {
        Ok(e) => e,
        Err(e) => {
            return Err(e);
        },
    };
    let mut out: Vec<cedar_policy::Entity> = Vec::new();
    out.push(e0);
    out.push(e1);
    out.push(e2);
    out.push(e3);
    proof {
        assert(out@ =~= store_entities());
    }
    match engine::entities_from_vec(out) {
        Some(es) => Ok(es),
        None => Err(Error::Type),
    }
}

/// Parses a schema from its JSON text. Succeeds exactly when the engine's
/// schema parser accepts the text, and then returns the engine's parse of
/// it.
pub fn get_schema(schema_src: &str) -> (r: Result<cedar_policy::Schema, Error>)
    ensures
        r is Ok <==> valid_schema_src(schema_src@),
        r matches Ok(s) ==> s == schema_of(schema_src@),
        r matches Err(e) ==> e matches Error::Schema(_),
{
    match engine::parse_schema(schema_src) {
        Ok(s) => Ok(s),
        Err(msg) => Err(Error::Schema(msg)),
    }
}

/// Parses a policy set and validates it against the schema. Succeeds exactly
/// when the text parses and the parsed set validates, and then returns the
/// engine's parse of the text; a text that does not parse is a policy error,
/// a set that does not validate is a validation error.
pub fn get_policy_set(schema: &cedar_policy::Schema, policy_src: &str) -> (r: Result<
    cedar_policy::PolicySet,
    Error,
>)
    ensures
        r is Ok <==> (valid_policy_src(policy_src@) && validation_of(
            *schema,
            policies_of(policy_src@),
        )),
        r matches Ok(p) ==> p == policies_of(policy_src@),
        (r matches Err(e) && e matches Error::Policy(_)) <==> !valid_policy_src(policy_src@),
        (r matches Err(e) && e matches Error::Validation(_)) <==> (valid_policy_src(policy_src@)
            && !validation_of(*schema, policies_of(policy_src@))),
        r matches Err(e) ==> (e matches Error::Policy(_) || e matches Error::Validation(_)),
{
    let policies = match engine::parse_policy_set(policy_src) {
        Ok(p) => p,
        Err(msg) => {
            return Err(Error::Policy(msg));
        },
    };
    let (passed, errors) = engine::validate_policy_set(schema, &policies);
    if passed {
        Ok(policies)
    } else {
        Err(Error::Validation(errors))
    }
}

/// Maps the engine's decision to the library's result: an allowed request
/// is `Ok`, a denied one is an authorization-denied error carrying the
/// engine's diagnostics.
pub fn decision_to_result(allow: bool, diagnostics: String) -> (r: Result<(), Error>)
    ensures
        allow ==> r is Ok,
        !allow ==> (r matches Err(e) && e matches Error::AuthDenied(d) && d@ == diagnostics@),
{
    if allow {
        Ok(())
    } else {
        Err(Error::AuthDenied(diagnostics))
    }
}

/// Whether the engine accepts every input of the authorization question:
/// the schema text parses, the policy text parses and validates against the
/// schema, and the fixed store's type names, the store itself and the action
/// type name are accepted.
pub open spec fn inputs_accepted(schema_src: Seq<char>, policy_src: Seq<char>) -> bool {
    &&& valid_schema_src(schema_src)
    &&& valid_policy_src(policy_src)
    &&& validation_of(schema_of(schema_src), policies_of(policy_src))
    &&& store_types_valid()
    &&& valid_entity_store(store_entities())
    &&& valid_entity_type("Kubernetes::Action"@)
}

/// The engine's decision on the question: the principal entity's uid, the
/// action uid built from the action string, and the resource entity's uid,
/// under the parsed policies and the fixed store.
pub open spec fn request_allowed(
    principal: cedar_policy::Entity,
    action: Seq<char>,
    resource: cedar_policy::Entity,
    policy_src: Seq<char>,
) -> bool {
    decision_of(
        uid_of_entity(principal),
        decl_uid("Kubernetes::Action"@, action),
        uid_of_entity(resource),
        policies_of(policy_src),
        entities_of(store_entities()),
    )
}

/// Asks the engine whether the principal may perform the action on the
/// resource, under the given schema and policy texts and the fixed entity
/// store. Succeeds exactly when the engine accepts every input and allows
/// the request; each kind of failure is pinned to the input that causes it.
pub fn is_authorized(
    principal: &cedar_policy::Entity,
    action: &str,
    resource: &cedar_policy::Entity,
    schema_src: &str,
    policy_src: &str,
) -> (r: Result<(), Error>)
    ensures
        r is Ok <==> (inputs_accepted(schema_src@, policy_src@) && request_allowed(
            *principal,
            action@,
            *resource,
            policy_src@,
        )),
        (r matches Err(e) && e matches Error::Schema(_)) <==> !valid_schema_src(schema_src@),
        valid_schema_src(schema_src@) ==> ((r matches Err(e) && e matches Error::Policy(_)) <==> !valid_policy_src(policy_src@)),
        valid_schema_src(schema_src@) && valid_policy_src(policy_src@) ==> ((r matches Err(e)
            && e matches Error::Validation(_)) <==> !validation_of(
            schema_of(schema_src@),
            policies_of(policy_src@),
        )),
        valid_schema_src(schema_src@) && valid_policy_src(policy_src@) && validation_of(
            schema_of(schema_src@),
            policies_of(policy_src@),
        ) ==> ((r matches Err(e) && e matches Error::Type) <==> !(store_types_valid()
            && valid_entity_store(store_entities()) && valid_entity_type("Kubernetes::Action"@))),
        (r matches Err(e) && e matches Error::AuthDenied(_)) <==> (inputs_accepted(
            schema_src@,
            policy_src@,
        ) && !request_allowed(*principal, action@, *resource, policy_src@)),
        r matches Err(e) ==> (e matches Error::Schema(_) || e matches Error::Policy(_)
            || e matches Error::Validation(_) || e matches Error::Type || e matches Error::AuthDenied(
            _,
        )),
{
    let schema = match get_schema(schema_src) {
        Ok(s) => s,
        Err(e) => {
            return Err(e);
        },
    };
    let policies = match get_policy_set(&schema, policy_src) {
        Ok(p) => p,
        Err(e) => {
            return Err(e);
        },
    };
    let entities = match get_entity_set() {
        Ok(es) => es,
        Err(e) => {
            return Err(e);
        },
    };
    let action_tn = match engine::parse_entity_type("Kubernetes::Action") {
        Some(t) => t,
        None => {
            return Err(Error::Type);
        },
    };
    // The action uid is built from the action type name and the raw action
    // string; since the engine accepts every string as an id, every action
    // reaches the engine, including one whose text form would need escaping.
    let action_uid = engine::euid_of(action_tn, engine::entity_id_of(action));
    let principal_uid = engine::entity_uid(principal);
    let resource_uid = engine::entity_uid(resource);
    let (allow, diagnostics) = engine::authorize(
        &principal_uid,
        &action_uid,
        &resource_uid,
        &policies,
        &entities,
    );
    decision_to_result(allow, diagnostics)
}

/// Turns a user record into an engine entity: the user's declaration,
/// converted. Fails exactly when the engine refuses the user or role type
/// name.
pub fn user_entity(u: &crate::records::User) -> (r: Result<cedar_policy::Entity, Error>)
    ensures
        r is Ok <==> (valid_entity_type("Kubernetes::User"@) && valid_entity_type(
            "Kubernetes::Role"@,
        )),
        r matches Ok(ent) ==> ent == user_entity_of(u.id@, u.role@),
        r matches Err(e) ==> e matches Error::Type,
{
    let d = u.to_entity_decl();
    proof {
        lemma_user_decl(d, u.id@, u.role@);
    }
    entity_from_decl(&d)
}

/// Turns a pod record into an engine entity: the pod's declaration,
/// converted. Fails exactly when the engine refuses the pod type name.
pub fn pod_entity(p: &crate::records::Pod) -> (r: Result<cedar_policy::Entity, Error>)
    ensures
        r is Ok <==> valid_entity_type("Kubernetes::Info"@),
        r matches Ok(ent) ==> ent == pod_entity_of(p.id@),
        r matches Err(e) ==> e matches Error::Type,
{
    let d = p.to_entity_decl();
    proof {
        lemma_pod_decl(d, p.id@);
    }
    entity_from_decl(&d)
}

} // verus!
