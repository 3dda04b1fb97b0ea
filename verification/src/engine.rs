//! The boundary to the external policy-evaluation engine. Every call into
//! `cedar_policy` goes through a trusted wrapper here; the engine's own
//! values (schemas, policy sets, entities, uids) are opaque to the verifier
//! and are only carried between wrappers. Each engine result that is a
//! function of its arguments alone is given a name, so that callers'
//! contracts can pin their results to the engine's.
use std::str::FromStr;

use itertools::Itertools;
use vstd::prelude::*;

verus! {

#[verifier::external_type_specification]
#[verifier::external_body]
pub struct ExSchema(cedar_policy::Schema);

#[verifier::external_type_specification]
#[verifier::external_body]
pub struct ExPolicySet(cedar_policy::PolicySet);

#[verifier::external_type_specification]
#[verifier::external_body]
pub struct ExEntity(cedar_policy::Entity);

#[verifier::external_type_specification]
#[verifier::external_body]
pub struct ExEntities(cedar_policy::Entities);

#[verifier::external_type_specification]
#[verifier::external_body]
pub struct ExEntityUid(cedar_policy::EntityUid);

#[verifier::external_type_specification]
#[verifier::external_body]
pub struct ExEntityTypeName(cedar_policy::EntityTypeName);

#[verifier::external_type_specification]
#[verifier::external_body]
pub struct ExEntityId(cedar_policy::EntityId);

/// Whether the engine accepts a string as a namespaced entity type name;
/// this depends on the string alone.
pub uninterp spec fn valid_entity_type(s: Seq<char>) -> bool;

/// The type name the engine parses from a string it accepts.
pub uninterp spec fn entity_type_of(s: Seq<char>) -> cedar_policy::EntityTypeName;

/// The entity id the engine builds from a string; every string is accepted.
pub uninterp spec fn eid_of(s: Seq<char>) -> cedar_policy::EntityId;

/// The uid the engine builds from a type name and an id.
pub uninterp spec fn uid_of(
    t: cedar_policy::EntityTypeName,
    i: cedar_policy::EntityId,
) -> cedar_policy::EntityUid;

/// The attribute-free entity the engine builds from a uid and a sequence of
/// parent uids.
pub uninterp spec fn entity_of(
    uid: cedar_policy::EntityUid,
    parents: Seq<cedar_policy::EntityUid>,
) -> cedar_policy::Entity;

/// The uid of an engine entity.
pub uninterp spec fn uid_of_entity(e: cedar_policy::Entity) -> cedar_policy::EntityUid;

/// Whether the engine accepts a sequence of entities as a store (it refuses
/// duplicate uids and a cyclic hierarchy); this depends on the entity values
/// alone.
pub uninterp spec fn valid_entity_store(v: Seq<cedar_policy::Entity>) -> bool;

/// The entity store the engine builds from an accepted sequence of entities.
pub uninterp spec fn entities_of(v: Seq<cedar_policy::Entity>) -> cedar_policy::Entities;

/// Whether the engine's schema parser accepts a string; this depends on the
/// string alone.
pub uninterp spec fn valid_schema_src(s: Seq<char>) -> bool;

/// The schema the engine parses from a string it accepts.
pub uninterp spec fn schema_of(s: Seq<char>) -> cedar_policy::Schema;

/// Whether the engine's policy parser accepts a string; this depends on the
/// string alone.
pub uninterp spec fn valid_policy_src(s: Seq<char>) -> bool;

/// The policy set the engine parses from a string it accepts.
pub uninterp spec fn policies_of(s: Seq<char>) -> cedar_policy::PolicySet;

/// Whether the engine's validator passes a policy set against a schema in
/// the default validation mode; this depends on the two values alone.
pub uninterp spec fn validation_of(
    schema: cedar_policy::Schema,
    policies: cedar_policy::PolicySet,
) -> bool;

/// The engine's decision on a request: whether the principal uid may perform
/// the action uid on the resource uid, under the policy set and the entity
/// store, with an empty context; this depends on the five values alone.
pub uninterp spec fn decision_of(
    principal: cedar_policy::EntityUid,
    action: cedar_policy::EntityUid,
    resource: cedar_policy::EntityUid,
    policies: cedar_policy::PolicySet,
    entities: cedar_policy::Entities,
) -> bool;

/// Relies on cedar_policy::EntityTypeName::from_str: parsing a type name is
/// a function of the string alone, and returns a value exactly when the
/// string is a normalized namespaced name.
#[verifier::external_body]
pub(crate) fn parse_entity_type(s: &str) -> (r: Option<cedar_policy::EntityTypeName>)
    ensures
        r is Some <==> valid_entity_type(s@),
        r matches Some(t) ==> t == entity_type_of(s@),
{
    cedar_policy::EntityTypeName::from_str(s).ok()
}

/// Relies on cedar_policy::EntityId::from_str, which accepts every string
/// and builds the id from the string alone.
#[verifier::external_body]
pub(crate) fn entity_id_of(s: &str) -> (r: cedar_policy::EntityId)
    ensures
        r == eid_of(s@),
{
    cedar_policy::EntityId::from_str(s).unwrap()
}

/// Relies on cedar_policy::EntityUid::from_type_name_and_id, a total
/// constructor over its two arguments.
#[verifier::external_body]
pub(crate) fn euid_of(t: cedar_policy::EntityTypeName, i: cedar_policy::EntityId) -> (r:
    cedar_policy::EntityUid)
    ensures
        r == uid_of(t, i),
{
    cedar_policy::EntityUid::from_type_name_and_id(t, i)
}

/// Relies on cedar_policy::Entity::new: the entity is built with the given
/// uid and parents and with no attributes, from those arguments alone.
#[verifier::external_body]
pub(crate) fn entity_new(uid: cedar_policy::EntityUid, parents: Vec<cedar_policy::EntityUid>) -> (r:
    cedar_policy::Entity)
    ensures
        r == entity_of(uid, parents@),
{
    let parent_set: std::collections::HashSet<cedar_policy::EntityUid> =
        parents.into_iter().collect();
    cedar_policy::Entity::new(uid, std::collections::HashMap::new(), parent_set)
}

/// Relies on cedar_policy::Entity::uid, which reads the entity alone.
#[verifier::external_body]
pub(crate) fn entity_uid(e: &cedar_policy::Entity) -> (r: cedar_policy::EntityUid)
    ensures
        r == uid_of_entity(*e),
{
    e.uid()
}

/// Relies on cedar_policy::Entities::from_entities, which errors exactly
/// when the entities cannot be read as a store or their hierarchy is cyclic,
/// and otherwise builds the store from the entity values alone.
#[verifier::external_body]
pub(crate) fn entities_from_vec(v: Vec<cedar_policy::Entity>) -> (r: Option<
    cedar_policy::Entities,
>)
    ensures
        r is Some <==> valid_entity_store(v@),
        r matches Some(es) ==> es == entities_of(v@),
{
    cedar_policy::Entities::from_entities(v).ok()
}

/// Relies on cedar_policy::Schema's FromStr: parsing a schema from its JSON
/// form is a function of the string alone; the error value is the parser's
/// rendered message.
#[verifier::external_body]
pub(crate) fn parse_schema(s: &str) -> (r: Result<cedar_policy::Schema, String>)
    ensures
        r is Ok <==> valid_schema_src(s@),
        r matches Ok(sch) ==> sch == schema_of(s@),
{
    cedar_policy::Schema::from_str(s).map_err(|e| format!("{}", e))
}

/// Relies on cedar_policy::PolicySet's FromStr: parsing a policy set is a
/// function of the string alone; the error value is the parser's rendered
/// message.
#[verifier::external_body]
pub(crate) fn parse_policy_set(s: &str) -> (r: Result<cedar_policy::PolicySet, String>)
    ensures
        r is Ok <==> valid_policy_src(s@),
        r matches Ok(p) ==> p == policies_of(s@),
{
    cedar_policy::PolicySet::from_str(s).map_err(|e| format!("{}", e))
}

/// Relies on cedar_policy::Validator::new, Validator::validate,
/// ValidationResult::validation_passed and
/// ValidationResult::validation_errors: validates the policies against the
/// schema in the default mode and returns whether validation passed together
/// with the rendered validation errors, one per line. Whether validation
/// passes is a function of the schema and the policy set alone; the order of
/// the rendered errors is not (the validator walks a hash map), so the text
/// is not pinned.
#[verifier::external_body]
pub(crate) fn validate_policy_set(
    schema: &cedar_policy::Schema,
    policies: &cedar_policy::PolicySet,
) -> (r: (bool, String))
    ensures
        r.0 == validation_of(*schema, *policies),
{
    let validator = cedar_policy::Validator::new(schema.clone());
    let output = validator.validate(policies, cedar_policy::ValidationMode::default());
    let passed = output.validation_passed();
    let errors = output.validation_errors().map(|e| format!("{}", e)).join("\n");
    (passed, errors)
}

/// Relies on cedar_policy::Authorizer::new, Request::new, Context::empty,
/// Authorizer::is_authorized, Response::decision and Response::diagnostics:
/// asks the engine for a decision on the request built from the three uids
/// and an empty context, and returns whether it allowed the request,
/// together with the rendered diagnostics. The decision is a function of the
/// uids, the policy set and the store alone; the diagnostics text is not
/// (its sets are walked in hash order), so it is not pinned.
#[verifier::external_body]
pub(crate) fn authorize(
    principal: &cedar_policy::EntityUid,
    action: &cedar_policy::EntityUid,
    resource: &cedar_policy::EntityUid,
    policies: &cedar_policy::PolicySet,
    entities: &cedar_policy::Entities,
) -> (r: (bool, String))
    ensures
        r.0 == decision_of(*principal, *action, *resource, *policies, *entities),
{
    let authorizer = cedar_policy::Authorizer::new();
    let q = cedar_policy::Request::new(
        Some(principal.clone()),
        Some(action.clone()),
        Some(resource.clone()),
        cedar_policy::Context::empty(),
    );
    let response = authorizer.is_authorized(&q, policies, entities);
    let allow = match response.decision() {
        cedar_policy::Decision::Allow => true,
        cedar_policy::Decision::Deny => false,
    };
    (allow, format!("{:?}", response.diagnostics()))
}

} // verus!
