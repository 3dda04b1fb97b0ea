//! A role-based access control sample built around an external
//! general-purpose policy-evaluation engine. The library holds the record
//! lookups, the translation of records into the engine's entity model, and
//! the orchestration of one authorization question; parsing, validation and
//! evaluation of policies are the engine's job and are reached through
//! trusted wrappers.
pub mod authz;
pub mod decimal;
pub mod engine;
pub mod entities;
pub mod errors;
pub mod records;

pub use authz::{
    decision_to_result, entity_from_decl, get_entity_set, get_policy_set, get_schema,
    is_authorized, pod_entity, user_entity,
};
pub use entities::{get_entity_decls, EntityDecl, EntityRef};
pub use errors::Error;
pub use records::{find_pod_by_id, find_user_by_id, greeting, Pod, Role, User};
