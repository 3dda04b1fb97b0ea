use cedar_rbac::authz::{
    decision_to_result, entity_from_decl, get_entity_set, get_policy_set, get_schema,
    is_authorized, pod_entity, user_entity,
};
use cedar_rbac::decimal::{dec_i64_string, dec_u64_string};
use cedar_rbac::entities::{get_entity_decls, EntityDecl, EntityRef};
use cedar_rbac::errors::Error;
use cedar_rbac::records::{find_pod_by_id, find_user_by_id, greeting, str_eq, Pod, Role, User};

const SCHEMA_SRC: &str = r#"{
    "Kubernetes": {
        "entityTypes": {
            "User": { "memberOfTypes": ["Role"] },
            "Role": {},
            "Info": {}
        },
        "actions": {
            "get": {
                "appliesTo": {
                    "principalTypes": ["User"],
                    "resourceTypes": ["Info"]
                }
            }
        }
    }
}"#;

const POLICY_SRC: &str = r#"permit(
    principal in Kubernetes::Role::"admin",
    action == Kubernetes::Action::"get",
    resource
);"#;

#[test]
fn alice_lookup() {
    let u = find_user_by_id("Alice").unwrap();
    assert_eq!(u.id, "Alice");
    assert_eq!(u.role, "admin");
}

#[test]
fn bob_lookup() {
    let u = find_user_by_id("Bob").unwrap();
    assert_eq!(u.id, "Bob");
    assert_eq!(u.role, "viewer");
}

#[test]
fn unknown_user_lookup() {
    let e = find_user_by_id("Carol").unwrap_err();
    assert!(matches!(&e, Error::NoSuchRecord(s) if s == "Carol"));
    assert_eq!(e.message(), "No Such Record: Carol");
}

#[test]
fn pod_lookup() {
    let p = find_pod_by_id("nginx-pod").unwrap();
    assert_eq!(p.id, "nginx-pod");
}

#[test]
fn unknown_pod_lookup() {
    let e = find_pod_by_id("nginx").unwrap_err();
    assert!(matches!(&e, Error::NoSuchRecord(s) if s == "nginx"));
}

#[test]
fn str_eq_compares_contents() {
    assert!(str_eq("abc", "abc"));
    assert!(!str_eq("abc", "abd"));
    assert!(!str_eq("abc", "ab"));
    assert!(str_eq("", ""));
}

#[test]
fn greeting_text() {
    assert_eq!(
        greeting("Alice", "get", "nginx-pod"),
        "Hello Alice! You can get nginx-pod."
    );
}

#[test]
fn decimal_rendering() {
    assert_eq!(dec_u64_string(0), "0");
    assert_eq!(dec_u64_string(7), "7");
    assert_eq!(dec_u64_string(120), "120");
    assert_eq!(dec_u64_string(u64::MAX), "18446744073709551615");
    assert_eq!(dec_i64_string(42), "42");
    assert_eq!(dec_i64_string(-42), "-42");
    assert_eq!(dec_i64_string(0), "0");
    assert_eq!(dec_i64_string(i64::MIN), "-9223372036854775808");
    assert_eq!(dec_i64_string(i64::MAX), "9223372036854775807");
}

#[test]
fn error_messages() {
    assert_eq!(
        Error::NoSuchRecord("x".to_string()).message(),
        "No Such Record: x"
    );
    assert_eq!(
        Error::NoSuchEntity("Kubernetes::User::\"x\"".to_string()).message(),
        "No Such Entity: Kubernetes::User::\"x\""
    );
    assert_eq!(
        Error::AuthDenied("details".to_string()).message(),
        "Authorization Denied"
    );
    assert_eq!(
        Error::InvalidTaskId("todo".to_string(), -42).message(),
        "The list todo does not contain a task with id -42"
    );
    assert_eq!(Error::Type.message(), "Internal Error");
    assert_eq!(Error::IO("gone".to_string()).message(), "Internal Error");
    assert_eq!(
        Error::Policy("bad".to_string()).message(),
        "Error Parsing PolicySet: bad"
    );
    assert_eq!(
        Error::Request("bad".to_string()).message(),
        "Error constructing authorization request: bad"
    );
    assert_eq!(
        Error::Schema("bad".to_string()).message(),
        "Error Parsing Schema: bad"
    );
    assert_eq!(
        Error::Validation("bad".to_string()).message(),
        "Validation Failed: bad"
    );
}

#[test]
fn user_decl_shape() {
    let u = User {
        id: "Alice".to_string(),
        role: "admin".to_string(),
    };
    let d = u.to_entity_decl();
    assert_eq!(d.entity_type, "Kubernetes::User");
    assert_eq!(d.id, "Alice");
    assert_eq!(d.parents.len(), 1);
    assert_eq!(d.parents[0].entity_type, "Kubernetes::Role");
    assert_eq!(d.parents[0].id, "admin");
}

#[test]
fn role_and_pod_decl_shape() {
    let r = Role {
        id: "admin".to_string(),
    };
    let d = r.to_entity_decl();
    assert_eq!(d.entity_type, "Kubernetes::Role");
    assert_eq!(d.id, "admin");
    assert!(d.parents.is_empty());

    let p = Pod {
        id: "nginx".to_string(),
    };
    let d = p.to_entity_decl();
    assert_eq!(d.entity_type, "Kubernetes::Info");
    assert_eq!(d.id, "nginx");
    assert!(d.parents.is_empty());
}

#[test]
fn entity_decls_of_store() {
    let v = get_entity_decls();
    assert_eq!(v.len(), 4);
    assert_eq!(v[0].entity_type, "Kubernetes::User");
    assert_eq!(v[0].id, "Alice");
    assert_eq!(v[0].parents[0].id, "admin");
    assert_eq!(v[1].id, "Bob");
    assert_eq!(v[1].parents[0].id, "viewer");
    assert_eq!(v[2].entity_type, "Kubernetes::Role");
    assert_eq!(v[2].id, "admin");
    assert_eq!(v[3].entity_type, "Kubernetes::Info");
    assert_eq!(v[3].id, "nginx");
}

#[test]
fn entity_from_valid_decl() {
    let u = User {
        id: "Alice".to_string(),
        role: "admin".to_string(),
    };
    assert!(entity_from_decl(&u.to_entity_decl()).is_ok());
}

#[test]
fn entity_from_invalid_type_name() {
    let d = EntityDecl {
        entity_type: "not a type name!!".to_string(),
        id: "x".to_string(),
        parents: Vec::new(),
    };
    let e = entity_from_decl(&d).unwrap_err();
    assert!(matches!(e, Error::Type));
}

#[test]
fn entity_from_invalid_parent_type_name() {
    let d = EntityDecl {
        entity_type: "Kubernetes::User".to_string(),
        id: "x".to_string(),
        parents: vec![EntityRef {
            entity_type: "7bad".to_string(),
            id: "y".to_string(),
        }],
    };
    let e = entity_from_decl(&d).unwrap_err();
    assert!(matches!(e, Error::Type));
}

#[test]
fn entity_set_builds() {
    assert!(get_entity_set().is_ok());
}

#[test]
fn schema_parses() {
    assert!(get_schema(SCHEMA_SRC).is_ok());
}

#[test]
fn schema_rejects_bad_text() {
    let e = get_schema("{ not json").unwrap_err();
    assert!(matches!(e, Error::Schema(_)));
    assert!(e.message().starts_with("Error Parsing Schema: "));
}

#[test]
fn policy_set_parses_and_validates() {
    let schema = get_schema(SCHEMA_SRC).unwrap();
    assert!(get_policy_set(&schema, POLICY_SRC).is_ok());
}

#[test]
fn policy_set_rejects_bad_text() {
    let schema = get_schema(SCHEMA_SRC).unwrap();
    let e = get_policy_set(&schema, "permit(").unwrap_err();
    assert!(matches!(e, Error::Policy(_)));
    assert!(e.message().starts_with("Error Parsing PolicySet: "));
}

#[test]
fn policy_set_fails_validation() {
    let schema = get_schema(SCHEMA_SRC).unwrap();
    let bad = r#"permit(
        principal in Kubernetes::Role::"admin",
        action == Kubernetes::Action::"delete",
        resource
    );"#;
    let e = get_policy_set(&schema, bad).unwrap_err();
    assert!(matches!(e, Error::Validation(_)));
    assert!(e.message().starts_with("Validation Failed: "));
}

#[test]
fn decision_mapping() {
    assert!(decision_to_result(true, "d".to_string()).is_ok());
    let e = decision_to_result(false, "d".to_string()).unwrap_err();
    assert!(matches!(&e, Error::AuthDenied(s) if s == "d"));
}

#[test]
fn admin_is_allowed() {
    let alice = user_entity(&find_user_by_id("Alice").unwrap()).unwrap();
    let nginx = pod_entity(&find_pod_by_id("nginx-pod").unwrap()).unwrap();
    let r = is_authorized(&alice, "get", &nginx, SCHEMA_SRC, POLICY_SRC);
    assert!(r.is_ok());
}

#[test]
fn viewer_is_denied() {
    let bob = user_entity(&find_user_by_id("Bob").unwrap()).unwrap();
    let nginx = pod_entity(&find_pod_by_id("nginx-pod").unwrap()).unwrap();
    let e = is_authorized(&bob, "get", &nginx, SCHEMA_SRC, POLICY_SRC).unwrap_err();
    assert!(matches!(e, Error::AuthDenied(_)));
    assert_eq!(e.message(), "Authorization Denied");
}

#[test]
fn authorization_reports_schema_error() {
    let alice = user_entity(&find_user_by_id("Alice").unwrap()).unwrap();
    let nginx = pod_entity(&find_pod_by_id("nginx-pod").unwrap()).unwrap();
    let e = is_authorized(&alice, "get", &nginx, "nonsense", POLICY_SRC).unwrap_err();
    assert!(matches!(e, Error::Schema(_)));
}

#[test]
fn authorization_reports_policy_error() {
    let alice = user_entity(&find_user_by_id("Alice").unwrap()).unwrap();
    let nginx = pod_entity(&find_pod_by_id("nginx-pod").unwrap()).unwrap();
    let e = is_authorized(&alice, "get", &nginx, SCHEMA_SRC, "forbid").unwrap_err();
    assert!(matches!(e, Error::Policy(_)));
}
