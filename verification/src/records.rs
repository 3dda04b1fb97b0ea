//! The fixed in-memory records — two users and one resource — and the
//! lookups over them.
use vstd::prelude::*;

use crate::errors::Error;

verus! {

/// A principal: an id and the single role the user is a member of.
#[derive(Debug)]
pub struct User {
    pub id: String,
    pub role: String,
}

/// A role, identified by its name.
#[derive(Debug)]
pub struct Role {
    pub id: String,
}

/// A resource: a pod, identified by its name.
#[derive(Debug)]
pub struct Pod {
    pub id: String,
}

/// Compares two string slices by their character contents.
pub fn str_eq(a: &str, b: &str) -> (r: bool)
    ensures
        r == (a@ == b@),
{
    let sa: String = a.to_owned();
    let sb: String = b.to_owned();
    sa == sb
}

/// Looks a user up by id in the fixed user table: "Alice" has the role
/// "admin", "Bob" the role "viewer", and no other user exists.
pub fn find_user_by_id(id: &str) -> (r: Result<User, Error>)
    ensures
        id@ == "Alice"@ ==> (r matches Ok(u) && u.id@ == "Alice"@ && u.role@ == "admin"@),
        id@ == "Bob"@ ==> (r matches Ok(u) && u.id@ == "Bob"@ && u.role@ == "viewer"@),
        id@ != "Alice"@ && id@ != "Bob"@ ==> (r matches Err(e) && e matches Error::NoSuchRecord(s)
            && s@ == id@),
{
    proof {
        reveal_strlit("Alice");
        reveal_strlit("Bob");
        assert("Alice"@.len() == 5);
        assert("Bob"@.len() == 3);
        assert("Alice"@ != "Bob"@);
    }
    if str_eq(id, "Alice") {
        Ok(User { id: "Alice".to_owned(), role: "admin".to_owned() })
    } else if str_eq(id, "Bob") {
        Ok(User { id: "Bob".to_owned(), role: "viewer".to_owned() })
    } else {
        Err(Error::NoSuchRecord(id.to_owned()))
    }
}

/// Looks a pod up by id in the fixed resource table: only "nginx-pod"
/// exists.
pub fn find_pod_by_id(id: &str) -> (r: Result<Pod, Error>)
    ensures
        id@ == "nginx-pod"@ ==> (r matches Ok(p) && p.id@ == "nginx-pod"@),
        id@ != "nginx-pod"@ ==> (r matches Err(e) && e matches Error::NoSuchRecord(s) && s@
            == id@),
{
    if str_eq(id, "nginx-pod") {
        Ok(Pod { id: "nginx-pod".to_owned() })
    } else {
        Err(Error::NoSuchRecord(id.to_owned()))
    }
}

/// The line printed when a request is allowed.
pub open spec fn spec_greeting(principal: Seq<char>, action: Seq<char>, resource: Seq<char>) -> Seq<
    char,
> {
    "Hello "@ + principal + "! You can "@ + action + " "@ + resource + "."@
}

/// Builds the line printed when a request is allowed.
pub fn greeting(principal: &str, action: &str, resource: &str) -> (r: String)
    ensures
        r@ == spec_greeting(principal@, action@, resource@),
{
    "Hello ".to_owned().concat(principal).concat("! You can ").concat(action).concat(" ").concat(
        resource,
    ).concat(".")
}

} // verus!

