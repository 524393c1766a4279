//! Permission levels of a database user, parsed from a case-sensitive string.

use vstd::prelude::*;

verus! {

/// The closed set of permission levels a user can hold.
#[derive(Debug, Clone, Copy, PartialEq, Eq)]
pub enum UserPermission {
    Read,
    Write,
    ReadAndWrite,
    Admin,
}

/// The permission level a string denotes, or `None` for any string outside
/// the four case-sensitive spellings.
pub open spec fn permission_of(s: Seq<char>) -> Option<UserPermission> {
    if s == "read"@ {
        Some(UserPermission::Read)
    } else if s == "write"@ {
        Some(UserPermission::Write)
    } else if s == "read_and_write"@ {
        Some(UserPermission::ReadAndWrite)
    } else if s == "admin"@ {
        Some(UserPermission::Admin)
    } else {
        None
    }
}

/// True exactly when the two string slices hold the same characters.
pub(crate) fn str_eq(a: &str, b: &str) -> (r: bool)
    ensures
        r == (a@ == b@),
{
    let left = String::from_str(a);
    let right = String::from_str(b);
    left == right
}

impl UserPermission {
    /// Parse a case-sensitive permission-level string.
    pub fn from_str(s: &str) -> (r: Option<UserPermission>)
        ensures
            r == permission_of(s@),
    {
        if str_eq(s, "read") {
            Some(UserPermission::Read)
        } else if str_eq(s, "write") {
            Some(UserPermission::Write)
        } else if str_eq(s, "read_and_write") {
            Some(UserPermission::ReadAndWrite)
        } else if str_eq(s, "admin") {
            Some(UserPermission::Admin)
        } else {
            None
        }
    }
}

} // verus!
