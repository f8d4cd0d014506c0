use vstd::prelude::*;
use crate::model::id::RoleId;
use crate::model::id::UserId;

verus! {

/// Whom a permission overwrite applies to.
#[derive(Clone, Copy, Debug, PartialEq, Eq, Structural, Hash)]
pub enum PermissionOverwriteType {
    /// One member of the guild.
    Member(UserId),
    /// Everyone who holds a role.
    Role(RoleId),
}

/// Permissions granted to and withheld from a member or a role in one
/// channel. `allow` and `deny` are sets of permission bits.
#[derive(Clone, Copy, Debug, PartialEq, Eq, Structural, Hash)]
pub struct PermissionOverwrite {
    pub allow: u64,
    pub deny: u64,
    pub kind: PermissionOverwriteType,
}

} // verus!
