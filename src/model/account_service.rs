//! BMC user accounts.
use vstd::prelude::*;

verus! {

/// A BMC user account. Two accounts are the same account when their ids agree.
#[derive(Clone, Debug)]
pub struct ManagerAccount {
    pub id: String,
    pub username: String,
    pub name: String,
    pub description: String,
    pub role_id: String,
    pub enabled: bool,
    pub locked: bool,
}

impl PartialEq for ManagerAccount {
    fn eq(&self, other: &ManagerAccount) -> (r: bool)
        ensures
            r == (self.id@ == other.id@),
    {
        self.id == other.id
    }
}

impl vstd::std_specs::cmp::PartialEqSpecImpl for ManagerAccount {
    open spec fn obeys_eq_spec() -> bool {
        true
    }

    open spec fn eq_spec(&self, other: &ManagerAccount) -> bool {
        self.id@ == other.id@
    }
}

/// The role of an account.
#[derive(Clone, Copy, Debug, PartialEq, Eq, Structural)]
pub enum RoleId {
    Administrator,
    Operator,
    ReadOnly,
    NoAccess,
}

} // verus!
