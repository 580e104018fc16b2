//! The signed-in user, as the accounts service describes them.
use vstd::prelude::*;

verus! {

/// The signed-in user's account.
pub struct SystemUser {
    pub username: String,
    pub real_name: String,
    pub icon_file: String,
    pub account_type: i32,
    pub uid: u64,
}

impl SystemUser {
    /// A copy of the account.
    pub fn duplicate(&self) -> (r: SystemUser)
        ensures
            r == *self,
    {
        SystemUser {
            username: self.username.clone(),
            real_name: self.real_name.clone(),
            icon_file: self.icon_file.clone(),
            account_type: self.account_type,
            uid: self.uid,
        }
    }

    /// The user id as the accounts service's `FindUserById` takes it: the
    /// 64-bit pattern of `uid` read as a signed number.
    pub fn account_lookup_id(uid: u64) -> (r: i64)
        ensures
            r == uid as i64,
    {
        #[verifier::truncate] (uid as i64)
    }
}

} // verus!
