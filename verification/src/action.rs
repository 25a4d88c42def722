//! What a logged-in user can do.

use vstd::prelude::*;
use crate::user::User;

verus! {

/// The operations of a logged-in session.
#[derive(PartialEq, Eq, Structural, Clone, Copy, Debug)]
pub enum Action {
    Switch2FA,
    Logout,
}

impl Action {
    /// Applies `action` to the logged-in `user`; the result tells whether the session stays
    /// logged in.
    pub fn perform(user: &mut User, action: Action) -> (stay: bool)
        ensures
            stay == (action is Switch2FA),
            final(user)@ == (if action is Switch2FA {
                old(user)@.with_2fa(!old(user).is_2fa)
            } else {
                old(user)@
            }),
    {
        match action {
            Action::Switch2FA => {
                Action::switch_2fa(user);
                true
            },
            Action::Logout => false,
        }
    }

    /// Turns the second factor of `user` off when it is on and on when it is off; returns
    /// the new setting.
    fn switch_2fa(user: &mut User) -> (enabled: bool)
        ensures
            final(user)@ == old(user)@.with_2fa(!old(user).is_2fa),
            enabled == final(user).is_2fa,
    {
        user.is_2fa = !user.is_2fa;
        user.is_2fa
    }
}

} // verus!
