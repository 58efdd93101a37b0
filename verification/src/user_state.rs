//! Derivation of the per-request identity view from the session's user.

use vstd::prelude::*;
use crate::models::{User, UserState};

verus! {

/// Derives the identity view every page consults from the user the
/// session currently holds, with all-false defaults for an anonymous
/// request. Needs nothing beyond what the session already resolved.
pub fn extract_user_state(user: Option<&User>) -> (s: UserState)
    ensures
        match user {
            Some(u) => s.is_authenticated && s.logged_in && s.username@ == u.username@ && s.is_admin
                == u.is_admin,
            None => !s.is_authenticated && !s.logged_in && !s.is_admin && s.username@.len() == 0,
        },
{
    match user {
        Some(u) => UserState::new(true, u.username.clone(), u.is_admin),
        None => UserState::default(),
    }
}

} // verus!
