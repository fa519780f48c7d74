//! The process-wide registry of per-user settings, created lazily on first
//! reference: which model the user selected, and the user's rate line.

use vstd::prelude::*;

use crate::config::Models;

verus! {

/// One user's settings: the selected model and the future instant the
/// user's usage debt clears (`0` meaning unlimited).
#[derive(Clone, Copy, Debug, PartialEq, Eq, Structural)]
pub struct UserContext {
    pub user_id: u64,
    pub main_model: Models,
    pub rate_line: u64,
}

impl UserContext {
    /// A fresh user: unlimited until an administrator says otherwise, on
    /// the default model of the catalogue.
    pub fn new(user_id: u64) -> (r: UserContext)
        ensures
            r == (UserContext { user_id, main_model: Models::O4Mini, rate_line: 0u64 }),
    {
        UserContext { user_id, main_model: Models::O4Mini, rate_line: 0 }
    }
}

/// All users' settings, keyed by user identifier.
pub struct UserContexts {
    contexts: vstd::hash_map::HashMapWithView<u64, UserContext>,
}

impl View for UserContexts {
    type V = Map<u64, UserContext>;

    closed spec fn view(&self) -> Map<u64, UserContext> {
        self.contexts@
    }
}

impl UserContexts {
    /// The settings of `user_id`: the stored ones, or the fresh default.
    pub open spec fn user_of(&self, user_id: u64) -> UserContext {
        if self@.contains_key(user_id) {
            self@[user_id]
        } else {
            UserContext { user_id, main_model: Models::O4Mini, rate_line: 0 }
        }
    }

    /// An empty registry.
    pub fn new() -> (r: UserContexts)
        ensures
            r@ == Map::<u64, UserContext>::empty(),
    {
        UserContexts { contexts: vstd::hash_map::HashMapWithView::new() }
    }

    /// The settings of `user_id`, creating the user on first reference.
    pub fn get_or_create(&mut self, user_id: u64) -> (r: UserContext)
        ensures
            r == old(self).user_of(user_id),
            final(self)@ == old(self)@.insert(user_id, r),
    {
        let r = match self.contexts.get(&user_id) {
            Some(ctx) => *ctx,
            None => UserContext::new(user_id),
        };
        self.contexts.insert(user_id, r);
        r
    }

    /// Selects a model for `user_id`, creating the user if absent; the rate
    /// line is untouched.
    pub fn set_model(&mut self, user_id: u64, model: Models)
        ensures
            final(self)@ == old(self)@.insert(
                user_id,
                UserContext { main_model: model, ..old(self).user_of(user_id) },
            ),
    {
        let mut ctx = match self.contexts.get(&user_id) {
            Some(ctx) => *ctx,
            None => UserContext::new(user_id),
        };
        ctx.main_model = model;
        self.contexts.insert(user_id, ctx);
    }

    /// Stores a new rate line for `user_id`, creating the user if absent;
    /// the selected model is untouched.
    pub fn set_rate_line(&mut self, user_id: u64, rate_line: u64)
        ensures
            final(self)@ == old(self)@.insert(
                user_id,
                UserContext { rate_line, ..old(self).user_of(user_id) },
            ),
    {
        let mut ctx = match self.contexts.get(&user_id) {
            Some(ctx) => *ctx,
            None => UserContext::new(user_id),
        };
        ctx.rate_line = rate_line;
        self.contexts.insert(user_id, ctx);
    }
}

} // verus!
