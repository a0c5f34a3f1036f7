use vstd::prelude::*;
use crate::ids::{AccountId, IdEq};
use crate::seqs::{vec_contains, vec_without, without};
use crate::types::{copy_bytes, no_actions, AccountVector, Action, ActionView, CallContext, Error, Settings, SettingsUpdated, SettingsView};
use super::{accounts_at, answer_view, next_state, step_answer, ContractStorage, Step, StorageView};

verus! {

/// Updating one's settings: the username must be free or one's own, and a day
/// (86,400,000 ms) must have passed since the last update. The username is
/// then recorded as the caller's.
pub open spec fn update_settings_step(
    s: StorageView,
    ctx: CallContext,
    username: Seq<u8>,
    interests: Seq<u8>,
    inbox_fee: u128,
    hide_from_search: bool,
) -> Step {
    let caller = ctx.caller;
    if username.len() > 100 || interests.len() > 600 {
        Err(Error::DataTooLarge)
    } else if ctx.block_timestamp - s.settings_of(caller).last_update < 86400000 {
        Err(Error::CannotUpdateInterestsWithin24Hours)
    } else if s.username_map.contains_key(username) && s.username_map[username] != caller {
        Err(Error::UsernameTaken)
    } else {
        let settings = SettingsView {
            user_account: caller,
            username,
            interests,
            inbox_fee,
            hide_from_search,
            last_update: ctx.block_timestamp,
        };
        let events = if hide_from_search {
            Seq::empty()
        } else {
            seq![ActionView::SettingsUpdated { from: caller, username, interests, inbox_fee }]
        };
        Ok((
            StorageView {
                account_settings: s.account_settings.insert(caller, settings),
                username_map: s.username_map.insert(username, caller),
                ..s
            },
            events,
        ))
    }
}

/// Allowing accounts to message the caller: the caller's list of allowed
/// accounts, with the new ones at its end, must stay under 60 long, and none
/// of the new ones may be allowed already or come twice.
pub open spec fn allow_account_step(s: StorageView, caller: AccountId, allow: Seq<AccountId>) -> Step {
    let current = s.allowed_of(caller);
    if current.len() + allow.len() >= 60 {
        Err(Error::StorageFull)
    } else if exists|j: int| 0 <= j < allow.len() && #[trigger] (current + allow.take(j)).contains(allow[j]) {
        Err(Error::DuplicateAllow)
    } else {
        Ok((StorageView { account_allowed: s.account_allowed.insert(caller, current + allow), ..s }, Seq::empty()))
    }
}

/// Disallowing an account that the caller allows.
pub open spec fn disallow_account_step(s: StorageView, caller: AccountId, disallow: AccountId) -> Step {
    let current = s.allowed_of(caller);
    if !current.contains(disallow) {
        Err(Error::AlreadyNotAllowed)
    } else {
        Ok((StorageView { account_allowed: s.account_allowed.insert(caller, without(current, disallow)), ..s }, Seq::empty()))
    }
}

/// Blocking an account from the caller's paid inbox; at most 400 are blocked.
pub open spec fn block_account_step(s: StorageView, caller: AccountId, block: AccountId) -> Step {
    let current = s.blocked_of(caller);
    if current.len() >= 400 {
        Err(Error::StorageFull)
    } else if current.contains(block) {
        Err(Error::DuplicateBlock)
    } else {
        Ok((StorageView { account_blocked_accounts: s.account_blocked_accounts.insert(caller, current.push(block)), ..s }, Seq::empty()))
    }
}

/// Unblocking an account that the caller blocks.
pub open spec fn unblock_account_step(s: StorageView, caller: AccountId, unblock: AccountId) -> Step {
    let current = s.blocked_of(caller);
    if !current.contains(unblock) {
        Err(Error::NotBlocked)
    } else {
        Ok((StorageView { account_blocked_accounts: s.account_blocked_accounts.insert(caller, without(current, unblock)), ..s }, Seq::empty()))
    }
}

impl ContractStorage {
    /// Updates the caller's settings (username, interests, inbox fee, and
    /// whether it is hidden from search), announcing them unless hidden.
    pub fn update_settings(
        &mut self,
        ctx: &CallContext,
        my_username: Vec<u8>,
        my_interests: Vec<u8>,
        my_inbox_fee: u128,
        hide_from_search: bool,
    ) -> (r: Result<Vec<Action>, Error>)
        requires
            old(self).wf(),
        ensures
            final(self).wf(),
            answer_view(r) == step_answer(
                update_settings_step(old(self)@, *ctx, my_username@, my_interests@, my_inbox_fee, hide_from_search),
            ),
            final(self)@ == next_state(
                old(self)@,
                update_settings_step(old(self)@, *ctx, my_username@, my_interests@, my_inbox_fee, hide_from_search),
            ),
    {
        if my_username.len() > 100 || my_interests.len() > 600 {
            return Err(Error::DataTooLarge);
        }
        let caller = ctx.caller;
        let last_update = match self.account_settings.get(&caller) {
            Some(current) => current.last_update,
            None => 0,
        };
        if ctx.block_timestamp.saturating_sub(last_update) < 86400000 {
            return Err(Error::CannotUpdateInterestsWithin24Hours);
        }
        let taken = match self.username_map.get(&my_username) {
            Some(owner) => !owner.id_eq(&caller),
            None => false,
        };
        if taken {
            return Err(Error::UsernameTaken);
        }
        let ghost s = self@;
        let event_username = copy_bytes(&my_username);
        let event_interests = copy_bytes(&my_interests);
        let key = copy_bytes(&my_username);
        let settings = Settings {
            user_account: caller,
            username: my_username,
            interests: my_interests,
            inbox_fee: my_inbox_fee,
            hide_from_search,
            last_update: ctx.block_timestamp,
        };
        self.account_settings.insert(caller, settings);
        self.username_map.insert(key, caller);
        let mut actions: Vec<Action> = Vec::new();
        if !hide_from_search {
            actions.push(Action::SettingsUpdated(SettingsUpdated {
                from: caller,
                username: event_username,
                interests: event_interests,
                inbox_fee: my_inbox_fee,
            }));
        }
        assert(crate::types::actions_view(actions@) =~= step_answer(
            update_settings_step(s, *ctx, event_username@, event_interests@, my_inbox_fee, hide_from_search),
        )->Ok_0);
        assert(self@ =~= next_state(s, update_settings_step(s, *ctx, event_username@, event_interests@, my_inbox_fee, hide_from_search)));
        Ok(actions)
    }

    /// Lets each of `allow` message the caller.
    pub fn allow_account(&mut self, caller: AccountId, allow: Vec<AccountId>) -> (r: Result<Vec<Action>, Error>)
        requires
            old(self).wf(),
        ensures
            final(self).wf(),
            answer_view(r) == step_answer(allow_account_step(old(self)@, caller, allow@)),
            final(self)@ == next_state(old(self)@, allow_account_step(old(self)@, caller, allow@)),
    {
        let mut current = accounts_at(&self.account_allowed, &caller);
        let ghost start = current@;
        if current.len().saturating_add(allow.len()) >= 60 {
            return Err(Error::StorageFull);
        }
        let mut i: usize = 0;
        while i < allow.len()
            invariant
                self.wf(),
                start == self@.allowed_of(caller),
                start.len() + allow@.len() < 60,
                0 <= i <= allow@.len(),
                current@ == start + allow@.take(i as int),
                forall|j: int| 0 <= j < i ==> !(#[trigger] (start + allow@.take(j)).contains(allow@[j])),
            decreases allow@.len() - i,
        {
            if vec_contains(&current, &allow[i]) {
                return Err(Error::DuplicateAllow);
            }
            current.push(allow[i]);
            assert(allow@.take(i + 1) =~= allow@.take(i as int).push(allow@[i as int]));
            i = i + 1;
        }
        assert(allow@.take(allow@.len() as int) =~= allow@);
        let ghost s = self@;
        self.account_allowed.insert(caller, AccountVector { accountvector: current });
        assert(self@ =~= next_state(s, allow_account_step(s, caller, allow@)));
        Ok(no_actions())
    }

    /// Stops letting `disallow` message the caller.
    pub fn disallow_account(&mut self, caller: AccountId, disallow: AccountId) -> (r: Result<Vec<Action>, Error>)
        requires
            old(self).wf(),
        ensures
            final(self).wf(),
            answer_view(r) == step_answer(disallow_account_step(old(self)@, caller, disallow)),
            final(self)@ == next_state(old(self)@, disallow_account_step(old(self)@, caller, disallow)),
    {
        let current = accounts_at(&self.account_allowed, &caller);
        if !vec_contains(&current, &disallow) {
            return Err(Error::AlreadyNotAllowed);
        }
        let ghost s = self@;
        let kept = vec_without(&current, &disallow);
        self.account_allowed.insert(caller, AccountVector { accountvector: kept });
        assert(self@ =~= next_state(s, disallow_account_step(s, caller, disallow)));
        Ok(no_actions())
    }

    /// Blocks `block` from the caller's paid inbox.
    pub fn block_account(&mut self, caller: AccountId, block: AccountId) -> (r: Result<Vec<Action>, Error>)
        requires
            old(self).wf(),
        ensures
            final(self).wf(),
            answer_view(r) == step_answer(block_account_step(old(self)@, caller, block)),
            final(self)@ == next_state(old(self)@, block_account_step(old(self)@, caller, block)),
    {
        let mut current = accounts_at(&self.account_blocked_accounts, &caller);
        if current.len() >= 400 {
            return Err(Error::StorageFull);
        }
        if vec_contains(&current, &block) {
            return Err(Error::DuplicateBlock);
        }
        let ghost s = self@;
        current.push(block);
        self.account_blocked_accounts.insert(caller, AccountVector { accountvector: current });
        assert(self@ =~= next_state(s, block_account_step(s, caller, block)));
        Ok(no_actions())
    }

    /// Unblocks `unblock` from the caller's paid inbox.
    pub fn unblock_account(&mut self, caller: AccountId, unblock: AccountId) -> (r: Result<Vec<Action>, Error>)
        requires
            old(self).wf(),
        ensures
            final(self).wf(),
            answer_view(r) == step_answer(unblock_account_step(old(self)@, caller, unblock)),
            final(self)@ == next_state(old(self)@, unblock_account_step(old(self)@, caller, unblock)),
    {
        let current = accounts_at(&self.account_blocked_accounts, &caller);
        if !vec_contains(&current, &unblock) {
            return Err(Error::NotBlocked);
        }
        let ghost s = self@;
        let kept = vec_without(&current, &unblock);
        self.account_blocked_accounts.insert(caller, AccountVector { accountvector: kept });
        assert(self@ =~= next_state(s, unblock_account_step(s, caller, unblock)));
        Ok(no_actions())
    }
}

} // verus!
