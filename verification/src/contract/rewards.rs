use vstd::prelude::*;
use crate::ids::{AccountId, IdEq};
use crate::types::{no_actions, Action, ActionView, CallContext, Error, RewardSettings};
use super::{answer_view, next_state, sat_add, sat_sub, step_answer, ContractStorage, Step, StorageView};

verus! {

/// Setting the reward program's root: allowed while no root is set, and to
/// the root afterwards.
pub open spec fn set_reward_root_step(s: StorageView, caller: AccountId, newroot: AccountId) -> Step {
    if s.reward.reward_root_set != 1 || s.reward.reward_root == caller {
        Ok((s.with_reward(RewardSettings { reward_root: newroot, reward_root_set: 1, ..s.reward }), Seq::empty()))
    } else {
        Err(Error::PermissionDenied)
    }
}

/// Setting whether the program is on (1), its interval and its amount: only the root may.
pub open spec fn set_reward_step(s: StorageView, caller: AccountId, on: u8, interval: u128, amount: u128) -> Step {
    if s.reward.reward_root == caller {
        Ok((
            s.with_reward(RewardSettings { reward_on: on, reward_interval: interval, reward_amount: amount, ..s.reward }),
            Seq::empty(),
        ))
    } else {
        Err(Error::PermissionDenied)
    }
}

/// Funding the program with the value sent: only the root may.
pub open spec fn add_reward_balance_step(s: StorageView, ctx: CallContext) -> Step {
    if s.reward.reward_root == ctx.caller {
        Ok((
            s.with_reward(RewardSettings {
                reward_balance: sat_add(s.reward.reward_balance, ctx.transferred_value),
                ..s.reward
            }),
            Seq::empty(),
        ))
    } else {
        Err(Error::PermissionDenied)
    }
}

/// Shutting the program down: only the root may, while the contract holds
/// more than 10 and the program has a balance. The program is turned off, its
/// coin is taken back from it (its balance becomes 0), and the root is paid
/// that balance less 10.
pub open spec fn shut_down_reward_step(s: StorageView, ctx: CallContext) -> Step {
    if s.reward.reward_root != ctx.caller {
        Err(Error::PermissionDenied)
    } else if !(ctx.balance > 10 && s.reward.reward_balance > 0) {
        Err(Error::ZeroBalance)
    } else {
        Ok((
            s.with_reward(RewardSettings { reward_on: 0, reward_balance: 0, ..s.reward }),
            seq![ActionView::Transfer { to: ctx.caller, amount: sat_sub(s.reward.reward_balance, 10) }],
        ))
    }
}

impl ContractStorage {
    /// Sets the root of the reward program to `newroot`.
    pub fn set_reward_root(&mut self, caller: AccountId, newroot: AccountId) -> (r: Result<Vec<Action>, Error>)
        requires
            old(self).wf(),
        ensures
            final(self).wf(),
            answer_view(r) == step_answer(set_reward_root_step(old(self)@, caller, newroot)),
            final(self)@ == next_state(old(self)@, set_reward_root_step(old(self)@, caller, newroot)),
    {
        if self.reward.reward_root_set != 1 || self.reward.reward_root.id_eq(&caller) {
            let ghost s = self@;
            self.reward.reward_root = newroot;
            self.reward.reward_root_set = 1;
            assert(self@ =~= next_state(s, set_reward_root_step(s, caller, newroot)));
            Ok(no_actions())
        } else {
            Err(Error::PermissionDenied)
        }
    }

    /// Sets whether the reward program is on (1), and its interval and amount.
    pub fn set_reward(&mut self, caller: AccountId, on: u8, interval: u128, amount: u128) -> (r: Result<Vec<Action>, Error>)
        requires
            old(self).wf(),
        ensures
            final(self).wf(),
            answer_view(r) == step_answer(set_reward_step(old(self)@, caller, on, interval, amount)),
            final(self)@ == next_state(old(self)@, set_reward_step(old(self)@, caller, on, interval, amount)),
    {
        if self.reward.reward_root.id_eq(&caller) {
            let ghost s = self@;
            self.reward.reward_on = on;
            self.reward.reward_interval = interval;
            self.reward.reward_amount = amount;
            assert(self@ =~= next_state(s, set_reward_step(s, caller, on, interval, amount)));
            Ok(no_actions())
        } else {
            Err(Error::PermissionDenied)
        }
    }

    /// Adds the value sent with the call to the reward program's balance.
    pub fn add_reward_balance(&mut self, ctx: &CallContext) -> (r: Result<Vec<Action>, Error>)
        requires
            old(self).wf(),
        ensures
            final(self).wf(),
            answer_view(r) == step_answer(add_reward_balance_step(old(self)@, *ctx)),
            final(self)@ == next_state(old(self)@, add_reward_balance_step(old(self)@, *ctx)),
    {
        if self.reward.reward_root.id_eq(&ctx.caller) {
            let ghost s = self@;
            self.reward.reward_balance = self.reward.reward_balance.saturating_add(ctx.transferred_value);
            assert(self@ =~= next_state(s, add_reward_balance_step(s, *ctx)));
            Ok(no_actions())
        } else {
            Err(Error::PermissionDenied)
        }
    }

    /// Turns the reward program off and takes its balance back, paying it,
    /// less 10, to the root.
    pub fn shut_down_reward(&mut self, ctx: &CallContext) -> (r: Result<Vec<Action>, Error>)
        requires
            old(self).wf(),
        ensures
            final(self).wf(),
            answer_view(r) == step_answer(shut_down_reward_step(old(self)@, *ctx)),
            final(self)@ == next_state(old(self)@, shut_down_reward_step(old(self)@, *ctx)),
    {
        if !self.reward.reward_root.id_eq(&ctx.caller) {
            return Err(Error::PermissionDenied);
        }
        if !(ctx.balance > 10 && self.reward.reward_balance > 0) {
            return Err(Error::ZeroBalance);
        }
        let ghost s = self@;
        let payout = self.reward.reward_balance.saturating_sub(10);
        self.reward.reward_on = 0;
        self.reward.reward_balance = 0;
        let mut actions = no_actions();
        actions.push(Action::Transfer { to: ctx.caller, amount: payout });
        assert(crate::types::actions_view(actions@) =~= step_answer(shut_down_reward_step(s, *ctx))->Ok_0);
        assert(self@ =~= next_state(s, shut_down_reward_step(s, *ctx)));
        Ok(actions)
    }

    /// The reward program's settings, to its root; the default settings to anyone else.
    pub fn get_reward_settings(&self, caller: AccountId) -> (r: RewardSettings)
        requires
            self.wf(),
        ensures
            r == (if self@.reward.reward_root == caller {
                self@.reward
            } else {
                RewardSettings::default_view()
            }),
    {
        if self.reward.reward_root.id_eq(&caller) {
            self.reward
        } else {
            RewardSettings::default()
        }
    }
}

} // verus!
