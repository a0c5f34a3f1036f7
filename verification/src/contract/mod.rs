use vstd::prelude::*;
use crate::ids::{AccountId, Hash32, KeyEq};
use crate::table::Table;
use crate::types::{
    AccountVector, Action, Error, ActionView, AccountRewardedMessaging, GroupDetails, GroupDetailsView, HashVector,
    ListMessageDetails, ListMessageDetailsView, MessageDetails, MessageDetailsView, OpenListDetails,
    OpenListDetailsView, PaidMessageDetails, PaidMessageDetailsView, RewardSettings, Settings, SettingsView,
};

mod accounts;
mod private;
mod groups;
mod lists;
mod paid;
mod rewards;
mod queries;

pub use accounts::{allow_account_step, block_account_step, disallow_account_step, unblock_account_step, update_settings_step};
pub use private::{delete_all_messages_to_account_step, delete_single_message_to_account_step, private_message_stored, send_private_message_step};
pub use groups::{
    delete_all_messages_to_group_step, delete_single_message_to_group_step, group_made, group_message_stored,
    group_without_owner, join_a_group_step, new_group_events, leave_a_group_step, make_a_new_group_step, send_message_to_group_step,
    update_group_settings_step,
};
pub use lists::{
    delete_an_open_list_step, delete_single_message_to_list_step, join_an_open_list_step, list_made,
    list_message_stored, make_a_new_list_step, new_list_events, send_message_to_list_step,
    unsubscribe_from_open_list_step,
};
pub use paid::{
    bids_of, first_lowest, get_my_paid_inbox_step, is_first_lowest, paid_inbox_contents, paid_message_stored,
    send_paid_message_step, total_bids,
};
pub use queries::{
    conversation_with, group_found, group_inbox, group_public, groups_details_of, groups_found, inbox_groups_of,
    inbox_lists_of, inbox_of, list_found, list_inbox, list_messages_in, lists_found, messages_of,
    owned_lists_details_of, subscribed_lists_details_of,
};
pub use rewards::{add_reward_balance_step, set_reward_root_step, set_reward_step, shut_down_reward_step};

verus! {

/// The contract's state.
#[derive(Clone)]
pub struct ContractStorage {
    account_settings: Table<AccountId, Settings>,
    account_allowed: Table<AccountId, AccountVector>,
    account_blocked_accounts: Table<AccountId, AccountVector>,
    account_subscribed_groups: Table<AccountId, HashVector>,
    account_owned_open_lists: Table<AccountId, HashVector>,
    account_paid_inbox: Table<AccountId, HashVector>,
    account_subscribed_lists: Table<AccountId, HashVector>,
    sent_messages_to_account: Table<(AccountId, AccountId), HashVector>,
    sent_messages_to_list: Table<Hash32, HashVector>,
    sent_messages_to_group: Table<(AccountId, Hash32), HashVector>,
    all_messages_to_group: Table<Hash32, HashVector>,
    message_details: Table<Hash32, MessageDetails>,
    list_message_details: Table<Hash32, ListMessageDetails>,
    paid_message_details: Table<Hash32, PaidMessageDetails>,
    group_message_details: Table<Hash32, ListMessageDetails>,
    open_list_details: Table<Hash32, OpenListDetails>,
    group_details: Table<Hash32, GroupDetails>,
    open_lists: Vec<Hash32>,
    groups: Vec<Hash32>,
    username_map: Table<Vec<u8>, AccountId>,
    reward: RewardSettings,
}

/// The contract's state as mathematical values.
#[verifier::ext_equal]
pub struct StorageView {
    /// Each account's settings.
    pub account_settings: Map<AccountId, SettingsView>,
    /// The accounts that each account allows to message it.
    pub account_allowed: Map<AccountId, Seq<AccountId>>,
    /// The accounts that each account blocks from its paid inbox.
    pub account_blocked_accounts: Map<AccountId, Seq<AccountId>>,
    /// The groups that each account subscribes to.
    pub account_subscribed_groups: Map<AccountId, Seq<Hash32>>,
    /// The lists that each account owns.
    pub account_owned_open_lists: Map<AccountId, Seq<Hash32>>,
    /// The messages in each account's paid inbox.
    pub account_paid_inbox: Map<AccountId, Seq<Hash32>>,
    /// The lists that each account subscribes to.
    pub account_subscribed_lists: Map<AccountId, Seq<Hash32>>,
    /// The messages from one account to another, oldest first.
    pub sent_messages_to_account: Map<(AccountId, AccountId), Seq<Hash32>>,
    /// The messages sent to each list, oldest first.
    pub sent_messages_to_list: Map<Hash32, Seq<Hash32>>,
    /// The messages from an account to a group, oldest first.
    pub sent_messages_to_group: Map<(AccountId, Hash32), Seq<Hash32>>,
    /// The messages sent to each group, oldest first.
    pub all_messages_to_group: Map<Hash32, Seq<Hash32>>,
    pub message_details: Map<Hash32, MessageDetailsView>,
    pub list_message_details: Map<Hash32, ListMessageDetailsView>,
    pub paid_message_details: Map<Hash32, PaidMessageDetailsView>,
    pub group_message_details: Map<Hash32, ListMessageDetailsView>,
    pub open_list_details: Map<Hash32, OpenListDetailsView>,
    pub group_details: Map<Hash32, GroupDetailsView>,
    /// Every list ever made, in the order they were made.
    pub open_lists: Seq<Hash32>,
    /// Every group ever made, in the order they were made.
    pub groups: Seq<Hash32>,
    /// The account that owns each username.
    pub username_map: Map<Seq<u8>, AccountId>,
    pub reward: RewardSettings,
}

/// The value at `k`, or `d` where `m` has none.
pub open spec fn lookup<K, V>(m: Map<K, V>, k: K, d: V) -> V {
    if m.contains_key(k) {
        m[k]
    } else {
        d
    }
}

/// What an operation does: the next state and the actions to carry out, or
/// the error with which it refuses.
pub type Step = Result<(StorageView, Seq<ActionView>), Error>;

/// The state after a step: the new one if it succeeded, else the old one.
pub open spec fn next_state(old: StorageView, step: Step) -> StorageView {
    match step {
        Ok((s, _)) => s,
        Err(_) => old,
    }
}

/// What a step answers: its actions, or its error.
pub open spec fn step_answer(step: Step) -> Result<Seq<ActionView>, Error> {
    match step {
        Ok((_, a)) => Ok(a),
        Err(e) => Err(e),
    }
}

/// The view of what an operation answered.
pub open spec fn answer_view(r: Result<Vec<Action>, Error>) -> Result<Seq<ActionView>, Error> {
    match r {
        Ok(a) => Ok(crate::types::actions_view(a@)),
        Err(e) => Err(e),
    }
}

impl View for ContractStorage {
    type V = StorageView;

    closed spec fn view(&self) -> StorageView {
        StorageView {
            account_settings: self.account_settings@,
            account_allowed: self.account_allowed@,
            account_blocked_accounts: self.account_blocked_accounts@,
            account_subscribed_groups: self.account_subscribed_groups@,
            account_owned_open_lists: self.account_owned_open_lists@,
            account_paid_inbox: self.account_paid_inbox@,
            account_subscribed_lists: self.account_subscribed_lists@,
            sent_messages_to_account: self.sent_messages_to_account@,
            sent_messages_to_list: self.sent_messages_to_list@,
            sent_messages_to_group: self.sent_messages_to_group@,
            all_messages_to_group: self.all_messages_to_group@,
            message_details: self.message_details@,
            list_message_details: self.list_message_details@,
            paid_message_details: self.paid_message_details@,
            group_message_details: self.group_message_details@,
            open_list_details: self.open_list_details@,
            group_details: self.group_details@,
            open_lists: self.open_lists@,
            groups: self.groups@,
            username_map: self.username_map@,
            reward: self.reward,
        }
    }
}

/// The hashes stored at `k`, or none.
fn hashes_at<K: KeyEq>(t: &Table<K, HashVector>, k: &K) -> (r: Vec<Hash32>)
    requires
        t.wf(),
    ensures
        r@ == lookup(t@, k@, Seq::empty()),
{
    match t.get(k) {
        Some(v) => crate::types::copy_hashes(&v.hashvector),
        None => Vec::new(),
    }
}

/// The accounts stored at `k`, or none.
fn accounts_at<K: KeyEq>(t: &Table<K, AccountVector>, k: &K) -> (r: Vec<AccountId>)
    requires
        t.wf(),
    ensures
        r@ == lookup(t@, k@, Seq::empty()),
{
    match t.get(k) {
        Some(v) => crate::types::copy_accounts(&v.accountvector),
        None => Vec::new(),
    }
}

/// Removes every id of `ids` from the table.
fn remove_ids<V: View>(t: &mut Table<Hash32, V>, ids: &Vec<Hash32>)
    requires
        old(t).wf(),
    ensures
        final(t).wf(),
        final(t)@ == old(t)@.remove_keys(ids@.to_set()),
{
    let ghost start = t@;
    let mut i: usize = 0;
    while i < ids.len()
        invariant
            t.wf(),
            0 <= i <= ids@.len(),
            t@ == start.remove_keys(ids@.take(i as int).to_set()),
        decreases ids@.len() - i,
    {
        t.remove(&ids[i]);
        assert(ids@.take(i + 1).to_set() =~= ids@.take(i as int).to_set().insert(ids@[i as int])) by {
            assert(ids@.take(i + 1) =~= ids@.take(i as int).push(ids@[i as int]));
            ids@.take(i as int).lemma_push_to_set_commute(ids@[i as int]);
        }
        assert(t@ =~= start.remove_keys(ids@.take(i + 1).to_set()));
        i = i + 1;
    }
    assert(ids@.take(ids@.len() as int) =~= ids@);
}

/// `x + 1`, wrapping to 0 past the largest `u128`.
pub open spec fn wrapping_inc(x: u128) -> u128 {
    if x == u128::MAX {
        0
    } else {
        (x + 1) as u128
    }
}

/// `x + y`, capped at the largest `u128`.
pub open spec fn sat_add(x: u128, y: u128) -> u128 {
    if x + y > u128::MAX {
        u128::MAX
    } else {
        (x + y) as u128
    }
}

/// `x - y`, floored at 0.
pub open spec fn sat_sub(x: u128, y: u128) -> u128 {
    if x < y {
        0
    } else {
        (x - y) as u128
    }
}

/// Whether the claim that brings the counter to `counter` earns the reward.
pub open spec fn reward_due(r: RewardSettings, counter: u128, balance: u128) -> bool {
    &&& r.reward_on == 1
    &&& r.reward_balance > r.reward_amount
    &&& balance > sat_add(r.reward_amount, 10)
    &&& r.reward_interval != 0
    &&& counter % r.reward_interval == 0
}

/// The reward program after one more claim by `caller`, when the contract
/// holds `balance`: the counter goes up by one, and every `reward_interval`-th
/// claim is paid `reward_amount` while the program is on and funded.
pub open spec fn reward_claim(r: RewardSettings, caller: AccountId, balance: u128) -> (RewardSettings, Seq<ActionView>) {
    let counter = wrapping_inc(r.claim_counter);
    if reward_due(r, counter, balance) {
        (
            RewardSettings {
                claim_counter: counter,
                reward_balance: (r.reward_balance - r.reward_amount) as u128,
                reward_payouts: sat_add(r.reward_payouts, r.reward_amount),
                ..r
            },
            seq![
                ActionView::Transfer { to: caller, amount: r.reward_amount },
                ActionView::AccountRewardedMessaging { claimant: caller, reward: r.reward_amount },
            ],
        )
    } else {
        (RewardSettings { claim_counter: counter, ..r }, Seq::empty())
    }
}

/// A state after a claim of the reward program: the state with the reward
/// program updated, and the actions that the claim adds.
pub open spec fn after_claim(s: StorageView, caller: AccountId, balance: u128, actions: Seq<ActionView>) -> (StorageView, Seq<ActionView>) {
    let (r, paid) = reward_claim(s.reward, caller, balance);
    (StorageView { reward: r, ..s }, actions + paid)
}

impl ContractStorage {
    /// Every table holds distinct keys.
    pub closed spec fn wf(&self) -> bool {
        &&& self.account_settings.wf()
        &&& self.account_allowed.wf()
        &&& self.account_blocked_accounts.wf()
        &&& self.account_subscribed_groups.wf()
        &&& self.account_owned_open_lists.wf()
        &&& self.account_paid_inbox.wf()
        &&& self.account_subscribed_lists.wf()
        &&& self.sent_messages_to_account.wf()
        &&& self.sent_messages_to_list.wf()
        &&& self.sent_messages_to_group.wf()
        &&& self.all_messages_to_group.wf()
        &&& self.message_details.wf()
        &&& self.list_message_details.wf()
        &&& self.paid_message_details.wf()
        &&& self.group_message_details.wf()
        &&& self.open_list_details.wf()
        &&& self.group_details.wf()
        &&& self.username_map.wf()
    }

    /// The state of a new contract: nothing stored, the reward program off,
    /// with no root and an interval of one million claims.
    pub fn new() -> (s: ContractStorage)
        ensures
            s.wf(),
            s@ == StorageView::initial(),
    {
        let s = ContractStorage {
            account_settings: Table::new(),
            account_allowed: Table::new(),
            account_blocked_accounts: Table::new(),
            account_subscribed_groups: Table::new(),
            account_owned_open_lists: Table::new(),
            account_paid_inbox: Table::new(),
            account_subscribed_lists: Table::new(),
            sent_messages_to_account: Table::new(),
            sent_messages_to_list: Table::new(),
            sent_messages_to_group: Table::new(),
            all_messages_to_group: Table::new(),
            message_details: Table::new(),
            list_message_details: Table::new(),
            paid_message_details: Table::new(),
            group_message_details: Table::new(),
            open_list_details: Table::new(),
            group_details: Table::new(),
            open_lists: Vec::new(),
            groups: Vec::new(),
            username_map: Table::new(),
            reward: RewardSettings {
                reward_on: 0,
                reward_root_set: 0,
                reward_root: AccountId::zero(),
                reward_interval: 1000000,
                reward_amount: 0,
                reward_balance: 0,
                reward_payouts: 0,
                claim_counter: 0,
            },
        };
        assert(s@ =~= StorageView::initial());
        s
    }

    /// The username of `a`, or the empty one.
    fn username_of(&self, a: &AccountId) -> (r: Vec<u8>)
        requires
            self.wf(),
        ensures
            r@ == self@.settings_of(*a).username,
    {
        match self.account_settings.get(a) {
            Some(settings) => crate::types::copy_bytes(&settings.username),
            None => Vec::new(),
        }
    }

    /// One more claim of the reward program by `caller`; the actions it adds
    /// go at the end of `actions`.
    fn claim_reward(&mut self, caller: AccountId, balance: u128, actions: &mut Vec<Action>)
        ensures
            final(self).wf() == old(self).wf(),
            (final(self)@, crate::types::actions_view(final(actions)@))
                == after_claim(old(self)@, caller, balance, crate::types::actions_view(old(actions)@)),
    {
        let ghost old_actions = actions@;
        let counter = self.reward.claim_counter.wrapping_add(1);
        let amount = self.reward.reward_amount;
        let min = amount.saturating_add(10);
        if self.reward.reward_on == 1 && self.reward.reward_balance > amount && balance > min
            && self.reward.reward_interval != 0 && counter % self.reward.reward_interval == 0 {
            self.reward.claim_counter = counter;
            self.reward.reward_balance = self.reward.reward_balance - amount;
            self.reward.reward_payouts = self.reward.reward_payouts.saturating_add(amount);
            actions.push(Action::Transfer { to: caller, amount });
            actions.push(Action::AccountRewardedMessaging(AccountRewardedMessaging { claimant: caller, reward: amount }));
        } else {
            self.reward.claim_counter = counter;
        }
        assert(crate::types::actions_view(actions@) =~= after_claim(old(self)@, caller, balance, crate::types::actions_view(old_actions)).1);
    }
}

impl StorageView {
    /// This state with the reward program replaced.
    pub open spec fn with_reward(self, reward: RewardSettings) -> StorageView {
        StorageView { reward, ..self }
    }

    pub open spec fn initial() -> StorageView {
        StorageView {
            account_settings: Map::empty(),
            account_allowed: Map::empty(),
            account_blocked_accounts: Map::empty(),
            account_subscribed_groups: Map::empty(),
            account_owned_open_lists: Map::empty(),
            account_paid_inbox: Map::empty(),
            account_subscribed_lists: Map::empty(),
            sent_messages_to_account: Map::empty(),
            sent_messages_to_list: Map::empty(),
            sent_messages_to_group: Map::empty(),
            all_messages_to_group: Map::empty(),
            message_details: Map::empty(),
            list_message_details: Map::empty(),
            paid_message_details: Map::empty(),
            group_message_details: Map::empty(),
            open_list_details: Map::empty(),
            group_details: Map::empty(),
            open_lists: Seq::empty(),
            groups: Seq::empty(),
            username_map: Map::empty(),
            reward: RewardSettings {
                reward_on: 0,
                reward_root_set: 0,
                reward_root: AccountId::spec_zero(),
                reward_interval: 1000000,
                reward_amount: 0,
                reward_balance: 0,
                reward_payouts: 0,
                claim_counter: 0,
            },
        }
    }

    /// The settings of `a`, or the default ones.
    pub open spec fn settings_of(self, a: AccountId) -> SettingsView {
        lookup(self.account_settings, a, SettingsView::default_view())
    }

    pub open spec fn allowed_of(self, a: AccountId) -> Seq<AccountId> {
        lookup(self.account_allowed, a, Seq::empty())
    }

    pub open spec fn blocked_of(self, a: AccountId) -> Seq<AccountId> {
        lookup(self.account_blocked_accounts, a, Seq::empty())
    }

    pub open spec fn groups_of(self, a: AccountId) -> Seq<Hash32> {
        lookup(self.account_subscribed_groups, a, Seq::empty())
    }

    pub open spec fn owned_lists_of(self, a: AccountId) -> Seq<Hash32> {
        lookup(self.account_owned_open_lists, a, Seq::empty())
    }

    pub open spec fn paid_inbox_of(self, a: AccountId) -> Seq<Hash32> {
        lookup(self.account_paid_inbox, a, Seq::empty())
    }

    pub open spec fn lists_of(self, a: AccountId) -> Seq<Hash32> {
        lookup(self.account_subscribed_lists, a, Seq::empty())
    }

    pub open spec fn sent_to_account(self, from: AccountId, to: AccountId) -> Seq<Hash32> {
        lookup(self.sent_messages_to_account, (from, to), Seq::empty())
    }

    pub open spec fn sent_to_list(self, list: Hash32) -> Seq<Hash32> {
        lookup(self.sent_messages_to_list, list, Seq::empty())
    }

    pub open spec fn sent_to_group(self, from: AccountId, group: Hash32) -> Seq<Hash32> {
        lookup(self.sent_messages_to_group, (from, group), Seq::empty())
    }

    pub open spec fn all_to_group(self, group: Hash32) -> Seq<Hash32> {
        lookup(self.all_messages_to_group, group, Seq::empty())
    }

    pub open spec fn message_of(self, id: Hash32) -> MessageDetailsView {
        lookup(self.message_details, id, MessageDetailsView::default_view())
    }

    pub open spec fn list_message_of(self, id: Hash32) -> ListMessageDetailsView {
        lookup(self.list_message_details, id, ListMessageDetailsView::default_view())
    }

    pub open spec fn paid_message_of(self, id: Hash32) -> PaidMessageDetailsView {
        lookup(self.paid_message_details, id, PaidMessageDetailsView::default_view())
    }

    pub open spec fn group_message_of(self, id: Hash32) -> ListMessageDetailsView {
        lookup(self.group_message_details, id, ListMessageDetailsView::default_view())
    }

    pub open spec fn list_of(self, id: Hash32) -> OpenListDetailsView {
        lookup(self.open_list_details, id, OpenListDetailsView::default_view())
    }

    pub open spec fn group_of(self, id: Hash32) -> GroupDetailsView {
        lookup(self.group_details, id, GroupDetailsView::default_view())
    }
}

} // verus!
