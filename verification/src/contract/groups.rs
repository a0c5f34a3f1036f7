use vstd::prelude::*;
use crate::hashing::{hash_name, hash_target_message, name_hash, target_message_hash};
use crate::ids::{AccountId, Hash32, IdEq};
use crate::seqs::{vec_contains, vec_without, vec_without_all, without, without_all};
use crate::types::{
    copy_bytes, no_actions, Action, ActionView, CallContext, Error, GroupDetails, GroupDetailsView, HashVector,
    ListMessageDetails, ListMessageDetailsView, NewPublicGroup,
};
use super::{
    after_claim, answer_view, hashes_at, next_state, remove_ids, sat_add, sat_sub, step_answer, ContractStorage, Step,
    StorageView,
};

verus! {

/// A new group stored: its id is the hash of its name; the caller is its
/// owner, first member and first subscriber; its first message is stored as
/// a message from the caller to the group.
pub open spec fn group_made(
    s: StorageView,
    ctx: CallContext,
    new_group_name: Seq<u8>,
    hide_from_search: bool,
    description: Seq<u8>,
    first_message: Seq<u8>,
    file_url: Seq<u8>,
) -> StorageView {
    let caller = ctx.caller;
    let group_id = name_hash(new_group_name);
    let message_id = target_message_hash(caller, group_id, first_message, ctx.block_timestamp);
    let group = GroupDetailsView {
        group_id,
        group_name: new_group_name,
        hide_from_search,
        description,
        group_accounts: seq![caller],
        subscribers: 1,
    };
    let details = ListMessageDetailsView {
        message_id,
        from_acct: caller,
        username: s.settings_of(caller).username,
        to_list_id: group_id,
        to_list_name: new_group_name,
        message: first_message,
        file_url,
        timestamp: ctx.block_timestamp,
    };
    StorageView {
        group_details: s.group_details.insert(group_id, group),
        groups: s.groups.push(group_id),
        account_subscribed_groups: s.account_subscribed_groups.insert(caller, s.groups_of(caller).push(group_id)),
        group_message_details: s.group_message_details.insert(message_id, details),
        sent_messages_to_group: s.sent_messages_to_group.insert(
            (caller, group_id),
            s.sent_to_group(caller, group_id).push(message_id),
        ),
        all_messages_to_group: s.all_messages_to_group.insert(group_id, s.all_to_group(group_id).push(message_id)),
        ..s
    }
}

/// The announcement of a new group, when it is public; the group's name
/// stands in it for the description too.
pub open spec fn new_group_events(caller: AccountId, group_id: Hash32, name: Seq<u8>, hide_from_search: bool) -> Seq<ActionView> {
    if hide_from_search {
        Seq::empty()
    } else {
        seq![ActionView::NewPublicGroup { from: caller, group_id, group_name: name, description: name }]
    }
}

/// Making a group: the caller may subscribe to at most 15 groups when making
/// one, and the name must be new. A public group is announced (with its name
/// given as its description too). Making a group is a claim of the reward
/// program.
pub open spec fn make_a_new_group_step(
    s: StorageView,
    ctx: CallContext,
    new_group_name: Seq<u8>,
    hide_from_search: bool,
    description: Seq<u8>,
    first_message: Seq<u8>,
    file_url: Seq<u8>,
) -> Step {
    let caller = ctx.caller;
    let group_id = name_hash(new_group_name);
    if new_group_name.len() > 100 || description.len() > 600 || first_message.len() > 600 || file_url.len() > 600 {
        Err(Error::DataTooLarge)
    } else if s.groups_of(caller).len() >= 15 {
        Err(Error::StorageFull)
    } else if s.group_details.contains_key(group_id) {
        Err(Error::GroupNameTaken)
    } else {
        Ok(after_claim(
            group_made(s, ctx, new_group_name, hide_from_search, description, first_message, file_url),
            caller,
            ctx.balance,
            new_group_events(caller, group_id, new_group_name, hide_from_search),
        ))
    }
}

/// Joining a group: it must exist, the caller must not be in it already and
/// may be in at most 20 groups. The group records the caller among its
/// members while it has fewer than 10, and counts one more subscriber.
/// Joining is a claim of the reward program.
pub open spec fn join_a_group_step(s: StorageView, ctx: CallContext, group_id: Hash32) -> Step {
    let caller = ctx.caller;
    let mine = s.groups_of(caller);
    if !s.group_details.contains_key(group_id) {
        Err(Error::NonexistentGroup)
    } else if mine.contains(group_id) {
        Err(Error::AlreadySubscribed)
    } else if mine.len() >= 20 {
        Err(Error::StorageFull)
    } else {
        let g = s.group_details[group_id];
        let joined = GroupDetailsView {
            group_accounts: if g.group_accounts.len() < 10 {
                g.group_accounts.push(caller)
            } else {
                g.group_accounts
            },
            subscribers: sat_add(g.subscribers, 1),
            ..g
        };
        Ok(after_claim(
            StorageView {
                account_subscribed_groups: s.account_subscribed_groups.insert(caller, mine.push(group_id)),
                group_details: s.group_details.insert(group_id, joined),
                ..s
            },
            caller,
            ctx.balance,
            Seq::empty(),
        ))
    }
}

/// A message to a group stored. At most 25 messages from one account to a
/// group are kept: past that, the sender's oldest one leaves the sender's
/// list, the group's list and the message details. At most 25 messages to a
/// group are kept: past that, the group's oldest message leaves the group's
/// list and its sender's list.
pub open spec fn group_message_stored(
    s: StorageView,
    ctx: CallContext,
    to_group_id: Hash32,
    new_message: Seq<u8>,
    file_url: Seq<u8>,
) -> StorageView {
    let caller = ctx.caller;
    let message_id = target_message_hash(caller, to_group_id, new_message, ctx.block_timestamp);
    let details = ListMessageDetailsView {
        message_id,
        from_acct: caller,
        username: s.settings_of(caller).username,
        to_list_id: to_group_id,
        to_list_name: s.group_of(to_group_id).group_name,
        message: new_message,
        file_url,
        timestamp: ctx.block_timestamp,
    };
    let mine = s.sent_to_group(caller, to_group_id);
    let s1 = if mine.len() > 24 {
        StorageView {
            all_messages_to_group: s.all_messages_to_group.insert(
                to_group_id,
                without(s.all_to_group(to_group_id), mine[0]),
            ),
            group_message_details: s.group_message_details.remove(mine[0]),
            ..s
        }
    } else {
        s
    };
    let mine_kept = if mine.len() > 24 {
        mine.drop_first()
    } else {
        mine
    };
    let all = s1.all_to_group(to_group_id);
    let s2 = if all.len() > 24 {
        let oldest = all[0];
        let oldest_from = s1.group_message_of(oldest).from_acct;
        StorageView {
            message_details: s1.message_details.remove(oldest),
            sent_messages_to_group: s1.sent_messages_to_group.insert(
                (oldest_from, to_group_id),
                without(s1.sent_to_group(oldest_from, to_group_id), oldest),
            ),
            ..s1
        }
    } else {
        s1
    };
    let all_kept = if all.len() > 24 {
        all.drop_first()
    } else {
        all
    };
    StorageView {
        sent_messages_to_group: s2.sent_messages_to_group.insert((caller, to_group_id), mine_kept.push(message_id)),
        all_messages_to_group: s2.all_messages_to_group.insert(to_group_id, all_kept.push(message_id)),
        group_message_details: s2.group_message_details.insert(message_id, details),
        ..s2
    }
}

/// Sending a message to a group: the group must exist and the caller must be
/// in it. The message is a claim of the reward program.
pub open spec fn send_message_to_group_step(
    s: StorageView,
    ctx: CallContext,
    to_group_id: Hash32,
    new_message: Seq<u8>,
    file_url: Seq<u8>,
) -> Step {
    if new_message.len() > 600 || file_url.len() > 300 {
        Err(Error::DataTooLarge)
    } else if !s.group_details.contains_key(to_group_id) || !s.groups_of(ctx.caller).contains(to_group_id) {
        Err(Error::NoSuchList)
    } else {
        Ok(after_claim(group_message_stored(s, ctx, to_group_id, new_message, file_url), ctx.caller, ctx.balance, Seq::empty()))
    }
}

/// Deleting one's own message to a group.
pub open spec fn delete_single_message_to_group_step(s: StorageView, caller: AccountId, message_id: Hash32) -> Step {
    if !s.group_message_details.contains_key(message_id) || s.group_message_details[message_id].from_acct != caller {
        Err(Error::MessageNotFound)
    } else {
        let group_id = s.group_message_details[message_id].to_list_id;
        Ok((
            StorageView {
                sent_messages_to_group: s.sent_messages_to_group.insert(
                    (caller, group_id),
                    without(s.sent_to_group(caller, group_id), message_id),
                ),
                all_messages_to_group: s.all_messages_to_group.insert(group_id, without(s.all_to_group(group_id), message_id)),
                group_message_details: s.group_message_details.remove(message_id),
                ..s
            },
            Seq::empty(),
        ))
    }
}

/// Deleting all of one's messages to an existing group.
pub open spec fn delete_all_messages_to_group_step(s: StorageView, caller: AccountId, group_id: Hash32) -> Step {
    if !s.group_details.contains_key(group_id) {
        Err(Error::NonexistentGroup)
    } else {
        let mine = s.sent_to_group(caller, group_id);
        Ok((
            StorageView {
                all_messages_to_group: s.all_messages_to_group.insert(group_id, without_all(s.all_to_group(group_id), mine)),
                group_message_details: s.group_message_details.remove_keys(mine.to_set()),
                sent_messages_to_group: s.sent_messages_to_group.remove((caller, group_id)),
                ..s
            },
            Seq::empty(),
        ))
    }
}

/// Leaving a group that the caller is in: the group loses the caller from its
/// members and counts one subscriber less.
pub open spec fn leave_a_group_step(s: StorageView, caller: AccountId, group_id: Hash32) -> Step {
    let mine = s.groups_of(caller);
    if !mine.contains(group_id) {
        Err(Error::NonexistentGroup)
    } else {
        let g = s.group_of(group_id);
        let left = GroupDetailsView {
            group_accounts: without(g.group_accounts, caller),
            subscribers: sat_sub(g.subscribers, 1),
            ..g
        };
        Ok((
            StorageView {
                account_subscribed_groups: s.account_subscribed_groups.insert(caller, without(mine, group_id)),
                group_details: s.group_details.insert(group_id, left),
                ..s
            },
            Seq::empty(),
        ))
    }
}

/// Whether updating the group's settings would find no owner: the group
/// exists and has no member left.
pub open spec fn group_without_owner(s: StorageView, group_id: Hash32) -> bool {
    s.group_details.contains_key(group_id) && s.group_details[group_id].group_accounts.len() == 0
}

/// Updating a group's settings: only its owner, the first of its members,
/// may. A public group is announced.
pub open spec fn update_group_settings_step(
    s: StorageView,
    caller: AccountId,
    group_id: Hash32,
    hide_from_search: bool,
    description: Seq<u8>,
) -> Step {
    if description.len() > 600 {
        Err(Error::DataTooLarge)
    } else if !s.group_details.contains_key(group_id) || s.group_details[group_id].group_accounts[0] != caller {
        Err(Error::NonexistentGroup)
    } else {
        let g = s.group_details[group_id];
        let events = if hide_from_search {
            Seq::empty()
        } else {
            seq![ActionView::NewPublicGroup { from: caller, group_id, group_name: g.group_name, description }]
        };
        Ok((
            StorageView {
                group_details: s.group_details.insert(
                    group_id,
                    GroupDetailsView { group_id, hide_from_search, description, ..g },
                ),
                ..s
            },
            events,
        ))
    }
}

impl ContractStorage {
    /// Makes a group named `new_group_name`, with the caller as owner, and
    /// sends it its first message.
    pub fn make_a_new_group(
        &mut self,
        ctx: &CallContext,
        new_group_name: Vec<u8>,
        hide_from_search: bool,
        description: Vec<u8>,
        first_message: Vec<u8>,
        file_url: Vec<u8>,
    ) -> (r: Result<Vec<Action>, Error>)
        requires
            old(self).wf(),
        ensures
            final(self).wf(),
            answer_view(r) == step_answer(make_a_new_group_step(
                old(self)@, *ctx, new_group_name@, hide_from_search, description@, first_message@, file_url@,
            )),
            final(self)@ == next_state(old(self)@, make_a_new_group_step(
                old(self)@, *ctx, new_group_name@, hide_from_search, description@, first_message@, file_url@,
            )),
    {
        if new_group_name.len() > 100 || description.len() > 600 || first_message.len() > 600 || file_url.len() > 600 {
            return Err(Error::DataTooLarge);
        }
        let caller = ctx.caller;
        let mut mine = hashes_at(&self.account_subscribed_groups, &caller);
        if mine.len() >= 15 {
            return Err(Error::StorageFull);
        }
        let group_id = hash_name(&new_group_name);
        if self.group_details.contains(&group_id) {
            return Err(Error::GroupNameTaken);
        }
        let ghost s = self@;
        let ghost name = new_group_name@;
        let ghost desc = description@;
        let ghost first = first_message@;
        let ghost url = file_url@;
        let name_in_message = copy_bytes(&new_group_name);
        let name_in_event = copy_bytes(&new_group_name);
        let description_in_event = copy_bytes(&new_group_name);
        let message_id = hash_target_message(&caller, &group_id, &first_message, ctx.block_timestamp);
        let username = self.username_of(&caller);
        let mut members: Vec<AccountId> = Vec::new();
        members.push(caller);
        assert(members@ =~= seq![caller]);
        self.group_details.insert(group_id, GroupDetails {
            group_id,
            group_name: new_group_name,
            hide_from_search,
            description,
            group_accounts: members,
            subscribers: 1,
        });
        self.groups.push(group_id);
        mine.push(group_id);
        self.account_subscribed_groups.insert(caller, HashVector { hashvector: mine });
        self.group_message_details.insert(message_id, ListMessageDetails {
            message_id,
            from_acct: caller,
            username,
            to_list_id: group_id,
            to_list_name: name_in_message,
            message: first_message,
            file_url,
            timestamp: ctx.block_timestamp,
        });
        let mut sent = hashes_at(&self.sent_messages_to_group, &(caller, group_id));
        sent.push(message_id);
        self.sent_messages_to_group.insert((caller, group_id), HashVector { hashvector: sent });
        let mut all = hashes_at(&self.all_messages_to_group, &group_id);
        all.push(message_id);
        self.all_messages_to_group.insert(group_id, HashVector { hashvector: all });
        let ghost expected = group_made(s, *ctx, name, hide_from_search, desc, first, url);
        assert(self@.group_details =~= expected.group_details);
        assert(self@.groups =~= expected.groups);
        assert(self@.account_subscribed_groups =~= expected.account_subscribed_groups);
        assert(self@.group_message_details =~= expected.group_message_details);
        assert(self@.sent_messages_to_group =~= expected.sent_messages_to_group);
        assert(self@.all_messages_to_group =~= expected.all_messages_to_group);
        assert(self@ =~= expected);
        let mut actions = no_actions();
        if !hide_from_search {
            actions.push(Action::NewPublicGroup(NewPublicGroup {
                from: caller,
                group_id,
                group_name: name_in_event,
                description: description_in_event,
            }));
        }
        assert(crate::types::actions_view(actions@) =~= new_group_events(caller, group_id, name, hide_from_search));
        self.claim_reward(caller, ctx.balance, &mut actions);
        Ok(actions)
    }

    /// Joins the group `group_id`.
    pub fn join_a_group(&mut self, ctx: &CallContext, group_id: Hash32) -> (r: Result<Vec<Action>, Error>)
        requires
            old(self).wf(),
        ensures
            final(self).wf(),
            answer_view(r) == step_answer(join_a_group_step(old(self)@, *ctx, group_id)),
            final(self)@ == next_state(old(self)@, join_a_group_step(old(self)@, *ctx, group_id)),
    {
        let caller = ctx.caller;
        let mut group = match self.group_details.get(&group_id) {
            Some(g) => g.copy(),
            None => {
                return Err(Error::NonexistentGroup);
            },
        };
        let mut mine = hashes_at(&self.account_subscribed_groups, &caller);
        if vec_contains(&mine, &group_id) {
            return Err(Error::AlreadySubscribed);
        }
        if mine.len() >= 20 {
            return Err(Error::StorageFull);
        }
        let ghost s = self@;
        mine.push(group_id);
        self.account_subscribed_groups.insert(caller, HashVector { hashvector: mine });
        if group.group_accounts.len() < 10 {
            group.group_accounts.push(caller);
        }
        group.subscribers = group.subscribers.saturating_add(1);
        self.group_details.insert(group_id, group);
        let mut actions = no_actions();
        assert(self@ =~= join_a_group_step(s, *ctx, group_id)->Ok_0.0.with_reward(s.reward));
        self.claim_reward(caller, ctx.balance, &mut actions);
        Ok(actions)
    }

    /// Sends a message to the group `to_group_id`, which the caller is in.
    pub fn send_message_to_group(&mut self, ctx: &CallContext, to_group_id: Hash32, new_message: Vec<u8>, file_url: Vec<u8>)
        -> (r: Result<Vec<Action>, Error>)
        requires
            old(self).wf(),
        ensures
            final(self).wf(),
            answer_view(r) == step_answer(send_message_to_group_step(old(self)@, *ctx, to_group_id, new_message@, file_url@)),
            final(self)@ == next_state(old(self)@, send_message_to_group_step(old(self)@, *ctx, to_group_id, new_message@, file_url@)),
    {
        if new_message.len() > 600 || file_url.len() > 300 {
            return Err(Error::DataTooLarge);
        }
        let caller = ctx.caller;
        let group_name = match self.group_details.get(&to_group_id) {
            Some(g) => copy_bytes(&g.group_name),
            None => {
                return Err(Error::NoSuchList);
            },
        };
        let my_groups = hashes_at(&self.account_subscribed_groups, &caller);
        if !vec_contains(&my_groups, &to_group_id) {
            return Err(Error::NoSuchList);
        }
        let ghost s = self@;
        let ghost msg = new_message@;
        let ghost url = file_url@;
        let message_id = hash_target_message(&caller, &to_group_id, &new_message, ctx.block_timestamp);
        let username = self.username_of(&caller);
        let details = ListMessageDetails {
            message_id,
            from_acct: caller,
            username,
            to_list_id: to_group_id,
            to_list_name: group_name,
            message: new_message,
            file_url,
            timestamp: ctx.block_timestamp,
        };
        let mut mine = hashes_at(&self.sent_messages_to_group, &(caller, to_group_id));
        if mine.len() > 24 {
            let oldest = mine[0];
            let all_before = hashes_at(&self.all_messages_to_group, &to_group_id);
            let all_without_oldest = vec_without(&all_before, &oldest);
            self.all_messages_to_group.insert(to_group_id, HashVector { hashvector: all_without_oldest });
            self.group_message_details.remove(&oldest);
            mine.remove(0);
            assert(mine@ =~= s.sent_to_group(caller, to_group_id).drop_first());
        }
        let ghost s1 = self@;
        let mut all = hashes_at(&self.all_messages_to_group, &to_group_id);
        if all.len() > 24 {
            let oldest = all[0];
            let oldest_from = match self.group_message_details.get(&oldest) {
                Some(d) => d.from_acct,
                None => AccountId::zero(),
            };
            all.remove(0);
            assert(all@ =~= s1.all_to_group(to_group_id).drop_first());
            self.message_details.remove(&oldest);
            let theirs = hashes_at(&self.sent_messages_to_group, &(oldest_from, to_group_id));
            let theirs_kept = vec_without(&theirs, &oldest);
            self.sent_messages_to_group.insert((oldest_from, to_group_id), HashVector { hashvector: theirs_kept });
        }
        mine.push(message_id);
        self.sent_messages_to_group.insert((caller, to_group_id), HashVector { hashvector: mine });
        all.push(message_id);
        self.all_messages_to_group.insert(to_group_id, HashVector { hashvector: all });
        self.group_message_details.insert(message_id, details);
        assert(self@ =~= group_message_stored(s, *ctx, to_group_id, msg, url));
        let mut actions = no_actions();
        self.claim_reward(caller, ctx.balance, &mut actions);
        Ok(actions)
    }

    /// Deletes one of the caller's own messages to a group.
    pub fn delete_single_message_to_group(&mut self, caller: AccountId, message_id_to_delete: Hash32)
        -> (r: Result<Vec<Action>, Error>)
        requires
            old(self).wf(),
        ensures
            final(self).wf(),
            answer_view(r) == step_answer(delete_single_message_to_group_step(old(self)@, caller, message_id_to_delete)),
            final(self)@ == next_state(old(self)@, delete_single_message_to_group_step(old(self)@, caller, message_id_to_delete)),
    {
        let (from, group_id) = match self.group_message_details.get(&message_id_to_delete) {
            Some(d) => (d.from_acct, d.to_list_id),
            None => {
                return Err(Error::MessageNotFound);
            },
        };
        if !from.id_eq(&caller) {
            return Err(Error::MessageNotFound);
        }
        let ghost s = self@;
        let mine = hashes_at(&self.sent_messages_to_group, &(caller, group_id));
        let mine_kept = vec_without(&mine, &message_id_to_delete);
        self.sent_messages_to_group.insert((caller, group_id), HashVector { hashvector: mine_kept });
        let all = hashes_at(&self.all_messages_to_group, &group_id);
        let all_kept = vec_without(&all, &message_id_to_delete);
        self.all_messages_to_group.insert(group_id, HashVector { hashvector: all_kept });
        self.group_message_details.remove(&message_id_to_delete);
        assert(self@ =~= next_state(s, delete_single_message_to_group_step(s, caller, message_id_to_delete)));
        Ok(no_actions())
    }

    /// Deletes all of the caller's messages to the group `delete_my_messages_to_group_id`.
    pub fn delete_all_messages_to_group(&mut self, caller: AccountId, delete_my_messages_to_group_id: Hash32)
        -> (r: Result<Vec<Action>, Error>)
        requires
            old(self).wf(),
        ensures
            final(self).wf(),
            answer_view(r) == step_answer(delete_all_messages_to_group_step(old(self)@, caller, delete_my_messages_to_group_id)),
            final(self)@ == next_state(old(self)@, delete_all_messages_to_group_step(old(self)@, caller, delete_my_messages_to_group_id)),
    {
        let group_id = delete_my_messages_to_group_id;
        if !self.group_details.contains(&group_id) {
            return Err(Error::NonexistentGroup);
        }
        let ghost s = self@;
        let mine = hashes_at(&self.sent_messages_to_group, &(caller, group_id));
        let all = hashes_at(&self.all_messages_to_group, &group_id);
        let all_kept = vec_without_all(&all, &mine);
        remove_ids(&mut self.group_message_details, &mine);
        self.sent_messages_to_group.remove(&(caller, group_id));
        self.all_messages_to_group.insert(group_id, HashVector { hashvector: all_kept });
        assert(self@ =~= next_state(s, delete_all_messages_to_group_step(s, caller, group_id)));
        Ok(no_actions())
    }

    /// Leaves the group `group_id_to_leave`.
    pub fn leave_a_group(&mut self, caller: AccountId, group_id_to_leave: Hash32) -> (r: Result<Vec<Action>, Error>)
        requires
            old(self).wf(),
        ensures
            final(self).wf(),
            answer_view(r) == step_answer(leave_a_group_step(old(self)@, caller, group_id_to_leave)),
            final(self)@ == next_state(old(self)@, leave_a_group_step(old(self)@, caller, group_id_to_leave)),
    {
        let mine = hashes_at(&self.account_subscribed_groups, &caller);
        if !vec_contains(&mine, &group_id_to_leave) {
            return Err(Error::NonexistentGroup);
        }
        let ghost s = self@;
        let mine_kept = vec_without(&mine, &group_id_to_leave);
        self.account_subscribed_groups.insert(caller, HashVector { hashvector: mine_kept });
        let mut group = match self.group_details.get(&group_id_to_leave) {
            Some(g) => g.copy(),
            None => GroupDetails::default(),
        };
        group.group_accounts = vec_without(&group.group_accounts, &caller);
        group.subscribers = group.subscribers.saturating_sub(1);
        self.group_details.insert(group_id_to_leave, group);
        assert(self@ =~= next_state(s, leave_a_group_step(s, caller, group_id_to_leave)));
        Ok(no_actions())
    }

    /// Whether the group `group_id` exists and has no member left, so that
    /// no one owns it.
    pub fn is_ownerless_group(&self, group_id: Hash32) -> (r: bool)
        requires
            self.wf(),
        ensures
            r == group_without_owner(self@, group_id),
    {
        match self.group_details.get(&group_id) {
            Some(g) => g.group_accounts.len() == 0,
            None => false,
        }
    }

    /// Updates the settings of the group `group_id`, which the caller owns.
    pub fn update_group_settings(&mut self, caller: AccountId, group_id: Hash32, hide_from_search: bool, description: Vec<u8>)
        -> (r: Result<Vec<Action>, Error>)
        requires
            old(self).wf(),
            description@.len() <= 600 ==> !group_without_owner(old(self)@, group_id),
        ensures
            final(self).wf(),
            answer_view(r) == step_answer(update_group_settings_step(old(self)@, caller, group_id, hide_from_search, description@)),
            final(self)@ == next_state(old(self)@, update_group_settings_step(old(self)@, caller, group_id, hide_from_search, description@)),
    {
        if description.len() > 600 {
            return Err(Error::DataTooLarge);
        }
        let group = match self.group_details.get(&group_id) {
            Some(g) => g.copy(),
            None => {
                return Err(Error::NonexistentGroup);
            },
        };
        if !group.group_accounts[0].id_eq(&caller) {
            return Err(Error::NonexistentGroup);
        }
        let ghost s = self@;
        let ghost desc = description@;
        let name_in_event = copy_bytes(&group.group_name);
        let description_in_event = copy_bytes(&description);
        self.group_details.insert(group_id, GroupDetails {
            group_id,
            group_name: group.group_name,
            hide_from_search,
            description,
            group_accounts: group.group_accounts,
            subscribers: group.subscribers,
        });
        let mut actions = no_actions();
        if !hide_from_search {
            actions.push(Action::NewPublicGroup(NewPublicGroup {
                from: caller,
                group_id,
                group_name: name_in_event,
                description: description_in_event,
            }));
        }
        assert(crate::types::actions_view(actions@) =~= step_answer(update_group_settings_step(s, caller, group_id, hide_from_search, desc))->Ok_0);
        assert(self@ =~= next_state(s, update_group_settings_step(s, caller, group_id, hide_from_search, desc)));
        Ok(actions)
    }
}

} // verus!
