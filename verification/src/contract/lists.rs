use vstd::prelude::*;
use crate::hashing::{hash_name, hash_target_message, name_hash, target_message_hash};
use crate::ids::{AccountId, Hash32, IdEq};
use crate::seqs::{vec_contains, vec_without, without};
use crate::types::{
    copy_bytes, no_actions, Action, ActionView, CallContext, Error, HashVector, ListDeleted, ListMessageDetails,
    ListMessageDetailsView, NewPublicList, OpenListDetails, OpenListDetailsView,
};
use super::{
    after_claim, answer_view, hashes_at, remove_ids, next_state, sat_add, sat_sub, step_answer, ContractStorage, Step, StorageView,
};

verus! {

/// A message to a list stored. At most 15 messages to a list are kept: past
/// that, the oldest one leaves the list and the message details.
pub open spec fn list_message_stored(
    s: StorageView,
    ctx: CallContext,
    to_list_id: Hash32,
    new_message: Seq<u8>,
    file_url: Seq<u8>,
) -> StorageView {
    let caller = ctx.caller;
    let message_id = target_message_hash(caller, to_list_id, new_message, ctx.block_timestamp);
    let details = ListMessageDetailsView {
        message_id,
        from_acct: caller,
        username: s.settings_of(caller).username,
        to_list_id,
        to_list_name: s.list_of(to_list_id).list_name,
        message: new_message,
        file_url,
        timestamp: ctx.block_timestamp,
    };
    let current = s.sent_to_list(to_list_id);
    let details_map = if current.len() > 14 {
        s.list_message_details.remove(current[0])
    } else {
        s.list_message_details
    };
    let kept = if current.len() > 14 {
        current.drop_first()
    } else {
        current
    };
    StorageView {
        sent_messages_to_list: s.sent_messages_to_list.insert(to_list_id, kept.push(message_id)),
        list_message_details: details_map.insert(message_id, details),
        ..s
    }
}

/// Sending a message to a list: only its owner may. The message is a claim
/// of the reward program.
pub open spec fn send_message_to_list_step(
    s: StorageView,
    ctx: CallContext,
    to_list_id: Hash32,
    new_message: Seq<u8>,
    file_url: Seq<u8>,
) -> Step {
    if new_message.len() > 600 || file_url.len() > 600 {
        Err(Error::DataTooLarge)
    } else if !s.open_list_details.contains_key(to_list_id) || !s.owned_lists_of(ctx.caller).contains(to_list_id) {
        Err(Error::NonexistentList)
    } else {
        Ok(after_claim(list_message_stored(s, ctx, to_list_id, new_message, file_url), ctx.caller, ctx.balance, Seq::empty()))
    }
}

/// A new list stored: its id is the hash of its name; the caller owns it and
/// is its first subscriber.
pub open spec fn list_made(
    s: StorageView,
    caller: AccountId,
    new_list_name: Seq<u8>,
    hide_from_search: bool,
    description: Seq<u8>,
) -> StorageView {
    let list_id = name_hash(new_list_name);
    let list = OpenListDetailsView {
        list_id,
        owner: caller,
        list_name: new_list_name,
        hide_from_search,
        description,
        list_accounts: 1,
    };
    StorageView {
        open_list_details: s.open_list_details.insert(list_id, list),
        open_lists: s.open_lists.push(list_id),
        account_owned_open_lists: s.account_owned_open_lists.insert(caller, s.owned_lists_of(caller).push(list_id)),
        account_subscribed_lists: s.account_subscribed_lists.insert(caller, s.lists_of(caller).push(list_id)),
        ..s
    }
}

/// The announcement of a new list, when it is public.
pub open spec fn new_list_events(list_id: Hash32, owner: AccountId, name: Seq<u8>, description: Seq<u8>, hide_from_search: bool) -> Seq<ActionView> {
    if hide_from_search {
        Seq::empty()
    } else {
        seq![ActionView::NewPublicList { list_id, owner, list_name: name, description }]
    }
}

/// Making a list: the caller may own at most 20 lists and subscribe to at
/// most 20 when making one, and the name must be new. Making a list is a
/// claim of the reward program.
pub open spec fn make_a_new_list_step(
    s: StorageView,
    ctx: CallContext,
    new_list_name: Seq<u8>,
    hide_from_search: bool,
    description: Seq<u8>,
) -> Step {
    let caller = ctx.caller;
    let list_id = name_hash(new_list_name);
    if new_list_name.len() > 100 || description.len() > 600 {
        Err(Error::DataTooLarge)
    } else if s.owned_lists_of(caller).len() >= 20 || s.lists_of(caller).len() >= 20 {
        Err(Error::StorageFull)
    } else if s.open_list_details.contains_key(list_id) {
        Err(Error::ListNameTaken)
    } else {
        Ok(after_claim(
            list_made(s, caller, new_list_name, hide_from_search, description),
            caller,
            ctx.balance,
            new_list_events(list_id, caller, new_list_name, description, hide_from_search),
        ))
    }
}

/// Deleting one's own message to a list.
pub open spec fn delete_single_message_to_list_step(s: StorageView, caller: AccountId, message_id: Hash32) -> Step {
    if !s.list_message_details.contains_key(message_id) || s.list_message_details[message_id].from_acct != caller {
        Err(Error::MessageNotFound)
    } else {
        let list_id = s.list_message_details[message_id].to_list_id;
        Ok((
            StorageView {
                sent_messages_to_list: s.sent_messages_to_list.insert(list_id, without(s.sent_to_list(list_id), message_id)),
                list_message_details: s.list_message_details.remove(message_id),
                ..s
            },
            Seq::empty(),
        ))
    }
}

/// Deleting a list that the caller owns: the list, its messages and their
/// details go, and the owner neither owns nor subscribes to it any more.
pub open spec fn delete_an_open_list_step(s: StorageView, caller: AccountId, list_id: Hash32) -> Step {
    if !s.open_list_details.contains_key(list_id) || !s.owned_lists_of(caller).contains(list_id) {
        Err(Error::NonexistentList)
    } else {
        Ok((
            StorageView {
                account_subscribed_lists: s.account_subscribed_lists.insert(caller, without(s.lists_of(caller), list_id)),
                sent_messages_to_list: s.sent_messages_to_list.remove(list_id),
                list_message_details: s.list_message_details.remove_keys(s.sent_to_list(list_id).to_set()),
                account_owned_open_lists: s.account_owned_open_lists.insert(caller, without(s.owned_lists_of(caller), list_id)),
                open_list_details: s.open_list_details.remove(list_id),
                ..s
            },
            seq![ActionView::ListDeleted { list_id }],
        ))
    }
}

/// Subscribing to a list: it must exist, the caller must not subscribe to it
/// already and may subscribe to at most 20. The list counts one more
/// subscriber. Subscribing is a claim of the reward program.
pub open spec fn join_an_open_list_step(s: StorageView, ctx: CallContext, list_id: Hash32) -> Step {
    let caller = ctx.caller;
    let mine = s.lists_of(caller);
    if !s.open_list_details.contains_key(list_id) {
        Err(Error::NonexistentList)
    } else if mine.contains(list_id) {
        Err(Error::AlreadySubscribed)
    } else if mine.len() >= 20 {
        Err(Error::StorageFull)
    } else {
        let l = s.open_list_details[list_id];
        Ok(after_claim(
            StorageView {
                account_subscribed_lists: s.account_subscribed_lists.insert(caller, mine.push(list_id)),
                open_list_details: s.open_list_details.insert(
                    list_id,
                    OpenListDetailsView { list_accounts: sat_add(l.list_accounts, 1), ..l },
                ),
                ..s
            },
            caller,
            ctx.balance,
            Seq::empty(),
        ))
    }
}

/// Unsubscribing from an existing list that the caller subscribes to; the
/// list counts one subscriber less.
pub open spec fn unsubscribe_from_open_list_step(s: StorageView, caller: AccountId, list_id: Hash32) -> Step {
    let mine = s.lists_of(caller);
    if !s.open_list_details.contains_key(list_id) || !mine.contains(list_id) {
        Err(Error::NonexistentList)
    } else {
        let l = s.open_list_details[list_id];
        Ok((
            StorageView {
                account_subscribed_lists: s.account_subscribed_lists.insert(caller, without(mine, list_id)),
                open_list_details: s.open_list_details.insert(
                    list_id,
                    OpenListDetailsView { list_accounts: sat_sub(l.list_accounts, 1), ..l },
                ),
                ..s
            },
            Seq::empty(),
        ))
    }
}

impl ContractStorage {
    /// Sends a message to the list `to_list_id`, which the caller owns.
    pub fn send_message_to_list(&mut self, ctx: &CallContext, to_list_id: Hash32, new_message: Vec<u8>, file_url: Vec<u8>)
        -> (r: Result<Vec<Action>, Error>)
        requires
            old(self).wf(),
        ensures
            final(self).wf(),
            answer_view(r) == step_answer(send_message_to_list_step(old(self)@, *ctx, to_list_id, new_message@, file_url@)),
            final(self)@ == next_state(old(self)@, send_message_to_list_step(old(self)@, *ctx, to_list_id, new_message@, file_url@)),
    {
        if new_message.len() > 600 || file_url.len() > 600 {
            return Err(Error::DataTooLarge);
        }
        let caller = ctx.caller;
        let owned = hashes_at(&self.account_owned_open_lists, &caller);
        let list_name = match self.open_list_details.get(&to_list_id) {
            Some(l) => copy_bytes(&l.list_name),
            None => {
                return Err(Error::NonexistentList);
            },
        };
        if !vec_contains(&owned, &to_list_id) {
            return Err(Error::NonexistentList);
        }
        let ghost s = self@;
        let ghost msg = new_message@;
        let ghost url = file_url@;
        let message_id = hash_target_message(&caller, &to_list_id, &new_message, ctx.block_timestamp);
        let username = self.username_of(&caller);
        let details = ListMessageDetails {
            message_id,
            from_acct: caller,
            username,
            to_list_id,
            to_list_name: list_name,
            message: new_message,
            file_url,
            timestamp: ctx.block_timestamp,
        };
        let mut current = hashes_at(&self.sent_messages_to_list, &to_list_id);
        if current.len() > 14 {
            let oldest = current[0];
            self.list_message_details.remove(&oldest);
            current.remove(0);
            assert(current@ =~= s.sent_to_list(to_list_id).drop_first());
        }
        current.push(message_id);
        self.sent_messages_to_list.insert(to_list_id, HashVector { hashvector: current });
        self.list_message_details.insert(message_id, details);
        assert(self@ =~= list_message_stored(s, *ctx, to_list_id, msg, url));
        let mut actions = no_actions();
        self.claim_reward(caller, ctx.balance, &mut actions);
        Ok(actions)
    }

    /// Makes a list named `new_list_name`, owned by the caller.
    pub fn make_a_new_list(&mut self, ctx: &CallContext, new_list_name: Vec<u8>, hide_from_search: bool, description: Vec<u8>)
        -> (r: Result<Vec<Action>, Error>)
        requires
            old(self).wf(),
        ensures
            final(self).wf(),
            answer_view(r) == step_answer(make_a_new_list_step(old(self)@, *ctx, new_list_name@, hide_from_search, description@)),
            final(self)@ == next_state(old(self)@, make_a_new_list_step(old(self)@, *ctx, new_list_name@, hide_from_search, description@)),
    {
        if new_list_name.len() > 100 || description.len() > 600 {
            return Err(Error::DataTooLarge);
        }
        let caller = ctx.caller;
        let mut owned = hashes_at(&self.account_owned_open_lists, &caller);
        let mut subscribed = hashes_at(&self.account_subscribed_lists, &caller);
        if owned.len() >= 20 || subscribed.len() >= 20 {
            return Err(Error::StorageFull);
        }
        let list_id = hash_name(&new_list_name);
        if self.open_list_details.contains(&list_id) {
            return Err(Error::ListNameTaken);
        }
        let ghost s = self@;
        let ghost name = new_list_name@;
        let ghost desc = description@;
        let name_in_event = copy_bytes(&new_list_name);
        let description_in_event = copy_bytes(&description);
        self.open_list_details.insert(list_id, OpenListDetails {
            list_id,
            owner: caller,
            list_name: new_list_name,
            hide_from_search,
            description,
            list_accounts: 1,
        });
        self.open_lists.push(list_id);
        owned.push(list_id);
        self.account_owned_open_lists.insert(caller, HashVector { hashvector: owned });
        subscribed.push(list_id);
        self.account_subscribed_lists.insert(caller, HashVector { hashvector: subscribed });
        assert(self@ =~= list_made(s, caller, name, hide_from_search, desc));
        let mut actions = no_actions();
        if !hide_from_search {
            actions.push(Action::NewPublicList(NewPublicList {
                list_id,
                owner: caller,
                list_name: name_in_event,
                description: description_in_event,
            }));
        }
        assert(crate::types::actions_view(actions@) =~= new_list_events(list_id, caller, name, desc, hide_from_search));
        self.claim_reward(caller, ctx.balance, &mut actions);
        Ok(actions)
    }

    /// Deletes one of the caller's own messages to a list.
    pub fn delete_single_message_to_list(&mut self, caller: AccountId, message_id_to_delete: Hash32)
        -> (r: Result<Vec<Action>, Error>)
        requires
            old(self).wf(),
        ensures
            final(self).wf(),
            answer_view(r) == step_answer(delete_single_message_to_list_step(old(self)@, caller, message_id_to_delete)),
            final(self)@ == next_state(old(self)@, delete_single_message_to_list_step(old(self)@, caller, message_id_to_delete)),
    {
        let (from, list_id) = match self.list_message_details.get(&message_id_to_delete) {
            Some(d) => (d.from_acct, d.to_list_id),
            None => {
                return Err(Error::MessageNotFound);
            },
        };
        if !from.id_eq(&caller) {
            return Err(Error::MessageNotFound);
        }
        let ghost s = self@;
        let current = hashes_at(&self.sent_messages_to_list, &list_id);
        let kept = vec_without(&current, &message_id_to_delete);
        self.sent_messages_to_list.insert(list_id, HashVector { hashvector: kept });
        self.list_message_details.remove(&message_id_to_delete);
        assert(self@ =~= next_state(s, delete_single_message_to_list_step(s, caller, message_id_to_delete)));
        Ok(no_actions())
    }

    /// Deletes the list `delete_list_id`, which the caller owns.
    pub fn delete_an_open_list(&mut self, caller: AccountId, delete_list_id: Hash32) -> (r: Result<Vec<Action>, Error>)
        requires
            old(self).wf(),
        ensures
            final(self).wf(),
            answer_view(r) == step_answer(delete_an_open_list_step(old(self)@, caller, delete_list_id)),
            final(self)@ == next_state(old(self)@, delete_an_open_list_step(old(self)@, caller, delete_list_id)),
    {
        let owned = hashes_at(&self.account_owned_open_lists, &caller);
        if !self.open_list_details.contains(&delete_list_id) || !vec_contains(&owned, &delete_list_id) {
            return Err(Error::NonexistentList);
        }
        let ghost s = self@;
        let subscribed = hashes_at(&self.account_subscribed_lists, &caller);
        let subscribed_kept = vec_without(&subscribed, &delete_list_id);
        self.account_subscribed_lists.insert(caller, HashVector { hashvector: subscribed_kept });
        let messages = hashes_at(&self.sent_messages_to_list, &delete_list_id);
        remove_ids(&mut self.list_message_details, &messages);
        self.sent_messages_to_list.remove(&delete_list_id);
        let owned_kept = vec_without(&owned, &delete_list_id);
        self.account_owned_open_lists.insert(caller, HashVector { hashvector: owned_kept });
        self.open_list_details.remove(&delete_list_id);
        let mut actions = no_actions();
        actions.push(Action::ListDeleted(ListDeleted { list_id: delete_list_id }));
        assert(crate::types::actions_view(actions@) =~= step_answer(delete_an_open_list_step(s, caller, delete_list_id))->Ok_0);
        assert(self@ =~= next_state(s, delete_an_open_list_step(s, caller, delete_list_id)));
        Ok(actions)
    }

    /// Subscribes the caller to the list `list_id`.
    pub fn join_an_open_list(&mut self, ctx: &CallContext, list_id: Hash32) -> (r: Result<Vec<Action>, Error>)
        requires
            old(self).wf(),
        ensures
            final(self).wf(),
            answer_view(r) == step_answer(join_an_open_list_step(old(self)@, *ctx, list_id)),
            final(self)@ == next_state(old(self)@, join_an_open_list_step(old(self)@, *ctx, list_id)),
    {
        let caller = ctx.caller;
        let mut list = match self.open_list_details.get(&list_id) {
            Some(l) => l.copy(),
            None => {
                return Err(Error::NonexistentList);
            },
        };
        let mut mine = hashes_at(&self.account_subscribed_lists, &caller);
        if vec_contains(&mine, &list_id) {
            return Err(Error::AlreadySubscribed);
        }
        if mine.len() >= 20 {
            return Err(Error::StorageFull);
        }
        let ghost s = self@;
        mine.push(list_id);
        self.account_subscribed_lists.insert(caller, HashVector { hashvector: mine });
        list.list_accounts = list.list_accounts.saturating_add(1);
        self.open_list_details.insert(list_id, list);
        let mut actions = no_actions();
        assert(self@ =~= join_an_open_list_step(s, *ctx, list_id)->Ok_0.0.with_reward(s.reward));
        self.claim_reward(caller, ctx.balance, &mut actions);
        Ok(actions)
    }

    /// Unsubscribes the caller from the list `list_id`.
    pub fn unsubscribe_from_open_list(&mut self, caller: AccountId, list_id: Hash32) -> (r: Result<Vec<Action>, Error>)
        requires
            old(self).wf(),
        ensures
            final(self).wf(),
            answer_view(r) == step_answer(unsubscribe_from_open_list_step(old(self)@, caller, list_id)),
            final(self)@ == next_state(old(self)@, unsubscribe_from_open_list_step(old(self)@, caller, list_id)),
    {
        let mut list = match self.open_list_details.get(&list_id) {
            Some(l) => l.copy(),
            None => {
                return Err(Error::NonexistentList);
            },
        };
        let mine = hashes_at(&self.account_subscribed_lists, &caller);
        if !vec_contains(&mine, &list_id) {
            return Err(Error::NonexistentList);
        }
        let ghost s = self@;
        let mine_kept = vec_without(&mine, &list_id);
        self.account_subscribed_lists.insert(caller, HashVector { hashvector: mine_kept });
        list.list_accounts = list.list_accounts.saturating_sub(1);
        self.open_list_details.insert(list_id, list);
        assert(self@ =~= next_state(s, unsubscribe_from_open_list_step(s, caller, list_id)));
        Ok(no_actions())
    }
}

} // verus!
