use vstd::prelude::*;
use crate::hashing::{account_message_hash, hash_account_message};
use crate::ids::{AccountId, Hash32};
use crate::seqs::{vec_contains, vec_without, without};
use crate::types::{no_actions, Action, CallContext, Error, HashVector, MessageDetails, MessageDetailsView};
use super::{accounts_at, remove_ids, after_claim, answer_view, hashes_at, next_state, step_answer, ContractStorage, Step, StorageView};

verus! {

/// A private message stored: its details under its id, and its id at the end
/// of the conversation from the caller to `to_acct`, of which at most three
/// are kept: past that, the oldest message and its details leave.
pub open spec fn private_message_stored(
    s: StorageView,
    ctx: CallContext,
    to_acct: AccountId,
    new_message: Seq<u8>,
    file_url: Seq<u8>,
) -> StorageView {
    let caller = ctx.caller;
    let id = account_message_hash(caller, to_acct, new_message, ctx.block_timestamp);
    let details = MessageDetailsView {
        message_id: id,
        from_acct: caller,
        from_username: s.settings_of(caller).username,
        to_acct,
        message: new_message,
        file_url,
        timestamp: ctx.block_timestamp,
    };
    let current = s.sent_to_account(caller, to_acct);
    let details_map = if current.len() > 2 {
        s.message_details.remove(current[0])
    } else {
        s.message_details
    };
    let kept = if current.len() > 2 {
        current.drop_first()
    } else {
        current
    };
    StorageView {
        message_details: details_map.insert(id, details),
        sent_messages_to_account: s.sent_messages_to_account.insert((caller, to_acct), kept.push(id)),
        ..s
    }
}

/// Sending a private message: only to an account that allows the caller.
/// The message is a claim of the reward program.
pub open spec fn send_private_message_step(
    s: StorageView,
    ctx: CallContext,
    to_acct: AccountId,
    new_message: Seq<u8>,
    file_url: Seq<u8>,
) -> Step {
    if new_message.len() > 600 || file_url.len() > 300 {
        Err(Error::DataTooLarge)
    } else if !s.allowed_of(to_acct).contains(ctx.caller) {
        Err(Error::NotAllowedToMessage)
    } else {
        Ok(after_claim(private_message_stored(s, ctx, to_acct, new_message, file_url), ctx.caller, ctx.balance, Seq::empty()))
    }
}

/// Deleting one private message: any stored message may be deleted; it leaves
/// the conversation from the caller to its recipient.
pub open spec fn delete_single_message_to_account_step(s: StorageView, caller: AccountId, message_id: Hash32) -> Step {
    if !s.message_details.contains_key(message_id) {
        Err(Error::MessageNotFound)
    } else {
        let to = s.message_details[message_id].to_acct;
        Ok((
            StorageView {
                sent_messages_to_account: s.sent_messages_to_account.insert(
                    (caller, to),
                    without(s.sent_to_account(caller, to), message_id),
                ),
                message_details: s.message_details.remove(message_id),
                ..s
            },
            Seq::empty(),
        ))
    }
}

/// Deleting every message from the caller to an account.
pub open spec fn delete_all_messages_to_account_step(s: StorageView, caller: AccountId, to: AccountId) -> Step {
    Ok((
        StorageView {
            message_details: s.message_details.remove_keys(s.sent_to_account(caller, to).to_set()),
            sent_messages_to_account: s.sent_messages_to_account.remove((caller, to)),
            ..s
        },
        Seq::empty(),
    ))
}

impl ContractStorage {
    /// Sends a private message to `to_acct`, which must allow the caller.
    pub fn send_private_message(&mut self, ctx: &CallContext, to_acct: AccountId, new_message: Vec<u8>, file_url: Vec<u8>)
        -> (r: Result<Vec<Action>, Error>)
        requires
            old(self).wf(),
        ensures
            final(self).wf(),
            answer_view(r) == step_answer(send_private_message_step(old(self)@, *ctx, to_acct, new_message@, file_url@)),
            final(self)@ == next_state(old(self)@, send_private_message_step(old(self)@, *ctx, to_acct, new_message@, file_url@)),
    {
        if new_message.len() > 600 || file_url.len() > 300 {
            return Err(Error::DataTooLarge);
        }
        let caller = ctx.caller;
        let allowed = accounts_at(&self.account_allowed, &to_acct);
        if !vec_contains(&allowed, &caller) {
            return Err(Error::NotAllowedToMessage);
        }
        let ghost s = self@;
        let ghost msg = new_message@;
        let ghost url = file_url@;
        let id = hash_account_message(&caller, &to_acct, &new_message, ctx.block_timestamp);
        let from_username = match self.account_settings.get(&caller) {
            Some(settings) => crate::types::copy_bytes(&settings.username),
            None => Vec::new(),
        };
        let details = MessageDetails {
            message_id: id,
            from_acct: caller,
            from_username,
            to_acct,
            message: new_message,
            file_url,
            timestamp: ctx.block_timestamp,
        };
        let mut current = hashes_at(&self.sent_messages_to_account, &(caller, to_acct));
        if current.len() > 2 {
            let oldest = current[0];
            self.message_details.remove(&oldest);
            current.remove(0);
            assert(current@ =~= s.sent_to_account(caller, to_acct).drop_first());
        }
        self.message_details.insert(id, details);
        current.push(id);
        self.sent_messages_to_account.insert((caller, to_acct), HashVector { hashvector: current });
        let mut actions = no_actions();
        assert(self@ =~= private_message_stored(s, *ctx, to_acct, msg, url));
        self.claim_reward(caller, ctx.balance, &mut actions);
        Ok(actions)
    }

    /// Deletes a stored private message from the conversation between the
    /// caller and the message's recipient.
    pub fn delete_single_message_to_account(&mut self, caller: AccountId, message_id_to_delete: Hash32)
        -> (r: Result<Vec<Action>, Error>)
        requires
            old(self).wf(),
        ensures
            final(self).wf(),
            answer_view(r) == step_answer(delete_single_message_to_account_step(old(self)@, caller, message_id_to_delete)),
            final(self)@ == next_state(old(self)@, delete_single_message_to_account_step(old(self)@, caller, message_id_to_delete)),
    {
        let to = match self.message_details.get(&message_id_to_delete) {
            Some(details) => details.to_acct,
            None => {
                return Err(Error::MessageNotFound);
            },
        };
        let ghost s = self@;
        let conversation = hashes_at(&self.sent_messages_to_account, &(caller, to));
        let kept = vec_without(&conversation, &message_id_to_delete);
        self.sent_messages_to_account.insert((caller, to), HashVector { hashvector: kept });
        self.message_details.remove(&message_id_to_delete);
        assert(self@ =~= next_state(s, delete_single_message_to_account_step(s, caller, message_id_to_delete)));
        Ok(no_actions())
    }

    /// Deletes every message from the caller to `delete_all_messages_to`.
    pub fn delete_all_messages_to_account(&mut self, caller: AccountId, delete_all_messages_to: AccountId)
        -> (r: Result<Vec<Action>, Error>)
        requires
            old(self).wf(),
        ensures
            final(self).wf(),
            answer_view(r) == step_answer(delete_all_messages_to_account_step(old(self)@, caller, delete_all_messages_to)),
            final(self)@ == next_state(old(self)@, delete_all_messages_to_account_step(old(self)@, caller, delete_all_messages_to)),
    {
        let ghost s = self@;
        let conversation = hashes_at(&self.sent_messages_to_account, &(caller, delete_all_messages_to));
        remove_ids(&mut self.message_details, &conversation);
        self.sent_messages_to_account.remove(&(caller, delete_all_messages_to));
        assert(self@ =~= next_state(s, delete_all_messages_to_account_step(s, caller, delete_all_messages_to)));
        Ok(no_actions())
    }
}

} // verus!
