use vstd::prelude::*;
use crate::hashing::{hash_sender_message, sender_message_hash};
use crate::ids::{AccountId, Hash32};
use crate::seqs::vec_contains;
use crate::types::{no_actions, AccountVector, paid_message_views, Action, ActionView, CallContext, Error, HashVector, PaidMessageDetails, PaidMessageDetailsView};
use super::{
    accounts_at, after_claim, answer_view, hashes_at, next_state, remove_ids, sat_add, step_answer, ContractStorage,
    Step, StorageView,
};

verus! {

/// The bids of the paid messages `ids`.
pub open spec fn bids_of(s: StorageView, ids: Seq<Hash32>) -> Seq<u128> {
    ids.map_values(|id: Hash32| s.paid_message_of(id).bid)
}

/// Whether `i` is the first position of the lowest bid.
pub open spec fn is_first_lowest(bids: Seq<u128>, i: int) -> bool {
    &&& 0 <= i < bids.len()
    &&& forall|j: int| 0 <= j < bids.len() ==> bids[i] <= #[trigger] bids[j]
    &&& forall|j: int| 0 <= j < i ==> bids[i] < #[trigger] bids[j]
}

/// The first position of the lowest bid.
pub open spec fn first_lowest(bids: Seq<u128>) -> int {
    choose|i: int| is_first_lowest(bids, i)
}

/// A paid message that passes the checks. While the recipient's paid inbox
/// holds fewer than 400 messages, the new one joins it at its end. When it
/// holds 400 or more, bidding is competitive: if the new bid beats the lowest
/// one, the (first) lowest bidder's message leaves the inbox and, if the
/// contract can afford it, its bid is refunded, and the new message joins the
/// inbox at its end; a bid that does not win leaves the inbox and the paid
/// messages as they were. The recipient joins the caller's allowed accounts
/// (at their end) when it is not among them yet.
pub open spec fn paid_message_stored(
    s: StorageView,
    ctx: CallContext,
    to_account: AccountId,
    new_message: Seq<u8>,
    file_url: Seq<u8>,
) -> (StorageView, Seq<ActionView>, u128) {
    let caller = ctx.caller;
    let staked = ctx.transferred_value;
    let inbox = s.paid_inbox_of(to_account);
    let low = first_lowest(bids_of(s, inbox));
    let lowest = s.paid_message_of(inbox[low]);
    let full = inbox.len() > 399;
    let outbid = full && staked > lowest.bid;
    let admitted = !full || outbid;
    let refund = outbid && ctx.balance > sat_add(lowest.bid, 11);
    let kept = if outbid {
        inbox.remove(low)
    } else {
        inbox
    };
    let message_id = sender_message_hash(caller, new_message, ctx.block_timestamp);
    let details = PaidMessageDetailsView {
        message_id,
        from_acct: caller,
        from_username: s.settings_of(caller).username,
        to_acct: to_account,
        message: new_message,
        file_url,
        timestamp: ctx.block_timestamp,
        bid: staked,
    };
    let allowed = s.allowed_of(caller);
    let account_allowed = if allowed.contains(to_account) {
        s.account_allowed
    } else {
        s.account_allowed.insert(caller, allowed.push(to_account))
    };
    (
        if admitted {
            StorageView {
                paid_message_details: s.paid_message_details.insert(message_id, details),
                account_paid_inbox: s.account_paid_inbox.insert(to_account, kept.push(message_id)),
                account_allowed,
                ..s
            }
        } else {
            StorageView { account_allowed, ..s }
        },
        if refund {
            seq![ActionView::Transfer { to: lowest.from_acct, amount: lowest.bid }]
        } else {
            Seq::empty()
        },
        if refund {
            (ctx.balance - lowest.bid) as u128
        } else {
            ctx.balance
        },
    )
}

/// Sending a paid message, with the value sent as its bid: the bid must
/// cover the recipient's inbox fee and the recipient must not block the
/// caller; the caller's list of allowed accounts must hold the recipient or
/// have room for it (fewer than 60). The message is a claim of the
/// reward program, with the contract's balance after any refund.
pub open spec fn send_paid_message_step(
    s: StorageView,
    ctx: CallContext,
    to_account: AccountId,
    new_message: Seq<u8>,
    file_url: Seq<u8>,
) -> Step {
    let caller = ctx.caller;
    if new_message.len() > 600 || file_url.len() > 600 {
        Err(Error::DataTooLarge)
    } else if ctx.transferred_value < s.settings_of(to_account).inbox_fee || s.blocked_of(to_account).contains(caller) {
        Err(Error::CannotSendPaidMessage)
    } else if !s.allowed_of(caller).contains(to_account) && s.allowed_of(caller).len() >= 60 {
        Err(Error::StorageFull)
    } else {
        let (stored, refunds, balance) = paid_message_stored(s, ctx, to_account, new_message, file_url);
        Ok(after_claim(stored, caller, balance, refunds))
    }
}

/// The sum of the bids, each addition capped at the largest `u128`.
pub open spec fn total_bids(bids: Seq<u128>) -> u128
    decreases bids.len(),
{
    if bids.len() == 0 {
        0
    } else {
        sat_add(total_bids(bids.drop_last()), bids.last())
    }
}

/// The messages of the caller's paid inbox, in its order.
pub open spec fn paid_inbox_contents(s: StorageView, caller: AccountId) -> Seq<PaidMessageDetailsView> {
    s.paid_inbox_of(caller).map_values(|id: Hash32| s.paid_message_of(id))
}

/// Collecting the paid inbox: the caller is paid the sum of the bids, if the
/// contract holds more than that plus 11, and the inbox and its messages are
/// emptied.
pub open spec fn get_my_paid_inbox_step(s: StorageView, ctx: CallContext) -> Step {
    let caller = ctx.caller;
    let inbox = s.paid_inbox_of(caller);
    let payment = total_bids(bids_of(s, inbox));
    if !(ctx.balance > sat_add(payment, 11)) {
        Err(Error::ZeroBalance)
    } else {
        Ok((
            StorageView {
                paid_message_details: s.paid_message_details.remove_keys(inbox.to_set()),
                account_paid_inbox: s.account_paid_inbox.remove(caller),
                ..s
            },
            seq![ActionView::Transfer { to: caller, amount: payment }],
        ))
    }
}

proof fn lemma_first_lowest_unique(bids: Seq<u128>, i: int)
    requires
        is_first_lowest(bids, i),
    ensures
        first_lowest(bids) == i,
{
    let k = first_lowest(bids);
    assert(is_first_lowest(bids, k));
    if k < i {
        assert(bids[i] < bids[k]);
        assert(bids[k] <= bids[i]);
    } else if i < k {
        assert(bids[k] < bids[i]);
        assert(bids[i] <= bids[k]);
    }
}

impl ContractStorage {
    /// The bid of the paid message `id`, or 0.
    fn bid_of(&self, id: &Hash32) -> (r: (u128, AccountId))
        requires
            self.wf(),
        ensures
            r.0 == self@.paid_message_of(*id).bid,
            r.1 == self@.paid_message_of(*id).from_acct,
    {
        match self.paid_message_details.get(id) {
            Some(d) => (d.bid, d.from_acct),
            None => (0, AccountId::zero()),
        }
    }

    /// The first position of the lowest bid in a nonempty inbox.
    fn lowest_bidder(&self, inbox: &Vec<Hash32>) -> (r: usize)
        requires
            self.wf(),
            inbox@.len() > 0,
        ensures
            r == first_lowest(bids_of(self@, inbox@)),
            r < inbox@.len(),
    {
        let ghost bids = bids_of(self@, inbox@);
        let (mut low_bid, _) = self.bid_of(&inbox[0]);
        let mut low_index: usize = 0;
        let mut i: usize = 0;
        while i < inbox.len()
            invariant
                self.wf(),
                bids == bids_of(self@, inbox@),
                0 <= i <= inbox@.len(),
                inbox@.len() > 0,
                low_index < inbox@.len(),
                low_index <= i || (i == 0 && low_index == 0),
                low_bid == bids[low_index as int],
                forall|j: int| 0 <= j < i ==> low_bid <= #[trigger] bids[j],
                forall|j: int| 0 <= j < low_index ==> low_bid < #[trigger] bids[j],
            decreases inbox@.len() - i,
        {
            let (bid, _) = self.bid_of(&inbox[i]);
            if bid < low_bid {
                low_bid = bid;
                low_index = i;
            }
            i = i + 1;
        }
        proof {
            lemma_first_lowest_unique(bids, low_index as int);
        }
        low_index
    }

    /// Sends a paid message to `to_account`, bidding the value sent with the call.
    pub fn send_paid_message(&mut self, ctx: &CallContext, to_account: AccountId, new_message: Vec<u8>, file_url: Vec<u8>)
        -> (r: Result<Vec<Action>, Error>)
        requires
            old(self).wf(),
        ensures
            final(self).wf(),
            answer_view(r) == step_answer(send_paid_message_step(old(self)@, *ctx, to_account, new_message@, file_url@)),
            final(self)@ == next_state(old(self)@, send_paid_message_step(old(self)@, *ctx, to_account, new_message@, file_url@)),
    {
        if new_message.len() > 600 || file_url.len() > 600 {
            return Err(Error::DataTooLarge);
        }
        let caller = ctx.caller;
        let staked = ctx.transferred_value;
        let min_fee = match self.account_settings.get(&to_account) {
            Some(settings) => settings.inbox_fee,
            None => 0,
        };
        let blocked = accounts_at(&self.account_blocked_accounts, &to_account);
        if staked < min_fee || vec_contains(&blocked, &caller) {
            return Err(Error::CannotSendPaidMessage);
        }
        let mut allowed = accounts_at(&self.account_allowed, &caller);
        let allows_recipient = vec_contains(&allowed, &to_account);
        if !allows_recipient && allowed.len() >= 60 {
            return Err(Error::StorageFull);
        }
        let ghost s = self@;
        let ghost msg = new_message@;
        let ghost url = file_url@;
        let ghost expected = paid_message_stored(s, *ctx, to_account, msg, url);
        let mut inbox = hashes_at(&self.account_paid_inbox, &to_account);
        let mut actions = no_actions();
        let mut balance = ctx.balance;
        let mut admitted = true;
        if inbox.len() > 399 {
            let low_index = self.lowest_bidder(&inbox);
            let (low_bid, low_bid_acct) = self.bid_of(&inbox[low_index]);
            if staked <= low_bid {
                admitted = false;
            } else {
                inbox.remove(low_index);
                if ctx.balance > low_bid.saturating_add(11) {
                    actions.push(Action::Transfer { to: low_bid_acct, amount: low_bid });
                    balance = ctx.balance - low_bid;
                }
            }
        }
        assert(crate::types::actions_view(actions@) =~= expected.1);
        assert(balance == expected.2);
        if admitted {
            let message_id = hash_sender_message(&caller, &new_message, ctx.block_timestamp);
            let from_username = self.username_of(&caller);
            self.paid_message_details.insert(message_id, PaidMessageDetails {
                message_id,
                from_acct: caller,
                from_username,
                to_acct: to_account,
                message: new_message,
                file_url,
                timestamp: ctx.block_timestamp,
                bid: staked,
            });
            inbox.push(message_id);
            self.account_paid_inbox.insert(to_account, HashVector { hashvector: inbox });
        }
        if !allows_recipient {
            allowed.push(to_account);
            self.account_allowed.insert(caller, AccountVector { accountvector: allowed });
        }
        assert(self@ =~= expected.0);
        self.claim_reward(caller, balance, &mut actions);
        Ok(actions)
    }

    /// Hands the caller the messages of its paid inbox and pays it their
    /// bids; the inbox is then emptied.
    pub fn get_my_paid_inbox(&mut self, ctx: &CallContext) -> (r: Result<(Vec<PaidMessageDetails>, Vec<Action>), Error>)
        requires
            old(self).wf(),
        ensures
            final(self).wf(),
            final(self)@ == next_state(old(self)@, get_my_paid_inbox_step(old(self)@, *ctx)),
            match r {
                Ok((messages, actions)) => {
                    &&& step_answer(get_my_paid_inbox_step(old(self)@, *ctx)) == Ok::<Seq<ActionView>, Error>(
                        crate::types::actions_view(actions@),
                    )
                    &&& paid_message_views(messages@) == paid_inbox_contents(old(self)@, ctx.caller)
                },
                Err(e) => step_answer(get_my_paid_inbox_step(old(self)@, *ctx)) == Err::<Seq<ActionView>, Error>(e),
            },
    {
        let caller = ctx.caller;
        let ghost s = self@;
        let inbox = hashes_at(&self.account_paid_inbox, &caller);
        let ghost bids = bids_of(s, inbox@);
        let mut messages: Vec<PaidMessageDetails> = Vec::new();
        let mut payment: u128 = 0;
        let mut i: usize = 0;
        while i < inbox.len()
            invariant
                self.wf(),
                self@ == s,
                inbox@ == s.paid_inbox_of(caller),
                bids == bids_of(s, inbox@),
                0 <= i <= inbox@.len(),
                paid_message_views(messages@) == paid_inbox_contents(s, caller).take(i as int),
                payment == total_bids(bids.take(i as int)),
            decreases inbox@.len() - i,
        {
            let details = match self.paid_message_details.get(&inbox[i]) {
                Some(d) => d.copy(),
                None => PaidMessageDetails::default(),
            };
            let bid = details.bid;
            let ghost prev = messages@;
            assert(details@ == paid_inbox_contents(s, caller)[i as int]);
            messages.push(details);
            assert(messages@ == prev.push(details));
            payment = payment.saturating_add(bid);
            proof {
                assert(bids.take(i + 1).drop_last() =~= bids.take(i as int));
                assert(paid_message_views(messages@) =~= paid_message_views(prev).push(details@));
                assert(paid_inbox_contents(s, caller).take(i + 1) =~= paid_inbox_contents(s, caller).take(i as int).push(details@));
            }
            i = i + 1;
        }
        assert(bids.take(inbox@.len() as int) =~= bids);
        assert(paid_inbox_contents(s, caller).take(inbox@.len() as int) =~= paid_inbox_contents(s, caller));
        if !(ctx.balance > payment.saturating_add(11)) {
            return Err(Error::ZeroBalance);
        }
        remove_ids(&mut self.paid_message_details, &inbox);
        self.account_paid_inbox.remove(&caller);
        let mut actions = no_actions();
        actions.push(Action::Transfer { to: caller, amount: payment });
        assert(crate::types::actions_view(actions@) =~= step_answer(get_my_paid_inbox_step(s, *ctx))->Ok_0);
        assert(self@ =~= next_state(s, get_my_paid_inbox_step(s, *ctx)));
        Ok((messages, actions))
    }
}

} // verus!
