use vstd::prelude::*;
use crate::seqs::without;
use crate::contract::{
    add_reward_balance_step, allow_account_step, block_account_step, disallow_account_step, join_a_group_step,
    join_an_open_list_step, leave_a_group_step, unblock_account_step, unsubscribe_from_open_list_step,
    send_message_to_list_step, send_message_to_group_step, get_my_paid_inbox_step, reward_claim,
    delete_single_message_to_group_step, delete_single_message_to_list_step, inbox_groups_of, inbox_lists_of,
    group_inbox, groups_found, group_public, group_found, lists_found, list_found, list_inbox, list_messages_in, delete_an_open_list_step, bids_of, first_lowest, is_first_lowest, conversation_with, inbox_of, make_a_new_group_step, make_a_new_list_step, messages_of,
    next_state, step_answer, after_claim, private_message_stored, group_message_stored, list_message_stored,
    group_made, list_made, new_group_events, new_list_events, paid_message_stored, sat_add, send_paid_message_step, send_private_message_step, set_reward_root_step, set_reward_step,
    shut_down_reward_step, update_settings_step, StorageView,
};
use crate::hashing::{account_message_hash, name_hash, sender_message_hash, target_message_hash};
use crate::ids::{AccountId, Hash32};
use crate::text::keyword_hit;
use crate::types::{ActionView, CallContext, Error, GroupDetailsView, OpenListDetailsView, ListMessageDetailsView, MessageDetailsView, RewardSettings};

verus! {

/// Only those you allow can message you: a private message to `to` is sent
/// only when `to` allows the caller.
pub proof fn law_only_allowed_accounts_message(
    s: StorageView,
    ctx: CallContext,
    to: AccountId,
    message: Seq<u8>,
    file_url: Seq<u8>,
)
    requires
        send_private_message_step(s, ctx, to, message, file_url) is Ok,
    ensures
        s.allowed_of(to).contains(ctx.caller),
{
}

/// A private message that was sent can be read back: in the recipient's
/// inbox, the conversation with the sender ends with the new message.
pub proof fn law_sent_message_reaches_inbox(
    s: StorageView,
    ctx: CallContext,
    to: AccountId,
    message: Seq<u8>,
    file_url: Seq<u8>,
)
    requires
        send_private_message_step(s, ctx, to, message, file_url) is Ok,
    ensures
        ({
            let next = next_state(s, send_private_message_step(s, ctx, to, message, file_url));
            let inbox = inbox_of(next, to);
            exists|k: int|
                0 <= k < inbox.len() && #[trigger] inbox[k].allowed_account == ctx.caller
                    && inbox[k].conversation.last() == (MessageDetailsView {
                    message_id: account_message_hash(ctx.caller, to, message, ctx.block_timestamp),
                    from_acct: ctx.caller,
                    from_username: s.settings_of(ctx.caller).username,
                    to_acct: to,
                    message,
                    file_url,
                    timestamp: ctx.block_timestamp,
                })
        }),
{
    let next = next_state(s, send_private_message_step(s, ctx, to, message, file_url));
    let caller = ctx.caller;
    let id = account_message_hash(caller, to, message, ctx.block_timestamp);
    assert(next.allowed_of(to) == s.allowed_of(to));
    let k = choose|k: int| 0 <= k < s.allowed_of(to).len() && s.allowed_of(to)[k] == caller;
    let inbox = inbox_of(next, to);
    assert(inbox[k] == conversation_with(next, to, caller));
    let mine = next.sent_to_account(caller, to);
    assert(mine.last() == id);
    assert(messages_of(next, mine).last() == next.message_of(id));
    assert(inbox[k].allowed_account == caller);
}

/// A nonempty list of bids has a first lowest one.
proof fn lemma_first_lowest_exists(bids: Seq<u128>)
    requires
        bids.len() > 0,
    ensures
        is_first_lowest(bids, first_lowest(bids)),
    decreases bids.len(),
{
    if bids.len() == 1 {
        assert(is_first_lowest(bids, 0));
    } else {
        let front = bids.drop_last();
        lemma_first_lowest_exists(front);
        let k = first_lowest(front);
        let last = bids.len() - 1;
        if bids[last] < bids[k] {
            assert forall|j: int| 0 <= j < bids.len() implies bids[last] <= #[trigger] bids[j] by {
                if j < last {
                    assert(front[j] == bids[j]);
                }
            }
            assert forall|j: int| 0 <= j < last implies bids[last] < #[trigger] bids[j] by {
                assert(front[j] == bids[j]);
            }
            assert(is_first_lowest(bids, last));
        } else {
            assert forall|j: int| 0 <= j < bids.len() implies bids[k] <= #[trigger] bids[j] by {
                if j < last {
                    assert(front[j] == bids[j]);
                }
            }
            assert forall|j: int| 0 <= j < k implies bids[k] < #[trigger] bids[j] by {
                assert(front[j] == bids[j]);
            }
            assert(is_first_lowest(bids, k));
        }
    }
}

/// Others pay to get into your paid inbox: a paid message is accepted only
/// when its bid covers the recipient's inbox fee and the recipient does not
/// block the sender. While the inbox holds fewer than 400 messages, or when
/// the bid beats one of the bids there, the message then ends the inbox, with
/// its bid; a bid that beats none of those of a full inbox leaves the inbox
/// and the paid messages as they were.
pub proof fn law_paid_inbox_admission(
    s: StorageView,
    ctx: CallContext,
    to: AccountId,
    message: Seq<u8>,
    file_url: Seq<u8>,
)
    requires
        send_paid_message_step(s, ctx, to, message, file_url) is Ok,
    ensures
        ctx.transferred_value >= s.settings_of(to).inbox_fee,
        !s.blocked_of(to).contains(ctx.caller),
        ({
            let next = next_state(s, send_paid_message_step(s, ctx, to, message, file_url));
            let id = sender_message_hash(ctx.caller, message, ctx.block_timestamp);
            let bids = bids_of(s, s.paid_inbox_of(to));
            &&& (s.paid_inbox_of(to).len() < 400 || exists|i: int| 0 <= i < bids.len() && ctx.transferred_value > bids[i])
                ==> {
                &&& next.paid_inbox_of(to).last() == id
                &&& next.paid_message_of(id).bid == ctx.transferred_value
                &&& next.paid_message_of(id).from_acct == ctx.caller
            }
            &&& (s.paid_inbox_of(to).len() >= 400 && forall|i: int| 0 <= i < bids.len() ==> ctx.transferred_value <= bids[i])
                ==> {
                &&& next.account_paid_inbox == s.account_paid_inbox
                &&& next.paid_message_details == s.paid_message_details
            }
        }),
{
    let bids = bids_of(s, s.paid_inbox_of(to));
    if s.paid_inbox_of(to).len() >= 400 {
        lemma_first_lowest_exists(bids);
        let low = first_lowest(bids);
        assert(bids[low] == s.paid_message_of(s.paid_inbox_of(to)[low]).bid);
    }
}

/// Every paid inbox holds at most 400 messages: a paid message joins a full
/// inbox only by pushing out the lowest bid.
pub proof fn law_paid_inbox_capped(
    s: StorageView,
    ctx: CallContext,
    to: AccountId,
    message: Seq<u8>,
    file_url: Seq<u8>,
)
    requires
        send_paid_message_step(s, ctx, to, message, file_url) is Ok,
        s.paid_inbox_of(to).len() <= 400,
    ensures
        next_state(s, send_paid_message_step(s, ctx, to, message, file_url)).paid_inbox_of(to).len() <= 400,
{
    let bids = bids_of(s, s.paid_inbox_of(to));
    if s.paid_inbox_of(to).len() >= 400 {
        lemma_first_lowest_exists(bids);
    }
}

/// The recipient of a paid message may answer: after it, the sender allows
/// the recipient, added at the end of its allowed accounts if it was not
/// among them.
pub proof fn law_paid_message_allows_reply(
    s: StorageView,
    ctx: CallContext,
    to: AccountId,
    message: Seq<u8>,
    file_url: Seq<u8>,
)
    requires
        send_paid_message_step(s, ctx, to, message, file_url) is Ok,
    ensures
        ({
            let next = next_state(s, send_paid_message_step(s, ctx, to, message, file_url));
            &&& next.allowed_of(ctx.caller).contains(to)
            &&& !s.allowed_of(ctx.caller).contains(to) ==> next.allowed_of(ctx.caller) == s.allowed_of(ctx.caller).push(to)
            &&& s.allowed_of(ctx.caller).contains(to) ==> next.account_allowed == s.account_allowed
        }),
{
    let next = next_state(s, send_paid_message_step(s, ctx, to, message, file_url));
    if !s.allowed_of(ctx.caller).contains(to) {
        assert(next.allowed_of(ctx.caller)[s.allowed_of(ctx.caller).len() as int] == to);
    }
}

/// Only the reward program's root changes its settings, funds it or shuts it
/// down; a root, once set, is changed only by itself.
pub proof fn law_reward_program_root_only(
    s: StorageView,
    ctx: CallContext,
    newroot: AccountId,
    on: u8,
    interval: u128,
    amount: u128,
)
    ensures
        set_reward_step(s, ctx.caller, on, interval, amount) is Ok <==> s.reward.reward_root == ctx.caller,
        add_reward_balance_step(s, ctx) is Ok ==> s.reward.reward_root == ctx.caller,
        shut_down_reward_step(s, ctx) is Ok ==> s.reward.reward_root == ctx.caller,
        set_reward_root_step(s, ctx.caller, newroot) is Ok <==> (s.reward.reward_root_set != 1
            || s.reward.reward_root == ctx.caller),
{
}

/// Shutting the reward program down takes its coin back: afterwards the
/// program is off with a balance of 0, so another shutdown pays nothing and
/// is refused.
pub proof fn law_shut_down_empties_reward_program(s: StorageView, ctx: CallContext, later: CallContext)
    requires
        shut_down_reward_step(s, ctx) is Ok,
    ensures
        next_state(s, shut_down_reward_step(s, ctx)).reward.reward_on == 0,
        next_state(s, shut_down_reward_step(s, ctx)).reward.reward_balance == 0,
        shut_down_reward_step(next_state(s, shut_down_reward_step(s, ctx)), later) is Err,
{
}

/// A username belongs to the first account that takes it: after an update of
/// settings, the caller owns its username, and every username that another
/// account owned stays with it.
pub proof fn law_usernames_stay_with_owner(
    s: StorageView,
    ctx: CallContext,
    username: Seq<u8>,
    interests: Seq<u8>,
    inbox_fee: u128,
    hide_from_search: bool,
    other_name: Seq<u8>,
)
    ensures
        ({
            let step = update_settings_step(s, ctx, username, interests, inbox_fee, hide_from_search);
            let next = next_state(s, step);
            &&& step is Ok ==> next.username_map.contains_key(username) && next.username_map[username] == ctx.caller
            &&& (s.username_map.contains_key(other_name) && s.username_map[other_name] != ctx.caller)
                ==> next.username_map.contains_key(other_name) && next.username_map[other_name] == s.username_map[other_name]
        }),
{
}

/// Settings change at most once a day: after an update at time `t`, another
/// update by the same account before `t + 86,400,000` ms is refused.
pub proof fn law_settings_update_once_a_day(
    s: StorageView,
    ctx: CallContext,
    username: Seq<u8>,
    interests: Seq<u8>,
    inbox_fee: u128,
    hide_from_search: bool,
    later: CallContext,
    username2: Seq<u8>,
    interests2: Seq<u8>,
    inbox_fee2: u128,
    hide_from_search2: bool,
)
    requires
        update_settings_step(s, ctx, username, interests, inbox_fee, hide_from_search) is Ok,
        later.caller == ctx.caller,
        later.block_timestamp - ctx.block_timestamp < 86400000,
        username2.len() <= 100,
        interests2.len() <= 600,
    ensures
        update_settings_step(
            next_state(s, update_settings_step(s, ctx, username, interests, inbox_fee, hide_from_search)),
            later,
            username2,
            interests2,
            inbox_fee2,
            hide_from_search2,
        ) == Err::<(StorageView, Seq<crate::types::ActionView>), Error>(Error::CannotUpdateInterestsWithin24Hours),
{
}

/// Group names are unique: once a group is made, making another group of
/// the same name is refused, whoever asks.
pub proof fn law_group_names_unique(
    s: StorageView,
    ctx: CallContext,
    name: Seq<u8>,
    hide: bool,
    description: Seq<u8>,
    first_message: Seq<u8>,
    file_url: Seq<u8>,
    other: CallContext,
    hide2: bool,
    description2: Seq<u8>,
    first_message2: Seq<u8>,
    file_url2: Seq<u8>,
)
    requires
        make_a_new_group_step(s, ctx, name, hide, description, first_message, file_url) is Ok,
        description2.len() <= 600,
        first_message2.len() <= 600,
        file_url2.len() <= 600,
        next_state(s, make_a_new_group_step(s, ctx, name, hide, description, first_message, file_url))
            .groups_of(other.caller).len() < 15,
    ensures
        make_a_new_group_step(
            next_state(s, make_a_new_group_step(s, ctx, name, hide, description, first_message, file_url)),
            other,
            name,
            hide2,
            description2,
            first_message2,
            file_url2,
        ) == Err::<(StorageView, Seq<crate::types::ActionView>), Error>(Error::GroupNameTaken),
{
}

/// List names are unique while the list exists: once a list is made, making
/// another list of the same name is refused, whoever asks.
pub proof fn law_list_names_unique(
    s: StorageView,
    ctx: CallContext,
    name: Seq<u8>,
    hide: bool,
    description: Seq<u8>,
    other: CallContext,
    hide2: bool,
    description2: Seq<u8>,
)
    requires
        make_a_new_list_step(s, ctx, name, hide, description) is Ok,
        description2.len() <= 600,
        next_state(s, make_a_new_list_step(s, ctx, name, hide, description)).owned_lists_of(other.caller).len() < 20,
        next_state(s, make_a_new_list_step(s, ctx, name, hide, description)).lists_of(other.caller).len() < 20,
    ensures
        make_a_new_list_step(
            next_state(s, make_a_new_list_step(s, ctx, name, hide, description)),
            other,
            name,
            hide2,
            description2,
        ) == Err::<(StorageView, Seq<crate::types::ActionView>), Error>(Error::ListNameTaken),
{
}

/// Removing from `s` the items equal to `x` leaves `s` when it holds none.
proof fn lemma_without_absent<T>(s: Seq<T>, x: T)
    requires
        !s.contains(x),
    ensures
        without(s, x) == s,
    decreases s.len(),
{
    reveal_with_fuel(Seq::filter, 1);
    if s.len() > 0 {
        assert(!s.drop_last().contains(x)) by {
            if s.drop_last().contains(x) {
                let i = choose|i: int| 0 <= i < s.drop_last().len() && s.drop_last()[i] == x;
                assert(s[i] == x);
            }
        }
        lemma_without_absent(s.drop_last(), x);
        assert(s.drop_last().push(s.last()) =~= s);
        assert(s.last() != x) by {
            assert(s[s.len() - 1] == s.last());
        }
    }
}

/// Pushing `x` and then removing every `x` gives back `s` when it held none.
proof fn lemma_push_then_without<T>(s: Seq<T>, x: T)
    requires
        !s.contains(x),
    ensures
        without(s.push(x), x) == s,
{
    reveal_with_fuel(Seq::filter, 1);
    assert(s.push(x).drop_last() =~= s);
    lemma_without_absent(s, x);
}

/// Allowing an account and then disallowing it gives back the list of
/// allowed accounts, and leaves the rest of the state as it was.
pub proof fn law_allow_then_disallow(s: StorageView, caller: AccountId, other: AccountId)
    requires
        !s.allowed_of(caller).contains(other),
        allow_account_step(s, caller, seq![other]) is Ok,
    ensures
        ({
            let s1 = next_state(s, allow_account_step(s, caller, seq![other]));
            let step = disallow_account_step(s1, caller, other);
            &&& step is Ok
            &&& next_state(s1, step) == StorageView {
                account_allowed: s.account_allowed.insert(caller, s.allowed_of(caller)),
                ..s
            }
        }),
{
    let cur = s.allowed_of(caller);
    assert(seq![other].take(0) =~= Seq::<AccountId>::empty());
    assert(cur + seq![other] =~= cur.push(other));
    lemma_push_then_without(cur, other);
    let s1 = next_state(s, allow_account_step(s, caller, seq![other]));
    assert(s1.allowed_of(caller).contains(other)) by {
        assert(s1.allowed_of(caller)[cur.len() as int] == other);
    }
    let s2 = next_state(s1, disallow_account_step(s1, caller, other));
    assert(s2.account_allowed =~= s.account_allowed.insert(caller, cur));
}

/// Blocking an account and then unblocking it gives back the list of blocked
/// accounts, and leaves the rest of the state as it was.
pub proof fn law_block_then_unblock(s: StorageView, caller: AccountId, other: AccountId)
    requires
        block_account_step(s, caller, other) is Ok,
    ensures
        ({
            let s1 = next_state(s, block_account_step(s, caller, other));
            let step = unblock_account_step(s1, caller, other);
            &&& step is Ok
            &&& next_state(s1, step) == StorageView {
                account_blocked_accounts: s.account_blocked_accounts.insert(caller, s.blocked_of(caller)),
                ..s
            }
        }),
{
    let cur = s.blocked_of(caller);
    lemma_push_then_without(cur, other);
    let s1 = next_state(s, block_account_step(s, caller, other));
    assert(s1.blocked_of(caller).contains(other)) by {
        assert(s1.blocked_of(caller)[cur.len() as int] == other);
    }
    let s2 = next_state(s1, unblock_account_step(s1, caller, other));
    assert(s2.account_blocked_accounts =~= s.account_blocked_accounts.insert(caller, cur));
}

/// Joining a group and then leaving it gives back the caller's groups and the
/// group's details (when the caller was not among its members and its count
/// of subscribers was not at its largest); only the reward program may have
/// moved on.
pub proof fn law_join_then_leave_group(s: StorageView, ctx: CallContext, group_id: Hash32)
    requires
        join_a_group_step(s, ctx, group_id) is Ok,
        !s.group_details[group_id].group_accounts.contains(ctx.caller),
        s.group_details[group_id].subscribers < u128::MAX,
    ensures
        ({
            let s1 = next_state(s, join_a_group_step(s, ctx, group_id));
            let step = leave_a_group_step(s1, ctx.caller, group_id);
            &&& step is Ok
            &&& next_state(s1, step) == StorageView {
                account_subscribed_groups: s.account_subscribed_groups.insert(ctx.caller, s.groups_of(ctx.caller)),
                reward: s1.reward,
                ..s
            }
        }),
{
    let caller = ctx.caller;
    let mine = s.groups_of(caller);
    let g = s.group_details[group_id];
    lemma_push_then_without(mine, group_id);
    lemma_push_then_without(g.group_accounts, caller);
    lemma_without_absent(g.group_accounts, caller);
    let s1 = next_state(s, join_a_group_step(s, ctx, group_id));
    assert(s1.groups_of(caller).contains(group_id)) by {
        assert(s1.groups_of(caller)[mine.len() as int] == group_id);
    }
    let s2 = next_state(s1, leave_a_group_step(s1, caller, group_id));
    assert(s2.group_details =~= s.group_details);
    assert(s2.account_subscribed_groups =~= s.account_subscribed_groups.insert(caller, mine));
}

/// Subscribing to a list and then unsubscribing gives back the caller's
/// lists and the list's details (when its count of subscribers was not at
/// its largest); only the reward program may have moved on.
pub proof fn law_join_then_unsubscribe_list(s: StorageView, ctx: CallContext, list_id: Hash32)
    requires
        join_an_open_list_step(s, ctx, list_id) is Ok,
        s.open_list_details[list_id].list_accounts < u128::MAX,
    ensures
        ({
            let s1 = next_state(s, join_an_open_list_step(s, ctx, list_id));
            let step = unsubscribe_from_open_list_step(s1, ctx.caller, list_id);
            &&& step is Ok
            &&& next_state(s1, step) == StorageView {
                account_subscribed_lists: s.account_subscribed_lists.insert(ctx.caller, s.lists_of(ctx.caller)),
                reward: s1.reward,
                ..s
            }
        }),
{
    let caller = ctx.caller;
    let mine = s.lists_of(caller);
    lemma_push_then_without(mine, list_id);
    let s1 = next_state(s, join_an_open_list_step(s, ctx, list_id));
    assert(s1.lists_of(caller).contains(list_id)) by {
        assert(s1.lists_of(caller)[mine.len() as int] == list_id);
    }
    let s2 = next_state(s1, unsubscribe_from_open_list_step(s1, caller, list_id));
    assert(s2.open_list_details =~= s.open_list_details);
    assert(s2.account_subscribed_lists =~= s.account_subscribed_lists.insert(caller, mine));
}

/// A private conversation keeps at most three messages: a new one pushes
/// out the oldest.
pub proof fn law_private_conversation_capped(
    s: StorageView,
    ctx: CallContext,
    to: AccountId,
    message: Seq<u8>,
    file_url: Seq<u8>,
)
    requires
        send_private_message_step(s, ctx, to, message, file_url) is Ok,
        s.sent_to_account(ctx.caller, to).len() <= 3,
    ensures
        next_state(s, send_private_message_step(s, ctx, to, message, file_url)).sent_to_account(ctx.caller, to).len() <= 3,
{
}

/// A list keeps at most 15 messages: a new one pushes out the oldest.
pub proof fn law_list_messages_capped(
    s: StorageView,
    ctx: CallContext,
    list_id: Hash32,
    message: Seq<u8>,
    file_url: Seq<u8>,
)
    requires
        send_message_to_list_step(s, ctx, list_id, message, file_url) is Ok,
        s.sent_to_list(list_id).len() <= 15,
    ensures
        next_state(s, send_message_to_list_step(s, ctx, list_id, message, file_url)).sent_to_list(list_id).len() <= 15,
{
}

/// A group keeps at most 25 messages, and at most 25 from each sender: a
/// new one pushes out the oldest.
pub proof fn law_group_messages_capped(
    s: StorageView,
    ctx: CallContext,
    group_id: Hash32,
    message: Seq<u8>,
    file_url: Seq<u8>,
)
    requires
        send_message_to_group_step(s, ctx, group_id, message, file_url) is Ok,
        s.sent_to_group(ctx.caller, group_id).len() <= 25,
        s.all_to_group(group_id).len() <= 25,
    ensures
        ({
            let next = next_state(s, send_message_to_group_step(s, ctx, group_id, message, file_url));
            &&& next.sent_to_group(ctx.caller, group_id).len() <= 25
            &&& next.all_to_group(group_id).len() <= 25
        }),
{
}

/// Collecting the paid inbox pays the caller the sum of the bids and leaves
/// the inbox empty.
pub proof fn law_collecting_empties_paid_inbox(s: StorageView, ctx: CallContext)
    requires
        get_my_paid_inbox_step(s, ctx) is Ok,
    ensures
        next_state(s, get_my_paid_inbox_step(s, ctx)).paid_inbox_of(ctx.caller).len() == 0,
        forall|id: Hash32| #[trigger] s.paid_inbox_of(ctx.caller).contains(id)
            ==> !next_state(s, get_my_paid_inbox_step(s, ctx)).paid_message_details.contains_key(id),
{
}

/// A claim of the reward program moves each payout from the program's
/// balance to its payouts: their sum stays the same (while it fits in a
/// `u128`), and the counter of claims goes up by one.
pub proof fn law_reward_claim_conserves_funds(r: RewardSettings, caller: AccountId, balance: u128)
    requires
        r.reward_balance + r.reward_payouts <= u128::MAX,
    ensures
        reward_claim(r, caller, balance).0.reward_balance + reward_claim(r, caller, balance).0.reward_payouts
            == r.reward_balance + r.reward_payouts,
        reward_claim(r, caller, balance).0.claim_counter == (if r.claim_counter == u128::MAX {
            0
        } else {
            r.claim_counter + 1
        }),
{
}

/// Only its sender deletes a message to a group or to a list, and the
/// message is then gone from the group's or list's messages.
pub proof fn law_only_sender_deletes_group_and_list_messages(s: StorageView, caller: AccountId, id: Hash32)
    ensures
        delete_single_message_to_group_step(s, caller, id) is Ok ==> {
            let next = next_state(s, delete_single_message_to_group_step(s, caller, id));
            let group = s.group_message_details[id].to_list_id;
            &&& s.group_message_details[id].from_acct == caller
            &&& !next.group_message_details.contains_key(id)
            &&& !next.all_to_group(group).contains(id)
        },
        delete_single_message_to_list_step(s, caller, id) is Ok ==> {
            let next = next_state(s, delete_single_message_to_list_step(s, caller, id));
            let list = s.list_message_details[id].to_list_id;
            &&& s.list_message_details[id].from_acct == caller
            &&& !next.list_message_details.contains_key(id)
            &&& !next.sent_to_list(list).contains(id)
        },
{
    if delete_single_message_to_group_step(s, caller, id) is Ok {
        let group = s.group_message_details[id].to_list_id;
        lemma_without_removes(s.all_to_group(group), id);
    }
    if delete_single_message_to_list_step(s, caller, id) is Ok {
        let list = s.list_message_details[id].to_list_id;
        lemma_without_removes(s.sent_to_list(list), id);
    }
}

/// Removing every `x` leaves none.
proof fn lemma_without_removes<T>(s: Seq<T>, x: T)
    ensures
        !without(s, x).contains(x),
{
    let p = |y: T| y != x;
    s.filter_lemma(p);
    if without(s, x).contains(x) {
        let i = choose|i: int| 0 <= i < without(s, x).len() && without(s, x)[i] == x;
        assert(p(without(s, x)[i]));
    }
}

/// A message sent to a group can be read back by every member: in each
/// member's inbox of groups, the group's messages end with the new one.
pub proof fn law_group_message_reaches_members(
    s: StorageView,
    ctx: CallContext,
    group_id: Hash32,
    message: Seq<u8>,
    file_url: Seq<u8>,
    member: AccountId,
)
    requires
        send_message_to_group_step(s, ctx, group_id, message, file_url) is Ok,
        s.groups_of(member).contains(group_id),
    ensures
        ({
            let next = next_state(s, send_message_to_group_step(s, ctx, group_id, message, file_url));
            let inbox = inbox_groups_of(next, member);
            exists|k: int|
                0 <= k < inbox.len() && #[trigger] inbox[k].allowed_list == group_id
                    && inbox[k].list_messages.last() == (ListMessageDetailsView {
                    message_id: target_message_hash(ctx.caller, group_id, message, ctx.block_timestamp),
                    from_acct: ctx.caller,
                    username: s.settings_of(ctx.caller).username,
                    to_list_id: group_id,
                    to_list_name: s.group_of(group_id).group_name,
                    message,
                    file_url,
                    timestamp: ctx.block_timestamp,
                })
        }),
{
    let next = next_state(s, send_message_to_group_step(s, ctx, group_id, message, file_url));
    assert(next.groups_of(member) == s.groups_of(member));
    let k = choose|k: int| 0 <= k < s.groups_of(member).len() && s.groups_of(member)[k] == group_id;
    let inbox = inbox_groups_of(next, member);
    assert(inbox[k] == group_inbox(next, group_id));
    let id = target_message_hash(ctx.caller, group_id, message, ctx.block_timestamp);
    assert(next.all_to_group(group_id).last() == id);
    assert(list_messages_in(next.group_message_details, next.all_to_group(group_id)).last() == next.group_message_details[id]);
    assert(inbox[k].allowed_list == group_id);
}

/// A message sent to a list can be read back by every subscriber: in each
/// subscriber's inbox of lists, the list's messages end with the new one.
pub proof fn law_list_message_reaches_subscribers(
    s: StorageView,
    ctx: CallContext,
    list_id: Hash32,
    message: Seq<u8>,
    file_url: Seq<u8>,
    subscriber: AccountId,
)
    requires
        send_message_to_list_step(s, ctx, list_id, message, file_url) is Ok,
        s.lists_of(subscriber).contains(list_id),
    ensures
        ({
            let next = next_state(s, send_message_to_list_step(s, ctx, list_id, message, file_url));
            let inbox = inbox_lists_of(next, subscriber).0;
            exists|k: int|
                0 <= k < inbox.len() && #[trigger] inbox[k].allowed_list == list_id
                    && inbox[k].list_messages.last() == (ListMessageDetailsView {
                    message_id: target_message_hash(ctx.caller, list_id, message, ctx.block_timestamp),
                    from_acct: ctx.caller,
                    username: s.settings_of(ctx.caller).username,
                    to_list_id: list_id,
                    to_list_name: s.list_of(list_id).list_name,
                    message,
                    file_url,
                    timestamp: ctx.block_timestamp,
                })
        }),
{
    let next = next_state(s, send_message_to_list_step(s, ctx, list_id, message, file_url));
    let lists = next.lists_of(subscriber);
    assert(lists == s.lists_of(subscriber));
    let p = |l: Hash32| next.open_list_details.contains_key(l);
    assert(next.open_list_details.contains_key(list_id));
    let j = choose|j: int| 0 <= j < lists.len() && lists[j] == list_id;
    lists.lemma_filter_contains(p, j);
    let filtered = lists.filter(p);
    let k = choose|k: int| 0 <= k < filtered.len() && filtered[k] == list_id;
    let inbox = inbox_lists_of(next, subscriber).0;
    assert(inbox == filtered.map_values(|l: Hash32| list_inbox(next, l)));
    assert(inbox[k] == list_inbox(next, list_id));
    let id = target_message_hash(ctx.caller, list_id, message, ctx.block_timestamp);
    assert(next.sent_to_list(list_id).last() == id);
    assert(list_messages_in(next.list_message_details, next.sent_to_list(list_id)).last() == next.list_message_details[id]);
    assert(inbox[k].allowed_list == list_id);
}

/// What remains after removing every `x` is in `s` and differs from `x`.
proof fn lemma_in_without<T>(s: Seq<T>, x: T, y: T)
    requires
        without(s, x).contains(y),
    ensures
        s.contains(y),
        y != x,
{
    let p = |z: T| z != x;
    s.lemma_filter_contains_rev(p, y);
    let i = choose|i: int| 0 <= i < without(s, x).len() && without(s, x)[i] == y;
    s.lemma_filter_pred(p, i);
}

/// Every message in a group's list has its details stored, and sending a
/// message to the group keeps it so: a message that leaves the details also
/// leaves the group's list.
pub proof fn law_group_list_keeps_details(
    s: StorageView,
    ctx: CallContext,
    group_id: Hash32,
    message: Seq<u8>,
    file_url: Seq<u8>,
)
    requires
        send_message_to_group_step(s, ctx, group_id, message, file_url) is Ok,
        forall|id: Hash32| #[trigger] s.all_to_group(group_id).contains(id) ==> s.group_message_details.contains_key(id),
    ensures
        ({
            let next = next_state(s, send_message_to_group_step(s, ctx, group_id, message, file_url));
            forall|id: Hash32| #[trigger] next.all_to_group(group_id).contains(id) ==> next.group_message_details.contains_key(id)
        }),
{
    let next = next_state(s, send_message_to_group_step(s, ctx, group_id, message, file_url));
    let caller = ctx.caller;
    let mine = s.sent_to_group(caller, group_id);
    let all0 = s.all_to_group(group_id);
    let s1_all = if mine.len() > 24 { without(all0, mine[0]) } else { all0 };
    let s1_details = if mine.len() > 24 { s.group_message_details.remove(mine[0]) } else { s.group_message_details };
    assert forall|id: Hash32| #[trigger] s1_all.contains(id) implies s1_details.contains_key(id) by {
        if mine.len() > 24 {
            lemma_in_without(all0, mine[0], id);
        }
    }
    let kept = if s1_all.len() > 24 { s1_all.drop_first() } else { s1_all };
    let mid = target_message_hash(caller, group_id, message, ctx.block_timestamp);
    assert(next.all_to_group(group_id) == kept.push(mid));
    assert forall|id: Hash32| #[trigger] next.all_to_group(group_id).contains(id) implies next.group_message_details.contains_key(id) by {
        if id != mid {
            let k = choose|k: int| 0 <= k < kept.push(mid).len() && kept.push(mid)[k] == id;
            assert(kept[k] == id);
            if s1_all.len() > 24 {
                assert(s1_all[k + 1] == id);
            }
            assert(s1_all.contains(id));
        }
    }
}

/// Deleting a list takes its messages and their details with it.
pub proof fn law_deleted_list_takes_its_messages(s: StorageView, caller: AccountId, list_id: Hash32)
    requires
        delete_an_open_list_step(s, caller, list_id) is Ok,
    ensures
        ({
            let next = next_state(s, delete_an_open_list_step(s, caller, list_id));
            &&& !next.open_list_details.contains_key(list_id)
            &&& next.sent_to_list(list_id).len() == 0
            &&& forall|id: Hash32| #[trigger] s.sent_to_list(list_id).contains(id) ==> !next.list_message_details.contains_key(id)
        }),
{
}


/// When a full paid inbox admits a new bid, the message that leaves is the
/// first one holding the lowest bid of the inbox (no message has a lower bid,
/// none before it an equal one), the new message ends the inbox, and when
/// the contract can afford the refund (more than that bid plus 11), the first
/// action refunds that bid to that message's sender.
pub proof fn law_paid_inbox_evicts_lowest_bid(
    s: StorageView,
    ctx: CallContext,
    to: AccountId,
    message: Seq<u8>,
    file_url: Seq<u8>,
)
    requires
        send_paid_message_step(s, ctx, to, message, file_url) is Ok,
        s.paid_inbox_of(to).len() >= 400,
        exists|i: int|
            0 <= i < s.paid_inbox_of(to).len() && ctx.transferred_value > #[trigger] s.paid_message_of(
                s.paid_inbox_of(to)[i],
            ).bid,
    ensures
        ({
            let inbox = s.paid_inbox_of(to);
            let step = send_paid_message_step(s, ctx, to, message, file_url);
            let acts = step_answer(step)->Ok_0;
            let id = sender_message_hash(ctx.caller, message, ctx.block_timestamp);
            exists|r: int|
                #![trigger inbox[r]]
                0 <= r < inbox.len()
                    && (forall|j: int| 0 <= j < inbox.len()
                        ==> s.paid_message_of(inbox[r]).bid <= #[trigger] s.paid_message_of(inbox[j]).bid)
                    && (forall|j: int| 0 <= j < r
                        ==> s.paid_message_of(inbox[r]).bid < #[trigger] s.paid_message_of(inbox[j]).bid)
                    && next_state(s, step).paid_inbox_of(to) == inbox.remove(r).push(id)
                    && (ctx.balance > s.paid_message_of(inbox[r]).bid + 11 ==> acts.len() > 0 && acts[0]
                        == (ActionView::Transfer {
                        to: s.paid_message_of(inbox[r]).from_acct,
                        amount: s.paid_message_of(inbox[r]).bid,
                    }))
        }),
{
    let inbox = s.paid_inbox_of(to);
    let bids = bids_of(s, inbox);
    lemma_first_lowest_exists(bids);
    let low = first_lowest(bids);
    assert forall|j: int| 0 <= j < inbox.len() implies s.paid_message_of(inbox[low]).bid
        <= #[trigger] s.paid_message_of(inbox[j]).bid by {
        assert(bids[j] == s.paid_message_of(inbox[j]).bid);
    }
    assert forall|j: int| 0 <= j < low implies s.paid_message_of(inbox[low]).bid
        < #[trigger] s.paid_message_of(inbox[j]).bid by {
        assert(bids[j] == s.paid_message_of(inbox[j]).bid);
    }
    let i = choose|i: int|
        0 <= i < inbox.len() && ctx.transferred_value > #[trigger] s.paid_message_of(inbox[i]).bid;
    assert(bids[i] == s.paid_message_of(inbox[i]).bid);
    assert(bids[low] == s.paid_message_of(inbox[low]).bid);
    assert(inbox[low] == inbox[low]);
}


/// Your private inbox holds one conversation for each account you allow, in
/// the order you allowed them; the conversation with `other` is your stored
/// messages to `other`, oldest first, followed by `other`'s messages to you,
/// oldest first.
pub proof fn law_inbox_conversation_both_ways(s: StorageView, caller: AccountId)
    ensures
        inbox_of(s, caller).len() == s.allowed_of(caller).len(),
        forall|k: int|
            #![trigger inbox_of(s, caller)[k]]
            0 <= k < s.allowed_of(caller).len() ==> {
                let other = s.allowed_of(caller)[k];
                let conv = inbox_of(s, caller)[k].conversation;
                let mine = s.sent_to_account(caller, other);
                let theirs = s.sent_to_account(other, caller);
                &&& inbox_of(s, caller)[k].allowed_account == other
                &&& conv.len() == mine.len() + theirs.len()
                &&& forall|i: int| 0 <= i < mine.len() ==> #[trigger] conv[i] == s.message_of(mine[i])
                &&& forall|i: int|
                    0 <= i < theirs.len() ==> #[trigger] conv[mine.len() + i] == s.message_of(theirs[i])
            },
{
    assert forall|k: int| #![trigger inbox_of(s, caller)[k]] 0 <= k < s.allowed_of(caller).len() implies {
        let other = s.allowed_of(caller)[k];
        let conv = inbox_of(s, caller)[k].conversation;
        let mine = s.sent_to_account(caller, other);
        let theirs = s.sent_to_account(other, caller);
        &&& inbox_of(s, caller)[k].allowed_account == other
        &&& conv.len() == mine.len() + theirs.len()
        &&& forall|i: int| 0 <= i < mine.len() ==> #[trigger] conv[i] == s.message_of(mine[i])
        &&& forall|i: int| 0 <= i < theirs.len() ==> #[trigger] conv[mine.len() + i] == s.message_of(theirs[i])
    } by {
        let other = s.allowed_of(caller)[k];
        assert(inbox_of(s, caller)[k] == conversation_with(s, caller, other));
        let conv = inbox_of(s, caller)[k].conversation;
        let mine = s.sent_to_account(caller, other);
        let theirs = s.sent_to_account(other, caller);
        assert forall|i: int| 0 <= i < theirs.len() implies #[trigger] conv[mine.len() + i] == s.message_of(theirs[i]) by {
            assert(conv[mine.len() + i] == messages_of(s, theirs)[i]);
        }
    }
}

/// A private message you send shows in your own inbox too: after it, the
/// conversation with the recipient (when you allow it) holds the message you
/// sent, with its details.
pub proof fn law_sender_sees_own_message(
    s: StorageView,
    ctx: CallContext,
    to: AccountId,
    message: Seq<u8>,
    file_url: Seq<u8>,
)
    requires
        send_private_message_step(s, ctx, to, message, file_url) is Ok,
    ensures
        ({
            let next = next_state(s, send_private_message_step(s, ctx, to, message, file_url));
            let inbox = inbox_of(next, ctx.caller);
            forall|k: int|
                0 <= k < inbox.len() && #[trigger] inbox[k].allowed_account == to ==> inbox[k].conversation.contains(
                    MessageDetailsView {
                        message_id: account_message_hash(ctx.caller, to, message, ctx.block_timestamp),
                        from_acct: ctx.caller,
                        from_username: s.settings_of(ctx.caller).username,
                        to_acct: to,
                        message,
                        file_url,
                        timestamp: ctx.block_timestamp,
                    },
                )
        }),
{
    let next = next_state(s, send_private_message_step(s, ctx, to, message, file_url));
    let caller = ctx.caller;
    let id = account_message_hash(caller, to, message, ctx.block_timestamp);
    let inbox = inbox_of(next, caller);
    let mine = next.sent_to_account(caller, to);
    assert(mine.last() == id);
    law_inbox_conversation_both_ways(next, caller);
    assert forall|k: int| 0 <= k < inbox.len() && #[trigger] inbox[k].allowed_account == to implies inbox[k].conversation.contains(
        next.message_of(id),
    ) by {
        let conv = inbox[k].conversation;
        assert(next.allowed_of(caller)[k] == to);
        assert(conv[mine.len() - 1] == next.message_of(mine[mine.len() - 1]));
    }
}


/// A keyword search of the groups answers exactly the public groups in
/// which every one of the three keywords occurs, in the name or in the
/// description: each result is a stored group that is not hidden and whose
/// name or description holds `k1`, `k2` and `k3`, and each such group is
/// among the results.
pub proof fn law_group_search_needs_every_keyword(s: StorageView, k1: Seq<u8>, k2: Seq<u8>, k3: Seq<u8>)
    ensures
        ({
            let found = groups_found(s, s.groups, k1, k2, k3);
            &&& forall|i: int|
                #![trigger found[i]]
                0 <= i < found.len() ==> {
                    &&& keyword_hit(found[i].group_name, found[i].description, k1)
                    &&& keyword_hit(found[i].group_name, found[i].description, k2)
                    &&& keyword_hit(found[i].group_name, found[i].description, k3)
                    &&& exists|g: Hash32|
                        #![trigger s.group_details[g]]
                        s.groups.contains(g) && s.group_details.contains_key(g) && !s.group_details[g].hide_from_search
                            && found[i] == group_public(s.group_details[g])
                }
            &&& forall|g: Hash32|
                #![trigger s.group_details[g]]
                s.groups.contains(g) && s.group_details.contains_key(g) && !s.group_details[g].hide_from_search
                    && keyword_hit(s.group_details[g].group_name, s.group_details[g].description, k1)
                    && keyword_hit(s.group_details[g].group_name, s.group_details[g].description, k2)
                    && keyword_hit(s.group_details[g].group_name, s.group_details[g].description, k3)
                    ==> found.contains(group_public(s.group_details[g]))
        }),
{
    let p = |g: Hash32| group_found(s, g, k1, k2, k3);
    let f = s.groups.filter(p);
    let found = groups_found(s, s.groups, k1, k2, k3);
    assert(found == f.map_values(|g: Hash32| group_public(s.group_details[g])));
    assert forall|i: int| #![trigger found[i]] 0 <= i < found.len() implies {
        &&& keyword_hit(found[i].group_name, found[i].description, k1)
        &&& keyword_hit(found[i].group_name, found[i].description, k2)
        &&& keyword_hit(found[i].group_name, found[i].description, k3)
        &&& exists|g: Hash32|
            #![trigger s.group_details[g]]
            s.groups.contains(g) && s.group_details.contains_key(g) && !s.group_details[g].hide_from_search
                && found[i] == group_public(s.group_details[g])
    } by {
        s.groups.lemma_filter_pred(p, i);
        assert(f.contains(f[i]));
        s.groups.lemma_filter_contains_rev(p, f[i]);
        let g = f[i];
        assert(found[i] == group_public(s.group_details[g]));
    }
    assert forall|g: Hash32|
        #![trigger s.group_details[g]]
        s.groups.contains(g) && s.group_details.contains_key(g) && !s.group_details[g].hide_from_search
            && keyword_hit(s.group_details[g].group_name, s.group_details[g].description, k1)
            && keyword_hit(s.group_details[g].group_name, s.group_details[g].description, k2)
            && keyword_hit(s.group_details[g].group_name, s.group_details[g].description, k3)
        implies found.contains(group_public(s.group_details[g])) by {
        let j = choose|j: int| 0 <= j < s.groups.len() && s.groups[j] == g;
        assert(p(s.groups[j]));
        s.groups.lemma_filter_contains(p, j);
        let k = choose|k: int| 0 <= k < f.len() && f[k] == g;
        assert(found[k] == group_public(s.group_details[g]));
    }
}

/// A keyword search of the lists answers exactly the public lists in which
/// every one of the three keywords occurs, in the name or in the
/// description: each result is a stored list that is not hidden and whose
/// name or description holds `k1`, `k2` and `k3`, and each such list is
/// among the results.
pub proof fn law_list_search_needs_every_keyword(s: StorageView, k1: Seq<u8>, k2: Seq<u8>, k3: Seq<u8>)
    ensures
        ({
            let found = lists_found(s, s.open_lists, k1, k2, k3);
            &&& forall|i: int|
                #![trigger found[i]]
                0 <= i < found.len() ==> {
                    &&& keyword_hit(found[i].list_name, found[i].description, k1)
                    &&& keyword_hit(found[i].list_name, found[i].description, k2)
                    &&& keyword_hit(found[i].list_name, found[i].description, k3)
                    &&& exists|l: Hash32|
                        #![trigger s.open_list_details[l]]
                        s.open_lists.contains(l) && s.open_list_details.contains_key(l)
                            && !s.open_list_details[l].hide_from_search && found[i] == s.open_list_details[l].public()
                }
            &&& forall|l: Hash32|
                #![trigger s.open_list_details[l]]
                s.open_lists.contains(l) && s.open_list_details.contains_key(l) && !s.open_list_details[l].hide_from_search
                    && keyword_hit(s.open_list_details[l].list_name, s.open_list_details[l].description, k1)
                    && keyword_hit(s.open_list_details[l].list_name, s.open_list_details[l].description, k2)
                    && keyword_hit(s.open_list_details[l].list_name, s.open_list_details[l].description, k3)
                    ==> found.contains(s.open_list_details[l].public())
        }),
{
    let p = |l: Hash32| list_found(s, l, k1, k2, k3);
    let f = s.open_lists.filter(p);
    let found = lists_found(s, s.open_lists, k1, k2, k3);
    assert(found == f.map_values(|l: Hash32| s.open_list_details[l].public()));
    assert forall|i: int| #![trigger found[i]] 0 <= i < found.len() implies {
        &&& keyword_hit(found[i].list_name, found[i].description, k1)
        &&& keyword_hit(found[i].list_name, found[i].description, k2)
        &&& keyword_hit(found[i].list_name, found[i].description, k3)
        &&& exists|l: Hash32|
            #![trigger s.open_list_details[l]]
            s.open_lists.contains(l) && s.open_list_details.contains_key(l) && !s.open_list_details[l].hide_from_search
                && found[i] == s.open_list_details[l].public()
    } by {
        s.open_lists.lemma_filter_pred(p, i);
        assert(f.contains(f[i]));
        s.open_lists.lemma_filter_contains_rev(p, f[i]);
        let l = f[i];
        assert(found[i] == s.open_list_details[l].public());
    }
    assert forall|l: Hash32|
        #![trigger s.open_list_details[l]]
        s.open_lists.contains(l) && s.open_list_details.contains_key(l) && !s.open_list_details[l].hide_from_search
            && keyword_hit(s.open_list_details[l].list_name, s.open_list_details[l].description, k1)
            && keyword_hit(s.open_list_details[l].list_name, s.open_list_details[l].description, k2)
            && keyword_hit(s.open_list_details[l].list_name, s.open_list_details[l].description, k3)
        implies found.contains(s.open_list_details[l].public()) by {
        let j = choose|j: int| 0 <= j < s.open_lists.len() && s.open_lists[j] == l;
        assert(p(s.open_lists[j]));
        s.open_lists.lemma_filter_contains(p, j);
        let k = choose|k: int| 0 <= k < f.len() && f[k] == l;
        assert(found[k] == s.open_list_details[l].public());
    }
}


/// Leaving a group takes exactly that group out of your groups: afterwards
/// you are not in it, and you are in every other group you were in, and in
/// no new one.
pub proof fn law_leaving_takes_out_only_that_group(s: StorageView, caller: AccountId, group_id: Hash32)
    requires
        leave_a_group_step(s, caller, group_id) is Ok,
    ensures
        ({
            let after = next_state(s, leave_a_group_step(s, caller, group_id)).groups_of(caller);
            &&& s.groups_of(caller).contains(group_id)
            &&& !after.contains(group_id)
            &&& forall|h: Hash32| h != group_id ==> (#[trigger] after.contains(h) <==> s.groups_of(caller).contains(h))
        }),
{
    let mine = s.groups_of(caller);
    let after = next_state(s, leave_a_group_step(s, caller, group_id)).groups_of(caller);
    lemma_without_removes(mine, group_id);
    assert forall|h: Hash32| h != group_id implies (#[trigger] after.contains(h) <==> mine.contains(h)) by {
        if after.contains(h) {
            lemma_in_without(mine, group_id, h);
        }
        if mine.contains(h) {
            let j = choose|j: int| 0 <= j < mine.len() && mine[j] == h;
            mine.lemma_filter_contains(|z: Hash32| z != group_id, j);
        }
    }
}


/// Whether an action, if it pays out or announces a reward, does so to `who`.
pub open spec fn pays_only(action: ActionView, who: AccountId) -> bool {
    match action {
        ActionView::Transfer { to, .. } => to == who,
        ActionView::AccountRewardedMessaging { claimant, .. } => claimant == who,
        _ => true,
    }
}

/// Whether every transfer and every reward announcement among `actions` goes to `who`.
pub open spec fn rewards_go_to(actions: Seq<ActionView>, who: AccountId) -> bool {
    forall|i: int| 0 <= i < actions.len() ==> pays_only(#[trigger] actions[i], who)
}

/// A claim of the reward program by `caller` keeps the actions before it and
/// adds only actions that pay `caller`.
proof fn lemma_claim_pays_claimant(s: StorageView, caller: AccountId, balance: u128, actions: Seq<ActionView>)
    ensures
        ({
            let out = after_claim(s, caller, balance, actions).1;
            &&& out.len() >= actions.len()
            &&& forall|i: int| 0 <= i < actions.len() ==> #[trigger] out[i] == actions[i]
            &&& forall|i: int| actions.len() <= i < out.len() ==> pays_only(#[trigger] out[i], caller)
        }),
{
    let out = after_claim(s, caller, balance, actions).1;
    let paid = reward_claim(s.reward, caller, balance).1;
    assert(out == actions + paid);
    assert forall|i: int| actions.len() <= i < out.len() implies pays_only(#[trigger] out[i], caller) by {
        assert(out[i] == paid[i - actions.len()]);
    }
}

/// The reward of a claim goes to the account that makes it: sending a
/// private, group or list message, making or joining a group or a list, and
/// sending a paid message pay and announce rewards only to their caller. The
/// one other payment, a paid message's refund, comes first and goes to the
/// sender of a lowest bid of the recipient's full paid inbox, for that bid.
pub proof fn law_rewards_go_to_the_caller(
    s: StorageView,
    ctx: CallContext,
    to: AccountId,
    id: Hash32,
    name: Seq<u8>,
    hide: bool,
    description: Seq<u8>,
    message: Seq<u8>,
    file_url: Seq<u8>,
)
    ensures
        send_private_message_step(s, ctx, to, message, file_url) is Ok ==> rewards_go_to(
            step_answer(send_private_message_step(s, ctx, to, message, file_url))->Ok_0,
            ctx.caller,
        ),
        send_message_to_group_step(s, ctx, id, message, file_url) is Ok ==> rewards_go_to(
            step_answer(send_message_to_group_step(s, ctx, id, message, file_url))->Ok_0,
            ctx.caller,
        ),
        send_message_to_list_step(s, ctx, id, message, file_url) is Ok ==> rewards_go_to(
            step_answer(send_message_to_list_step(s, ctx, id, message, file_url))->Ok_0,
            ctx.caller,
        ),
        make_a_new_group_step(s, ctx, name, hide, description, message, file_url) is Ok ==> rewards_go_to(
            step_answer(make_a_new_group_step(s, ctx, name, hide, description, message, file_url))->Ok_0,
            ctx.caller,
        ),
        make_a_new_list_step(s, ctx, name, hide, description) is Ok ==> rewards_go_to(
            step_answer(make_a_new_list_step(s, ctx, name, hide, description))->Ok_0,
            ctx.caller,
        ),
        join_a_group_step(s, ctx, id) is Ok ==> rewards_go_to(step_answer(join_a_group_step(s, ctx, id))->Ok_0, ctx.caller),
        join_an_open_list_step(s, ctx, id) is Ok ==> rewards_go_to(
            step_answer(join_an_open_list_step(s, ctx, id))->Ok_0,
            ctx.caller,
        ),
        send_paid_message_step(s, ctx, to, message, file_url) is Ok ==> ({
            let acts = step_answer(send_paid_message_step(s, ctx, to, message, file_url))->Ok_0;
            let inbox = s.paid_inbox_of(to);
            forall|i: int|
                0 <= i < acts.len() ==> match #[trigger] acts[i] {
                    ActionView::Transfer { to: payee, amount } => payee == ctx.caller || (i == 0 && inbox.len() >= 400
                        && exists|r: int|
                        #![trigger inbox[r]]
                        0 <= r < inbox.len() && (forall|j: int|
                            0 <= j < inbox.len() ==> s.paid_message_of(inbox[r]).bid
                                <= #[trigger] s.paid_message_of(inbox[j]).bid) && payee == s.paid_message_of(
                            inbox[r],
                        ).from_acct && amount == s.paid_message_of(inbox[r]).bid),
                    ActionView::AccountRewardedMessaging { claimant, .. } => claimant == ctx.caller,
                    _ => true,
                }
        }),
{
    let caller = ctx.caller;
    if send_private_message_step(s, ctx, to, message, file_url) is Ok {
        lemma_claim_pays_claimant(private_message_stored(s, ctx, to, message, file_url), caller, ctx.balance, Seq::empty());
    }
    if send_message_to_group_step(s, ctx, id, message, file_url) is Ok {
        lemma_claim_pays_claimant(group_message_stored(s, ctx, id, message, file_url), caller, ctx.balance, Seq::empty());
    }
    if send_message_to_list_step(s, ctx, id, message, file_url) is Ok {
        lemma_claim_pays_claimant(list_message_stored(s, ctx, id, message, file_url), caller, ctx.balance, Seq::empty());
    }
    if make_a_new_group_step(s, ctx, name, hide, description, message, file_url) is Ok {
        let events = new_group_events(caller, name_hash(name), name, hide);
        lemma_claim_pays_claimant(
            group_made(s, ctx, name, hide, description, message, file_url),
            caller,
            ctx.balance,
            events,
        );
        let acts = step_answer(make_a_new_group_step(s, ctx, name, hide, description, message, file_url))->Ok_0;
        assert forall|i: int| 0 <= i < acts.len() implies pays_only(#[trigger] acts[i], caller) by {
            if i < events.len() {
                assert(acts[i] == events[i]);
            }
        }
    }
    if make_a_new_list_step(s, ctx, name, hide, description) is Ok {
        let events = new_list_events(name_hash(name), caller, name, description, hide);
        lemma_claim_pays_claimant(list_made(s, caller, name, hide, description), caller, ctx.balance, events);
        let acts = step_answer(make_a_new_list_step(s, ctx, name, hide, description))->Ok_0;
        assert forall|i: int| 0 <= i < acts.len() implies pays_only(#[trigger] acts[i], caller) by {
            if i < events.len() {
                assert(acts[i] == events[i]);
            }
        }
    }
    if join_a_group_step(s, ctx, id) is Ok {
        let mine = s.groups_of(caller);
        let g = s.group_details[id];
        let joined = GroupDetailsView {
            group_accounts: if g.group_accounts.len() < 10 {
                g.group_accounts.push(caller)
            } else {
                g.group_accounts
            },
            subscribers: sat_add(g.subscribers, 1),
            ..g
        };
        lemma_claim_pays_claimant(
            StorageView {
                account_subscribed_groups: s.account_subscribed_groups.insert(caller, mine.push(id)),
                group_details: s.group_details.insert(id, joined),
                ..s
            },
            caller,
            ctx.balance,
            Seq::empty(),
        );
    }
    if join_an_open_list_step(s, ctx, id) is Ok {
        let mine = s.lists_of(caller);
        let l = s.open_list_details[id];
        lemma_claim_pays_claimant(
            StorageView {
                account_subscribed_lists: s.account_subscribed_lists.insert(caller, mine.push(id)),
                open_list_details: s.open_list_details.insert(
                    id,
                    OpenListDetailsView { list_accounts: sat_add(l.list_accounts, 1), ..l },
                ),
                ..s
            },
            caller,
            ctx.balance,
            Seq::empty(),
        );
    }
    if send_paid_message_step(s, ctx, to, message, file_url) is Ok {
        let (stored, refunds, balance) = paid_message_stored(s, ctx, to, message, file_url);
        lemma_claim_pays_claimant(stored, caller, balance, refunds);
        let acts = step_answer(send_paid_message_step(s, ctx, to, message, file_url))->Ok_0;
        let inbox = s.paid_inbox_of(to);
        if refunds.len() > 0 {
            let bids = bids_of(s, inbox);
            lemma_first_lowest_exists(bids);
            let low = first_lowest(bids);
            assert forall|j: int| 0 <= j < inbox.len() implies s.paid_message_of(inbox[low]).bid
                <= #[trigger] s.paid_message_of(inbox[j]).bid by {
                assert(bids[j] == s.paid_message_of(inbox[j]).bid);
            }
            assert(acts[0] == refunds[0]);
            assert(inbox[low] == inbox[low]);
        }
        assert forall|i: int| 0 <= i < acts.len() && i >= refunds.len() implies pays_only(#[trigger] acts[i], caller) by {}
    }
}

} // verus!
