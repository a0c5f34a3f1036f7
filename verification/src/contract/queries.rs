use vstd::prelude::*;
use crate::ids::{AccountId, Hash32};
use crate::table::Table;
use crate::text::{keywords_hit, keywords_match};
use crate::types::{
    byte_views, conversation_views, copy_bytes, group_public_views, group_views, list_message_views, list_public_views,
    message_views, messages_from_list_views, open_list_views, AccountsAllowedAndBlocked, ConversationWithAccount,
    ConversationWithAccountView, GroupDetails, GroupDetailsView, GroupPublicDetails, GroupPublicDetailsView,
    GroupSearchResults, ListMessageDetails, ListMessageDetailsView, ListSearchResults, MessageDetails,
    MessageDetailsView, MessagesFromList, MessagesFromListView, MyInboxLists, OpenListDetails, OpenListDetailsView,
    OpenListPublicDetails, OpenListPublicDetailsView, Settings,
};
use super::{accounts_at, hashes_at, lookup, ContractStorage, StorageView};

verus! {

/// The private messages `ids`, with default details for those not stored.
pub open spec fn messages_of(s: StorageView, ids: Seq<Hash32>) -> Seq<MessageDetailsView> {
    ids.map_values(|id: Hash32| s.message_of(id))
}

/// The messages `ids` of a table of list or group messages, with default
/// details for those not stored.
pub open spec fn list_messages_in(m: Map<Hash32, ListMessageDetailsView>, ids: Seq<Hash32>) -> Seq<ListMessageDetailsView> {
    ids.map_values(|id: Hash32| lookup(m, id, ListMessageDetailsView::default_view()))
}

/// The conversation between `caller` and `other`: the messages from the
/// caller, then those to it, each oldest first.
pub open spec fn conversation_with(s: StorageView, caller: AccountId, other: AccountId) -> ConversationWithAccountView {
    ConversationWithAccountView {
        allowed_account: other,
        username: s.settings_of(other).username,
        conversation: messages_of(s, s.sent_to_account(caller, other)) + messages_of(s, s.sent_to_account(other, caller)),
    }
}

/// The caller's inbox: one conversation with each account it allows, in order.
pub open spec fn inbox_of(s: StorageView, caller: AccountId) -> Seq<ConversationWithAccountView> {
    s.allowed_of(caller).map_values(|other: AccountId| conversation_with(s, caller, other))
}

/// The details of the groups that the caller is in, in order.
pub open spec fn groups_details_of(s: StorageView, caller: AccountId) -> Seq<GroupDetailsView> {
    s.groups_of(caller).map_values(|g: Hash32| s.group_of(g))
}

/// The details of the lists that the caller owns, in order.
pub open spec fn owned_lists_details_of(s: StorageView, caller: AccountId) -> Seq<OpenListDetailsView> {
    s.owned_lists_of(caller).map_values(|l: Hash32| s.list_of(l))
}

/// The public details of the lists that the caller subscribes to, in order.
pub open spec fn subscribed_lists_details_of(s: StorageView, caller: AccountId) -> Seq<OpenListPublicDetailsView> {
    s.lists_of(caller).map_values(|l: Hash32| s.list_of(l).public())
}

/// The messages of a group, by its name.
pub open spec fn group_inbox(s: StorageView, group_id: Hash32) -> MessagesFromListView {
    MessagesFromListView {
        allowed_list: group_id,
        list_name: s.group_of(group_id).group_name,
        list_messages: list_messages_in(s.group_message_details, s.all_to_group(group_id)),
    }
}

/// The messages of each group that the caller is in, in order.
pub open spec fn inbox_groups_of(s: StorageView, caller: AccountId) -> Seq<MessagesFromListView> {
    s.groups_of(caller).map_values(|g: Hash32| group_inbox(s, g))
}

/// The messages of a list, by its name.
pub open spec fn list_inbox(s: StorageView, list_id: Hash32) -> MessagesFromListView {
    MessagesFromListView {
        allowed_list: list_id,
        list_name: s.list_of(list_id).list_name,
        list_messages: list_messages_in(s.list_message_details, s.sent_to_list(list_id)),
    }
}

/// The messages of each existing list that the caller subscribes to, in
/// order, and the lists that it subscribes to that no longer exist (the
/// defunct ones), in order.
pub open spec fn inbox_lists_of(s: StorageView, caller: AccountId) -> (Seq<MessagesFromListView>, Seq<Hash32>) {
    let lists = s.lists_of(caller);
    (
        lists.filter(|l: Hash32| s.open_list_details.contains_key(l)).map_values(|l: Hash32| list_inbox(s, l)),
        lists.filter(|l: Hash32| !s.open_list_details.contains_key(l)),
    )
}

/// Whether a group shows in a search for the three keywords: it exists, is
/// not hidden, and every keyword occurs in its name or description.
pub open spec fn group_found(s: StorageView, group_id: Hash32, k1: Seq<u8>, k2: Seq<u8>, k3: Seq<u8>) -> bool {
    &&& s.group_details.contains_key(group_id)
    &&& !s.group_details[group_id].hide_from_search
    &&& keywords_hit(s.group_details[group_id].group_name, s.group_details[group_id].description, k1, k2, k3)
}

/// What a search shows of a group.
pub open spec fn group_public(g: GroupDetailsView) -> GroupPublicDetailsView {
    GroupPublicDetailsView {
        group_id: g.group_id,
        group_name: g.group_name,
        description: g.description,
        subscribers: g.subscribers,
    }
}

/// The groups found among `ids`, in order.
pub open spec fn groups_found(s: StorageView, ids: Seq<Hash32>, k1: Seq<u8>, k2: Seq<u8>, k3: Seq<u8>) -> Seq<GroupPublicDetailsView> {
    ids.filter(|g: Hash32| group_found(s, g, k1, k2, k3)).map_values(|g: Hash32| group_public(s.group_details[g]))
}

/// Whether a list shows in a search for the three keywords.
pub open spec fn list_found(s: StorageView, list_id: Hash32, k1: Seq<u8>, k2: Seq<u8>, k3: Seq<u8>) -> bool {
    &&& s.open_list_details.contains_key(list_id)
    &&& !s.open_list_details[list_id].hide_from_search
    &&& keywords_hit(s.open_list_details[list_id].list_name, s.open_list_details[list_id].description, k1, k2, k3)
}

/// The lists found among `ids`, in order.
pub open spec fn lists_found(s: StorageView, ids: Seq<Hash32>, k1: Seq<u8>, k2: Seq<u8>, k3: Seq<u8>) -> Seq<OpenListPublicDetailsView> {
    ids.filter(|l: Hash32| list_found(s, l, k1, k2, k3)).map_values(|l: Hash32| s.open_list_details[l].public())
}

/// The messages `ids` of a table of list or group messages.
fn list_messages_from(t: &Table<Hash32, ListMessageDetails>, ids: &Vec<Hash32>) -> (r: Vec<ListMessageDetails>)
    requires
        t.wf(),
    ensures
        list_message_views(r@) == list_messages_in(t@, ids@),
{
    let mut r: Vec<ListMessageDetails> = Vec::new();
    let mut i: usize = 0;
    while i < ids.len()
        invariant
            t.wf(),
            0 <= i <= ids@.len(),
            list_message_views(r@) == list_messages_in(t@, ids@.take(i as int)),
        decreases ids@.len() - i,
    {
        let d = match t.get(&ids[i]) {
            Some(d) => d.copy(),
            None => ListMessageDetails::default(),
        };
        let ghost prev = r@;
        r.push(d);
        proof {
            assert(list_message_views(r@) =~= list_message_views(prev).push(d@));
            assert(ids@.take(i + 1) =~= ids@.take(i as int).push(ids@[i as int]));
            assert(list_messages_in(t@, ids@.take(i + 1)) =~= list_messages_in(t@, ids@.take(i as int)).push(d@));
        }
        i = i + 1;
    }
    assert(ids@.take(ids@.len() as int) =~= ids@);
    r
}

impl ContractStorage {
    /// The private messages `ids`, appended to `out`.
    fn append_messages(&self, ids: &Vec<Hash32>, out: &mut Vec<MessageDetails>)
        requires
            self.wf(),
        ensures
            message_views(final(out)@) == message_views(old(out)@) + messages_of(self@, ids@),
    {
        let ghost start = out@;
        let mut i: usize = 0;
        while i < ids.len()
            invariant
                self.wf(),
                0 <= i <= ids@.len(),
                message_views(out@) == message_views(start) + messages_of(self@, ids@.take(i as int)),
            decreases ids@.len() - i,
        {
            let d = match self.message_details.get(&ids[i]) {
                Some(d) => d.copy(),
                None => MessageDetails::default(),
            };
            let ghost prev = out@;
            out.push(d);
            proof {
                assert(message_views(out@) =~= message_views(prev).push(d@));
                assert(ids@.take(i + 1) =~= ids@.take(i as int).push(ids@[i as int]));
                assert(messages_of(self@, ids@.take(i + 1)) =~= messages_of(self@, ids@.take(i as int)).push(d@));
            }
            i = i + 1;
        }
        assert(ids@.take(ids@.len() as int) =~= ids@);
    }

    /// The caller's conversations with each account that it allows.
    pub fn get_my_inbox(&self, caller: AccountId) -> (r: Vec<ConversationWithAccount>)
        requires
            self.wf(),
        ensures
            conversation_views(r@) == inbox_of(self@, caller),
    {
        let allowed = accounts_at(&self.account_allowed, &caller);
        let mut people: Vec<ConversationWithAccount> = Vec::new();
        let mut i: usize = 0;
        while i < allowed.len()
            invariant
                self.wf(),
                allowed@ == self@.allowed_of(caller),
                0 <= i <= allowed@.len(),
                conversation_views(people@) == inbox_of(self@, caller).take(i as int),
            decreases allowed@.len() - i,
        {
            let other = allowed[i];
            let mut conversation: Vec<MessageDetails> = Vec::new();
            assert(message_views(conversation@) =~= Seq::empty());
            let from_caller = hashes_at(&self.sent_messages_to_account, &(caller, other));
            self.append_messages(&from_caller, &mut conversation);
            let to_caller = hashes_at(&self.sent_messages_to_account, &(other, caller));
            self.append_messages(&to_caller, &mut conversation);
            let username = self.username_of(&other);
            let c = ConversationWithAccount { allowed_account: other, username, conversation };
            let ghost prev = people@;
            people.push(c);
            proof {
                assert(c@ == conversation_with(self@, caller, other));
                assert(conversation_views(people@) =~= conversation_views(prev).push(c@));
                assert(inbox_of(self@, caller).take(i + 1) =~= inbox_of(self@, caller).take(i as int).push(c@));
            }
            i = i + 1;
        }
        assert(inbox_of(self@, caller).take(allowed@.len() as int) =~= inbox_of(self@, caller));
        people
    }

    /// The accounts that the caller allows and those that it blocks.
    pub fn get_my_allowed_and_blocked_accounts(&self, caller: AccountId) -> (r: AccountsAllowedAndBlocked)
        requires
            self.wf(),
        ensures
            r.allowed_accounts@ == self@.allowed_of(caller),
            r.blocked_accounts@ == self@.blocked_of(caller),
    {
        AccountsAllowedAndBlocked {
            allowed_accounts: accounts_at(&self.account_allowed, &caller),
            blocked_accounts: accounts_at(&self.account_blocked_accounts, &caller),
        }
    }

    /// The details of the groups that the caller is in.
    pub fn get_my_groups(&self, caller: AccountId) -> (r: Vec<GroupDetails>)
        requires
            self.wf(),
        ensures
            group_views(r@) == groups_details_of(self@, caller),
    {
        let ids = hashes_at(&self.account_subscribed_groups, &caller);
        let mut r: Vec<GroupDetails> = Vec::new();
        let mut i: usize = 0;
        while i < ids.len()
            invariant
                self.wf(),
                ids@ == self@.groups_of(caller),
                0 <= i <= ids@.len(),
                group_views(r@) == groups_details_of(self@, caller).take(i as int),
            decreases ids@.len() - i,
        {
            let g = match self.group_details.get(&ids[i]) {
                Some(g) => g.copy(),
                None => GroupDetails::default(),
            };
            let ghost prev = r@;
            r.push(g);
            proof {
                assert(group_views(r@) =~= group_views(prev).push(g@));
                assert(groups_details_of(self@, caller).take(i + 1) =~= groups_details_of(self@, caller).take(i as int).push(g@));
            }
            i = i + 1;
        }
        assert(groups_details_of(self@, caller).take(ids@.len() as int) =~= groups_details_of(self@, caller));
        r
    }

    /// The details of the lists that the caller owns.
    pub fn get_my_open_lists(&self, caller: AccountId) -> (r: Vec<OpenListDetails>)
        requires
            self.wf(),
        ensures
            open_list_views(r@) == owned_lists_details_of(self@, caller),
    {
        let ids = hashes_at(&self.account_owned_open_lists, &caller);
        let mut r: Vec<OpenListDetails> = Vec::new();
        let mut i: usize = 0;
        while i < ids.len()
            invariant
                self.wf(),
                ids@ == self@.owned_lists_of(caller),
                0 <= i <= ids@.len(),
                open_list_views(r@) == owned_lists_details_of(self@, caller).take(i as int),
            decreases ids@.len() - i,
        {
            let l = match self.open_list_details.get(&ids[i]) {
                Some(l) => l.copy(),
                None => OpenListDetails::default(),
            };
            let ghost prev = r@;
            r.push(l);
            proof {
                assert(open_list_views(r@) =~= open_list_views(prev).push(l@));
                assert(owned_lists_details_of(self@, caller).take(i + 1) =~= owned_lists_details_of(self@, caller).take(i as int).push(l@));
            }
            i = i + 1;
        }
        assert(owned_lists_details_of(self@, caller).take(ids@.len() as int) =~= owned_lists_details_of(self@, caller));
        r
    }

    /// The public details of the lists that the caller subscribes to.
    pub fn get_my_subscribed_lists(&self, caller: AccountId) -> (r: Vec<OpenListPublicDetails>)
        requires
            self.wf(),
        ensures
            list_public_views(r@) == subscribed_lists_details_of(self@, caller),
    {
        let ids = hashes_at(&self.account_subscribed_lists, &caller);
        let mut r: Vec<OpenListPublicDetails> = Vec::new();
        let mut i: usize = 0;
        while i < ids.len()
            invariant
                self.wf(),
                ids@ == self@.lists_of(caller),
                0 <= i <= ids@.len(),
                list_public_views(r@) == subscribed_lists_details_of(self@, caller).take(i as int),
            decreases ids@.len() - i,
        {
            let l = match self.open_list_details.get(&ids[i]) {
                Some(l) => l.public(),
                None => OpenListPublicDetails::default(),
            };
            let ghost prev = r@;
            r.push(l);
            proof {
                assert(list_public_views(r@) =~= list_public_views(prev).push(l@));
                assert(subscribed_lists_details_of(self@, caller).take(i + 1)
                    =~= subscribed_lists_details_of(self@, caller).take(i as int).push(l@));
            }
            i = i + 1;
        }
        assert(subscribed_lists_details_of(self@, caller).take(ids@.len() as int) =~= subscribed_lists_details_of(self@, caller));
        r
    }

    /// The settings of `get_settings_for`, or the default ones.
    pub fn get_account_settings_data(&self, get_settings_for: AccountId) -> (r: Settings)
        requires
            self.wf(),
        ensures
            r@ == self@.settings_of(get_settings_for),
    {
        match self.account_settings.get(&get_settings_for) {
            Some(settings) => settings.copy(),
            None => Settings::default(),
        }
    }

    /// 1 if `verify` has stored settings, else 0.
    pub fn verify_account(&self, verify: AccountId) -> (r: u8)
        requires
            self.wf(),
        ensures
            r == (if self@.account_settings.contains_key(verify) { 1u8 } else { 0u8 }),
    {
        if self.account_settings.contains(&verify) {
            1
        } else {
            0
        }
    }

    /// The messages of each group that the caller is in.
    pub fn get_my_inbox_groups(&self, caller: AccountId) -> (r: Vec<MessagesFromList>)
        requires
            self.wf(),
        ensures
            messages_from_list_views(r@) == inbox_groups_of(self@, caller),
    {
        let ids = hashes_at(&self.account_subscribed_groups, &caller);
        let mut r: Vec<MessagesFromList> = Vec::new();
        let mut i: usize = 0;
        while i < ids.len()
            invariant
                self.wf(),
                ids@ == self@.groups_of(caller),
                0 <= i <= ids@.len(),
                messages_from_list_views(r@) == inbox_groups_of(self@, caller).take(i as int),
            decreases ids@.len() - i,
        {
            let group_id = ids[i];
            let name = match self.group_details.get(&group_id) {
                Some(g) => copy_bytes(&g.group_name),
                None => Vec::new(),
            };
            let message_ids = hashes_at(&self.all_messages_to_group, &group_id);
            let list_messages = list_messages_from(&self.group_message_details, &message_ids);
            let m = MessagesFromList { allowed_list: group_id, list_name: name, list_messages };
            let ghost prev = r@;
            r.push(m);
            proof {
                assert(m@ == group_inbox(self@, group_id));
                assert(messages_from_list_views(r@) =~= messages_from_list_views(prev).push(m@));
                assert(inbox_groups_of(self@, caller).take(i + 1) =~= inbox_groups_of(self@, caller).take(i as int).push(m@));
            }
            i = i + 1;
        }
        assert(inbox_groups_of(self@, caller).take(ids@.len() as int) =~= inbox_groups_of(self@, caller));
        r
    }

    /// The messages of each existing list that the caller subscribes to.
    pub fn get_my_inbox_lists(&self, caller: AccountId) -> (r: MyInboxLists)
        requires
            self.wf(),
        ensures
            messages_from_list_views(r.lists@) == inbox_lists_of(self@, caller).0,
            r.defunct_lists@ == inbox_lists_of(self@, caller).1,
    {
        let ids = hashes_at(&self.account_subscribed_lists, &caller);
        let ghost exists_pred = |l: Hash32| self@.open_list_details.contains_key(l);
        let ghost inbox_fn = |l: Hash32| list_inbox(self@, l);
        let ghost defunct_pred = |l: Hash32| !self@.open_list_details.contains_key(l);
        let mut lists: Vec<MessagesFromList> = Vec::new();
        let mut defunct: Vec<Hash32> = Vec::new();
        let mut i: usize = 0;
        while i < ids.len()
            invariant
                self.wf(),
                ids@ == self@.lists_of(caller),
                exists_pred == (|l: Hash32| self@.open_list_details.contains_key(l)),
                inbox_fn == (|l: Hash32| list_inbox(self@, l)),
                defunct_pred == (|l: Hash32| !self@.open_list_details.contains_key(l)),
                defunct@ == ids@.take(i as int).filter(defunct_pred),
                0 <= i <= ids@.len(),
                messages_from_list_views(lists@) == ids@.take(i as int).filter(exists_pred).map_values(inbox_fn),
            decreases ids@.len() - i,
        {
            proof {
                reveal_with_fuel(Seq::filter, 1);
                assert(ids@.take(i + 1).drop_last() =~= ids@.take(i as int));
            }
            let list_id = ids[i];
            match self.open_list_details.get(&list_id) {
                Some(l) => {
                    let name = copy_bytes(&l.list_name);
                    let message_ids = hashes_at(&self.sent_messages_to_list, &list_id);
                    let list_messages = list_messages_from(&self.list_message_details, &message_ids);
                    let m = MessagesFromList { allowed_list: list_id, list_name: name, list_messages };
                    let ghost prev = lists@;
                    lists.push(m);
                    proof {
                        assert(m@ == list_inbox(self@, list_id));
                        assert(messages_from_list_views(lists@) =~= messages_from_list_views(prev).push(m@));
                        assert(ids@.take(i + 1).filter(exists_pred) =~= ids@.take(i as int).filter(exists_pred).push(list_id));
                        assert(ids@.take(i + 1).filter(defunct_pred) =~= ids@.take(i as int).filter(defunct_pred));
                    }
                },
                None => {
                    defunct.push(list_id);
                    proof {
                        assert(ids@.take(i + 1).filter(exists_pred) =~= ids@.take(i as int).filter(exists_pred));
                        assert(ids@.take(i + 1).filter(defunct_pred) =~= ids@.take(i as int).filter(defunct_pred).push(list_id));
                    }
                },
            }
            i = i + 1;
        }
        assert(ids@.take(ids@.len() as int) =~= ids@);
        MyInboxLists { lists, defunct_lists: defunct }
    }

    /// Searches the public groups for those whose name or description holds
    /// each of the three keywords.
    pub fn find_groups_by_keyword(&self, keywords1: Vec<u8>, keywords2: Vec<u8>, keywords3: Vec<u8>) -> (r: GroupSearchResults)
        requires
            self.wf(),
        ensures
            byte_views(r.search@) == seq![keywords1@, keywords2@, keywords3@],
            group_public_views(r.groups@) == groups_found(self@, self@.groups, keywords1@, keywords2@, keywords3@),
    {
        let ghost k1 = keywords1@;
        let ghost k2 = keywords2@;
        let ghost k3 = keywords3@;
        let ghost found = |g: Hash32| group_found(self@, g, k1, k2, k3);
        let ghost public = |g: Hash32| group_public(self@.group_details[g]);
        let mut results: Vec<GroupPublicDetails> = Vec::new();
        let mut i: usize = 0;
        while i < self.groups.len()
            invariant
                self.wf(),
                k1 == keywords1@,
                k2 == keywords2@,
                k3 == keywords3@,
                found == (|g: Hash32| group_found(self@, g, k1, k2, k3)),
                public == (|g: Hash32| group_public(self@.group_details[g])),
                0 <= i <= self@.groups.len(),
                group_public_views(results@) == self@.groups.take(i as int).filter(found).map_values(public),
            decreases self@.groups.len() - i,
        {
            proof {
                reveal_with_fuel(Seq::filter, 1);
                assert(self@.groups.take(i + 1).drop_last() =~= self@.groups.take(i as int));
            }
            let group_id = self.groups[i];
            match self.group_details.get(&group_id) {
                Some(g) => {
                    if !g.hide_from_search && keywords_match(&g.group_name, &g.description, &keywords1, &keywords2, &keywords3) {
                        let p = GroupPublicDetails {
                            group_id: g.group_id,
                            group_name: copy_bytes(&g.group_name),
                            description: copy_bytes(&g.description),
                            subscribers: g.subscribers,
                        };
                        let ghost prev = results@;
                        results.push(p);
                        proof {
                            assert(group_public_views(results@) =~= group_public_views(prev).push(p@));
                            assert(self@.groups.take(i + 1).filter(found) =~= self@.groups.take(i as int).filter(found).push(group_id));
                        }
                    }
                },
                None => {},
            }
            i = i + 1;
        }
        assert(self@.groups.take(self@.groups.len() as int) =~= self@.groups);
        let mut search: Vec<Vec<u8>> = Vec::new();
        search.push(keywords1);
        search.push(keywords2);
        search.push(keywords3);
        assert(byte_views(search@) =~= seq![k1, k2, k3]);
        GroupSearchResults { search, groups: results }
    }

    /// Searches the public lists for those whose name or description holds
    /// each of the three keywords.
    pub fn find_lists_by_keyword(&self, keywords1: Vec<u8>, keywords2: Vec<u8>, keywords3: Vec<u8>) -> (r: ListSearchResults)
        requires
            self.wf(),
        ensures
            byte_views(r.search@) == seq![keywords1@, keywords2@, keywords3@],
            list_public_views(r.lists@) == lists_found(self@, self@.open_lists, keywords1@, keywords2@, keywords3@),
    {
        let ghost k1 = keywords1@;
        let ghost k2 = keywords2@;
        let ghost k3 = keywords3@;
        let ghost found = |l: Hash32| list_found(self@, l, k1, k2, k3);
        let ghost public = |l: Hash32| self@.open_list_details[l].public();
        let mut results: Vec<OpenListPublicDetails> = Vec::new();
        let mut i: usize = 0;
        while i < self.open_lists.len()
            invariant
                self.wf(),
                k1 == keywords1@,
                k2 == keywords2@,
                k3 == keywords3@,
                found == (|l: Hash32| list_found(self@, l, k1, k2, k3)),
                public == (|l: Hash32| self@.open_list_details[l].public()),
                0 <= i <= self@.open_lists.len(),
                list_public_views(results@) == self@.open_lists.take(i as int).filter(found).map_values(public),
            decreases self@.open_lists.len() - i,
        {
            proof {
                reveal_with_fuel(Seq::filter, 1);
                assert(self@.open_lists.take(i + 1).drop_last() =~= self@.open_lists.take(i as int));
            }
            let list_id = self.open_lists[i];
            match self.open_list_details.get(&list_id) {
                Some(l) => {
                    if !l.hide_from_search && keywords_match(&l.list_name, &l.description, &keywords1, &keywords2, &keywords3) {
                        let p = l.public();
                        let ghost prev = results@;
                        results.push(p);
                        proof {
                            assert(list_public_views(results@) =~= list_public_views(prev).push(p@));
                            assert(self@.open_lists.take(i + 1).filter(found) =~= self@.open_lists.take(i as int).filter(found).push(list_id));
                        }
                    }
                },
                None => {},
            }
            i = i + 1;
        }
        assert(self@.open_lists.take(self@.open_lists.len() as int) =~= self@.open_lists);
        let mut search: Vec<Vec<u8>> = Vec::new();
        search.push(keywords1);
        search.push(keywords2);
        search.push(keywords3);
        assert(byte_views(search@) =~= seq![k1, k2, k3]);
        ListSearchResults { search, lists: results }
    }
}

} // verus!
