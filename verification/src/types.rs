use vstd::prelude::*;
use crate::ids::{AccountId, Hash32};

verus! {

/// Copies a byte vector.
pub(crate) fn copy_bytes(v: &Vec<u8>) -> (r: Vec<u8>)
    ensures
        r@ == v@,
{
    let r = v.clone();
    assert(r@ =~= v@);
    r
}

/// Copies a vector of account ids.
pub(crate) fn copy_accounts(v: &Vec<AccountId>) -> (r: Vec<AccountId>)
    ensures
        r@ == v@,
{
    let r = v.clone();
    assert(r@ =~= v@);
    r
}

/// Copies a vector of hashes.
pub(crate) fn copy_hashes(v: &Vec<Hash32>) -> (r: Vec<Hash32>)
    ensures
        r@ == v@,
{
    let r = v.clone();
    assert(r@ =~= v@);
    r
}


// ACCOUNT SETTINGS

/// The settings that an account keeps in the contract.
#[derive(Clone, Debug, PartialEq, Eq)]
pub struct Settings {
    pub user_account: AccountId,
    pub username: Vec<u8>,
    pub interests: Vec<u8>,
    pub inbox_fee: u128,
    pub hide_from_search: bool,
    pub last_update: u64,
}

pub struct SettingsView {
    pub user_account: AccountId,
    pub username: Seq<u8>,
    pub interests: Seq<u8>,
    pub inbox_fee: u128,
    pub hide_from_search: bool,
    pub last_update: u64,
}

impl View for Settings {
    type V = SettingsView;

    open spec fn view(&self) -> SettingsView {
        SettingsView {
            user_account: self.user_account,
            username: self.username@,
            interests: self.interests@,
            inbox_fee: self.inbox_fee,
            hide_from_search: self.hide_from_search,
            last_update: self.last_update,
        }
    }
}

impl SettingsView {
    pub open spec fn default_view() -> SettingsView {
        SettingsView {
            user_account: AccountId::spec_zero(),
            username: Seq::empty(),
            interests: Seq::empty(),
            inbox_fee: 0,
            hide_from_search: false,
            last_update: 0,
        }
    }
}

impl Default for Settings {
    fn default() -> (r: Settings)
        ensures
            r@ == SettingsView::default_view(),
    {
        Settings {
            user_account: AccountId::zero(),
            username: Vec::new(),
            interests: Vec::new(),
            inbox_fee: 0,
            hide_from_search: false,
            last_update: 0,
        }
    }
}

impl Settings {
    pub(crate) fn copy(&self) -> (r: Settings)
        ensures
            r@ == self@,
    {
        Settings {
            user_account: self.user_account,
            username: copy_bytes(&self.username),
            interests: copy_bytes(&self.interests),
            inbox_fee: self.inbox_fee,
            hide_from_search: self.hide_from_search,
            last_update: self.last_update,
        }
    }
}

/// Settings of many accounts, field by field.
#[derive(Clone, Debug, PartialEq, Eq, Default)]
pub struct SettingsData {
    pub interests: Vec<Vec<u8>>,
    pub inbox_fee: Vec<u128>,
    pub last_update: Vec<u64>,
}

// MESSAGES

/// A private message from one account to another.
#[derive(Clone, Debug, PartialEq, Eq)]
pub struct MessageDetails {
    pub message_id: Hash32,
    pub from_acct: AccountId,
    pub from_username: Vec<u8>,
    pub to_acct: AccountId,
    pub message: Vec<u8>,
    pub file_url: Vec<u8>,
    pub timestamp: u64,
}

pub struct MessageDetailsView {
    pub message_id: Hash32,
    pub from_acct: AccountId,
    pub from_username: Seq<u8>,
    pub to_acct: AccountId,
    pub message: Seq<u8>,
    pub file_url: Seq<u8>,
    pub timestamp: u64,
}

impl View for MessageDetails {
    type V = MessageDetailsView;

    open spec fn view(&self) -> MessageDetailsView {
        MessageDetailsView {
            message_id: self.message_id,
            from_acct: self.from_acct,
            from_username: self.from_username@,
            to_acct: self.to_acct,
            message: self.message@,
            file_url: self.file_url@,
            timestamp: self.timestamp,
        }
    }
}

impl MessageDetailsView {
    pub open spec fn default_view() -> MessageDetailsView {
        MessageDetailsView {
            message_id: Hash32::spec_zero(),
            from_acct: AccountId::spec_zero(),
            from_username: Seq::empty(),
            to_acct: AccountId::spec_zero(),
            message: Seq::empty(),
            file_url: Seq::empty(),
            timestamp: 0,
        }
    }
}

impl Default for MessageDetails {
    fn default() -> (r: MessageDetails)
        ensures
            r@ == MessageDetailsView::default_view(),
    {
        MessageDetails {
            message_id: Hash32::zero(),
            from_acct: AccountId::zero(),
            from_username: Vec::new(),
            to_acct: AccountId::zero(),
            message: Vec::new(),
            file_url: Vec::new(),
            timestamp: 0,
        }
    }
}

impl MessageDetails {
    pub(crate) fn copy(&self) -> (r: MessageDetails)
        ensures
            r@ == self@,
    {
        MessageDetails {
            message_id: self.message_id,
            from_acct: self.from_acct,
            from_username: copy_bytes(&self.from_username),
            to_acct: self.to_acct,
            message: copy_bytes(&self.message),
            file_url: copy_bytes(&self.file_url),
            timestamp: self.timestamp,
        }
    }
}

/// A message to a group or to a list.
#[derive(Clone, Debug, PartialEq, Eq)]
pub struct ListMessageDetails {
    pub message_id: Hash32,
    pub from_acct: AccountId,
    pub username: Vec<u8>,
    pub to_list_id: Hash32,
    pub to_list_name: Vec<u8>,
    pub message: Vec<u8>,
    pub file_url: Vec<u8>,
    pub timestamp: u64,
}

pub struct ListMessageDetailsView {
    pub message_id: Hash32,
    pub from_acct: AccountId,
    pub username: Seq<u8>,
    pub to_list_id: Hash32,
    pub to_list_name: Seq<u8>,
    pub message: Seq<u8>,
    pub file_url: Seq<u8>,
    pub timestamp: u64,
}

impl View for ListMessageDetails {
    type V = ListMessageDetailsView;

    open spec fn view(&self) -> ListMessageDetailsView {
        ListMessageDetailsView {
            message_id: self.message_id,
            from_acct: self.from_acct,
            username: self.username@,
            to_list_id: self.to_list_id,
            to_list_name: self.to_list_name@,
            message: self.message@,
            file_url: self.file_url@,
            timestamp: self.timestamp,
        }
    }
}

impl ListMessageDetailsView {
    pub open spec fn default_view() -> ListMessageDetailsView {
        ListMessageDetailsView {
            message_id: Hash32::spec_zero(),
            from_acct: AccountId::spec_zero(),
            username: Seq::empty(),
            to_list_id: Hash32::spec_zero(),
            to_list_name: Seq::empty(),
            message: Seq::empty(),
            file_url: Seq::empty(),
            timestamp: 0,
        }
    }
}

impl Default for ListMessageDetails {
    fn default() -> (r: ListMessageDetails)
        ensures
            r@ == ListMessageDetailsView::default_view(),
    {
        ListMessageDetails {
            message_id: Hash32::zero(),
            from_acct: AccountId::zero(),
            username: Vec::new(),
            to_list_id: Hash32::zero(),
            to_list_name: Vec::new(),
            message: Vec::new(),
            file_url: Vec::new(),
            timestamp: 0,
        }
    }
}

impl ListMessageDetails {
    pub(crate) fn copy(&self) -> (r: ListMessageDetails)
        ensures
            r@ == self@,
    {
        ListMessageDetails {
            message_id: self.message_id,
            from_acct: self.from_acct,
            username: copy_bytes(&self.username),
            to_list_id: self.to_list_id,
            to_list_name: copy_bytes(&self.to_list_name),
            message: copy_bytes(&self.message),
            file_url: copy_bytes(&self.file_url),
            timestamp: self.timestamp,
        }
    }
}

/// A message in an account's paid inbox, with the bid that the sender staked.
#[derive(Clone, Debug, PartialEq, Eq)]
pub struct PaidMessageDetails {
    pub message_id: Hash32,
    pub from_acct: AccountId,
    pub from_username: Vec<u8>,
    pub to_acct: AccountId,
    pub message: Vec<u8>,
    pub file_url: Vec<u8>,
    pub timestamp: u64,
    pub bid: u128,
}

pub struct PaidMessageDetailsView {
    pub message_id: Hash32,
    pub from_acct: AccountId,
    pub from_username: Seq<u8>,
    pub to_acct: AccountId,
    pub message: Seq<u8>,
    pub file_url: Seq<u8>,
    pub timestamp: u64,
    pub bid: u128,
}

impl View for PaidMessageDetails {
    type V = PaidMessageDetailsView;

    open spec fn view(&self) -> PaidMessageDetailsView {
        PaidMessageDetailsView {
            message_id: self.message_id,
            from_acct: self.from_acct,
            from_username: self.from_username@,
            to_acct: self.to_acct,
            message: self.message@,
            file_url: self.file_url@,
            timestamp: self.timestamp,
            bid: self.bid,
        }
    }
}

impl PaidMessageDetailsView {
    pub open spec fn default_view() -> PaidMessageDetailsView {
        PaidMessageDetailsView {
            message_id: Hash32::spec_zero(),
            from_acct: AccountId::spec_zero(),
            from_username: Seq::empty(),
            to_acct: AccountId::spec_zero(),
            message: Seq::empty(),
            file_url: Seq::empty(),
            timestamp: 0,
            bid: 0,
        }
    }
}

impl Default for PaidMessageDetails {
    fn default() -> (r: PaidMessageDetails)
        ensures
            r@ == PaidMessageDetailsView::default_view(),
    {
        PaidMessageDetails {
            message_id: Hash32::zero(),
            from_acct: AccountId::zero(),
            from_username: Vec::new(),
            to_acct: AccountId::zero(),
            message: Vec::new(),
            file_url: Vec::new(),
            timestamp: 0,
            bid: 0,
        }
    }
}

impl PaidMessageDetails {
    pub(crate) fn copy(&self) -> (r: PaidMessageDetails)
        ensures
            r@ == self@,
    {
        PaidMessageDetails {
            message_id: self.message_id,
            from_acct: self.from_acct,
            from_username: copy_bytes(&self.from_username),
            to_acct: self.to_acct,
            message: copy_bytes(&self.message),
            file_url: copy_bytes(&self.file_url),
            timestamp: self.timestamp,
            bid: self.bid,
        }
    }
}

// VECTORS OF IDS

/// A vector of accounts.
#[derive(Clone, Debug, PartialEq, Eq)]
pub struct AccountVector {
    pub accountvector: Vec<AccountId>,
}

impl View for AccountVector {
    type V = Seq<AccountId>;

    open spec fn view(&self) -> Seq<AccountId> {
        self.accountvector@
    }
}

impl Default for AccountVector {
    fn default() -> (r: AccountVector)
        ensures
            r@ == Seq::<AccountId>::empty(),
    {
        AccountVector { accountvector: Vec::new() }
    }
}

/// A vector of hashes.
#[derive(Clone, Debug, PartialEq, Eq, Default)]
pub struct HashVector {
    pub hashvector: Vec<Hash32>,
}

impl View for HashVector {
    type V = Seq<Hash32>;

    open spec fn view(&self) -> Seq<Hash32> {
        self.hashvector@
    }
}

// GROUPS

/// A group: its name, description, first members and subscriber count.
/// The first account in `group_accounts` is the group's owner.
#[derive(Clone, Debug, PartialEq, Eq)]
pub struct GroupDetails {
    pub group_id: Hash32,
    pub group_name: Vec<u8>,
    pub hide_from_search: bool,
    pub description: Vec<u8>,
    pub group_accounts: Vec<AccountId>,
    pub subscribers: u128,
}

pub struct GroupDetailsView {
    pub group_id: Hash32,
    pub group_name: Seq<u8>,
    pub hide_from_search: bool,
    pub description: Seq<u8>,
    pub group_accounts: Seq<AccountId>,
    pub subscribers: u128,
}

impl View for GroupDetails {
    type V = GroupDetailsView;

    open spec fn view(&self) -> GroupDetailsView {
        GroupDetailsView {
            group_id: self.group_id,
            group_name: self.group_name@,
            hide_from_search: self.hide_from_search,
            description: self.description@,
            group_accounts: self.group_accounts@,
            subscribers: self.subscribers,
        }
    }
}

impl GroupDetailsView {
    pub open spec fn default_view() -> GroupDetailsView {
        GroupDetailsView {
            group_id: Hash32::spec_zero(),
            group_name: Seq::empty(),
            hide_from_search: false,
            description: Seq::empty(),
            group_accounts: Seq::empty(),
            subscribers: 0,
        }
    }
}

impl Default for GroupDetails {
    fn default() -> (r: GroupDetails)
        ensures
            r@ == GroupDetailsView::default_view(),
    {
        GroupDetails {
            group_id: Hash32::zero(),
            group_name: Vec::new(),
            hide_from_search: false,
            description: Vec::new(),
            group_accounts: Vec::new(),
            subscribers: 0,
        }
    }
}

impl GroupDetails {
    pub(crate) fn copy(&self) -> (r: GroupDetails)
        ensures
            r@ == self@,
    {
        GroupDetails {
            group_id: self.group_id,
            group_name: copy_bytes(&self.group_name),
            hide_from_search: self.hide_from_search,
            description: copy_bytes(&self.description),
            group_accounts: copy_accounts(&self.group_accounts),
            subscribers: self.subscribers,
        }
    }
}

/// What a group search shows of a group.
#[derive(Clone, Debug, PartialEq, Eq, Default)]
pub struct GroupPublicDetails {
    pub group_id: Hash32,
    pub group_name: Vec<u8>,
    pub description: Vec<u8>,
    pub subscribers: u128,
}

pub struct GroupPublicDetailsView {
    pub group_id: Hash32,
    pub group_name: Seq<u8>,
    pub description: Seq<u8>,
    pub subscribers: u128,
}

impl View for GroupPublicDetails {
    type V = GroupPublicDetailsView;

    open spec fn view(&self) -> GroupPublicDetailsView {
        GroupPublicDetailsView {
            group_id: self.group_id,
            group_name: self.group_name@,
            description: self.description@,
            subscribers: self.subscribers,
        }
    }
}

// LISTS

/// An open (newsletter) list: only its owner sends to it, anyone may subscribe.
#[derive(Clone, Debug, PartialEq, Eq)]
pub struct OpenListDetails {
    pub list_id: Hash32,
    pub owner: AccountId,
    pub list_name: Vec<u8>,
    pub hide_from_search: bool,
    pub description: Vec<u8>,
    pub list_accounts: u128,
}

pub struct OpenListDetailsView {
    pub list_id: Hash32,
    pub owner: AccountId,
    pub list_name: Seq<u8>,
    pub hide_from_search: bool,
    pub description: Seq<u8>,
    pub list_accounts: u128,
}

impl View for OpenListDetails {
    type V = OpenListDetailsView;

    open spec fn view(&self) -> OpenListDetailsView {
        OpenListDetailsView {
            list_id: self.list_id,
            owner: self.owner,
            list_name: self.list_name@,
            hide_from_search: self.hide_from_search,
            description: self.description@,
            list_accounts: self.list_accounts,
        }
    }
}

impl OpenListDetailsView {
    pub open spec fn default_view() -> OpenListDetailsView {
        OpenListDetailsView {
            list_id: Hash32::spec_zero(),
            owner: AccountId::spec_zero(),
            list_name: Seq::empty(),
            hide_from_search: false,
            description: Seq::empty(),
            list_accounts: 0,
        }
    }

    /// What the list shows publicly.
    pub open spec fn public(self) -> OpenListPublicDetailsView {
        OpenListPublicDetailsView {
            list_id: self.list_id,
            owner: self.owner,
            list_name: self.list_name,
            description: self.description,
            list_accounts: self.list_accounts,
        }
    }
}

impl Default for OpenListDetails {
    fn default() -> (r: OpenListDetails)
        ensures
            r@ == OpenListDetailsView::default_view(),
    {
        OpenListDetails {
            list_id: Hash32::zero(),
            owner: AccountId::zero(),
            list_name: Vec::new(),
            hide_from_search: false,
            description: Vec::new(),
            list_accounts: 0,
        }
    }
}

impl OpenListDetails {
    pub(crate) fn copy(&self) -> (r: OpenListDetails)
        ensures
            r@ == self@,
    {
        OpenListDetails {
            list_id: self.list_id,
            owner: self.owner,
            list_name: copy_bytes(&self.list_name),
            hide_from_search: self.hide_from_search,
            description: copy_bytes(&self.description),
            list_accounts: self.list_accounts,
        }
    }

    pub(crate) fn public(&self) -> (r: OpenListPublicDetails)
        ensures
            r@ == self@.public(),
    {
        OpenListPublicDetails {
            list_id: self.list_id,
            owner: self.owner,
            list_name: copy_bytes(&self.list_name),
            description: copy_bytes(&self.description),
            list_accounts: self.list_accounts,
        }
    }
}

/// What anyone may see of an open list.
#[derive(Clone, Debug, PartialEq, Eq)]
pub struct OpenListPublicDetails {
    pub list_id: Hash32,
    pub owner: AccountId,
    pub list_name: Vec<u8>,
    pub description: Vec<u8>,
    pub list_accounts: u128,
}

pub struct OpenListPublicDetailsView {
    pub list_id: Hash32,
    pub owner: AccountId,
    pub list_name: Seq<u8>,
    pub description: Seq<u8>,
    pub list_accounts: u128,
}

impl View for OpenListPublicDetails {
    type V = OpenListPublicDetailsView;

    open spec fn view(&self) -> OpenListPublicDetailsView {
        OpenListPublicDetailsView {
            list_id: self.list_id,
            owner: self.owner,
            list_name: self.list_name@,
            description: self.description@,
            list_accounts: self.list_accounts,
        }
    }
}

impl OpenListPublicDetailsView {
    pub open spec fn default_view() -> OpenListPublicDetailsView {
        OpenListPublicDetailsView {
            list_id: Hash32::spec_zero(),
            owner: AccountId::spec_zero(),
            list_name: Seq::empty(),
            description: Seq::empty(),
            list_accounts: 0,
        }
    }
}

impl Default for OpenListPublicDetails {
    fn default() -> (r: OpenListPublicDetails)
        ensures
            r@ == OpenListPublicDetailsView::default_view(),
    {
        OpenListPublicDetails {
            list_id: Hash32::zero(),
            owner: AccountId::zero(),
            list_name: Vec::new(),
            description: Vec::new(),
            list_accounts: 0,
        }
    }
}

// VIEWS OF SEQUENCES

pub open spec fn byte_views(v: Seq<Vec<u8>>) -> Seq<Seq<u8>> {
    v.map_values(|b: Vec<u8>| b@)
}

pub open spec fn message_views(v: Seq<MessageDetails>) -> Seq<MessageDetailsView> {
    v.map_values(|m: MessageDetails| m@)
}

pub open spec fn list_message_views(v: Seq<ListMessageDetails>) -> Seq<ListMessageDetailsView> {
    v.map_values(|m: ListMessageDetails| m@)
}

pub open spec fn paid_message_views(v: Seq<PaidMessageDetails>) -> Seq<PaidMessageDetailsView> {
    v.map_values(|m: PaidMessageDetails| m@)
}

pub open spec fn group_views(v: Seq<GroupDetails>) -> Seq<GroupDetailsView> {
    v.map_values(|g: GroupDetails| g@)
}

pub open spec fn group_public_views(v: Seq<GroupPublicDetails>) -> Seq<GroupPublicDetailsView> {
    v.map_values(|g: GroupPublicDetails| g@)
}

pub open spec fn open_list_views(v: Seq<OpenListDetails>) -> Seq<OpenListDetailsView> {
    v.map_values(|l: OpenListDetails| l@)
}

pub open spec fn list_public_views(v: Seq<OpenListPublicDetails>) -> Seq<OpenListPublicDetailsView> {
    v.map_values(|l: OpenListPublicDetails| l@)
}

pub open spec fn conversation_views(v: Seq<ConversationWithAccount>) -> Seq<ConversationWithAccountView> {
    v.map_values(|c: ConversationWithAccount| c@)
}

pub open spec fn messages_from_list_views(v: Seq<MessagesFromList>) -> Seq<MessagesFromListView> {
    v.map_values(|m: MessagesFromList| m@)
}

// QUERY RESULTS

/// The conversation between the caller and one of the accounts it allows.
#[derive(Clone, Debug, PartialEq, Eq)]
pub struct ConversationWithAccount {
    pub allowed_account: AccountId,
    pub username: Vec<u8>,
    pub conversation: Vec<MessageDetails>,
}

pub struct ConversationWithAccountView {
    pub allowed_account: AccountId,
    pub username: Seq<u8>,
    pub conversation: Seq<MessageDetailsView>,
}

impl View for ConversationWithAccount {
    type V = ConversationWithAccountView;

    open spec fn view(&self) -> ConversationWithAccountView {
        ConversationWithAccountView {
            allowed_account: self.allowed_account,
            username: self.username@,
            conversation: message_views(self.conversation@),
        }
    }
}

impl Default for ConversationWithAccount {
    fn default() -> (r: ConversationWithAccount)
        ensures
            r@ == (ConversationWithAccountView {
                allowed_account: AccountId::spec_zero(),
                username: Seq::empty(),
                conversation: Seq::empty(),
            }),
    {
        let r = ConversationWithAccount {
            allowed_account: AccountId::zero(),
            username: Vec::new(),
            conversation: Vec::new(),
        };
        assert(r@.conversation =~= Seq::empty());
        r
    }
}

/// The messages of one group or list.
#[derive(Clone, Debug, PartialEq, Eq, Default)]
pub struct MessagesFromList {
    pub allowed_list: Hash32,
    pub list_name: Vec<u8>,
    pub list_messages: Vec<ListMessageDetails>,
}

pub struct MessagesFromListView {
    pub allowed_list: Hash32,
    pub list_name: Seq<u8>,
    pub list_messages: Seq<ListMessageDetailsView>,
}

impl View for MessagesFromList {
    type V = MessagesFromListView;

    open spec fn view(&self) -> MessagesFromListView {
        MessagesFromListView {
            allowed_list: self.allowed_list,
            list_name: self.list_name@,
            list_messages: list_message_views(self.list_messages@),
        }
    }
}

/// The messages of the lists that the caller subscribes to.
#[derive(Clone, Debug, PartialEq, Eq, Default)]
pub struct MyInboxLists {
    pub lists: Vec<MessagesFromList>,
    pub defunct_lists: Vec<Hash32>,
}

pub struct MyInboxListsView {
    pub lists: Seq<MessagesFromListView>,
    pub defunct_lists: Seq<Hash32>,
}

impl View for MyInboxLists {
    type V = MyInboxListsView;

    open spec fn view(&self) -> MyInboxListsView {
        MyInboxListsView {
            lists: messages_from_list_views(self.lists@),
            defunct_lists: self.defunct_lists@,
        }
    }
}

/// The keywords of a group search and the groups found.
#[derive(Clone, Debug, PartialEq, Eq, Default)]
pub struct GroupSearchResults {
    pub search: Vec<Vec<u8>>,
    pub groups: Vec<GroupPublicDetails>,
}

pub struct GroupSearchResultsView {
    pub search: Seq<Seq<u8>>,
    pub groups: Seq<GroupPublicDetailsView>,
}

impl View for GroupSearchResults {
    type V = GroupSearchResultsView;

    open spec fn view(&self) -> GroupSearchResultsView {
        GroupSearchResultsView {
            search: byte_views(self.search@),
            groups: group_public_views(self.groups@),
        }
    }
}

/// The keywords of a list search and the lists found.
#[derive(Clone, Debug, PartialEq, Eq, Default)]
pub struct ListSearchResults {
    pub search: Vec<Vec<u8>>,
    pub lists: Vec<OpenListPublicDetails>,
}

pub struct ListSearchResultsView {
    pub search: Seq<Seq<u8>>,
    pub lists: Seq<OpenListPublicDetailsView>,
}

impl View for ListSearchResults {
    type V = ListSearchResultsView;

    open spec fn view(&self) -> ListSearchResultsView {
        ListSearchResultsView {
            search: byte_views(self.search@),
            lists: list_public_views(self.lists@),
        }
    }
}

/// The accounts that the caller allows and those it blocks.
#[derive(Clone, Debug, PartialEq, Eq)]
pub struct AccountsAllowedAndBlocked {
    pub allowed_accounts: Vec<AccountId>,
    pub blocked_accounts: Vec<AccountId>,
}

impl Default for AccountsAllowedAndBlocked {
    fn default() -> (r: AccountsAllowedAndBlocked)
        ensures
            r.allowed_accounts@ == Seq::<AccountId>::empty(),
            r.blocked_accounts@ == Seq::<AccountId>::empty(),
    {
        AccountsAllowedAndBlocked { allowed_accounts: Vec::new(), blocked_accounts: Vec::new() }
    }
}

/// The state of the reward program.
#[derive(Clone, Copy, Debug, PartialEq, Eq)]
pub struct RewardSettings {
    pub reward_on: u8,
    pub reward_root_set: u8,
    pub reward_root: AccountId,
    pub reward_interval: u128,
    pub reward_amount: u128,
    pub reward_balance: u128,
    pub reward_payouts: u128,
    pub claim_counter: u128,
}

impl RewardSettings {
    pub open spec fn default_view() -> RewardSettings {
        RewardSettings {
            reward_on: 0,
            reward_root_set: 0,
            reward_root: AccountId::spec_zero(),
            reward_interval: 0,
            reward_amount: 0,
            reward_balance: 0,
            reward_payouts: 0,
            claim_counter: 0,
        }
    }
}

impl Default for RewardSettings {
    fn default() -> (r: RewardSettings)
        ensures
            r == RewardSettings::default_view(),
    {
        RewardSettings {
            reward_on: 0,
            reward_root_set: 0,
            reward_root: AccountId::zero(),
            reward_interval: 0,
            reward_amount: 0,
            reward_balance: 0,
            reward_payouts: 0,
            claim_counter: 0,
        }
    }
}

// EVENTS

/// An account updated its settings (announced only when it is not hidden).
#[derive(Clone, Debug, PartialEq, Eq)]
pub struct SettingsUpdated {
    pub from: AccountId,
    pub username: Vec<u8>,
    pub interests: Vec<u8>,
    pub inbox_fee: u128,
}

/// A public group was made or its settings were updated.
#[derive(Clone, Debug, PartialEq, Eq)]
pub struct NewPublicGroup {
    pub from: AccountId,
    pub group_id: Hash32,
    pub group_name: Vec<u8>,
    pub description: Vec<u8>,
}

/// A public list was made.
#[derive(Clone, Debug, PartialEq, Eq)]
pub struct NewPublicList {
    pub list_id: Hash32,
    pub owner: AccountId,
    pub list_name: Vec<u8>,
    pub description: Vec<u8>,
}

/// A list was deleted.
#[derive(Clone, Copy, Debug, PartialEq, Eq)]
pub struct ListDeleted {
    pub list_id: Hash32,
}

/// An account received a reward.
#[derive(Clone, Copy, Debug, PartialEq, Eq)]
pub struct AccountRewardedMessaging {
    pub claimant: AccountId,
    pub reward: u128,
}

/// What the chain must carry out after an operation succeeds: a transfer
/// out of the contract's balance, or an event.
#[derive(Clone, Debug, PartialEq, Eq)]
pub enum Action {
    Transfer { to: AccountId, amount: u128 },
    SettingsUpdated(SettingsUpdated),
    NewPublicGroup(NewPublicGroup),
    NewPublicList(NewPublicList),
    ListDeleted(ListDeleted),
    AccountRewardedMessaging(AccountRewardedMessaging),
}

pub enum ActionView {
    Transfer { to: AccountId, amount: u128 },
    SettingsUpdated { from: AccountId, username: Seq<u8>, interests: Seq<u8>, inbox_fee: u128 },
    NewPublicGroup { from: AccountId, group_id: Hash32, group_name: Seq<u8>, description: Seq<u8> },
    NewPublicList { list_id: Hash32, owner: AccountId, list_name: Seq<u8>, description: Seq<u8> },
    ListDeleted { list_id: Hash32 },
    AccountRewardedMessaging { claimant: AccountId, reward: u128 },
}

impl View for Action {
    type V = ActionView;

    open spec fn view(&self) -> ActionView {
        match self {
            Action::Transfer { to, amount } => ActionView::Transfer { to: *to, amount: *amount },
            Action::SettingsUpdated(e) => ActionView::SettingsUpdated {
                from: e.from,
                username: e.username@,
                interests: e.interests@,
                inbox_fee: e.inbox_fee,
            },
            Action::NewPublicGroup(e) => ActionView::NewPublicGroup {
                from: e.from,
                group_id: e.group_id,
                group_name: e.group_name@,
                description: e.description@,
            },
            Action::NewPublicList(e) => ActionView::NewPublicList {
                list_id: e.list_id,
                owner: e.owner,
                list_name: e.list_name@,
                description: e.description@,
            },
            Action::ListDeleted(e) => ActionView::ListDeleted { list_id: e.list_id },
            Action::AccountRewardedMessaging(e) => ActionView::AccountRewardedMessaging {
                claimant: e.claimant,
                reward: e.reward,
            },
        }
    }
}

/// The view of a list of actions.
pub open spec fn actions_view(actions: Seq<Action>) -> Seq<ActionView> {
    actions.map_values(|a: Action| a@)
}

/// An empty list of actions.
pub(crate) fn no_actions() -> (r: Vec<Action>)
    ensures
        actions_view(r@) == Seq::<ActionView>::empty(),
{
    let r: Vec<Action> = Vec::new();
    assert(actions_view(r@) =~= Seq::<ActionView>::empty());
    r
}

// ERRORS

/// Why an operation was refused. A refused operation changes nothing.
#[derive(Clone, Copy, Debug, PartialEq, Eq)]
pub enum Error {
    /// Allowing an account that you allow already
    DuplicateAllow,
    /// Disallowing an account that you don't allow anyway
    AlreadyNotAllowed,
    /// Blocking an account that you already blocked
    DuplicateBlock,
    /// Unblocking an account that you never blocked
    NotBlocked,
    /// Updating your settings before 24 hours have passed
    CannotUpdateInterestsWithin24Hours,
    /// Too many interests in your list
    InterestsTooLong,
    /// Messaging a group or list that does not exist
    NoSuchList,
    /// Deleting a message that does not exist
    MessageNotFound,
    /// Messaging an account that has not allowed you
    NotAllowedToMessage,
    /// Making a group whose name is already taken
    GroupNameTaken,
    /// Joining a group that doesn't exist
    NonexistentGroup,
    /// Accessing a list that does not exist
    NonexistentList,
    /// Making a list whose name is already taken
    ListNameTaken,
    /// Subscribing to a list or group you already subscribe to
    AlreadySubscribed,
    /// Sending a paid message without enough to cover inbox fees
    InsufficientStake,
    /// The contract has no money to pay
    ZeroBalance,
    /// An inbox or data payment failed
    PayoutFailed,
    /// The username already belongs to someone else
    UsernameTaken,
    /// Removing an account that was not there
    NonexistentAccount,
    /// Input data is too large
    DataTooLarge,
    /// Storage for this account is full
    StorageFull,
    /// Sending a paid message without enough stake or to someone who has blocked you
    CannotSendPaidMessage,
    /// Changing reward program settings without permission
    PermissionDenied,
}

// CALL CONTEXT

/// What the chain tells an operation about the call that runs it.
#[derive(Clone, Copy, Debug, PartialEq, Eq)]
pub struct CallContext {
    /// The account that made the call.
    pub caller: AccountId,
    /// The block's timestamp, in milliseconds.
    pub block_timestamp: u64,
    /// The value sent with the call.
    pub transferred_value: u128,
    /// The contract's balance as the call starts, the value sent included.
    pub balance: u128,
}

} // verus!
