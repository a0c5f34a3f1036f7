//! Private messaging between accounts, groups and newsletter lists, with a
//! paid inbox and a reward program, as a state machine over plain values.
//!
//! Every operation takes what it needs to know of the call (the caller, and
//! where it matters the block time, the contract's balance and the value
//! sent) and hands back the transfers and events that the chain must carry
//! out. An operation that is refused changes nothing.

mod ids;
mod table;
pub mod hashing;
pub mod text;
mod types;
pub mod seqs;
pub mod contract;
pub mod laws;

pub use ids::{AccountId, Hash32};
pub use types::{
    AccountRewardedMessaging, AccountVector, AccountsAllowedAndBlocked, Action, ActionView, CallContext,
    ConversationWithAccount, ConversationWithAccountView, Error, GroupDetails, GroupDetailsView, GroupPublicDetails,
    GroupPublicDetailsView, GroupSearchResults, GroupSearchResultsView, HashVector, ListDeleted, ListMessageDetails,
    ListMessageDetailsView, ListSearchResults, ListSearchResultsView, MessageDetails, MessageDetailsView,
    MessagesFromList, MessagesFromListView, MyInboxLists, MyInboxListsView, NewPublicGroup, NewPublicList,
    OpenListDetails, OpenListDetailsView, OpenListPublicDetails, OpenListPublicDetailsView, PaidMessageDetails,
    PaidMessageDetailsView, RewardSettings, Settings, SettingsData, SettingsUpdated, SettingsView,
};
pub use contract::{ContractStorage, Step, StorageView};
