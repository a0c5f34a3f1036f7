use geode_messaging::{
    AccountId, AccountRewardedMessaging, Action, CallContext, ContractStorage, Error, Hash32, ListDeleted,
    NewPublicGroup, NewPublicList, SettingsUpdated,
};
use ink::env::hash::{HashOutput, Sha2x256};

const DAY: u64 = 86_400_000;

fn acct(n: u8) -> AccountId {
    let mut bytes = [0u8; 32];
    bytes[0] = n;
    AccountId { bytes }
}

fn at(caller: AccountId, time: u64) -> CallContext {
    CallContext { caller, block_timestamp: time, transferred_value: 0, balance: 0 }
}

fn paying(caller: AccountId, time: u64, value: u128, balance: u128) -> CallContext {
    CallContext { caller, block_timestamp: time, transferred_value: value, balance }
}

fn name_id(name: &[u8]) -> Hash32 {
    let encodable = name.to_vec();
    let mut out = <Sha2x256 as HashOutput>::Type::default();
    ink::env::hash_encoded::<Sha2x256, _>(&encodable, &mut out);
    Hash32 { bytes: out }
}

fn account_message_id(from: AccountId, to: AccountId, message: &[u8], time: u64) -> Hash32 {
    let encodable = (
        ink::primitives::AccountId::from(from.bytes),
        ink::primitives::AccountId::from(to.bytes),
        message.to_vec(),
        time,
    );
    let mut out = <Sha2x256 as HashOutput>::Type::default();
    ink::env::hash_encoded::<Sha2x256, _>(&encodable, &mut out);
    Hash32 { bytes: out }
}

fn target_message_id(from: AccountId, target: Hash32, message: &[u8], time: u64) -> Hash32 {
    let encodable = (
        ink::primitives::AccountId::from(from.bytes),
        ink::primitives::Hash::from(target.bytes),
        message.to_vec(),
        time,
    );
    let mut out = <Sha2x256 as HashOutput>::Type::default();
    ink::env::hash_encoded::<Sha2x256, _>(&encodable, &mut out);
    Hash32 { bytes: out }
}

fn sender_message_id(from: AccountId, message: &[u8], time: u64) -> Hash32 {
    let encodable = (ink::primitives::AccountId::from(from.bytes), message.to_vec(), time);
    let mut out = <Sha2x256 as HashOutput>::Type::default();
    ink::env::hash_encoded::<Sha2x256, _>(&encodable, &mut out);
    Hash32 { bytes: out }
}

#[test]
fn new_contract_is_empty() {
    let c = ContractStorage::new();
    assert_eq!(c.verify_account(acct(1)), 0);
    assert!(c.get_my_inbox(acct(1)).is_empty());
    assert!(c.get_my_groups(acct(1)).is_empty());
    let settings = c.get_account_settings_data(acct(1));
    assert_eq!(settings.username, Vec::<u8>::new());
    assert_eq!(settings.user_account, acct(0));
}

#[test]
fn update_settings_rules() {
    let mut c = ContractStorage::new();
    let alice = acct(1);
    let bob = acct(2);
    assert_eq!(c.update_settings(&at(alice, 2 * DAY), vec![b'a'; 101], vec![], 0, false), Err(Error::DataTooLarge));
    assert_eq!(c.update_settings(&at(alice, 2 * DAY), vec![], vec![b'i'; 601], 0, false), Err(Error::DataTooLarge));
    // the first day of chain time counts as too soon after the default last update
    assert_eq!(
        c.update_settings(&at(alice, DAY - 1), b"alice".to_vec(), b"cats".to_vec(), 5, false),
        Err(Error::CannotUpdateInterestsWithin24Hours)
    );
    let actions = c.update_settings(&at(alice, DAY), b"alice".to_vec(), b"cats".to_vec(), 5, false).unwrap();
    assert_eq!(
        actions,
        vec![Action::SettingsUpdated(SettingsUpdated {
            from: alice,
            username: b"alice".to_vec(),
            interests: b"cats".to_vec(),
            inbox_fee: 5,
        })]
    );
    assert_eq!(c.verify_account(alice), 1);
    let s = c.get_account_settings_data(alice);
    assert_eq!(s.username, b"alice".to_vec());
    assert_eq!(s.inbox_fee, 5);
    assert_eq!(s.last_update, DAY);
    // a second update within a day is refused and changes nothing
    assert_eq!(
        c.update_settings(&at(alice, 2 * DAY - 1), b"alice2".to_vec(), vec![], 7, false),
        Err(Error::CannotUpdateInterestsWithin24Hours)
    );
    assert_eq!(c.get_account_settings_data(alice).inbox_fee, 5);
    // another account cannot take the name
    assert_eq!(
        c.update_settings(&at(bob, 3 * DAY), b"alice".to_vec(), vec![], 0, false),
        Err(Error::UsernameTaken)
    );
    assert_eq!(c.verify_account(bob), 0);
    // the owner may keep it; a hidden account is not announced
    assert_eq!(c.update_settings(&at(alice, 3 * DAY), b"alice".to_vec(), b"dogs".to_vec(), 9, true), Ok(vec![]));
    assert_eq!(c.get_account_settings_data(alice).interests, b"dogs".to_vec());
}

#[test]
fn allow_and_block_rules() {
    let mut c = ContractStorage::new();
    let alice = acct(1);
    assert_eq!(c.allow_account(alice, vec![acct(2), acct(3)]), Ok(vec![]));
    assert_eq!(c.allow_account(alice, vec![acct(4), acct(2)]), Err(Error::DuplicateAllow));
    assert_eq!(c.allow_account(alice, vec![acct(5), acct(5)]), Err(Error::DuplicateAllow));
    assert_eq!(c.get_my_allowed_and_blocked_accounts(alice).allowed_accounts, vec![acct(2), acct(3)]);
    let many: Vec<AccountId> = (10..68).map(acct).collect();
    assert_eq!(c.allow_account(alice, many), Err(Error::StorageFull));
    assert_eq!(c.disallow_account(alice, acct(2)), Ok(vec![]));
    assert_eq!(c.disallow_account(alice, acct(2)), Err(Error::AlreadyNotAllowed));
    assert_eq!(c.get_my_allowed_and_blocked_accounts(alice).allowed_accounts, vec![acct(3)]);

    assert_eq!(c.block_account(alice, acct(9)), Ok(vec![]));
    assert_eq!(c.block_account(alice, acct(9)), Err(Error::DuplicateBlock));
    assert_eq!(c.get_my_allowed_and_blocked_accounts(alice).blocked_accounts, vec![acct(9)]);
    assert_eq!(c.unblock_account(alice, acct(9)), Ok(vec![]));
    assert_eq!(c.unblock_account(alice, acct(9)), Err(Error::NotBlocked));
    assert!(c.get_my_allowed_and_blocked_accounts(alice).blocked_accounts.is_empty());
}

#[test]
fn block_list_is_capped_at_400() {
    let mut c = ContractStorage::new();
    let alice = acct(1);
    for i in 0..400u32 {
        let mut bytes = [0u8; 32];
        bytes[0] = (i % 256) as u8;
        bytes[1] = (i / 256) as u8 + 1;
        assert_eq!(c.block_account(alice, AccountId { bytes }), Ok(vec![]));
    }
    assert_eq!(c.block_account(alice, acct(7)), Err(Error::StorageFull));
}

#[test]
fn private_messages_need_an_allow_and_keep_three() {
    let mut c = ContractStorage::new();
    let alice = acct(1);
    let bob = acct(2);
    assert_eq!(c.update_settings(&at(alice, DAY), b"alice".to_vec(), vec![], 0, true), Ok(vec![]));
    assert_eq!(
        c.send_private_message(&at(alice, DAY), bob, b"hi".to_vec(), vec![]),
        Err(Error::NotAllowedToMessage)
    );
    assert_eq!(c.allow_account(bob, vec![alice]), Ok(vec![]));
    assert_eq!(
        c.send_private_message(&at(alice, DAY), bob, vec![b'x'; 601], vec![]),
        Err(Error::DataTooLarge)
    );
    assert_eq!(
        c.send_private_message(&at(alice, DAY), bob, vec![], vec![b'u'; 301]),
        Err(Error::DataTooLarge)
    );
    for i in 0..4u64 {
        assert_eq!(c.send_private_message(&at(alice, DAY + i), bob, vec![b'0' + i as u8], vec![]), Ok(vec![]));
    }
    let inbox = c.get_my_inbox(bob);
    assert_eq!(inbox.len(), 1);
    assert_eq!(inbox[0].allowed_account, alice);
    assert_eq!(inbox[0].username, b"alice".to_vec());
    let texts: Vec<Vec<u8>> = inbox[0].conversation.iter().map(|m| m.message.clone()).collect();
    assert_eq!(texts, vec![b"1".to_vec(), b"2".to_vec(), b"3".to_vec()]);
    let last = &inbox[0].conversation[2];
    assert_eq!(last.message_id, account_message_id(alice, bob, b"3", DAY + 3));
    assert_eq!(last.from_username, b"alice".to_vec());
    assert_eq!(last.to_acct, bob);
    // alice does not allow bob, so her inbox is empty
    assert!(c.get_my_inbox(alice).is_empty());

    // deleting one message, then all of them
    assert_eq!(c.delete_single_message_to_account(alice, last.message_id), Ok(vec![]));
    assert_eq!(c.delete_single_message_to_account(alice, last.message_id), Err(Error::MessageNotFound));
    assert_eq!(c.get_my_inbox(bob)[0].conversation.len(), 2);
    assert_eq!(c.delete_all_messages_to_account(alice, bob), Ok(vec![]));
    assert!(c.get_my_inbox(bob)[0].conversation.is_empty());
}

#[test]
fn groups_lifecycle() {
    let mut c = ContractStorage::new();
    let alice = acct(1);
    let bob = acct(2);
    let id = name_id(b"rustaceans");
    let made = c.make_a_new_group(&at(alice, 5), b"rustaceans".to_vec(), false, b"crabs".to_vec(), b"hello".to_vec(), vec![]);
    assert_eq!(
        made,
        Ok(vec![Action::NewPublicGroup(NewPublicGroup {
            from: alice,
            group_id: id,
            group_name: b"rustaceans".to_vec(),
            description: b"rustaceans".to_vec(),
        })])
    );
    assert_eq!(
        c.make_a_new_group(&at(bob, 6), b"rustaceans".to_vec(), true, vec![], vec![], vec![]),
        Err(Error::GroupNameTaken)
    );
    assert_eq!(
        c.make_a_new_group(&at(bob, 6), vec![b'n'; 101], true, vec![], vec![], vec![]),
        Err(Error::DataTooLarge)
    );
    let groups = c.get_my_groups(alice);
    assert_eq!(groups.len(), 1);
    assert_eq!(groups[0].group_id, id);
    assert_eq!(groups[0].group_accounts, vec![alice]);
    assert_eq!(groups[0].subscribers, 1);

    assert_eq!(c.send_message_to_group(&at(bob, 7), id, b"me too".to_vec(), vec![]), Err(Error::NoSuchList));
    assert_eq!(c.join_a_group(&at(bob, 7), id), Ok(vec![]));
    assert_eq!(c.join_a_group(&at(bob, 7), id), Err(Error::AlreadySubscribed));
    assert_eq!(c.join_a_group(&at(bob, 7), name_id(b"nope")), Err(Error::NonexistentGroup));
    assert_eq!(c.send_message_to_group(&at(bob, 8), name_id(b"nope"), vec![], vec![]), Err(Error::NoSuchList));
    assert_eq!(c.send_message_to_group(&at(bob, 8), id, b"me too".to_vec(), vec![]), Ok(vec![]));
    let inbox = c.get_my_inbox_groups(alice);
    assert_eq!(inbox.len(), 1);
    assert_eq!(inbox[0].list_name, b"rustaceans".to_vec());
    let texts: Vec<Vec<u8>> = inbox[0].list_messages.iter().map(|m| m.message.clone()).collect();
    assert_eq!(texts, vec![b"hello".to_vec(), b"me too".to_vec()]);
    let bobs = inbox[0].list_messages[1].message_id;
    assert_eq!(c.delete_single_message_to_group(alice, bobs), Err(Error::MessageNotFound));
    assert_eq!(c.delete_single_message_to_group(bob, bobs), Ok(vec![]));
    assert_eq!(c.get_my_inbox_groups(alice)[0].list_messages.len(), 1);
    assert_eq!(c.delete_all_messages_to_group(alice, id), Ok(vec![]));
    assert!(c.get_my_inbox_groups(alice)[0].list_messages.is_empty());
    assert_eq!(c.delete_all_messages_to_group(alice, name_id(b"nope")), Err(Error::NonexistentGroup));

    // only the owner updates the settings
    assert_eq!(c.update_group_settings(bob, id, false, b"x".to_vec()), Err(Error::NonexistentGroup));
    assert_eq!(
        c.update_group_settings(alice, id, false, b"all crabs".to_vec()),
        Ok(vec![Action::NewPublicGroup(NewPublicGroup {
            from: alice,
            group_id: id,
            group_name: b"rustaceans".to_vec(),
            description: b"all crabs".to_vec(),
        })])
    );
    assert_eq!(c.update_group_settings(alice, id, false, vec![b'd'; 601]), Err(Error::DataTooLarge));
    assert_eq!(c.get_my_groups(bob)[0].subscribers, 2);
    assert_eq!(c.leave_a_group(bob, id), Ok(vec![]));
    assert_eq!(c.leave_a_group(bob, id), Err(Error::NonexistentGroup));
    assert_eq!(c.get_my_groups(alice)[0].subscribers, 1);
    assert_eq!(c.get_my_groups(alice)[0].group_accounts, vec![alice]);
}

#[test]
fn group_search_by_keywords() {
    let mut c = ContractStorage::new();
    let alice = acct(1);
    assert!(c.make_a_new_group(&at(alice, 1), b"rust lovers".to_vec(), false, b"systems programming".to_vec(), vec![], vec![]).is_ok());
    assert!(c.make_a_new_group(&at(alice, 1), b"secret club".to_vec(), true, b"rust".to_vec(), vec![], vec![]).is_ok());
    assert!(c.make_a_new_group(&at(alice, 1), b"gardening".to_vec(), false, b"plants".to_vec(), vec![], vec![]).is_ok());
    let found = c.find_groups_by_keyword(b"rust".to_vec(), b"systems".to_vec(), Vec::new());
    assert_eq!(found.search, vec![b"rust".to_vec(), b"systems".to_vec(), Vec::new()]);
    assert_eq!(found.groups.len(), 1);
    assert_eq!(found.groups[0].group_name, b"rust lovers".to_vec());
    assert_eq!(found.groups[0].group_id, name_id(b"rust lovers"));
    // empty keywords match every public group; the hidden one never shows
    assert_eq!(c.find_groups_by_keyword(Vec::new(), Vec::new(), Vec::new()).groups.len(), 2);
    // a keyword that is not valid UTF-8 counts as empty
    assert_eq!(c.find_groups_by_keyword(vec![0xff], b"plants".to_vec(), Vec::new()).groups.len(), 1);
    assert!(c.find_groups_by_keyword(b"cooking".to_vec(), Vec::new(), Vec::new()).groups.is_empty());
}

#[test]
fn lists_lifecycle() {
    let mut c = ContractStorage::new();
    let alice = acct(1);
    let bob = acct(2);
    let id = name_id(b"news");
    assert_eq!(
        c.make_a_new_list(&at(alice, 1), b"news".to_vec(), false, b"daily".to_vec()),
        Ok(vec![Action::NewPublicList(NewPublicList {
            list_id: id,
            owner: alice,
            list_name: b"news".to_vec(),
            description: b"daily".to_vec(),
        })])
    );
    assert_eq!(c.make_a_new_list(&at(bob, 1), b"news".to_vec(), true, vec![]), Err(Error::ListNameTaken));
    assert_eq!(c.send_message_to_list(&at(bob, 2), id, b"spam".to_vec(), vec![]), Err(Error::NonexistentList));
    for i in 0..16u64 {
        assert_eq!(c.send_message_to_list(&at(alice, 2 + i), id, vec![b'a' + i as u8], vec![]), Ok(vec![]));
    }
    assert_eq!(c.join_an_open_list(&at(bob, 3), id), Ok(vec![]));
    assert_eq!(c.join_an_open_list(&at(bob, 3), id), Err(Error::AlreadySubscribed));
    assert_eq!(c.join_an_open_list(&at(bob, 3), name_id(b"none")), Err(Error::NonexistentList));
    let subscribed = c.get_my_subscribed_lists(bob);
    assert_eq!(subscribed.len(), 1);
    assert_eq!(subscribed[0].list_accounts, 2);
    assert_eq!(subscribed[0].owner, alice);
    let inbox = c.get_my_inbox_lists(bob);
    assert_eq!(inbox.lists.len(), 1);
    assert!(inbox.defunct_lists.is_empty());
    // at most 15 messages are kept: the first one left
    assert_eq!(inbox.lists[0].list_messages.len(), 15);
    assert_eq!(inbox.lists[0].list_messages[0].message, vec![b'b']);
    let first = inbox.lists[0].list_messages[0].message_id;
    assert_eq!(c.delete_single_message_to_list(bob, first), Err(Error::MessageNotFound));
    assert_eq!(c.delete_single_message_to_list(alice, first), Ok(vec![]));
    assert_eq!(c.get_my_inbox_lists(bob).lists[0].list_messages.len(), 14);
    assert_eq!(c.get_my_open_lists(alice).len(), 1);
    assert_eq!(c.find_lists_by_keyword(b"dai".to_vec(), Vec::new(), Vec::new()).lists.len(), 1);
    assert_eq!(c.unsubscribe_from_open_list(bob, id), Ok(vec![]));
    assert_eq!(c.unsubscribe_from_open_list(bob, id), Err(Error::NonexistentList));
    assert_eq!(c.delete_an_open_list(bob, id), Err(Error::NonexistentList));
    assert_eq!(c.delete_an_open_list(alice, id), Ok(vec![Action::ListDeleted(ListDeleted { list_id: id })]));
    assert!(c.get_my_open_lists(alice).is_empty());
    assert!(c.get_my_inbox_lists(alice).lists.is_empty());
    assert!(c.find_lists_by_keyword(Vec::new(), Vec::new(), Vec::new()).lists.is_empty());
}

#[test]
fn paid_inbox_rules() {
    let mut c = ContractStorage::new();
    let alice = acct(1);
    let bob = acct(2);
    let eve = acct(3);
    assert_eq!(c.update_settings(&at(bob, DAY), b"bob".to_vec(), vec![], 100, true), Ok(vec![]));
    assert_eq!(c.block_account(bob, eve), Ok(vec![]));
    assert_eq!(
        c.send_paid_message(&paying(alice, DAY, 99, 1000), bob, b"buy".to_vec(), vec![]),
        Err(Error::CannotSendPaidMessage)
    );
    assert_eq!(
        c.send_paid_message(&paying(eve, DAY, 500, 1000), bob, b"buy".to_vec(), vec![]),
        Err(Error::CannotSendPaidMessage)
    );
    assert_eq!(c.send_paid_message(&paying(alice, DAY, 150, 1000), bob, b"buy".to_vec(), vec![]), Ok(vec![]));
    assert_eq!(c.send_paid_message(&paying(alice, DAY + 1, 200, 1200), bob, b"now".to_vec(), vec![]), Ok(vec![]));
    // too little in the contract to pay the bids out
    assert_eq!(c.get_my_paid_inbox(&paying(bob, DAY + 2, 0, 361)), Err(Error::ZeroBalance));
    let (messages, actions) = c.get_my_paid_inbox(&paying(bob, DAY + 2, 0, 362)).unwrap();
    assert_eq!(messages.len(), 2);
    assert_eq!(messages[0].bid, 150);
    assert_eq!(messages[1].message, b"now".to_vec());
    assert_eq!(actions, vec![Action::Transfer { to: bob, amount: 350 }]);
    let (messages, _) = c.get_my_paid_inbox(&paying(bob, DAY + 3, 0, 100)).unwrap();
    assert!(messages.is_empty());
}

#[test]
fn full_paid_inbox_refunds_the_lowest_bid() {
    let mut c = ContractStorage::new();
    let bob = acct(2);
    for i in 0..400u64 {
        let bid = if i == 7 { 3 } else { 10 };
        let sender = acct((i % 200) as u8 + 10);
        assert_eq!(c.send_paid_message(&paying(sender, i, bid, 0), bob, vec![], vec![]), Ok(vec![]));
    }
    let low_sender = acct(17);
    let actions = c.send_paid_message(&paying(acct(1), 1000, 5, 1000), bob, b"me".to_vec(), vec![]).unwrap();
    assert_eq!(actions, vec![Action::Transfer { to: low_sender, amount: 3 }]);
    let (messages, actions) = c.get_my_paid_inbox(&paying(bob, 2000, 0, 100_000)).unwrap();
    assert_eq!(messages.len(), 400);
    assert!(messages.iter().all(|m| m.bid != 3));
    assert_eq!(messages[399].message, b"me".to_vec());
    assert_eq!(actions, vec![Action::Transfer { to: bob, amount: 399 * 10 + 5 }]);
}

#[test]
fn reward_program_rules() {
    let mut c = ContractStorage::new();
    let root = acct(9);
    let alice = acct(1);
    assert_eq!(c.set_reward(root, 1, 2, 50), Err(Error::PermissionDenied));
    assert_eq!(c.set_reward_root(root, root), Ok(vec![]));
    assert_eq!(c.set_reward_root(alice, alice), Err(Error::PermissionDenied));
    assert_eq!(c.set_reward(alice, 1, 2, 50), Err(Error::PermissionDenied));
    assert_eq!(c.set_reward(root, 1, 2, 50), Ok(vec![]));
    assert_eq!(c.add_reward_balance(&paying(alice, 0, 500, 500)), Err(Error::PermissionDenied));
    assert_eq!(c.add_reward_balance(&paying(root, 0, 500, 500)), Ok(vec![]));
    let settings = c.get_reward_settings(root);
    assert_eq!(settings.reward_balance, 500);
    assert_eq!(settings.reward_interval, 2);
    assert_eq!(c.get_reward_settings(alice).reward_balance, 0);
    // every second claim is paid
    assert_eq!(c.join_an_open_list(&paying(alice, 0, 0, 1000), name_id(b"x")), Err(Error::NonexistentList));
    assert_eq!(c.make_a_new_list(&paying(alice, 0, 0, 1000), b"x".to_vec(), true, vec![]), Ok(vec![]));
    assert_eq!(
        c.make_a_new_list(&paying(alice, 0, 0, 1000), b"y".to_vec(), true, vec![]),
        Ok(vec![
            Action::Transfer { to: alice, amount: 50 },
            Action::AccountRewardedMessaging(AccountRewardedMessaging { claimant: alice, reward: 50 }),
        ])
    );
    let settings = c.get_reward_settings(root);
    assert_eq!(settings.claim_counter, 2);
    assert_eq!(settings.reward_balance, 450);
    assert_eq!(settings.reward_payouts, 50);
    // not paid when the contract holds too little
    assert_eq!(c.make_a_new_list(&paying(alice, 0, 0, 60), b"z".to_vec(), true, vec![]), Ok(vec![]));
    assert_eq!(c.make_a_new_list(&paying(alice, 0, 0, 60), b"w".to_vec(), true, vec![]), Ok(vec![]));
    assert_eq!(c.get_reward_settings(root).reward_payouts, 50);
    // shutting down
    assert_eq!(c.shut_down_reward(&paying(alice, 0, 0, 1000)), Err(Error::PermissionDenied));
    assert_eq!(c.shut_down_reward(&paying(root, 0, 0, 10)), Err(Error::ZeroBalance));
    assert_eq!(c.get_reward_settings(root).reward_on, 1);
    assert_eq!(c.shut_down_reward(&paying(root, 0, 0, 1000)), Ok(vec![Action::Transfer { to: root, amount: 440 }]));
    assert_eq!(c.get_reward_settings(root).reward_on, 0);
    // the coin has left the program: a second shutdown pays nothing
    assert_eq!(c.get_reward_settings(root).reward_balance, 0);
    assert_eq!(c.shut_down_reward(&paying(root, 0, 0, 1000)), Err(Error::ZeroBalance));
}

#[test]
fn new_contract_reward_defaults() {
    let c = ContractStorage::new();
    let settings = c.get_reward_settings(acct(0));
    assert_eq!(settings.reward_interval, 1_000_000);
    assert_eq!(settings.reward_on, 0);
    assert_eq!(settings.reward_root_set, 0);
}

#[test]
fn group_keeps_25_messages_with_hashed_ids() {
    let mut c = ContractStorage::new();
    let alice = acct(1);
    let id = name_id(b"chat");
    assert!(c.make_a_new_group(&at(alice, 0), b"chat".to_vec(), true, vec![], b"first".to_vec(), vec![]).is_ok());
    for i in 1..=30u64 {
        assert_eq!(c.send_message_to_group(&at(alice, i), id, vec![i as u8], vec![]), Ok(vec![]));
    }
    let inbox = c.get_my_inbox_groups(alice);
    let messages = &inbox[0].list_messages;
    assert_eq!(messages.len(), 25);
    assert_eq!(messages[24].message, vec![30u8]);
    assert_eq!(messages[24].message_id, target_message_id(alice, id, &[30u8], 30));
    assert_eq!(messages[24].to_list_name, b"chat".to_vec());
    assert_eq!(messages[0].message, vec![6u8]);
}

#[test]
fn paid_message_ids_are_hashed() {
    let mut c = ContractStorage::new();
    let alice = acct(1);
    let bob = acct(2);
    assert_eq!(c.send_paid_message(&paying(alice, 77, 1, 100), bob, b"offer".to_vec(), b"url".to_vec()), Ok(vec![]));
    let (messages, _) = c.get_my_paid_inbox(&paying(bob, 78, 0, 100)).unwrap();
    assert_eq!(messages[0].message_id, sender_message_id(alice, b"offer", 77));
    assert_eq!(messages[0].file_url, b"url".to_vec());
    assert_eq!(messages[0].to_acct, bob);
}

#[test]
fn subscribing_then_unsubscribing_restores_the_count() {
    let mut c = ContractStorage::new();
    let alice = acct(1);
    let bob = acct(2);
    let id = name_id(b"weekly");
    assert!(c.make_a_new_list(&at(alice, 0), b"weekly".to_vec(), true, vec![]).is_ok());
    assert_eq!(c.join_an_open_list(&at(bob, 1), id), Ok(vec![]));
    assert_eq!(c.get_my_open_lists(alice)[0].list_accounts, 2);
    assert_eq!(c.unsubscribe_from_open_list(bob, id), Ok(vec![]));
    assert_eq!(c.get_my_open_lists(alice)[0].list_accounts, 1);
    assert!(c.get_my_subscribed_lists(bob).is_empty());
}

#[test]
fn full_allowed_list_refuses_paid_message_to_new_account() {
    let mut c = ContractStorage::new();
    let alice = acct(1);
    let many: Vec<AccountId> = (100..159).map(acct).collect();
    assert_eq!(c.allow_account(alice, many), Ok(vec![]));
    assert_eq!(c.allow_account(alice, vec![acct(200)]), Err(Error::StorageFull));
    assert_eq!(c.send_paid_message(&paying(alice, 0, 0, 0), acct(2), vec![], vec![]), Ok(vec![]));
    // the recipient joined the sender's allowed accounts, which are now full
    let allowed = c.get_my_allowed_and_blocked_accounts(alice).allowed_accounts;
    assert_eq!(allowed.len(), 60);
    assert_eq!(allowed[59], acct(2));
    assert_eq!(c.send_paid_message(&paying(alice, 1, 0, 0), acct(2), vec![], vec![]), Ok(vec![]));
    assert_eq!(c.send_paid_message(&paying(alice, 2, 0, 0), acct(3), vec![], vec![]), Err(Error::StorageFull));
    assert_eq!(c.allow_account(alice, vec![acct(201)]), Err(Error::StorageFull));
    let mut c2 = ContractStorage::new();
    let sixty: Vec<AccountId> = (100..160).map(acct).collect();
    assert_eq!(c2.allow_account(alice, sixty), Err(Error::StorageFull));
}

#[test]
fn anyone_may_delete_a_stored_private_message() {
    let mut c = ContractStorage::new();
    let alice = acct(1);
    let bob = acct(2);
    let eve = acct(3);
    assert_eq!(c.allow_account(bob, vec![alice]), Ok(vec![]));
    assert_eq!(c.send_private_message(&at(alice, 5), bob, b"hi".to_vec(), vec![]), Ok(vec![]));
    let id = account_message_id(alice, bob, b"hi", 5);
    assert_eq!(c.delete_single_message_to_account(eve, id), Ok(vec![]));
    // the id stays in the conversation, whose details are now the default ones
    let conversation = &c.get_my_inbox(bob)[0].conversation;
    assert_eq!(conversation.len(), 1);
    assert_eq!(conversation[0].message, Vec::<u8>::new());
}

#[test]
fn full_paid_inbox_turns_away_a_bid_that_does_not_win() {
    let mut c = ContractStorage::new();
    let bob = acct(2);
    for i in 0..400u64 {
        assert_eq!(c.send_paid_message(&paying(acct(10), i, 10, 0), bob, vec![], vec![]), Ok(vec![]));
    }
    assert_eq!(c.send_paid_message(&paying(acct(1), 500, 10, 1000), bob, b"late".to_vec(), vec![]), Ok(vec![]));
    let (messages, _) = c.get_my_paid_inbox(&paying(bob, 600, 0, 100_000)).unwrap();
    assert_eq!(messages.len(), 400);
    assert!(messages.iter().all(|m| m.message != b"late".to_vec()));
}

#[test]
fn a_paid_message_lets_the_recipient_reply() {
    let mut c = ContractStorage::new();
    let alice = acct(1);
    let bob = acct(2);
    assert_eq!(c.send_paid_message(&paying(alice, 0, 0, 0), bob, b"hello".to_vec(), vec![]), Ok(vec![]));
    assert_eq!(c.get_my_allowed_and_blocked_accounts(alice).allowed_accounts, vec![bob]);
    assert_eq!(c.send_private_message(&at(bob, 1), alice, b"thanks".to_vec(), vec![]), Ok(vec![]));
}

#[test]
fn deleted_lists_are_defunct_and_lose_their_messages() {
    let mut c = ContractStorage::new();
    let alice = acct(1);
    let bob = acct(2);
    let id = name_id(b"gone");
    let kept = name_id(b"kept");
    assert!(c.make_a_new_list(&at(alice, 0), b"gone".to_vec(), true, vec![]).is_ok());
    assert!(c.make_a_new_list(&at(alice, 0), b"kept".to_vec(), true, vec![]).is_ok());
    assert_eq!(c.send_message_to_list(&at(alice, 1), id, b"bye".to_vec(), vec![]), Ok(vec![]));
    assert_eq!(c.join_an_open_list(&at(bob, 2), id), Ok(vec![]));
    assert_eq!(c.join_an_open_list(&at(bob, 2), kept), Ok(vec![]));
    let message = c.get_my_inbox_lists(bob).lists[0].list_messages[0].message_id;
    assert_eq!(c.delete_an_open_list(alice, id), Ok(vec![Action::ListDeleted(ListDeleted { list_id: id })]));
    let inbox = c.get_my_inbox_lists(bob);
    assert_eq!(inbox.defunct_lists, vec![id]);
    assert_eq!(inbox.lists.len(), 1);
    assert_eq!(inbox.lists[0].allowed_list, kept);
    // the message's details went with the list
    assert_eq!(c.delete_single_message_to_list(alice, message), Err(Error::MessageNotFound));
}
