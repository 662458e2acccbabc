use chatguard::{ChatId, MemberStatus, MessageId, MessageRef, UserId};
use chatguard::patterns::PatternMatcher;
use chatguard::pipeline::{Action, Event, MessageInfo, Notice, Session, NOTICE_DELETE_DELAY_MS};
use chatguard::whitelist::WhitelistStore;

const GROUP: ChatId = ChatId(-1001380105834);

fn message(sender: Option<u64>, text: Option<&str>) -> MessageInfo {
    MessageInfo {
        sender: sender.map(UserId),
        first_name: "Ann".to_string(),
        username: Some("ann".to_string()),
        chat: ChatId(-100500),
        message_id: MessageId(77),
        text: text.map(|t| t.to_string()),
    }
}

fn verified_store(user: u64) -> WhitelistStore {
    let mut store = WhitelistStore::new();
    store.prepare_add(UserId(user), "ann").unwrap();
    store.commit_add(UserId(user));
    store
}

#[test]
fn system_message_without_author_is_ignored() {
    let store = WhitelistStore::new();
    let matcher = PatternMatcher::new();
    let msg = message(None, Some("hello"));
    assert!(Session::start(&msg, GROUP, &store, &matcher).is_none());
}

#[test]
fn unwhitelisted_text_is_deleted_and_warned() {
    let mut store = WhitelistStore::new();
    let matcher = PatternMatcher::new();
    let msg = message(Some(5), Some("hello"));
    let (mut session, first) = Session::start(&msg, GROUP, &store, &matcher).unwrap();
    match first {
        Action::Delete { target } => {
            assert_eq!(target, MessageRef { chat: msg.chat, message: msg.message_id });
        },
        _ => panic!("the message must be deleted first"),
    }
    let next = session.on_event(&mut store, &Event::DeleteDone).unwrap();
    match next {
        Action::Send { chat, notice } => {
            assert_eq!(chat, msg.chat);
            assert_eq!(notice.text(), "Ann, для доступа отправьте /confirm");
        },
        _ => panic!("a personalized pointer to the confirm command must be sent"),
    }
    let last = session.on_event(&mut store, &Event::Delivered { message: MessageId(78) }).unwrap();
    match last {
        Action::ScheduleDeletion { target, delay_ms } => {
            assert_eq!(target, MessageRef { chat: msg.chat, message: MessageId(78) });
            assert_eq!(delay_ms, NOTICE_DELETE_DELAY_MS);
            assert_eq!(delay_ms, 30_000);
        },
        _ => panic!("the notice must be scheduled for deletion"),
    }
    assert!(session.finished());
    assert!(!store.is_whitelisted(UserId(5)));
}

#[test]
fn unwhitelisted_non_text_is_deleted_without_warning() {
    let mut store = WhitelistStore::new();
    let matcher = PatternMatcher::new();
    let msg = message(Some(5), None);
    let (mut session, first) = Session::start(&msg, GROUP, &store, &matcher).unwrap();
    assert!(matches!(first, Action::Delete { .. }));
    assert!(session.on_event(&mut store, &Event::DeleteDone).is_none());
    assert!(session.finished());
}

#[test]
fn whitelisted_confirm_skips_membership_query() {
    let mut store = verified_store(5);
    let matcher = PatternMatcher::new();
    let msg = message(Some(5), Some("/confirm"));
    let (mut session, first) = Session::start(&msg, GROUP, &store, &matcher).unwrap();
    match first {
        Action::Delete { target } => {
            assert_eq!(target, MessageRef { chat: msg.chat, message: msg.message_id });
        },
        _ => panic!("the triggering command must be deleted"),
    }
    let next = session.on_event(&mut store, &Event::DeleteDone).unwrap();
    match next {
        Action::Send { chat, notice } => {
            assert_eq!(chat, msg.chat);
            assert!(matches!(notice, Notice::ConfirmAlreadyVerified));
        },
        _ => panic!("an already verified sender only hears so"),
    }
}

#[test]
fn confirm_by_group_member_grants_membership_once() {
    let mut store = WhitelistStore::new();
    let matcher = PatternMatcher::new();
    let msg = message(Some(5), Some("/confirm"));
    let (mut session, _del) = Session::start(&msg, GROUP, &store, &matcher).unwrap();
    let query = session.on_event(&mut store, &Event::DeleteDone).unwrap();
    match query {
        Action::QueryMembership { group, user } => {
            assert_eq!(group, GROUP);
            assert_eq!(user, UserId(5));
        },
        _ => panic!("an unverified sender's membership must be queried"),
    }
    let append = session
        .on_event(&mut store, &Event::MemberStatusIs { status: MemberStatus::Member })
        .unwrap();
    match append {
        Action::Append { line } => assert_eq!(line, "5 ann"),
        _ => panic!("the entry must be appended before anything is granted"),
    }
    assert!(!store.is_whitelisted(UserId(5)));
    let send = session.on_event(&mut store, &Event::AppendOk).unwrap();
    match send {
        Action::Send { notice, .. } => assert!(matches!(notice, Notice::Verified)),
        _ => panic!("a verified notice must be sent"),
    }
    assert!(store.is_whitelisted(UserId(5)));
    assert_eq!(store.prepare_add(UserId(5), "ann"), None);
}

#[test]
fn confirm_by_administrator_gets_admin_wording() {
    let mut store = WhitelistStore::new();
    let matcher = PatternMatcher::new();
    let msg = message(Some(5), Some("/confirm"));
    let (mut session, _del) = Session::start(&msg, GROUP, &store, &matcher).unwrap();
    session.on_event(&mut store, &Event::DeleteDone).unwrap();
    session
        .on_event(&mut store, &Event::MemberStatusIs { status: MemberStatus::Administrator })
        .unwrap();
    let send = session.on_event(&mut store, &Event::AppendOk).unwrap();
    match send {
        Action::Send { notice, .. } => assert!(matches!(notice, Notice::AdminVerified)),
        _ => panic!("an admin-worded notice must be sent"),
    }
    assert!(store.is_whitelisted(UserId(5)));
}

#[test]
fn confirm_by_non_member_grants_nothing() {
    let mut store = WhitelistStore::new();
    let matcher = PatternMatcher::new();
    let msg = message(Some(5), Some("/confirm"));
    let (mut session, _del) = Session::start(&msg, GROUP, &store, &matcher).unwrap();
    session.on_event(&mut store, &Event::DeleteDone).unwrap();
    let send = session
        .on_event(&mut store, &Event::MemberStatusIs { status: MemberStatus::Left })
        .unwrap();
    match send {
        Action::Send { notice, .. } => assert!(matches!(notice, Notice::MustBeMember)),
        _ => panic!("a non-member must be told to join the group"),
    }
    assert!(!store.is_whitelisted(UserId(5)));
}

#[test]
fn failed_membership_query_grants_nothing() {
    let mut store = WhitelistStore::new();
    let matcher = PatternMatcher::new();
    let msg = message(Some(5), Some("/confirm"));
    let (mut session, _del) = Session::start(&msg, GROUP, &store, &matcher).unwrap();
    session.on_event(&mut store, &Event::DeleteDone).unwrap();
    let send = session.on_event(&mut store, &Event::MemberStatusUnknown).unwrap();
    match send {
        Action::Send { notice, .. } => assert!(matches!(notice, Notice::CheckFailed)),
        _ => panic!("a failed check must be reported"),
    }
    assert!(!store.is_whitelisted(UserId(5)));
}

#[test]
fn failed_append_grants_nothing() {
    let mut store = WhitelistStore::new();
    let matcher = PatternMatcher::new();
    let msg = message(Some(5), Some("/confirm"));
    let (mut session, _del) = Session::start(&msg, GROUP, &store, &matcher).unwrap();
    session.on_event(&mut store, &Event::DeleteDone).unwrap();
    session
        .on_event(&mut store, &Event::MemberStatusIs { status: MemberStatus::Member })
        .unwrap();
    let send = session.on_event(&mut store, &Event::AppendFailed).unwrap();
    match send {
        Action::Send { notice, .. } => assert!(matches!(notice, Notice::PersistFailed)),
        _ => panic!("a persistence failure must be reported"),
    }
    assert!(!store.is_whitelisted(UserId(5)));
}

#[test]
fn start_command_reports_status_without_mutation() {
    let mut store = WhitelistStore::new();
    let matcher = PatternMatcher::new();
    let msg = message(Some(5), Some("/start"));
    let (mut session, first) = Session::start(&msg, GROUP, &store, &matcher).unwrap();
    match first {
        Action::Send { chat, notice } => {
            assert_eq!(chat, msg.chat);
            assert!(matches!(notice, Notice::StartInstructions));
        },
        _ => panic!("the instructions must be sent"),
    }
    let last = session.on_event(&mut store, &Event::Delivered { message: MessageId(80) }).unwrap();
    assert!(matches!(last, Action::ScheduleDeletion { .. }));
    assert!(!store.is_whitelisted(UserId(5)));

    let verified = verified_store(6);
    let msg2 = message(Some(6), Some("/start"));
    let (_s, first2) = Session::start(&msg2, GROUP, &verified, &matcher).unwrap();
    match first2 {
        Action::Send { notice, .. } => assert!(matches!(notice, Notice::StartAlreadyVerified)),
        _ => panic!("a verified sender hears so"),
    }
}

#[test]
fn verified_sender_rule_violation_is_deleted_and_warned() {
    let mut store = verified_store(5);
    let lines: Vec<String> = vec!["spam".to_string()];
    let matcher = PatternMatcher::from_lines(&lines);
    let msg = message(Some(5), Some("SPAM offer"));
    let (mut session, first) = Session::start(&msg, GROUP, &store, &matcher).unwrap();
    assert!(matches!(first, Action::Delete { .. }));
    let send = session.on_event(&mut store, &Event::DeleteFailed).unwrap();
    match send {
        Action::Send { notice, .. } => {
            assert_eq!(notice.text(), "Ann, ваше сообщение нарушает правила чата!");
        },
        _ => panic!("the author must be told the rules were violated"),
    }
}

#[test]
fn verified_sender_clean_message_is_left_alone() {
    let store = verified_store(5);
    let lines: Vec<String> = vec!["spam".to_string()];
    let matcher = PatternMatcher::from_lines(&lines);
    let msg = message(Some(5), Some("a perfectly fine message"));
    assert!(Session::start(&msg, GROUP, &store, &matcher).is_none());
    let non_text = message(Some(5), None);
    assert!(Session::start(&non_text, GROUP, &store, &matcher).is_none());
}

#[test]
fn confirm_delete_failure_ends_session() {
    let mut store = WhitelistStore::new();
    let matcher = PatternMatcher::new();
    let msg = message(Some(5), Some("/confirm"));
    let (mut session, _del) = Session::start(&msg, GROUP, &store, &matcher).unwrap();
    assert!(session.on_event(&mut store, &Event::DeleteFailed).is_none());
    assert!(session.finished());
}

#[test]
fn whitelist_entry_prefers_username_over_first_name() {
    let mut store = WhitelistStore::new();
    let matcher = PatternMatcher::new();
    let mut msg = message(Some(5), Some("/confirm"));
    msg.username = None;
    let (mut session, _del) = Session::start(&msg, GROUP, &store, &matcher).unwrap();
    session.on_event(&mut store, &Event::DeleteDone).unwrap();
    let append = session
        .on_event(&mut store, &Event::MemberStatusIs { status: MemberStatus::Member })
        .unwrap();
    match append {
        Action::Append { line } => assert_eq!(line, "5 Ann"),
        _ => panic!("the entry must carry the first name without an account name"),
    }
}

#[test]
fn notice_wording_matches_platform_replies() {
    assert_eq!(Notice::StartAlreadyVerified.text(), "✅ Вы уже подтверждены!");
    assert_eq!(Notice::ConfirmAlreadyVerified.text(), "ℹ️ Вы уже подтверждены");
    assert_eq!(Notice::Verified.text(), "✅ Вы подтверждены!");
    assert_eq!(Notice::AdminVerified.text(), "👑 Админ подтверждён!");
    assert_eq!(Notice::PersistFailed.text(), "⚠️ Ошибка. Попробуйте позже");
    assert_eq!(
        Notice::MustBeMember.text(),
        "❌ Вы должны быть участником группы для подтверждения!"
    );
    assert_eq!(
        Notice::CheckFailed.text(),
        "⚠️ Ошибка проверки членства в группе. Попробуйте позже."
    );
    assert_eq!(
        Notice::PleaseConfirm { first_name: "Ann".to_string() }.text(),
        "Ann, для доступа отправьте /confirm"
    );
}
