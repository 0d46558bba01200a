use azalea_viaversion::answer::{build_custom_query_answer, CustomQueryAnswer};
use azalea_viaversion::join::{JoinAction, JoinError, JoinEvent, JoinPhase, OpenAuthModJoinTask};
use azalea_viaversion::plugin::ViaVersionPlugin;
use azalea_viaversion::relay::{
    Account, AuthRelay, CustomQuery, FinishedJoin, QueryVerdict, RelayCommand,
};

fn online() -> Account {
    Account { uuid: 0x1234_5678_9abc_def0_1234_5678_9abc_def0, access_token: Some("token-1".to_string()) }
}

fn offline() -> Account {
    Account { uuid: 7, access_token: None }
}

fn join_query(entity: u64, transaction_id: u32) -> CustomQuery {
    CustomQuery { entity, transaction_id, identifier: "oam:join".to_string(), disabled: false }
}

fn spawn(relay: &mut AuthRelay, entity: u64, transaction_id: u32) -> OpenAuthModJoinTask {
    let mut query = join_query(entity, transaction_id);
    let account = online();
    match ViaVersionPlugin::handle_oauth(relay, &mut query, Some("abc123".to_string()), Some(&account)) {
        QueryVerdict::Spawned(task) => {
            assert!(query.disabled);
            task
        }
        other => panic!("{other:?}"),
    }
}

fn drive(task: &mut OpenAuthModJoinTask, events: Vec<JoinEvent>) -> Vec<JoinAction> {
    events.into_iter().map(|event| task.advance(event)).collect()
}

#[test]
fn answer_payload_is_one_byte() {
    assert_eq!(
        build_custom_query_answer(5, true),
        CustomQueryAnswer { transaction_id: 5, data: Some(vec![1]) }
    );
    assert_eq!(
        build_custom_query_answer(u32::MAX, false),
        CustomQueryAnswer { transaction_id: u32::MAX, data: Some(vec![0]) }
    );
}

#[test]
fn answer_reports_success_only_by_the_success_byte() {
    assert!(build_custom_query_answer(1, true).reports_success());
    assert!(!build_custom_query_answer(1, false).reports_success());
    assert!(!CustomQueryAnswer { transaction_id: 1, data: None }.reports_success());
    assert!(!CustomQueryAnswer { transaction_id: 1, data: Some(vec![]) }.reports_success());
    assert!(!CustomQueryAnswer { transaction_id: 1, data: Some(vec![1, 1]) }.reports_success());
    assert!(!CustomQueryAnswer { transaction_id: 1, data: Some(vec![2]) }.reports_success());
}

#[test]
fn join_succeeds_at_once() {
    let mut relay = AuthRelay::new();
    let mut task = spawn(&mut relay, 9, 42);
    assert_eq!(
        task,
        OpenAuthModJoinTask {
            transaction_id: 42,
            hash: "abc123".to_string(),
            uuid: online().uuid,
            token: "token-1".to_string(),
            phase: JoinPhase::Joining,
        }
    );
    assert_eq!(task.answer(), None);
    assert_eq!(task.advance(JoinEvent::Joined(Ok(()))), JoinAction::Finish(Some(true)));
    assert_eq!(task.answer(), Some(CustomQueryAnswer { transaction_id: 42, data: Some(vec![1]) }));
    let commands = ViaVersionPlugin::poll_all_oam_join_tasks(
        &mut relay,
        vec![FinishedJoin { entity: 9, answer: task.answer() }],
    );
    assert_eq!(
        commands,
        vec![RelayCommand::Send {
            entity: 9,
            answer: CustomQueryAnswer { transaction_id: 42, data: Some(vec![1]) },
            authenticated: true,
        }]
    );
    assert_eq!(relay.pending_count(), 0);
}

#[test]
fn join_succeeds_after_a_refresh() {
    let mut relay = AuthRelay::new();
    let mut task = spawn(&mut relay, 9, 42);
    let actions = drive(
        &mut task,
        vec![
            JoinEvent::Joined(Err(JoinError::InvalidSession)),
            JoinEvent::Refreshed(Some("token-2".to_string())),
            JoinEvent::Joined(Ok(())),
        ],
    );
    assert_eq!(actions, vec![JoinAction::Refresh, JoinAction::Join, JoinAction::Finish(Some(true))]);
    assert_eq!(task.token, "token-2");
    assert_eq!(task.hash, "abc123");
    assert_eq!(task.answer(), Some(CustomQueryAnswer { transaction_id: 42, data: Some(vec![1]) }));
    let commands = ViaVersionPlugin::poll_all_oam_join_tasks(
        &mut relay,
        vec![FinishedJoin { entity: 9, answer: task.answer() }],
    );
    assert_eq!(
        commands,
        vec![RelayCommand::Send {
            entity: 9,
            answer: CustomQueryAnswer { transaction_id: 42, data: Some(vec![1]) },
            authenticated: true,
        }]
    );
}

#[test]
fn failed_refresh_leaves_the_transaction_without_answer() {
    let mut relay = AuthRelay::new();
    let mut task = spawn(&mut relay, 9, 42);
    let actions = drive(
        &mut task,
        vec![JoinEvent::Joined(Err(JoinError::ForbiddenOperation)), JoinEvent::Refreshed(None)],
    );
    assert_eq!(actions, vec![JoinAction::Refresh, JoinAction::Finish(None)]);
    assert_eq!(task.phase, JoinPhase::Finished(None));
    assert_eq!(task.token, "token-1");
    assert_eq!(task.answer(), None);
    let commands = ViaVersionPlugin::poll_all_oam_join_tasks(
        &mut relay,
        vec![FinishedJoin { entity: 9, answer: task.answer() }],
    );
    assert_eq!(commands, vec![RelayCommand::ReportFailure { entity: 9 }]);
    assert_eq!(relay.pending_transaction(9), None);
    let later = ViaVersionPlugin::poll_all_oam_join_tasks(
        &mut relay,
        vec![FinishedJoin { entity: 9, answer: Some(build_custom_query_answer(42, true)) }],
    );
    assert_eq!(later, vec![RelayCommand::Discard { entity: 9 }]);
}

#[test]
fn second_refusal_is_final() {
    let mut relay = AuthRelay::new();
    let mut task = spawn(&mut relay, 1, 2);
    let actions = drive(
        &mut task,
        vec![
            JoinEvent::Joined(Err(JoinError::InvalidSession)),
            JoinEvent::Refreshed(Some("fresh".to_string())),
            JoinEvent::Joined(Err(JoinError::InvalidSession)),
            JoinEvent::Joined(Ok(())),
            JoinEvent::Refreshed(Some("again".to_string())),
        ],
    );
    assert_eq!(
        actions,
        vec![
            JoinAction::Refresh,
            JoinAction::Join,
            JoinAction::Finish(Some(false)),
            JoinAction::Nothing,
            JoinAction::Nothing,
        ]
    );
    assert_eq!(task.token, "fresh");
    assert_eq!(task.answer(), Some(CustomQueryAnswer { transaction_id: 2, data: Some(vec![0]) }));
    let commands = ViaVersionPlugin::poll_all_oam_join_tasks(
        &mut relay,
        vec![FinishedJoin { entity: 1, answer: task.answer() }],
    );
    assert_eq!(
        commands,
        vec![RelayCommand::Send {
            entity: 1,
            answer: CustomQueryAnswer { transaction_id: 2, data: Some(vec![0]) },
            authenticated: false,
        }]
    );
}

#[test]
fn other_refusals_are_not_retried() {
    let mut relay = AuthRelay::new();
    let mut task = spawn(&mut relay, 1, 2);
    assert_eq!(
        task.advance(JoinEvent::Joined(Err(JoinError::Other))),
        JoinAction::Finish(Some(false))
    );
    assert_eq!(task.phase, JoinPhase::Finished(Some(false)));
    assert_eq!(task.advance(JoinEvent::Refreshed(Some("x".to_string()))), JoinAction::Nothing);
    assert_eq!(task.token, "token-1");
}

#[test]
fn join_attempts_and_refreshes_are_bounded() {
    let signals = [
        JoinEvent::Joined(Err(JoinError::InvalidSession)),
        JoinEvent::Joined(Err(JoinError::InvalidSession)),
        JoinEvent::Refreshed(Some("a".to_string())),
        JoinEvent::Refreshed(Some("b".to_string())),
        JoinEvent::Joined(Err(JoinError::ForbiddenOperation)),
        JoinEvent::Joined(Err(JoinError::ForbiddenOperation)),
        JoinEvent::Refreshed(Some("c".to_string())),
        JoinEvent::Joined(Ok(())),
    ];
    let (mut task, first) = OpenAuthModJoinTask::start(1, "h".to_string(), 2, "t".to_string());
    let mut actions = vec![first];
    for event in signals {
        actions.push(task.advance(event));
    }
    let joins = actions.iter().filter(|action| **action == JoinAction::Join).count();
    let refreshes = actions.iter().filter(|action| **action == JoinAction::Refresh).count();
    let finishes = actions.iter().filter(|action| matches!(action, JoinAction::Finish(_))).count();
    assert_eq!(joins, 2);
    assert_eq!(refreshes, 1);
    assert_eq!(finishes, 1);
    assert_eq!(task.token, "a");
    assert_eq!(task.phase, JoinPhase::Finished(Some(false)));
}

#[test]
fn event_out_of_turn_leaves_the_task_alone() {
    let (mut task, first) = OpenAuthModJoinTask::start(1, "h".to_string(), 2, "t".to_string());
    assert_eq!(first, JoinAction::Join);
    assert_eq!(task.advance(JoinEvent::Refreshed(Some("x".to_string()))), JoinAction::Nothing);
    assert_eq!(task.advance(JoinEvent::Refreshed(None)), JoinAction::Nothing);
    assert_eq!(task.phase, JoinPhase::Joining);
    assert_eq!(task.token, "t");
    assert_eq!(task.advance(JoinEvent::Joined(Err(JoinError::InvalidSession))), JoinAction::Refresh);
    assert_eq!(task.advance(JoinEvent::Joined(Ok(()))), JoinAction::Nothing);
    assert_eq!(task.phase, JoinPhase::Refreshing);
}

#[test]
fn offline_account_is_refused_at_once() {
    let mut relay = AuthRelay::new();
    let mut query = join_query(3, 77);
    let account = offline();
    let verdict =
        ViaVersionPlugin::handle_oauth(&mut relay, &mut query, Some("abc123".to_string()), Some(&account));
    assert_eq!(
        verdict,
        QueryVerdict::Refused(CustomQueryAnswer { transaction_id: 77, data: Some(vec![0]) })
    );
    assert!(query.disabled);
    assert_eq!(relay.pending_count(), 0);
    assert_eq!(relay.pending_transaction(3), None);
}

#[test]
fn other_identifiers_are_ignored() {
    let mut relay = AuthRelay::new();
    let account = online();
    for identifier in ["oam:sign_nonce", "oam:data", "minecraft:brand", "oam:join ", "OAM:JOIN", ""] {
        let mut query =
            CustomQuery { entity: 3, transaction_id: 1, identifier: identifier.to_string(), disabled: false };
        let verdict =
            ViaVersionPlugin::handle_oauth(&mut relay, &mut query, Some("h".to_string()), Some(&account));
        assert_eq!(verdict, QueryVerdict::Ignored);
        assert!(!query.disabled);
        assert_eq!(query.identifier, identifier);
    }
    assert_eq!(relay.pending_count(), 0);
}

#[test]
fn malformed_payload_drops_the_query() {
    let mut relay = AuthRelay::new();
    let account = online();
    let mut query = join_query(3, 1);
    let verdict = ViaVersionPlugin::handle_oauth(&mut relay, &mut query, None, Some(&account));
    assert_eq!(verdict, QueryVerdict::Malformed);
    assert!(!query.disabled);
    assert_eq!(relay.pending_count(), 0);
}

#[test]
fn connection_without_account_is_left_alone() {
    let mut relay = AuthRelay::new();
    let mut query = join_query(3, 1);
    let verdict = ViaVersionPlugin::handle_oauth(&mut relay, &mut query, Some("h".to_string()), None);
    assert_eq!(verdict, QueryVerdict::NoAccount);
    assert!(!query.disabled);
    assert_eq!(relay.pending_count(), 0);
}

#[test]
fn disabled_query_stays_disabled() {
    let mut relay = AuthRelay::new();
    let mut query = CustomQuery {
        entity: 3,
        transaction_id: 1,
        identifier: "oam:data".to_string(),
        disabled: true,
    };
    let verdict = ViaVersionPlugin::handle_oauth(&mut relay, &mut query, None, None);
    assert_eq!(verdict, QueryVerdict::Ignored);
    assert!(query.disabled);
}

#[test]
fn relay_tracks_one_join_for_each_connection() {
    let mut relay = AuthRelay::new();
    spawn(&mut relay, 1, 10);
    spawn(&mut relay, 2, 20);
    assert_eq!(relay.pending_count(), 2);
    assert_eq!(relay.pending_transaction(1), Some(10));
    assert_eq!(relay.pending_transaction(2), Some(20));
    spawn(&mut relay, 1, 11);
    assert_eq!(relay.pending_count(), 2);
    assert_eq!(relay.pending_transaction(1), Some(11));
}

#[test]
fn one_answer_for_each_transaction() {
    let mut relay = AuthRelay::new();
    spawn(&mut relay, 1, 10);
    let account = online();
    let mut other = CustomQuery {
        entity: 1,
        transaction_id: 12,
        identifier: "oam:data".to_string(),
        disabled: false,
    };
    assert_eq!(
        ViaVersionPlugin::handle_oauth(&mut relay, &mut other, None, Some(&account)),
        QueryVerdict::Ignored
    );
    let commands = ViaVersionPlugin::poll_all_oam_join_tasks(
        &mut relay,
        vec![
            FinishedJoin { entity: 1, answer: Some(build_custom_query_answer(10, true)) },
            FinishedJoin { entity: 1, answer: Some(build_custom_query_answer(10, true)) },
            FinishedJoin { entity: 1, answer: Some(build_custom_query_answer(12, true)) },
        ],
    );
    assert_eq!(
        commands,
        vec![
            RelayCommand::Send {
                entity: 1,
                answer: CustomQueryAnswer { transaction_id: 10, data: Some(vec![1]) },
                authenticated: true,
            },
            RelayCommand::Discard { entity: 1 },
            RelayCommand::Discard { entity: 1 },
        ]
    );
}

#[test]
fn answer_for_another_transaction_is_not_sent() {
    let mut relay = AuthRelay::new();
    spawn(&mut relay, 1, 10);
    spawn(&mut relay, 1, 11);
    let commands = ViaVersionPlugin::poll_all_oam_join_tasks(
        &mut relay,
        vec![FinishedJoin { entity: 1, answer: Some(build_custom_query_answer(10, true)) }],
    );
    assert_eq!(commands, vec![RelayCommand::ReportFailure { entity: 1 }]);
    assert_eq!(relay.pending_count(), 0);
}

#[test]
fn poll_deals_with_each_connection_on_its_own() {
    let mut relay = AuthRelay::new();
    spawn(&mut relay, 1, 10);
    spawn(&mut relay, 2, 20);
    spawn(&mut relay, 3, 30);
    let commands = ViaVersionPlugin::poll_all_oam_join_tasks(
        &mut relay,
        vec![
            FinishedJoin { entity: 2, answer: Some(build_custom_query_answer(20, false)) },
            FinishedJoin { entity: 4, answer: Some(build_custom_query_answer(40, true)) },
            FinishedJoin { entity: 1, answer: None },
        ],
    );
    assert_eq!(
        commands,
        vec![
            RelayCommand::Send {
                entity: 2,
                answer: CustomQueryAnswer { transaction_id: 20, data: Some(vec![0]) },
                authenticated: false,
            },
            RelayCommand::Discard { entity: 4 },
            RelayCommand::ReportFailure { entity: 1 },
        ]
    );
    assert_eq!(relay.pending_count(), 1);
    assert_eq!(relay.pending_transaction(3), Some(30));
    assert_eq!(ViaVersionPlugin::poll_all_oam_join_tasks(&mut relay, Vec::new()), Vec::new());
    assert_eq!(relay.pending_count(), 1);
}

#[test]
fn forgotten_connection_gets_no_answer() {
    let mut relay = AuthRelay::new();
    spawn(&mut relay, 1, 10);
    spawn(&mut relay, 2, 20);
    relay.forget(1);
    relay.forget(5);
    assert_eq!(relay.pending_count(), 1);
    let commands = ViaVersionPlugin::poll_all_oam_join_tasks(
        &mut relay,
        vec![FinishedJoin { entity: 1, answer: Some(build_custom_query_answer(10, true)) }],
    );
    assert_eq!(commands, vec![RelayCommand::Discard { entity: 1 }]);
    assert_eq!(relay.pending_transaction(2), Some(20));
}
