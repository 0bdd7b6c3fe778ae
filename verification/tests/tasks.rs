use met::ui::tasks::key_import::{InitialKeyImport, KeyImportView};
use met::ui::tasks::verification::{
    supports_sas, verification_methods, Emoji, SasFlowState, VerificationAction,
    VerificationEvent, VerificationFlowState, VerificationMethod, VerificationTask,
    VerificationView,
};
use met::ui::tasks::{TodoTaskBehavior, TodoTaskItem, TodoTaskKind, UserTodoTasks};

#[test]
fn task_descriptions() {
    assert_eq!(InitialKeyImport.id(), "initial_key_import");
    assert_eq!(InitialKeyImport.title(), "Import your room keys");
    assert_eq!(InitialKeyImport.label(), "Make an initial import to bootstrap decryption.");
    assert_eq!(VerificationTask.id(), "verification");
    assert_eq!(VerificationTask.title(), "Verify the session");
    assert_eq!(VerificationTask.label(), "Enables cross-signing support.");
    let item = TodoTaskItem::new(VerificationTask);
    assert_eq!(item.kind, TodoTaskKind::Verification);
    assert_eq!(item.id(), "verification");
    assert_eq!(item.title(), "Verify the session");
    assert_eq!(item.label(), "Enables cross-signing support.");
}

#[test]
fn marking_tasks_completed() {
    let mut tasks = UserTodoTasks::default();
    assert!(tasks.is_empty());
    tasks.add_task(InitialKeyImport);
    assert!(!tasks.is_empty());
    assert!(!tasks.is_completed("initial_key_import"));
    assert!(!InitialKeyImport.is_finished(&tasks));
    tasks.mark_completed("initial_key_import");
    tasks.mark_completed("initial_key_import");
    assert!(tasks.is_completed("initial_key_import"));
    assert!(tasks.tasks()[0].is_finished(&tasks));
    assert!(!tasks.is_completed("verification"));
}

#[test]
fn completed_ids_are_exactly_the_marked_ones() {
    let mut tasks = UserTodoTasks::new();
    tasks.add_task(InitialKeyImport);
    let marked = ["b", "a", "b", "c"];
    for id in marked {
        tasks.mark_completed(id);
    }
    for id in ["a", "b", "c", "d", "", "initial_key_import"] {
        assert_eq!(tasks.is_completed(id), marked.contains(&id), "{id}");
    }
    assert_eq!(tasks.tasks().len(), 1);
}

#[test]
fn key_import_flow() {
    let mut tasks = UserTodoTasks::new();
    let mut v = KeyImportView::new();
    assert_eq!(v.import_request(), None);
    v.set_paths(Some(vec!["keys.txt".to_string(), "other.txt".to_string()]));
    assert_eq!(v.import_request(), None);
    v.password = "pass".to_string();
    assert_eq!(v.import_request(), Some(("keys.txt".to_string(), "pass".to_string())));
    v.finish_import(Err("bad passphrase".to_string()), &mut tasks);
    assert!(!v.success);
    assert_eq!(v.error.as_deref(), Some("Error: bad passphrase"));
    assert!(!tasks.is_completed("initial_key_import"));
    v.finish_import(Ok(()), &mut tasks);
    assert!(v.success);
    // law: a successful import finishes the key import task
    assert!(InitialKeyImport.is_finished(&tasks));
    v.reset();
    assert!(v.paths.is_empty());
    assert_eq!(v.password, "");
    assert!(!v.success);
    assert_eq!(v.error, None);
    v.set_paths(None);
    assert!(v.paths.is_empty());
}

#[test]
fn sas_support() {
    assert_eq!(verification_methods(), vec![VerificationMethod::SasV1]);
    assert!(supports_sas(&Some(vec![VerificationMethod::QrCodeScanV1, VerificationMethod::SasV1])));
    assert!(!supports_sas(&Some(vec![VerificationMethod::ReciprocateV1])));
    assert!(!supports_sas(&None));
}

fn emojis() -> Vec<Emoji> {
    vec![Emoji { symbol: "🐶".to_string(), description: "Dog".to_string() }]
}

#[test]
fn verification_flow_to_completion() {
    let mut tasks = UserTodoTasks::new();
    let mut v: VerificationView<u32, &str> = VerificationView::new();
    assert!(matches!(v.cancel(), VerificationAction::Nothing));
    assert!(matches!(v.confirm_sas(), VerificationAction::Nothing));
    v.on_event(VerificationEvent::RequestSent { request: 7 }, &mut tasks);
    assert!(matches!(v.state, VerificationFlowState::Requesting { request: 7 }));
    assert!(matches!(v.cancel(), VerificationAction::CancelRequest(7)));
    v.on_event(VerificationEvent::RequestReady { request: 7, their_methods: vec![VerificationMethod::SasV1] }, &mut tasks);
    assert!(matches!(v.state, VerificationFlowState::Ready { request: 7, .. }));
    v.on_event(VerificationEvent::SasStarted { sas: "sas" }, &mut tasks);
    assert!(matches!(v.confirm_sas(), VerificationAction::Nothing));
    v.on_event(VerificationEvent::KeysExchanged { sas: "sas", emojis: None }, &mut tasks);
    assert!(matches!(v.state, VerificationFlowState::Sas(SasFlowState::Started { sas: "sas" })));
    v.on_event(VerificationEvent::KeysExchanged { sas: "sas", emojis: Some(emojis()) }, &mut tasks);
    assert!(matches!(v.state, VerificationFlowState::Sas(SasFlowState::KeysExchanged { .. })));
    assert!(matches!(v.confirm_sas(), VerificationAction::ConfirmSas("sas")));
    assert!(matches!(v.state, VerificationFlowState::Sas(SasFlowState::Confirming { sas: "sas" })));
    assert!(matches!(v.cancel(), VerificationAction::CancelSas("sas")));
    assert!(!tasks.is_completed("verification"));
    v.on_event(VerificationEvent::SasDone, &mut tasks);
    assert!(matches!(v.state, VerificationFlowState::Completed));
    // law: completing SAS finishes the verification task
    assert!(VerificationTask.is_finished(&tasks));
}

#[test]
fn verification_cancel_and_retry() {
    let mut tasks = UserTodoTasks::new();
    let mut v: VerificationView<u32, u32> = VerificationView::new();
    v.on_event(VerificationEvent::RequestSent { request: 1 }, &mut tasks);
    v.on_event(VerificationEvent::RequestCancelled { reason: "user".to_string() }, &mut tasks);
    assert!(matches!(v.state, VerificationFlowState::Cancelled { ref reason } if reason == "user"));
    v.retry();
    assert!(matches!(v.state, VerificationFlowState::Idle));
    v.on_event(VerificationEvent::SasStarted { sas: 3 }, &mut tasks);
    v.on_event(VerificationEvent::SasCancelled { reason: "mismatch".to_string() }, &mut tasks);
    assert!(matches!(v.state, VerificationFlowState::Cancelled { .. }));
    assert!(!tasks.is_completed("verification"));
}
