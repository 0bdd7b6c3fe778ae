use vstd::prelude::*;

use crate::ui::tasks::{TodoTaskBehavior, TodoTaskKind};

verus! {

/// The task of verifying the session.
#[derive(Clone, Copy, Debug)]
pub struct VerificationTask;

impl TodoTaskBehavior for VerificationTask {
    open spec fn spec_kind(&self) -> TodoTaskKind {
        TodoTaskKind::Verification
    }

    fn kind(&self) -> (kind: TodoTaskKind) {
        TodoTaskKind::Verification
    }
}


/// A method of key verification.
#[derive(Clone, Debug, PartialEq, Eq)]
pub enum VerificationMethod {
    /// Short authentication strings (emoji or decimals).
    SasV1,
    /// Scan a QR code.
    QrCodeScanV1,
    /// Show a QR code.
    QrCodeShowV1,
    /// Reciprocate a scanned QR code.
    ReciprocateV1,
    /// Any other method, by name.
    Other(String),
}

/// The methods this client offers: emoji verification only.
pub fn verification_methods() -> (methods: Vec<VerificationMethod>)
    ensures
        methods@ == seq![VerificationMethod::SasV1],
{
    let mut methods = Vec::new();
    methods.push(VerificationMethod::SasV1);
    proof {
        assert(methods@ =~= seq![VerificationMethod::SasV1]);
    }
    methods
}

/// Whether `methods` offers emoji verification; `false` when the methods are unknown.
pub open spec fn offers_sas(methods: Option<Vec<VerificationMethod>>) -> bool {
    match methods {
        Some(v) => v@.contains(VerificationMethod::SasV1),
        None => false,
    }
}

/// Whether the other device supports emoji verification; `false` when its methods are
/// unknown.
pub fn supports_sas(their_methods: &Option<Vec<VerificationMethod>>) -> (sas: bool)
    ensures
        sas == offers_sas(*their_methods),
{
    match their_methods {
        None => false,
        Some(methods) => {
            let mut i: usize = 0;
            while i < methods.len()
                invariant
                    0 <= i <= methods@.len(),
                    *their_methods == Some(*methods),
                    forall|j: int| 0 <= j < i ==> methods@[j] != VerificationMethod::SasV1,
                decreases methods@.len() - i,
            {
                if let VerificationMethod::SasV1 = methods[i] {
                    proof {
                        assert(methods@[i as int] == VerificationMethod::SasV1);
                        assert(methods@.contains(VerificationMethod::SasV1));
                    }
                    return true;
                }
                i = i + 1;
            }
            false
        },
    }
}

/// One emoji of a short authentication string.
#[derive(Clone, Debug, PartialEq, Eq)]
pub struct Emoji {
    pub symbol: String,
    pub description: String,
}

/// SAS-specific data, with the handle `S` of the SAS flow.
pub enum SasFlowState<S> {
    Started { sas: S },
    KeysExchanged { sas: S, emojis: Vec<Emoji> },
    Confirming { sas: S },
}

/// The whole verification process, with the handle `R` of the request and `S` of the SAS flow.
pub enum VerificationFlowState<R, S> {
    Idle,
    Requesting { request: R },
    Ready { request: R, their_methods: Vec<VerificationMethod> },
    Sas(SasFlowState<S>),
    Completed,
    Cancelled { reason: String },
}

/// What the request and SAS flows report.
pub enum VerificationEvent<R, S> {
    /// A verification request was sent.
    RequestSent { request: R },
    /// The other device accepted the request, offering `their_methods`.
    RequestReady { request: R, their_methods: Vec<VerificationMethod> },
    /// The request was cancelled.
    RequestCancelled { reason: String },
    /// The SAS flow started.
    SasStarted { sas: S },
    /// Keys were exchanged; the emojis are there when both sides support them.
    KeysExchanged { sas: S, emojis: Option<Vec<Emoji>> },
    /// Both sides confirmed.
    SasDone,
    /// The SAS flow was cancelled.
    SasCancelled { reason: String },
}

/// What the user's choice asks the client to do.
pub enum VerificationAction<R, S> {
    Nothing,
    ConfirmSas(S),
    CancelRequest(R),
    CancelSas(S),
}

/// The handle of the SAS flow that `state` is in, if any.
pub open spec fn sas_handle<R, S>(state: VerificationFlowState<R, S>) -> Option<S> {
    match state {
        VerificationFlowState::Sas(SasFlowState::Started { sas }) => Some(sas),
        VerificationFlowState::Sas(SasFlowState::KeysExchanged { sas, .. }) => Some(sas),
        VerificationFlowState::Sas(SasFlowState::Confirming { sas }) => Some(sas),
        _ => None,
    }
}

/// The handle of the request that `state` waits on, if any.
pub open spec fn request_handle<R, S>(state: VerificationFlowState<R, S>) -> Option<R> {
    match state {
        VerificationFlowState::Requesting { request } => Some(request),
        VerificationFlowState::Ready { request, .. } => Some(request),
        _ => None,
    }
}

/// The state after the flows report `event` in `state`.
pub open spec fn spec_on_event<R, S>(
    state: VerificationFlowState<R, S>,
    event: VerificationEvent<R, S>,
) -> VerificationFlowState<R, S> {
    match event {
        VerificationEvent::RequestSent { request } => VerificationFlowState::Requesting { request },
        VerificationEvent::RequestReady { request, their_methods } => VerificationFlowState::Ready {
            request,
            their_methods,
        },
        VerificationEvent::RequestCancelled { reason } => VerificationFlowState::Cancelled { reason },
        VerificationEvent::SasStarted { sas } => VerificationFlowState::Sas(SasFlowState::Started { sas }),
        VerificationEvent::KeysExchanged { sas, emojis } => match emojis {
            Some(emojis) => VerificationFlowState::Sas(SasFlowState::KeysExchanged { sas, emojis }),
            None => state,
        },
        VerificationEvent::SasDone => VerificationFlowState::Completed,
        VerificationEvent::SasCancelled { reason } => VerificationFlowState::Cancelled { reason },
    }
}

/// The state of the verification task's view.
pub struct VerificationView<R, S> {
    pub state: VerificationFlowState<R, S>,
}

impl<R: Clone, S: Clone> VerificationView<R, S> {
    pub fn new() -> (view: Self)
        ensures
            view.state is Idle,
    {
        VerificationView { state: VerificationFlowState::Idle }
    }

    /// Take in what the flows report. When both sides confirmed, the verification task
    /// is marked completed.
    pub fn on_event(&mut self, event: VerificationEvent<R, S>, tasks: &mut crate::ui::tasks::UserTodoTasks)
        ensures
            final(self).state == spec_on_event(old(self).state, event),
            event is SasDone ==> final(tasks)@.completed == old(tasks)@.completed.insert(
                crate::ui::tasks::spec_task_id(TodoTaskKind::Verification),
            ),
            !(event is SasDone) ==> final(tasks)@ == old(tasks)@,
            final(tasks)@.tasks == old(tasks)@.tasks,
    {
        match event {
            VerificationEvent::RequestSent { request } => {
                self.state = VerificationFlowState::Requesting { request };
            },
            VerificationEvent::RequestReady { request, their_methods } => {
                self.state = VerificationFlowState::Ready { request, their_methods };
            },
            VerificationEvent::RequestCancelled { reason } => {
                self.state = VerificationFlowState::Cancelled { reason };
            },
            VerificationEvent::SasStarted { sas } => {
                self.state = VerificationFlowState::Sas(SasFlowState::Started { sas });
            },
            VerificationEvent::KeysExchanged { sas, emojis } => {
                if let Some(emojis) = emojis {
                    self.state = VerificationFlowState::Sas(
                        SasFlowState::KeysExchanged { sas, emojis },
                    );
                }
            },
            VerificationEvent::SasDone => {
                self.state = VerificationFlowState::Completed;
                tasks.mark_completed(VerificationTask.id());
            },
            VerificationEvent::SasCancelled { reason } => {
                self.state = VerificationFlowState::Cancelled { reason };
            },
        }
    }

    /// Confirm that the emojis match: only once keys were exchanged, when the flow moves on
    /// to waiting for the other side, and the client is asked to confirm.
    pub fn confirm_sas(&mut self) -> (action: VerificationAction<R, S>)
        ensures
            match old(self).state {
                VerificationFlowState::Sas(SasFlowState::KeysExchanged { sas, .. }) => {
                    &&& final(self).state matches VerificationFlowState::Sas(
                        SasFlowState::Confirming { sas: kept },
                    ) && cloned(sas, kept)
                    &&& action matches VerificationAction::ConfirmSas(s) && cloned(sas, s)
                },
                _ => final(self).state == old(self).state && action is Nothing,
            },
    {
        let (kept, confirmed) = match &self.state {
            VerificationFlowState::Sas(SasFlowState::KeysExchanged { sas, .. }) => (
                sas.clone(),
                sas.clone(),
            ),
            _ => {
                return VerificationAction::Nothing;
            },
        };
        self.state = VerificationFlowState::Sas(SasFlowState::Confirming { sas: kept });
        VerificationAction::ConfirmSas(confirmed)
    }

    /// Cancel the request or the SAS flow in progress; the state waits for the flows to
    /// report the cancellation.
    pub fn cancel(&self) -> (action: VerificationAction<R, S>)
        ensures
            match (request_handle(self.state), sas_handle(self.state)) {
                (Some(r), _) => action matches VerificationAction::CancelRequest(c) && cloned(r, c),
                (None, Some(s)) => action matches VerificationAction::CancelSas(c) && cloned(s, c),
                (None, None) => action is Nothing,
            },
    {
        match &self.state {
            VerificationFlowState::Requesting { request } => VerificationAction::CancelRequest(
                request.clone(),
            ),
            VerificationFlowState::Ready { request, .. } => VerificationAction::CancelRequest(
                request.clone(),
            ),
            VerificationFlowState::Sas(SasFlowState::Started { sas }) => VerificationAction::CancelSas(
                sas.clone(),
            ),
            VerificationFlowState::Sas(SasFlowState::KeysExchanged { sas, .. }) => VerificationAction::CancelSas(
                sas.clone(),
            ),
            VerificationFlowState::Sas(SasFlowState::Confirming { sas }) => VerificationAction::CancelSas(
                sas.clone(),
            ),
            _ => VerificationAction::Nothing,
        }
    }

    /// Try again after a cancellation.
    pub fn retry(&mut self)
        ensures
            final(self).state is Idle,
    {
        self.state = VerificationFlowState::Idle;
    }
}

} // verus!
