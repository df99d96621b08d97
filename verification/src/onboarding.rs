//! The onboarding screens: terms, the check for a cloud backup, and the
//! offer to restore it.

use vstd::prelude::*;

verus! {

/// The screen of the onboarding flow.
#[derive(Debug, Clone, Copy, Hash, PartialEq, Eq, Structural)]
pub enum OnboardingStep {
    Terms,
    CloudCheck,
    RestoreOffer,
    Restoring,
}

impl Default for OnboardingStep {
    /// Onboarding starts at the terms.
    fn default() -> (s: Self)
        ensures
            s == OnboardingStep::Terms,
    {
        OnboardingStep::Terms
    }
}

/// What the user or the platform reports to the onboarding flow.
#[derive(Debug, Clone)]
pub enum OnboardingAction {
    AcceptTerms,
    CloudCheckComplete { has_backup: bool },
    SkipRestore,
    StartRestore,
    RestoreComplete,
    RestoreFailed { error: String },
}

/// Messages from the onboarding flow to the UI.
#[derive(Debug, Clone)]
pub enum OnboardingReconcileMessage {
    StepChanged(OnboardingStep),
    Complete,
    RestoreError(String),
}

/// The UI side that receives onboarding messages, implemented by the host.
pub trait OnboardingManagerReconciler: Send + Sync {
    fn reconcile(&self, message: OnboardingReconcileMessage);
}

/// What handling an onboarding action does: whether it records that the
/// terms were accepted, and the messages it sends, in order.
pub struct OnboardingDispatch {
    pub accept_terms: bool,
    pub messages: Vec<OnboardingReconcileMessage>,
}

/// What the UI shows after a message: the new step, or the end of
/// onboarding (`None`); an error leaves the step as it was.
pub open spec fn step_after(step: Option<OnboardingStep>, message: OnboardingReconcileMessage) -> Option<
    OnboardingStep,
> {
    match message {
        OnboardingReconcileMessage::StepChanged(s) => Some(s),
        OnboardingReconcileMessage::Complete => None,
        OnboardingReconcileMessage::RestoreError(_) => step,
    }
}

/// What the UI shows after all the messages, in order.
pub open spec fn step_after_all(step: Option<OnboardingStep>, messages: Seq<OnboardingReconcileMessage>) -> Option<
    OnboardingStep,
>
    decreases messages.len(),
{
    if messages.len() == 0 {
        step
    } else {
        step_after_all(step_after(step, messages[0]), messages.drop_first())
    }
}

/// The messages that an onboarding action sends, in order: accepting the
/// terms moves on to the cloud check; a found backup is offered for restore,
/// else onboarding completes; skipping, or finishing a restore, completes;
/// starting a restore shows its progress; a failed restore reports the error
/// and offers the restore again.
pub open spec fn onboarding_messages(action: OnboardingAction) -> Seq<OnboardingReconcileMessage> {
    match action {
        OnboardingAction::AcceptTerms => seq![
            OnboardingReconcileMessage::StepChanged(OnboardingStep::CloudCheck),
        ],
        OnboardingAction::CloudCheckComplete { has_backup } => if has_backup {
            seq![OnboardingReconcileMessage::StepChanged(OnboardingStep::RestoreOffer)]
        } else {
            seq![OnboardingReconcileMessage::Complete]
        },
        OnboardingAction::SkipRestore => seq![OnboardingReconcileMessage::Complete],
        OnboardingAction::StartRestore => seq![
            OnboardingReconcileMessage::StepChanged(OnboardingStep::Restoring),
        ],
        OnboardingAction::RestoreComplete => seq![OnboardingReconcileMessage::Complete],
        OnboardingAction::RestoreFailed { error } => seq![
            OnboardingReconcileMessage::RestoreError(error),
            OnboardingReconcileMessage::StepChanged(OnboardingStep::RestoreOffer),
        ],
    }
}

/// Handles an onboarding action: only accepting the terms records them, and
/// the messages are [`onboarding_messages`].
pub fn dispatch(action: OnboardingAction) -> (d: OnboardingDispatch)
    ensures
        d.accept_terms == (action is AcceptTerms),
        d.messages@ == onboarding_messages(action),
{
    let mut messages: Vec<OnboardingReconcileMessage> = Vec::new();
    let accept_terms = match action {
        OnboardingAction::AcceptTerms => {
            messages.push(OnboardingReconcileMessage::StepChanged(OnboardingStep::CloudCheck));
            true
        },
        OnboardingAction::CloudCheckComplete { has_backup } => {
            if has_backup {
                messages.push(OnboardingReconcileMessage::StepChanged(OnboardingStep::RestoreOffer));
            } else {
                messages.push(OnboardingReconcileMessage::Complete);
            }
            false
        },
        OnboardingAction::SkipRestore => {
            messages.push(OnboardingReconcileMessage::Complete);
            false
        },
        OnboardingAction::StartRestore => {
            messages.push(OnboardingReconcileMessage::StepChanged(OnboardingStep::Restoring));
            false
        },
        OnboardingAction::RestoreComplete => {
            messages.push(OnboardingReconcileMessage::Complete);
            false
        },
        OnboardingAction::RestoreFailed { error } => {
            messages.push(OnboardingReconcileMessage::RestoreError(error));
            messages.push(OnboardingReconcileMessage::StepChanged(OnboardingStep::RestoreOffer));
            false
        },
    };
    OnboardingDispatch { accept_terms, messages }
}

/// Every onboarding action sends at least one message; accepting the terms
/// always lands on the cloud check, and a failed restore never leaves the UI
/// on the restore progress: it lands on the restore offer.
pub proof fn lemma_dispatch_always_answers(action: OnboardingAction, step: Option<OnboardingStep>)
    ensures
        onboarding_messages(action).len() >= 1,
        action is RestoreFailed ==> step_after_all(step, onboarding_messages(action)) == Some(
            OnboardingStep::RestoreOffer,
        ),
        action is AcceptTerms ==> step_after_all(step, onboarding_messages(action)) == Some(
            OnboardingStep::CloudCheck,
        ),
{
    reveal_with_fuel(step_after_all, 3);
    if action is RestoreFailed {
        assert(onboarding_messages(action).drop_first().drop_first() =~= Seq::<OnboardingReconcileMessage>::empty());
    }
    if action is AcceptTerms {
        assert(onboarding_messages(action).drop_first() =~= Seq::<OnboardingReconcileMessage>::empty());
    }
}

/// Where each onboarding action leaves the UI, from any step: a found cloud
/// backup stays on the restore offer with a single message, and onboarding
/// completes only when no backup was found, the restore is skipped, or a
/// restore finished; starting a restore shows its progress. Every action
/// but a failed restore sends one message; a failed restore first reports
/// its error.
pub proof fn lemma_dispatch_lands_on(action: OnboardingAction, step: Option<OnboardingStep>)
    ensures
        action matches OnboardingAction::CloudCheckComplete { has_backup } ==> (has_backup ==> (
        onboarding_messages(action).len() == 1 && step_after_all(step, onboarding_messages(action))
            == Some(OnboardingStep::RestoreOffer))),
        action matches OnboardingAction::CloudCheckComplete { has_backup } ==> (!has_backup
            ==> step_after_all(step, onboarding_messages(action)) is None),
        action is SkipRestore || action is RestoreComplete ==> step_after_all(
            step,
            onboarding_messages(action),
        ) is None,
        action is StartRestore ==> step_after_all(step, onboarding_messages(action)) == Some(
            OnboardingStep::Restoring,
        ),
        !(action is SkipRestore || action is RestoreComplete || action matches OnboardingAction::CloudCheckComplete { has_backup: false }) ==> step_after_all(
            step,
            onboarding_messages(action),
        ) is Some,
        !(action is RestoreFailed) ==> onboarding_messages(action).len() == 1,
        action matches OnboardingAction::RestoreFailed { error } ==> onboarding_messages(action).len()
            == 2 && onboarding_messages(action)[0] == OnboardingReconcileMessage::RestoreError(error),
{
    reveal_with_fuel(step_after_all, 3);
    let m = onboarding_messages(action);
    if m.len() == 1 {
        assert(m.drop_first() =~= Seq::<OnboardingReconcileMessage>::empty());
    } else {
        assert(m.drop_first().drop_first() =~= Seq::<OnboardingReconcileMessage>::empty());
    }
}

} // verus!
