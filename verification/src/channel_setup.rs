use vstd::prelude::*;

verus! {

/// Where the set-up of a node's wallet channel feature stands.
#[derive(Debug, Clone, Copy, PartialEq, Eq)]
pub enum ChannelSetup {
    /// Waiting for the wallet to say whether the channel feature is enabled.
    QueryingFeature,
    /// Waiting for the wallet to finish enabling the channel feature.
    EnablingChannel,
    /// The channel feature is on: the node can be built.
    Ready,
    /// A wallet call failed: node set-up returns that error.
    Failed,
}

/// What the wallet answered to the last call.
#[derive(Debug, Clone, Copy, PartialEq, Eq)]
pub enum SetupEvent {
    /// The channel feature is enabled (`true`) or not (`false`).
    FeatureStatus(bool),
    /// Enabling the channel feature succeeded.
    ChannelEnabled,
    /// The wallet call returned an error.
    CallFailed,
}

/// What the caller does next.
#[derive(Debug, Clone, Copy, PartialEq, Eq)]
pub enum SetupAction {
    /// Ask the wallet whether the channel feature is enabled.
    QueryFeature,
    /// Ask the wallet to enable the channel feature.
    EnableChannel,
    /// Build the node around the wallet.
    BuildNode,
    /// Return the error of the failed call.
    Abort,
    /// Nothing: the answer did not belong to the outstanding call.
    Nothing,
}

/// The state a set-up starts in.
pub open spec fn setup_start() -> ChannelSetup {
    ChannelSetup::QueryingFeature
}

/// One step of the set-up: the next state and action after an answer.
pub open spec fn setup_step(state: ChannelSetup, event: SetupEvent) -> (ChannelSetup, SetupAction) {
    match state {
        ChannelSetup::QueryingFeature => match event {
            SetupEvent::FeatureStatus(true) => (ChannelSetup::Ready, SetupAction::BuildNode),
            SetupEvent::FeatureStatus(false) => (ChannelSetup::EnablingChannel, SetupAction::EnableChannel),
            SetupEvent::CallFailed => (ChannelSetup::Failed, SetupAction::Abort),
            SetupEvent::ChannelEnabled => (state, SetupAction::Nothing),
        },
        ChannelSetup::EnablingChannel => match event {
            SetupEvent::ChannelEnabled => (ChannelSetup::Ready, SetupAction::BuildNode),
            SetupEvent::CallFailed => (ChannelSetup::Failed, SetupAction::Abort),
            SetupEvent::FeatureStatus(_) => (state, SetupAction::Nothing),
        },
        ChannelSetup::Ready => (state, SetupAction::Nothing),
        ChannelSetup::Failed => (state, SetupAction::Nothing),
    }
}

/// The state after a sequence of answers, starting from `state`.
pub open spec fn setup_run(state: ChannelSetup, events: Seq<SetupEvent>) -> ChannelSetup
    decreases events.len(),
{
    if events.len() == 0 {
        state
    } else {
        setup_run(setup_step(state, events[0]).0, events.drop_first())
    }
}

impl ChannelSetup {
    /// Begins the set-up by asking whether the channel feature is enabled.
    pub fn start() -> (res: (ChannelSetup, SetupAction))
        ensures
            res.0 == setup_start(),
            res.1 == SetupAction::QueryFeature,
    {
        (ChannelSetup::QueryingFeature, SetupAction::QueryFeature)
    }

    /// Takes the wallet's answer and says where the set-up goes next.
    pub fn step(self, event: SetupEvent) -> (res: (ChannelSetup, SetupAction))
        ensures
            res == setup_step(self, event),
            res.1 == SetupAction::BuildNode <==> (res.0 == ChannelSetup::Ready && self
                != ChannelSetup::Ready),
            res.1 == SetupAction::Abort <==> (res.0 == ChannelSetup::Failed && self
                != ChannelSetup::Failed),
            res.1 == SetupAction::EnableChannel <==> (self == ChannelSetup::QueryingFeature
                && event == SetupEvent::FeatureStatus(false)),
    {
        proof {
            lemma_action_matches_outcome(self, event);
        }
        match self {
            ChannelSetup::QueryingFeature => match event {
                SetupEvent::FeatureStatus(enabled) => {
                    if enabled {
                        (ChannelSetup::Ready, SetupAction::BuildNode)
                    } else {
                        (ChannelSetup::EnablingChannel, SetupAction::EnableChannel)
                    }
                },
                SetupEvent::CallFailed => (ChannelSetup::Failed, SetupAction::Abort),
                SetupEvent::ChannelEnabled => (self, SetupAction::Nothing),
            },
            ChannelSetup::EnablingChannel => match event {
                SetupEvent::ChannelEnabled => (ChannelSetup::Ready, SetupAction::BuildNode),
                SetupEvent::CallFailed => (ChannelSetup::Failed, SetupAction::Abort),
                SetupEvent::FeatureStatus(_) => (self, SetupAction::Nothing),
            },
            ChannelSetup::Ready => (self, SetupAction::Nothing),
            ChannelSetup::Failed => (self, SetupAction::Nothing),
        }
    }
}

/// What the caller is told to do always matches where the set-up went: the node is
/// built exactly when the set-up has just become ready, the set-up aborts exactly when
/// it has just failed, enabling is asked for exactly when the feature was just reported
/// off, and nothing is done exactly when the state stays as it was. A set-up that waits
/// for an answer fails exactly on a failed call, and becomes ready only on an answer
/// that shows the feature on.
pub proof fn lemma_action_matches_outcome(state: ChannelSetup, event: SetupEvent)
    ensures
        ({
            let (next, action) = setup_step(state, event);
            &&& (action == SetupAction::BuildNode <==> (next == ChannelSetup::Ready && state
                != ChannelSetup::Ready))
            &&& (action == SetupAction::Abort <==> (next == ChannelSetup::Failed && state
                != ChannelSetup::Failed))
            &&& (action == SetupAction::EnableChannel <==> (state
                == ChannelSetup::QueryingFeature && event == SetupEvent::FeatureStatus(false)))
            &&& (action == SetupAction::EnableChannel ==> next == ChannelSetup::EnablingChannel)
            &&& (action == SetupAction::Nothing <==> next == state)
            &&& action != SetupAction::QueryFeature
            &&& (state == ChannelSetup::QueryingFeature || state == ChannelSetup::EnablingChannel
                ==> (next == ChannelSetup::Failed <==> event == SetupEvent::CallFailed))
            &&& (state != ChannelSetup::Ready && next == ChannelSetup::Ready ==> (event
                == SetupEvent::FeatureStatus(true) || event == SetupEvent::ChannelEnabled))
        }),
{
}

/// The wallet is asked to enable the channel feature exactly when it reported the
/// feature off.
pub proof fn lemma_enable_only_when_disabled(event: SetupEvent)
    ensures
        (setup_step(setup_start(), event).1 == SetupAction::EnableChannel)
            <==> event == SetupEvent::FeatureStatus(false),
{
}

/// Whether some answer in the sequence shows the channel feature on: it was reported
/// enabled, or enabling it succeeded.
pub open spec fn feature_shown_on(events: Seq<SetupEvent>) -> bool {
    exists|i: int|
        0 <= i < events.len() && (events[i] == SetupEvent::FeatureStatus(true) || events[i]
            == SetupEvent::ChannelEnabled)
}

/// A set-up that is not yet finished and ends ready has seen an answer that shows the
/// channel feature on.
pub proof fn lemma_ready_means_feature_on(state: ChannelSetup, events: Seq<SetupEvent>)
    requires
        state == ChannelSetup::QueryingFeature || state == ChannelSetup::EnablingChannel,
        setup_run(state, events) == ChannelSetup::Ready,
    ensures
        feature_shown_on(events),
    decreases events.len(),
{
    if events.len() == 0 {
    } else {
        let next = setup_step(state, events[0]).0;
        let rest = events.drop_first();
        if next == ChannelSetup::Ready {
            assert(events[0] == SetupEvent::FeatureStatus(true) || events[0]
                == SetupEvent::ChannelEnabled);
        } else if next == ChannelSetup::Failed {
            lemma_finished_setup_is_final(next, rest);
        } else {
            lemma_ready_means_feature_on(next, rest);
            let i = choose|i: int|
                0 <= i < rest.len() && (rest[i] == SetupEvent::FeatureStatus(true) || rest[i]
                    == SetupEvent::ChannelEnabled);
            assert(events[i + 1] == rest[i]);
        }
    }
}

/// A finished set-up, ready or failed, stays as it is whatever answers follow.
pub proof fn lemma_finished_setup_is_final(state: ChannelSetup, events: Seq<SetupEvent>)
    requires
        state == ChannelSetup::Ready || state == ChannelSetup::Failed,
    ensures
        setup_run(state, events) == state,
    decreases events.len(),
{
    if events.len() > 0 {
        lemma_finished_setup_is_final(state, events.drop_first());
    }
}

/// A failed wallet call, while the set-up waits for an answer, aborts it.
pub proof fn lemma_failed_call_aborts(state: ChannelSetup)
    requires
        state == ChannelSetup::QueryingFeature || state == ChannelSetup::EnablingChannel,
    ensures
        setup_step(state, SetupEvent::CallFailed) == (ChannelSetup::Failed, SetupAction::Abort),
{
}

} // verus!
