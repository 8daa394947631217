//! The kinds of balance on its way back from a closed channel.

use crate::protos::balances::{
    AwaitingThresholdConfirmations, AwaitingThresholdConfirmationsView,
    BroadcastAwaitingConfirmation, BroadcastAwaitingConfirmationView, PendingBroadcast,
    PendingBroadcastView,
};
use vstd::prelude::*;

verus! {

/// The one kind of pending balance that an envelope carries.
#[derive(Clone, Debug, PartialEq, Eq)]
pub enum BalanceType {
    PendingBroadcast(PendingBroadcast),
    BroadcastAwaitingConfirmation(BroadcastAwaitingConfirmation),
    AwaitingThresholdConfirmations(AwaitingThresholdConfirmations),
}

/// What a `BalanceType` holds, as specifications see it.
pub enum BalanceTypeView {
    PendingBroadcast(PendingBroadcastView),
    BroadcastAwaitingConfirmation(BroadcastAwaitingConfirmationView),
    AwaitingThresholdConfirmations(AwaitingThresholdConfirmationsView),
}

impl DeepView for BalanceType {
    type V = BalanceTypeView;

    open spec fn deep_view(&self) -> BalanceTypeView {
        match self {
            BalanceType::PendingBroadcast(inner) => BalanceTypeView::PendingBroadcast(inner.deep_view()),
            BalanceType::BroadcastAwaitingConfirmation(inner) => BalanceTypeView::BroadcastAwaitingConfirmation(inner.deep_view()),
            BalanceType::AwaitingThresholdConfirmations(inner) => BalanceTypeView::AwaitingThresholdConfirmations(inner.deep_view()),
        }
    }
}

} // verus!
