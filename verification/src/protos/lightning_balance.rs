//! The kinds of balance held in a channel.

use crate::protos::balances::{
    ClaimableAwaitingConfirmations, ClaimableAwaitingConfirmationsView, ClaimableOnChannelClose,
    ClaimableOnChannelCloseView, ContentiousClaimable, ContentiousClaimableView,
    CounterpartyRevokedOutputClaimable, CounterpartyRevokedOutputClaimableView,
    MaybePreimageClaimableHtlc, MaybePreimageClaimableHtlcView, MaybeTimeoutClaimableHtlc,
    MaybeTimeoutClaimableHtlcView,
};
use vstd::prelude::*;

verus! {

/// The one kind of channel balance that an envelope carries.
#[derive(Clone, Debug, PartialEq, Eq)]
pub enum BalanceType {
    ClaimableOnChannelClose(ClaimableOnChannelClose),
    ClaimableAwaitingConfirmations(ClaimableAwaitingConfirmations),
    ContentiousClaimable(ContentiousClaimable),
    MaybeTimeoutClaimableHtlc(MaybeTimeoutClaimableHtlc),
    MaybePreimageClaimableHtlc(MaybePreimageClaimableHtlc),
    CounterpartyRevokedOutputClaimable(CounterpartyRevokedOutputClaimable),
}

/// What a `BalanceType` holds, as specifications see it.
pub enum BalanceTypeView {
    ClaimableOnChannelClose(ClaimableOnChannelCloseView),
    ClaimableAwaitingConfirmations(ClaimableAwaitingConfirmationsView),
    ContentiousClaimable(ContentiousClaimableView),
    MaybeTimeoutClaimableHtlc(MaybeTimeoutClaimableHtlcView),
    MaybePreimageClaimableHtlc(MaybePreimageClaimableHtlcView),
    CounterpartyRevokedOutputClaimable(CounterpartyRevokedOutputClaimableView),
}

impl DeepView for BalanceType {
    type V = BalanceTypeView;

    open spec fn deep_view(&self) -> BalanceTypeView {
        match self {
            BalanceType::ClaimableOnChannelClose(inner) => BalanceTypeView::ClaimableOnChannelClose(inner.deep_view()),
            BalanceType::ClaimableAwaitingConfirmations(inner) => BalanceTypeView::ClaimableAwaitingConfirmations(inner.deep_view()),
            BalanceType::ContentiousClaimable(inner) => BalanceTypeView::ContentiousClaimable(inner.deep_view()),
            BalanceType::MaybeTimeoutClaimableHtlc(inner) => BalanceTypeView::MaybeTimeoutClaimableHtlc(inner.deep_view()),
            BalanceType::MaybePreimageClaimableHtlc(inner) => BalanceTypeView::MaybePreimageClaimableHtlc(inner.deep_view()),
            BalanceType::CounterpartyRevokedOutputClaimable(inner) => BalanceTypeView::CounterpartyRevokedOutputClaimable(inner.deep_view()),
        }
    }
}

} // verus!
