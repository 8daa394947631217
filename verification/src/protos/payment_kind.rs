//! The kinds of payment.

use crate::protos::payments::{
    Bolt11, Bolt11Jit, Bolt11JitView, Bolt11View, Bolt12Offer, Bolt12OfferView, Bolt12Refund,
    Bolt12RefundView, Onchain, OnchainView, Spontaneous, SpontaneousView,
};
use vstd::prelude::*;

verus! {

/// The one kind of payment that an envelope carries.
#[derive(Clone, Debug, PartialEq, Eq)]
pub enum Kind {
    Onchain(Onchain),
    Bolt11(Bolt11),
    Bolt11Jit(Bolt11Jit),
    Bolt12offer(Bolt12Offer),
    Bolt12refund(Bolt12Refund),
    Spontaneous(Spontaneous),
}

/// What a `Kind` holds, as specifications see it.
pub enum KindView {
    Onchain(OnchainView),
    Bolt11(Bolt11View),
    Bolt11Jit(Bolt11JitView),
    Bolt12offer(Bolt12OfferView),
    Bolt12refund(Bolt12RefundView),
    Spontaneous(SpontaneousView),
}

impl DeepView for Kind {
    type V = KindView;

    open spec fn deep_view(&self) -> KindView {
        match self {
            Kind::Onchain(inner) => KindView::Onchain(inner.deep_view()),
            Kind::Bolt11(inner) => KindView::Bolt11(inner.deep_view()),
            Kind::Bolt11Jit(inner) => KindView::Bolt11Jit(inner.deep_view()),
            Kind::Bolt12offer(inner) => KindView::Bolt12offer(inner.deep_view()),
            Kind::Bolt12refund(inner) => KindView::Bolt12refund(inner.deep_view()),
            Kind::Spontaneous(inner) => KindView::Spontaneous(inner.deep_view()),
        }
    }
}

} // verus!
