//! The enumerations of the schema and the numbers that stand for them.

use vstd::prelude::*;

verus! {

/// Which way a payment goes.
#[derive(Clone, Copy, Debug, PartialEq, Eq, Structural)]
pub enum PaymentDirection {
    Inbound,
    Outbound,
}

/// How far a payment is.
#[derive(Clone, Copy, Debug, PartialEq, Eq, Structural)]
pub enum PaymentStatus {
    Pending,
    Succeeded,
    Failed,
}

impl PaymentDirection {
    /// The number that stands for the direction on the wire.
    pub open spec fn spec_number(self) -> i32 {
        match self {
            PaymentDirection::Inbound => 0,
            PaymentDirection::Outbound => 1,
        }
    }

    /// The direction that a number stands for, if any.
    pub open spec fn spec_from_number(number: i32) -> Option<PaymentDirection> {
        if number == 0 {
            Some(PaymentDirection::Inbound)
        } else if number == 1 {
            Some(PaymentDirection::Outbound)
        } else {
            None
        }
    }

    pub fn number(self) -> (r: i32)
        ensures
            r == self.spec_number(),
    {
        match self {
            PaymentDirection::Inbound => 0,
            PaymentDirection::Outbound => 1,
        }
    }

    pub fn from_number(number: i32) -> (r: Option<PaymentDirection>)
        ensures
            r == Self::spec_from_number(number),
    {
        if number == 0 {
            Some(PaymentDirection::Inbound)
        } else if number == 1 {
            Some(PaymentDirection::Outbound)
        } else {
            None
        }
    }
}

impl PaymentStatus {
    /// The number that stands for the status on the wire.
    pub open spec fn spec_number(self) -> i32 {
        match self {
            PaymentStatus::Pending => 0,
            PaymentStatus::Succeeded => 1,
            PaymentStatus::Failed => 2,
        }
    }

    /// The status that a number stands for, if any.
    pub open spec fn spec_from_number(number: i32) -> Option<PaymentStatus> {
        if number == 0 {
            Some(PaymentStatus::Pending)
        } else if number == 1 {
            Some(PaymentStatus::Succeeded)
        } else if number == 2 {
            Some(PaymentStatus::Failed)
        } else {
            None
        }
    }

    pub fn number(self) -> (r: i32)
        ensures
            r == self.spec_number(),
    {
        match self {
            PaymentStatus::Pending => 0,
            PaymentStatus::Succeeded => 1,
            PaymentStatus::Failed => 2,
        }
    }

    pub fn from_number(number: i32) -> (r: Option<PaymentStatus>)
        ensures
            r == Self::spec_from_number(number),
    {
        if number == 0 {
            Some(PaymentStatus::Pending)
        } else if number == 1 {
            Some(PaymentStatus::Succeeded)
        } else if number == 2 {
            Some(PaymentStatus::Failed)
        } else {
            None
        }
    }
}

/// A number stands for the enumeration value it was made from.
pub proof fn lemma_enumeration_numbers(direction: PaymentDirection, status: PaymentStatus)
    ensures
        PaymentDirection::spec_from_number(direction.spec_number()) == Some(direction),
        PaymentStatus::spec_from_number(status.spec_number()) == Some(status),
{
}

} // verus!
