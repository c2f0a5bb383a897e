//! The life cycle of an order.

use vstd::prelude::*;

verus! {

use crate::text::str_eq;

/// Where an order stands in its life cycle.
#[derive(Clone, Copy, Debug, PartialEq, Eq, Structural, Hash)]
pub enum OrderState {
    New,
    PaymentAwaited,
    TransactionPending,
    AmountExpired,
    Paid,
    InProcessing,
    Cancelled,
    Sent,
    Delivered,
    Received,
    Complete,
}

impl OrderState {
    /// The textual form of each value.
    pub open spec fn name_spec(self) -> Seq<char> {
        match self {
            OrderState::New => "New"@,
            OrderState::PaymentAwaited => "Payment Awaited"@,
            OrderState::TransactionPending => "Transaction pending"@,
            OrderState::AmountExpired => "Amount expired"@,
            OrderState::Paid => "Paid"@,
            OrderState::InProcessing => "In processing"@,
            OrderState::Cancelled => "Cancelled"@,
            OrderState::Sent => "Sent"@,
            OrderState::Delivered => "Delivered"@,
            OrderState::Received => "Received"@,
            OrderState::Complete => "Complete"@,
        }
    }

    /// Renders the value's textual form.
    pub fn name(&self) -> (r: &'static str)
        ensures
            r@ == self.name_spec(),
    {
        match self {
            OrderState::New => "New",
            OrderState::PaymentAwaited => "Payment Awaited",
            OrderState::TransactionPending => "Transaction pending",
            OrderState::AmountExpired => "Amount expired",
            OrderState::Paid => "Paid",
            OrderState::InProcessing => "In processing",
            OrderState::Cancelled => "Cancelled",
            OrderState::Sent => "Sent",
            OrderState::Delivered => "Delivered",
            OrderState::Received => "Received",
            OrderState::Complete => "Complete",
        }
    }

    /// The value a textual form denotes, or nothing for any other text.
    pub open spec fn from_str_spec(s: Seq<char>) -> Option<OrderState> {
        if s == "New"@ {
            Some(OrderState::New)
        } else if s == "Payment Awaited"@ {
            Some(OrderState::PaymentAwaited)
        } else if s == "Transaction pending"@ {
            Some(OrderState::TransactionPending)
        } else if s == "Amount expired"@ {
            Some(OrderState::AmountExpired)
        } else if s == "Paid"@ {
            Some(OrderState::Paid)
        } else if s == "In processing"@ {
            Some(OrderState::InProcessing)
        } else if s == "Cancelled"@ {
            Some(OrderState::Cancelled)
        } else if s == "Sent"@ {
            Some(OrderState::Sent)
        } else if s == "Delivered"@ {
            Some(OrderState::Delivered)
        } else if s == "Received"@ {
            Some(OrderState::Received)
        } else if s == "Complete"@ {
            Some(OrderState::Complete)
        } else {
            None
        }
    }

    /// Parses a textual form; `Some` exactly on the recognized texts.
    pub fn from_str(s: &str) -> (r: Option<OrderState>)
        ensures
            r == Self::from_str_spec(s@),
    {
        if str_eq(s, "New") {
            Some(OrderState::New)
        } else if str_eq(s, "Payment Awaited") {
            Some(OrderState::PaymentAwaited)
        } else if str_eq(s, "Transaction pending") {
            Some(OrderState::TransactionPending)
        } else if str_eq(s, "Amount expired") {
            Some(OrderState::AmountExpired)
        } else if str_eq(s, "Paid") {
            Some(OrderState::Paid)
        } else if str_eq(s, "In processing") {
            Some(OrderState::InProcessing)
        } else if str_eq(s, "Cancelled") {
            Some(OrderState::Cancelled)
        } else if str_eq(s, "Sent") {
            Some(OrderState::Sent)
        } else if str_eq(s, "Delivered") {
            Some(OrderState::Delivered)
        } else if str_eq(s, "Received") {
            Some(OrderState::Received)
        } else if str_eq(s, "Complete") {
            Some(OrderState::Complete)
        } else {
            None
        }
    }

    /// Lists every order state, in life-cycle order.
    pub fn as_vec() -> (r: Vec<OrderState>)
        ensures
            r@ == seq![
                OrderState::New,
                OrderState::PaymentAwaited,
                OrderState::TransactionPending,
                OrderState::AmountExpired,
                OrderState::Paid,
                OrderState::InProcessing,
                OrderState::Cancelled,
                OrderState::Sent,
                OrderState::Delivered,
                OrderState::Received,
                OrderState::Complete,
            ],
    {
        let mut r: Vec<OrderState> = Vec::new();
        r.push(OrderState::New);
        r.push(OrderState::PaymentAwaited);
        r.push(OrderState::TransactionPending);
        r.push(OrderState::AmountExpired);
        r.push(OrderState::Paid);
        r.push(OrderState::InProcessing);
        r.push(OrderState::Cancelled);
        r.push(OrderState::Sent);
        r.push(OrderState::Delivered);
        r.push(OrderState::Received);
        r.push(OrderState::Complete);
        proof {
            assert(r@ =~= seq![
                OrderState::New,
                OrderState::PaymentAwaited,
                OrderState::TransactionPending,
                OrderState::AmountExpired,
                OrderState::Paid,
                OrderState::InProcessing,
                OrderState::Cancelled,
                OrderState::Sent,
                OrderState::Delivered,
                OrderState::Received,
                OrderState::Complete,
            ]);
        }
        r
    }
}

} // verus!
