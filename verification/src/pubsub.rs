//! Subscription ids and client sessions.

use vstd::prelude::*;

use crate::rpc::{Id, IdView, Number, Value, ValueView};
use crate::table::Key;

verus! {

/// The id that upstream gives to a subscription.
#[derive(Debug, Clone, PartialEq, Eq, Hash)]
pub enum SubscriptionId {
    /// A numerical id.
    Number(u64),
    /// A non-numerical id, for example a hash.
    String(String),
}

/// The mathematical content of a [`SubscriptionId`].
pub enum SubscriptionIdView {
    Number(u64),
    String(Seq<char>),
}

impl View for SubscriptionId {
    type V = SubscriptionIdView;

    open spec fn view(&self) -> SubscriptionIdView {
        match self {
            SubscriptionId::Number(n) => SubscriptionIdView::Number(*n),
            SubscriptionId::String(s) => SubscriptionIdView::String(s@),
        }
    }
}

/// The subscription id that a JSON value stands for: a string, or a
/// number that is a non-negative 64-bit integer.
pub open spec fn parsed_subscription_id(value: ValueView) -> Option<SubscriptionIdView> {
    match value {
        ValueView::String(s) => Some(SubscriptionIdView::String(s)),
        ValueView::PosInt(n) => Some(SubscriptionIdView::Number(n)),
        _ => None,
    }
}

/// The JSON value that stands for a subscription id.
pub open spec fn subscription_id_value(id: SubscriptionIdView) -> ValueView {
    match id {
        SubscriptionIdView::Number(n) => ValueView::PosInt(n),
        SubscriptionIdView::String(s) => ValueView::String(s),
    }
}

/// The view of an optional subscription id.
pub open spec fn optional_subscription_view(id: Option<SubscriptionId>) -> Option<
    SubscriptionIdView,
> {
    match id {
        Some(i) => Some(i@),
        None => None,
    }
}

impl SubscriptionId {
    /// Parses a JSON value into a subscription id.
    pub fn parse_value(val: &Value) -> (r: Option<SubscriptionId>)
        ensures
            optional_subscription_view(r) == parsed_subscription_id(val@),
    {
        match val {
            Value::String(s) => Some(SubscriptionId::String(s.clone())),
            Value::Number(Number::PosInt(n)) => Some(SubscriptionId::Number(*n)),
            _ => None,
        }
    }

    /// The JSON value that stands for this id.
    pub fn into_value(self) -> (r: Value)
        ensures
            r@ == subscription_id_value(self@),
    {
        match self {
            SubscriptionId::Number(n) => Value::Number(Number::PosInt(n)),
            SubscriptionId::String(s) => Value::String(s),
        }
    }
}

/// A subscription id is read back from the value that stands for it.
pub proof fn lemma_subscription_id_round_trip(id: SubscriptionIdView)
    ensures
        parsed_subscription_id(subscription_id_value(id)) == Some(id),
{
}

impl Key for SubscriptionId {
    type Model = SubscriptionIdView;

    open spec fn model(&self) -> SubscriptionIdView {
        self@
    }

    fn same(&self, other: &SubscriptionId) -> (r: bool) {
        match (self, other) {
            (SubscriptionId::Number(a), SubscriptionId::Number(b)) => *a == *b,
            (SubscriptionId::String(a), SubscriptionId::String(b)) => *a == *b,
            _ => false,
        }
    }

    fn duplicate(&self) -> (r: SubscriptionId) {
        match self {
            SubscriptionId::Number(n) => SubscriptionId::Number(*n),
            SubscriptionId::String(s) => SubscriptionId::String(s.clone()),
        }
    }
}

impl Key for Id {
    type Model = IdView;

    open spec fn model(&self) -> IdView {
        self@
    }

    fn same(&self, other: &Id) -> (r: bool) {
        Id::same(self, other)
    }

    fn duplicate(&self) -> (r: Id) {
        Id::duplicate(self)
    }
}

/// The handle of a client session: one accepted connection that can
/// receive notifications.
#[derive(Debug, Clone, Copy, PartialEq, Eq, Hash, Structural)]
pub struct SessionId(pub u64);

impl Key for SessionId {
    type Model = u64;

    open spec fn model(&self) -> u64 {
        self.0
    }

    fn same(&self, other: &SessionId) -> (r: bool) {
        self.0 == other.0
    }

    fn duplicate(&self) -> (r: SessionId) {
        SessionId(self.0)
    }
}

} // verus!
