//! Request parsing helper methods.
//!
//! A frame is read by the caller; these functions pick from what was read
//! the few fields that the upstream logic looks at.

use vstd::prelude::*;

use crate::pubsub::{
    optional_subscription_view, parsed_subscription_id, SubscriptionId, SubscriptionIdView,
};
use crate::rpc::{
    members_view, optional_value_view, Call, CallView, Id, IdView, Notification,
    Params, ParamsView, Success, Value, ValueView,
};
use crate::text::is_text;

verus! {

/// The value of the last member with the given name, if there is one.
pub open spec fn member(members: Seq<(Seq<char>, ValueView)>, name: Seq<char>) -> Option<ValueView>
    decreases members.len(),
{
    if members.len() == 0 {
        None
    } else if members.last().0 == name {
        Some(members.last().1)
    } else {
        member(members.drop_last(), name)
    }
}

/// The subscription id that a notification carries: that of the member
/// `subscription` of its named parameters.
pub open spec fn notification_subscription(notification: CallView) -> Option<SubscriptionIdView> {
    match notification {
        CallView::Notification { params: ParamsView::Named(members), .. } => match member(
            members,
            "subscription"@,
        ) {
            Some(value) => parsed_subscription_id(value),
            None => None,
        },
        _ => None,
    }
}

/// The name of the method that a call names.
pub open spec fn method_name(call: CallView) -> Option<Seq<char>> {
    match call {
        CallView::MethodCall { method, .. } => Some(method),
        CallView::Notification { method, .. } => Some(method),
        CallView::Invalid { .. } => None,
    }
}

/// The id of a call; a notification has none.
pub open spec fn call_id(call: CallView) -> Option<IdView> {
    match call {
        CallView::MethodCall { id, .. } => Some(id),
        CallView::Notification { .. } => None,
        CallView::Invalid { id } => Some(id),
    }
}

/// The parameters of a call.
pub open spec fn call_params(call: CallView) -> Option<ParamsView> {
    match call {
        CallView::MethodCall { params, .. } => Some(params),
        CallView::Notification { params, .. } => Some(params),
        CallView::Invalid { .. } => None,
    }
}

/// The subscription id that an unsubscribe call names: its first
/// positional parameter.
pub open spec fn unsubscribe_id(call: CallView) -> Option<SubscriptionIdView> {
    match call_params(call) {
        Some(ParamsView::Positional(items)) => if items.len() > 0 {
            parsed_subscription_id(items[0])
        } else {
            None
        },
        _ => None,
    }
}

/// The view of an optional id.
pub open spec fn optional_id_view(id: Option<Id>) -> Option<IdView> {
    match id {
        Some(i) => Some(i@),
        None => None,
    }
}

/// The value of the last member with the given name.
pub fn find_member<'a>(members: &'a Vec<(String, Value)>, name: &str) -> (r: Option<&'a Value>)
    ensures
        match r {
            Some(value) => member(members_view(members@), name@) == Some(value@),
            None => member(members_view(members@), name@) is None,
        },
{
    let mut i: usize = members.len();
    let ghost all = members_view(members@);
    assert(all.subrange(0, i as int) =~= all);
    while i > 0
        invariant
            i <= members.len(),
            all == members_view(members@),
            member(all, name@) == member(all.subrange(0, i as int), name@),
        decreases i,
    {
        let ghost prefix = all.subrange(0, i as int);
        assert(prefix.drop_last() =~= all.subrange(0, i as int - 1));
        assert(prefix.last() == all[i as int - 1]);
        if is_text(&members[i - 1].0, name) {
            return Some(&members[i - 1].1);
        }
        i -= 1;
    }
    None
}

/// Attempt to peek subscription id from a frame that was read as a notification.
pub fn peek_subscription_id(notification: &Option<Notification>) -> (r: Option<SubscriptionId>)
    ensures
        optional_subscription_view(r) == match notification {
            Some(n) => notification_subscription(n@),
            None => None,
        },
{
    match notification {
        Some(Notification { params: Params::Named(members), .. }) => match find_member(
            members,
            "subscription",
        ) {
            Some(value) => SubscriptionId::parse_value(value),
            None => None,
        },
        _ => None,
    }
}

/// Attempt to peek the result of a frame that was read as a successful response.
pub fn peek_result(success: &Option<Success>) -> (r: Option<Value>)
    ensures
        optional_value_view(r) == match success {
            Some(s) => Some(s.result@),
            None => None,
        },
{
    match success {
        Some(s) => Some(s.result.duplicate()),
        None => None,
    }
}

/// Attempt to peek the id of a frame that was read as a call.
pub fn peek_id(call: &Option<Call>) -> (r: Option<Id>)
    ensures
        optional_id_view(r) == match call {
            Some(c) => call_id(c@),
            None => None,
        },
{
    match call {
        Some(c) => match get_id(c) {
            Some(id) => Some(id.duplicate()),
            None => None,
        },
        None => None,
    }
}

/// Extract method name of given call.
pub fn get_method_name(call: &Call) -> (r: Option<&String>)
    ensures
        match r {
            Some(name) => method_name(call@) == Some(name@),
            None => method_name(call@) is None,
        },
{
    match call {
        Call::MethodCall(m) => Some(&m.method),
        Call::Notification(n) => Some(&n.method),
        Call::Invalid { .. } => None,
    }
}

/// Get id of given call.
pub fn get_id(call: &Call) -> (r: Option<&Id>)
    ensures
        match r {
            Some(id) => call_id(call@) == Some(id@),
            None => call_id(call@) is None,
        },
{
    match call {
        Call::MethodCall(m) => Some(&m.id),
        Call::Notification(_) => None,
        Call::Invalid { id } => Some(id),
    }
}

/// Extract the first parameter of a call and parse it as subscription id.
pub fn get_unsubscribe_id(call: &Call) -> (r: Option<SubscriptionId>)
    ensures
        optional_subscription_view(r) == unsubscribe_id(call@),
{
    let params = match call {
        Call::MethodCall(m) => &m.params,
        Call::Notification(n) => &n.params,
        Call::Invalid { .. } => { return None; },
    };
    match params {
        Params::Positional(items) => {
            if items.len() > 0 {
                SubscriptionId::parse_value(&items[0])
            } else {
                None
            }
        },
        _ => None,
    }
}

} // verus!
