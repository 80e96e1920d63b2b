//! A simple permissioning system.
//!
//! Allows you to turn off particular methods.

use vstd::prelude::*;

pub mod config;

use crate::rpc::{
    optional_output_view, Call, CallView, Error, ErrorView, Failure, Id, IdView, Output,
    OutputView, Version,
};
use crate::table::{Table};
use crate::text::text;

verus! {

/// Describes method access.
#[derive(Debug, Clone, Copy, PartialEq, Eq, Structural)]
pub enum Access {
    /// Allow all access to that method
    Allow,
    /// Deny any access to that method
    Deny,
}

/// Represents a managed method.
#[derive(Debug, Clone, PartialEq, Eq)]
pub struct Method {
    /// Method name
    pub name: String,
    /// Method access details
    pub policy: Access,
}

/// Represents permissioning configuration
#[derive(Debug, Clone, PartialEq, Eq)]
pub struct Permissioning {
    /// Default (base) policy
    pub policy: Access,
    /// Method overrides
    pub methods: Vec<Method>,
}

/// The mathematical content of a [`Method`].
pub struct MethodView {
    pub name: Seq<char>,
    pub policy: Access,
}

/// The mathematical content of a [`Permissioning`].
pub struct PermissioningView {
    pub policy: Access,
    pub methods: Seq<MethodView>,
}

impl View for Method {
    type V = MethodView;

    open spec fn view(&self) -> MethodView {
        MethodView { name: self.name@, policy: self.policy }
    }
}

/// The views of a list of methods, in order.
pub open spec fn methods_view(methods: Seq<Method>) -> Seq<MethodView> {
    Seq::new(methods.len(), |i: int| methods[i]@)
}

impl View for Permissioning {
    type V = PermissioningView;

    open spec fn view(&self) -> PermissioningView {
        PermissioningView { policy: self.policy, methods: methods_view(self.methods@) }
    }
}

impl Default for Permissioning {
    fn default() -> (r: Self)
        ensures
            r@ == (PermissioningView { policy: Access::Allow, methods: Seq::empty() }),
    {
        let r = Permissioning { policy: Access::Allow, methods: Vec::new() };
        assert(r@.methods =~= Seq::<MethodView>::empty());
        r
    }
}

/// The message of the failure that answers a call that is denied.
pub open spec fn denial_message() -> Seq<char> {
    "You are not allowed to call that method."@
}

/// The configuration that counts among the first `count` options: the last
/// one, or the default where there is none.
pub open spec fn last_config(params: Seq<config::Param>, count: nat) -> PermissioningView {
    if count == 0 || count > params.len() {
        PermissioningView { policy: Access::Allow, methods: Seq::empty() }
    } else {
        params[count - 1]@
    }
}

/// The policies of the first `count` methods by the name of the method; of
/// two with the same name the later one counts.
pub open spec fn by_name(methods: Seq<MethodView>, count: nat) -> Map<Seq<char>, Access>
    decreases count,
{
    if count == 0 || count > methods.len() {
        Map::empty()
    } else {
        by_name(methods, (count - 1) as nat).insert(
            methods[count - 1].name,
            methods[count - 1].policy,
        )
    }
}

/// The access that a call has: that of its method where the method has a
/// policy of its own, else the base policy. A call that is no method call
/// has the base policy.
pub open spec fn access(base: Access, permissioned: Map<Seq<char>, Access>, call: CallView) -> Access {
    match call {
        CallView::MethodCall { method, .. } => if permissioned.contains_key(method) {
            permissioned[method]
        } else {
            base
        },
        _ => base,
    }
}

/// The protocol version and the id under which a call is answered.
pub open spec fn call_details(call: CallView) -> (Option<Version>, Option<IdView>) {
    match call {
        CallView::MethodCall { jsonrpc, id, .. } => (jsonrpc, Some(id)),
        CallView::Notification { jsonrpc, .. } => (jsonrpc, None),
        CallView::Invalid { id } => (None, Some(id)),
    }
}

/// The answer to a call that is denied: a failure with code -1 under the
/// id of the call; a call without id gets no answer.
pub open spec fn rejection(call: CallView) -> Option<OutputView> {
    match call_details(call).1 {
        Some(id) => Some(
            OutputView::Failure {
                jsonrpc: call_details(call).0,
                error: ErrorView { code: -1i64, message: denial_message(), data: None },
                id,
            },
        ),
        None => None,
    }
}

/// What the middleware does with a call.
pub enum Action {
    /// The call goes on.
    Next(Call),
    /// The call is answered with this output, if with any.
    Reject(Option<Output>),
}

/// The protocol version and the id under which a call is answered.
pub fn get_call_details(call: Call) -> (r: (Option<Version>, Option<Id>))
    ensures
        r.0 == call_details(call@).0,
        match r.1 {
            Some(id) => call_details(call@).1 == Some(id@),
            None => call_details(call@).1 is None,
        },
{
    match call {
        Call::MethodCall(inner) => (inner.jsonrpc, Some(inner.id)),
        Call::Notification(inner) => (inner.jsonrpc, None),
        Call::Invalid { id } => (None, Some(id)),
    }
}

/// Simple static permissioning scheme
pub struct Middleware {
    base: Access,
    permissioned: Table<String, Method>,
}

impl Middleware {
    /// Whether the table of methods is consistent.
    pub closed spec fn wf(&self) -> bool {
        self.permissioned.wf()
    }

    /// The base policy.
    pub closed spec fn base(&self) -> Access {
        self.base
    }

    /// The policies of the methods that have one of their own.
    pub closed spec fn permissioned(&self) -> Map<Seq<char>, Access> {
        self.permissioned@.map_values(|m: Method| m.policy)
    }

    /// Creates new permissioning middleware
    ///
    /// The last configuration among the options counts; without one every
    /// call is allowed.
    pub fn new(params: &Vec<config::Param>) -> (r: Middleware)
        ensures
            r.wf(),
            r.base() == last_config(params@, params@.len()).policy,
            r.permissioned() == by_name(
                last_config(params@, params@.len()).methods,
                last_config(params@, params@.len()).methods.len(),
            ),
    {
        let mut permissioned: Table<String, Method> = Table::new();
        let mut base = Access::Allow;
        if params.len() > 0 {
            match &params[params.len() - 1] {
                config::Param::Config(config) => {
                    base = config.policy;
                    let ghost all = methods_view(config.methods@);
                    assert(permissioned@.map_values(|m: Method| m.policy) =~= by_name(all, 0));
                    let mut i: usize = 0;
                    while i < config.methods.len()
                        invariant
                            i <= config.methods.len(),
                            permissioned.wf(),
                            all == methods_view(config.methods@),
                            permissioned@.map_values(|m: Method| m.policy) == by_name(
                                all,
                                i as nat,
                            ),
                        decreases config.methods.len() - i,
                    {
                        let method = &config.methods[i];
                        permissioned.insert(
                            method.name.clone(),
                            Method { name: method.name.clone(), policy: method.policy },
                        );
                        assert(permissioned@.map_values(|m: Method| m.policy) =~= by_name(
                            all,
                            (i + 1) as nat,
                        ));
                        i += 1;
                    }
                },
            }
        } else {
            assert(permissioned@.map_values(|m: Method| m.policy) =~= by_name(
                Seq::<MethodView>::empty(),
                0,
            ));
        }
        Middleware { base, permissioned }
    }

    /// The access that a call has.
    pub fn access(&self, call: &Call) -> (r: Access)
        requires
            self.wf(),
        ensures
            r == access(self.base(), self.permissioned(), call@),
    {
        match call {
            Call::MethodCall(inner) => match self.permissioned.get(&inner.method) {
                Some(method) => method.policy,
                None => self.base,
            },
            _ => self.base,
        }
    }

    /// The answer to a call that is denied.
    pub fn reject(call: Call) -> (r: Option<Output>)
        ensures
            optional_output_view(r) == rejection(call@),
    {
        let (version, id) = get_call_details(call);
        match id {
            Some(id) => Some(
                Output::Failure(
                    Failure {
                        jsonrpc: version,
                        error: Error {
                            code: -1,
                            message: text("You are not allowed to call that method."),
                            data: None,
                        },
                        id,
                    },
                ),
            ),
            None => None,
        }
    }

    /// Decides what happens to a call: a call that is allowed goes on, a
    /// call that is denied is answered at once.
    pub fn decide(&self, call: Call) -> (r: Action)
        requires
            self.wf(),
        ensures
            match access(self.base(), self.permissioned(), call@) {
                Access::Allow => r matches Action::Next(same) && same == call,
                Access::Deny => r matches Action::Reject(output) && optional_output_view(output)
                    == rejection(call@),
            },
    {
        match self.access(&call) {
            Access::Allow => Action::Next(call),
            Access::Deny => Action::Reject(Middleware::reject(call)),
        }
    }

    /// Handles a call: a call that is allowed is answered by `next`, a call
    /// that is denied is answered at once and `next` is not called.
    pub fn on_call<M, F: FnOnce(Call, M) -> Option<Output>>(&self, call: Call, meta: M, next: F) -> (r:
        Option<Output>)
        requires
            self.wf(),
            next.requires((call, meta)),
        ensures
            match access(self.base(), self.permissioned(), call@) {
                Access::Allow => next.ensures((call, meta), r),
                Access::Deny => optional_output_view(r) == rejection(call@),
            },
    {
        match self.decide(call) {
            Action::Next(call) => next(call, meta),
            Action::Reject(output) => output,
        }
    }
}

/// Where the base policy allows and no method is denied, every call is
/// allowed: the middleware answers what `next` answers, as if it were not there.
pub proof fn lemma_allow_is_transparent(permissioned: Map<Seq<char>, Access>, call: CallView)
    requires
        forall|method: Seq<char>|
            permissioned.contains_key(method) ==> permissioned[method] == Access::Allow,
    ensures
        access(Access::Allow, permissioned, call) == Access::Allow,
{
}

} // verus!
