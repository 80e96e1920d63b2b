//! The JSON-RPC 2.0 data model: JSON values, request ids, calls and outputs.
//!
//! Every type has a mathematical view (`@`) in which strings are sequences of
//! characters and vectors are sequences; contracts throughout the crate are
//! stated over these views.

use vstd::prelude::*;

verus! {

/// A JSON number. A number that is no 64-bit integer is kept as its decimal text.
#[derive(Debug, Clone, PartialEq)]
pub enum Number {
    /// A non-negative integer.
    PosInt(u64),
    /// A negative integer.
    NegInt(i64),
    /// Any other number, as the decimal text it is written with.
    Float(String),
}

/// A JSON value.
#[derive(Debug, PartialEq)]
pub enum Value {
    /// `null`
    Null,
    /// `true` or `false`
    Bool(bool),
    /// A number.
    Number(Number),
    /// A string.
    String(String),
    /// An array.
    Array(Vec<Value>),
    /// An object, as its members in order.
    Object(Vec<(String, Value)>),
}

/// The mathematical content of a [`Value`].
pub enum ValueView {
    Null,
    Bool(bool),
    PosInt(u64),
    NegInt(i64),
    Float(Seq<char>),
    String(Seq<char>),
    Array(Seq<ValueView>),
    Object(Seq<(Seq<char>, ValueView)>),
}

impl View for Number {
    type V = ValueView;

    open spec fn view(&self) -> ValueView {
        match self {
            Number::PosInt(n) => ValueView::PosInt(*n),
            Number::NegInt(n) => ValueView::NegInt(*n),
            Number::Float(s) => ValueView::Float(s@),
        }
    }
}

/// The content of a value.
pub open spec fn value_view(value: Value) -> ValueView
    decreases value, 0nat,
{
    match value {
        Value::Null => ValueView::Null,
        Value::Bool(b) => ValueView::Bool(b),
        Value::Number(n) => n@,
        Value::String(s) => ValueView::String(s@),
        Value::Array(items) => ValueView::Array(values_prefix_view(items@, items@.len())),
        Value::Object(members) => ValueView::Object(
            members_prefix_view(members@, members@.len()),
        ),
    }
}

/// The contents of the first `count` items of a sequence of values.
pub open spec fn values_prefix_view(items: Seq<Value>, count: nat) -> Seq<ValueView>
    decreases items, count,
{
    if count == 0 || count > items.len() {
        Seq::empty()
    } else {
        values_prefix_view(items, (count - 1) as nat).push(value_view(items[count - 1]))
    }
}

/// The contents of the first `count` members of an object.
pub open spec fn members_prefix_view(members: Seq<(String, Value)>, count: nat) -> Seq<
    (Seq<char>, ValueView),
>
    decreases members, count,
{
    if count == 0 || count > members.len() {
        Seq::empty()
    } else {
        members_prefix_view(members, (count - 1) as nat).push(
            (members[count - 1].0@, value_view(members[count - 1].1)),
        )
    }
}

impl View for Value {
    type V = ValueView;

    open spec fn view(&self) -> ValueView {
        value_view(*self)
    }
}

/// The views of the items of a vector of values, in order.
pub open spec fn values_view(items: Seq<Value>) -> Seq<ValueView> {
    Seq::new(items.len(), |i: int| items[i]@)
}

/// The views of the members of an object, in order.
pub open spec fn members_view(members: Seq<(String, Value)>) -> Seq<(Seq<char>, ValueView)> {
    Seq::new(members.len(), |i: int| (members[i].0@, members[i].1@))
}

proof fn lemma_values_prefix(items: Seq<Value>, count: nat)
    requires
        count <= items.len(),
    ensures
        values_prefix_view(items, count) == values_view(items.take(count as int)),
    decreases count,
{
    if count == 0 {
        assert(values_prefix_view(items, count) =~= values_view(items.take(count as int)));
    } else {
        lemma_values_prefix(items, (count - 1) as nat);
        assert(values_prefix_view(items, count) =~= values_view(items.take(count as int)));
    }
}

proof fn lemma_members_prefix(members: Seq<(String, Value)>, count: nat)
    requires
        count <= members.len(),
    ensures
        members_prefix_view(members, count) == members_view(members.take(count as int)),
    decreases count,
{
    if count == 0 {
        assert(members_prefix_view(members, count) =~= members_view(members.take(count as int)));
    } else {
        lemma_members_prefix(members, (count - 1) as nat);
        assert(members_prefix_view(members, count) =~= members_view(members.take(count as int)));
    }
}

/// The view of an array is the sequence of the views of its items.
pub proof fn lemma_array_view(items: Vec<Value>)
    ensures
        Value::Array(items)@ == ValueView::Array(values_view(items@)),
{
    lemma_values_prefix(items@, items@.len());
    assert(items@.take(items@.len() as int) =~= items@);
}

/// The view of an object is the sequence of the views of its members.
pub proof fn lemma_object_view(members: Vec<(String, Value)>)
    ensures
        Value::Object(members)@ == ValueView::Object(members_view(members@)),
{
    lemma_members_prefix(members@, members@.len());
    assert(members@.take(members@.len() as int) =~= members@);
}

impl Number {
    /// A copy of this number.
    pub fn duplicate(&self) -> (r: Number)
        ensures
            r@ == self@,
    {
        match self {
            Number::PosInt(n) => Number::PosInt(*n),
            Number::NegInt(n) => Number::NegInt(*n),
            Number::Float(s) => Number::Float(s.clone()),
        }
    }
}

/// A copy of a vector of values.
#[verifier::loop_isolation(false)]
pub fn duplicate_values(items: &Vec<Value>) -> (r: Vec<Value>)
    ensures
        values_view(r@) == values_view(items@),
    decreases items,
{
    let mut out: Vec<Value> = Vec::new();
    let mut i: usize = 0;
    while i < items.len()
        invariant
            i <= items.len(),
            out@.len() == i,
            forall|j: int| 0 <= j < i ==> out@[j]@ == items@[j]@,
        decreases items.len() - i,
    {
        proof {
            broadcast use vstd::std_specs::vec::axiom_vec_index_decreases;

        }
        let item = items[i].duplicate();
        out.push(item);
        i += 1;
    }
    assert(values_view(out@) =~= values_view(items@));
    out
}

/// A copy of the members of an object.
#[verifier::loop_isolation(false)]
pub fn duplicate_members(members: &Vec<(String, Value)>) -> (r: Vec<(String, Value)>)
    ensures
        members_view(r@) == members_view(members@),
    decreases members,
{
    let mut out: Vec<(String, Value)> = Vec::new();
    let mut i: usize = 0;
    while i < members.len()
        invariant
            i <= members.len(),
            out@.len() == i,
            forall|j: int|
                0 <= j < i ==> out@[j].0@ == members@[j].0@ && out@[j].1@ == members@[j].1@,
        decreases members.len() - i,
    {
        proof {
            broadcast use vstd::std_specs::vec::axiom_vec_index_decreases;

        }
        let item = members[i].1.duplicate();
        out.push((members[i].0.clone(), item));
        i += 1;
    }
    assert(members_view(out@) =~= members_view(members@));
    out
}

impl Value {
    /// A deep copy of this value.
    pub fn duplicate(&self) -> (r: Value)
        ensures
            r@ == self@,
        decreases self,
    {
        match self {
            Value::Null => Value::Null,
            Value::Bool(b) => Value::Bool(*b),
            Value::Number(n) => Value::Number(n.duplicate()),
            Value::String(s) => Value::String(s.clone()),
            Value::Array(items) => {
                let out = duplicate_values(items);
                proof {
                    lemma_array_view(out);
                    lemma_array_view(*items);
                }
                Value::Array(out)
            },
            Value::Object(members) => {
                let out = duplicate_members(members);
                proof {
                    lemma_object_view(out);
                    lemma_object_view(*members);
                }
                Value::Object(out)
            },
        }
    }
}

impl Clone for Value {
    fn clone(&self) -> (r: Value)
        ensures
            r@ == self@,
    {
        self.duplicate()
    }
}

/// The protocol version that a frame names.
#[derive(Debug, Clone, Copy, PartialEq, Eq)]
pub enum Version {
    /// JSON-RPC 2.0
    V2,
}

/// A request id: the key by which a response is matched to its request.
#[derive(Debug, Clone, PartialEq, Eq)]
pub enum Id {
    /// No id.
    Null,
    /// A numeric id.
    Num(u64),
    /// A string id.
    Str(String),
}

/// The mathematical content of an [`Id`].
pub enum IdView {
    Null,
    Num(u64),
    Str(Seq<char>),
}

impl View for Id {
    type V = IdView;

    open spec fn view(&self) -> IdView {
        match self {
            Id::Null => IdView::Null,
            Id::Num(n) => IdView::Num(*n),
            Id::Str(s) => IdView::Str(s@),
        }
    }
}

impl Id {
    /// A copy of this id.
    pub fn duplicate(&self) -> (r: Id)
        ensures
            r@ == self@,
    {
        match self {
            Id::Null => Id::Null,
            Id::Num(n) => Id::Num(*n),
            Id::Str(s) => Id::Str(s.clone()),
        }
    }

    /// Whether two ids are the same id.
    pub fn same(&self, other: &Id) -> (r: bool)
        ensures
            r == (self@ == other@),
    {
        match (self, other) {
            (Id::Null, Id::Null) => true,
            (Id::Num(a), Id::Num(b)) => *a == *b,
            (Id::Str(a), Id::Str(b)) => *a == *b,
            _ => false,
        }
    }
}

/// The parameters of a call.
#[derive(Debug, Clone, PartialEq)]
pub enum Params {
    /// No parameters.
    Absent,
    /// Positional parameters.
    Positional(Vec<Value>),
    /// Named parameters, as the members of an object.
    Named(Vec<(String, Value)>),
}

/// The mathematical content of [`Params`].
pub enum ParamsView {
    Absent,
    Positional(Seq<ValueView>),
    Named(Seq<(Seq<char>, ValueView)>),
}

impl View for Params {
    type V = ParamsView;

    open spec fn view(&self) -> ParamsView {
        match self {
            Params::Absent => ParamsView::Absent,
            Params::Positional(items) => ParamsView::Positional(values_view(items@)),
            Params::Named(members) => ParamsView::Named(members_view(members@)),
        }
    }
}

impl Params {
    /// A deep copy of these parameters.
    pub fn duplicate(&self) -> (r: Params)
        ensures
            r@ == self@,
    {
        match self {
            Params::Absent => Params::Absent,
            Params::Positional(items) => Params::Positional(duplicate_values(items)),
            Params::Named(members) => Params::Named(duplicate_members(members)),
        }
    }
}

/// A request that expects a response.
#[derive(Debug, Clone, PartialEq)]
pub struct MethodCall {
    /// The protocol version, if the frame names one.
    pub jsonrpc: Option<Version>,
    /// The method's name.
    pub method: String,
    /// The parameters.
    pub params: Params,
    /// The request id.
    pub id: Id,
}

/// A request that expects no response.
#[derive(Debug, Clone, PartialEq)]
pub struct Notification {
    /// The protocol version, if the frame names one.
    pub jsonrpc: Option<Version>,
    /// The method's name.
    pub method: String,
    /// The parameters.
    pub params: Params,
}

/// One request frame.
#[derive(Debug, Clone, PartialEq)]
pub enum Call {
    /// A method call.
    MethodCall(MethodCall),
    /// A notification.
    Notification(Notification),
    /// A frame that is neither; only its id is known.
    Invalid {
        /// The id of the frame, `Null` where it has none.
        id: Id,
    },
}

/// The mathematical content of a [`Call`].
pub enum CallView {
    MethodCall { jsonrpc: Option<Version>, method: Seq<char>, params: ParamsView, id: IdView },
    Notification { jsonrpc: Option<Version>, method: Seq<char>, params: ParamsView },
    Invalid { id: IdView },
}

impl View for MethodCall {
    type V = CallView;

    open spec fn view(&self) -> CallView {
        CallView::MethodCall {
            jsonrpc: self.jsonrpc,
            method: self.method@,
            params: self.params@,
            id: self.id@,
        }
    }
}

impl View for Notification {
    type V = CallView;

    open spec fn view(&self) -> CallView {
        CallView::Notification {
            jsonrpc: self.jsonrpc,
            method: self.method@,
            params: self.params@,
        }
    }
}

impl View for Call {
    type V = CallView;

    open spec fn view(&self) -> CallView {
        match self {
            Call::MethodCall(m) => m@,
            Call::Notification(n) => n@,
            Call::Invalid { id } => CallView::Invalid { id: id@ },
        }
    }
}

impl Call {
    /// A deep copy of this call.
    pub fn duplicate(&self) -> (r: Call)
        ensures
            r@ == self@,
    {
        match self {
            Call::MethodCall(m) => Call::MethodCall(
                MethodCall {
                    jsonrpc: m.jsonrpc,
                    method: m.method.clone(),
                    params: m.params.duplicate(),
                    id: m.id.duplicate(),
                },
            ),
            Call::Notification(n) => Call::Notification(
                Notification {
                    jsonrpc: n.jsonrpc,
                    method: n.method.clone(),
                    params: n.params.duplicate(),
                },
            ),
            Call::Invalid { id } => Call::Invalid { id: id.duplicate() },
        }
    }
}

/// The error object of a failed call.
#[derive(Debug, Clone, PartialEq)]
pub struct Error {
    /// The error code.
    pub code: i64,
    /// A short description.
    pub message: String,
    /// Further detail.
    pub data: Option<Value>,
}

/// The mathematical content of an [`Error`].
pub struct ErrorView {
    pub code: i64,
    pub message: Seq<char>,
    pub data: Option<ValueView>,
}

/// The view of an optional value.
pub open spec fn optional_value_view(value: Option<Value>) -> Option<ValueView> {
    match value {
        Some(v) => Some(v@),
        None => None,
    }
}

impl View for Error {
    type V = ErrorView;

    open spec fn view(&self) -> ErrorView {
        ErrorView {
            code: self.code,
            message: self.message@,
            data: optional_value_view(self.data),
        }
    }
}

/// The response to a call that succeeded.
#[derive(Debug, Clone, PartialEq)]
pub struct Success {
    /// The protocol version, if the frame names one.
    pub jsonrpc: Option<Version>,
    /// The result.
    pub result: Value,
    /// The id of the request.
    pub id: Id,
}

/// The response to a call that failed.
#[derive(Debug, Clone, PartialEq)]
pub struct Failure {
    /// The protocol version, if the frame names one.
    pub jsonrpc: Option<Version>,
    /// The error.
    pub error: Error,
    /// The id of the request.
    pub id: Id,
}

/// One response frame.
#[derive(Debug, Clone, PartialEq)]
pub enum Output {
    /// The call succeeded.
    Success(Success),
    /// The call failed.
    Failure(Failure),
}

/// The mathematical content of an [`Output`].
pub enum OutputView {
    Success { jsonrpc: Option<Version>, result: ValueView, id: IdView },
    Failure { jsonrpc: Option<Version>, error: ErrorView, id: IdView },
}

impl View for Success {
    type V = OutputView;

    open spec fn view(&self) -> OutputView {
        OutputView::Success { jsonrpc: self.jsonrpc, result: self.result@, id: self.id@ }
    }
}

impl View for Failure {
    type V = OutputView;

    open spec fn view(&self) -> OutputView {
        OutputView::Failure { jsonrpc: self.jsonrpc, error: self.error@, id: self.id@ }
    }
}

impl View for Output {
    type V = OutputView;

    open spec fn view(&self) -> OutputView {
        match self {
            Output::Success(s) => s@,
            Output::Failure(f) => f@,
        }
    }
}

/// The view of an optional output.
pub open spec fn optional_output_view(output: Option<Output>) -> Option<OutputView> {
    match output {
        Some(o) => Some(o@),
        None => None,
    }
}

impl Error {
    /// A deep copy of this error.
    pub fn duplicate(&self) -> (r: Error)
        ensures
            r@ == self@,
    {
        let data = match &self.data {
            Some(v) => Some(v.duplicate()),
            None => None,
        };
        Error { code: self.code, message: self.message.clone(), data }
    }
}

impl Output {
    /// A deep copy of this output.
    pub fn duplicate(&self) -> (r: Output)
        ensures
            r@ == self@,
    {
        match self {
            Output::Success(s) => Output::Success(
                Success { jsonrpc: s.jsonrpc, result: s.result.duplicate(), id: s.id.duplicate() },
            ),
            Output::Failure(f) => Output::Failure(
                Failure { jsonrpc: f.jsonrpc, error: f.error.duplicate(), id: f.id.duplicate() },
            ),
        }
    }

    /// The id of the request that this output answers.
    pub fn id(&self) -> (r: &Id)
        ensures
            r@ == output_id(self@),
    {
        match self {
            Output::Success(s) => &s.id,
            Output::Failure(f) => &f.id,
        }
    }
}

/// The id that an output carries.
pub open spec fn output_id(output: OutputView) -> IdView {
    match output {
        OutputView::Success { id, .. } => id,
        OutputView::Failure { id, .. } => id,
    }
}

/// An output as the answer to a call: under the id of the call. Where
/// there is no output, or the call has no id, nothing changes.
pub open spec fn under_id(output: Option<OutputView>, call: CallView) -> Option<OutputView> {
    match output {
        None => None,
        Some(answer) => match call {
            CallView::MethodCall { id, .. } => Some(answer_under(answer, id)),
            CallView::Invalid { id } => Some(answer_under(answer, id)),
            CallView::Notification { .. } => Some(answer),
        },
    }
}

/// An output under another id.
pub open spec fn answer_under(output: OutputView, id: IdView) -> OutputView {
    match output {
        OutputView::Success { jsonrpc, result, .. } => OutputView::Success { jsonrpc, result, id },
        OutputView::Failure { jsonrpc, error, .. } => OutputView::Failure { jsonrpc, error, id },
    }
}

/// Puts an output under the id of the call that it answers.
pub fn put_under_id(output: Option<Output>, call: &Call) -> (r: Option<Output>)
    ensures
        optional_output_view(r) == under_id(optional_output_view(output), call@),
{
    let answer = match output {
        Some(answer) => answer,
        None => { return None; },
    };
    let id = match call {
        Call::MethodCall(inner) => inner.id.duplicate(),
        Call::Invalid { id } => id.duplicate(),
        Call::Notification(_) => { return Some(answer); },
    };
    match answer {
        Output::Success(s) => Some(Output::Success(Success { jsonrpc: s.jsonrpc, result: s.result, id })),
        Output::Failure(f) => Some(Output::Failure(Failure { jsonrpc: f.jsonrpc, error: f.error, id })),
    }
}

/// A copy of an optional output.
pub fn duplicate_output(output: &Option<Output>) -> (r: Option<Output>)
    ensures
        optional_output_view(r) == optional_output_view(*output),
{
    match output {
        Some(o) => Some(o.duplicate()),
        None => None,
    }
}

} // verus!
