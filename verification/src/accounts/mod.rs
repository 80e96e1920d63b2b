//! A middleware that signs transactions locally.
//!
//! Calls of `eth_sendTransaction` and `parity_postTransaction` are rewritten
//! to `parity_composeTransaction`, by which upstream fills in the defaults of
//! the transaction. The composed transaction is signed with the local key
//! for the chain that upstream reports, and submitted as
//! `eth_sendRawTransaction` under the id of the client's call. Responses to
//! `eth_accounts` get the local account in front.
//!
//! The middleware decides; the caller talks to upstream. Rewrites are
//! numbered by tickets, and a rewrite may only start once all earlier ones
//! are finished, so that composed transactions do not race for a nonce.

use vstd::prelude::*;

pub mod config;
pub mod keys;

use self::config::Param;
use self::keys::{
    address_of, can_derive, derivation, derivation_of, key_address, opened_key, password,
    password_of, sign, signature_of, to_secret_key, Recoverable,
};
use crate::rpc::{
    lemma_array_view, optional_output_view, values_view, Call, CallView, Error, ErrorView,
    Failure, Id, IdView, MethodCall, Output, OutputView, Params, ParamsView, Success, Value,
    ValueView, Version,
};
use crate::text::{is_text, text};
use crate::transaction::hex::{hex_text, to_hex};
use crate::transaction::replay_protection::{checked_add, spec_add};
use crate::transaction::{
    signed_encoding, signing_hash, Address, SignTransaction, SignedTransaction,
    SignedTransactionView, Transaction, TransactionView,
};

verus! {

/// The id that internal requests start from.
pub const FIRST_INTERNAL_ID: u64 = 10_000;

/// A middleware intercepting transaction requests and signing them locally.
pub struct Middleware {
    secret: Option<ethsign::SecretKey>,
    address: Address,
    id: u64,
    tickets: u64,
    finished: u64,
    started: bool,
}

/// A call that was rewritten, with what is needed to answer the client.
pub struct Rewrite {
    /// The call that asks upstream to compose the transaction.
    pub compose: Call,
    /// The call that asks upstream for the chain id.
    pub chain_id: Call,
    /// The protocol version of the client's call.
    pub jsonrpc: Option<Version>,
    /// The id of the client's call.
    pub id: Id,
    /// The place of this rewrite in the order of rewrites.
    pub ticket: u64,
}

/// What the middleware does with a call.
pub enum Intercept {
    /// The call goes on unchanged.
    Forward(Call),
    /// The call goes on unchanged; its response gets the local account in front.
    Accounts(Call),
    /// The call was rewritten.
    Compose(Rewrite),
}

/// What follows once upstream has answered a rewrite.
pub enum Prepared {
    /// The client is answered with this output.
    Reply(Output),
    /// The transaction is to be signed.
    Sign(SignTransaction),
}

/// The internal id that follows `id`.
pub open spec fn id_after(id: u64) -> u64 {
    if id == u64::MAX {
        0
    } else {
        (id + 1) as u64
    }
}

/// Whether a call asks to send a transaction.
pub open spec fn is_send_transaction(call: CallView) -> bool {
    call matches CallView::MethodCall { method, .. } && (method == "eth_sendTransaction"@ || method
        == "parity_postTransaction"@)
}

/// Whether a call asks for the accounts.
pub open spec fn is_accounts(call: CallView) -> bool {
    call matches CallView::MethodCall { method, .. } && method == "eth_accounts"@
}

/// The call that asks upstream to compose the transaction of `call`.
pub open spec fn compose_call(call: CallView, id: u64) -> CallView {
    CallView::MethodCall {
        jsonrpc: call->MethodCall_jsonrpc,
        method: "parity_composeTransaction"@,
        params: call->MethodCall_params,
        id: IdView::Num(id),
    }
}

/// The call that asks upstream for the chain id.
pub open spec fn chain_id_call(jsonrpc: Option<Version>, id: u64) -> CallView {
    CallView::MethodCall {
        jsonrpc,
        method: "eth_chainId"@,
        params: ParamsView::Positional(Seq::empty()),
        id: IdView::Num(id),
    }
}

/// The failure that answers a call which could not be signed.
pub open spec fn signing_failure(jsonrpc: Option<Version>, id: IdView, message: Seq<char>) -> OutputView {
    OutputView::Failure {
        jsonrpc,
        error: ErrorView { code: 1, message, data: None },
        id,
    }
}

/// An output under another id.
pub open spec fn with_id(output: OutputView, id: IdView) -> OutputView {
    match output {
        OutputView::Success { jsonrpc, result, .. } => OutputView::Success { jsonrpc, result, id },
        OutputView::Failure { jsonrpc, error, .. } => OutputView::Failure { jsonrpc, error, id },
    }
}

/// What follows from the two answers of upstream to a rewrite: the first of
/// a failure of upstream, an answer that could not be read, and a sender
/// that is not the local account ends it with a reply; else the
/// transaction is to be signed.
pub open spec fn prepared(
    address: Seq<u8>,
    jsonrpc: Option<Version>,
    id: IdView,
    composed: OutputView,
    chain: OutputView,
    transaction: Option<TransactionView>,
    chain_id: Option<u64>,
) -> Result<(TransactionView, u64), OutputView> {
    if composed is Failure {
        Err(with_id(composed, id))
    } else if transaction is None {
        Err(signing_failure(jsonrpc, id, "Unable to construct transaction"@))
    } else if chain is Failure {
        Err(with_id(chain, id))
    } else if chain_id is None {
        Err(signing_failure(jsonrpc, id, "Unable to construct transaction"@))
    } else if transaction->0.from != address {
        Err(signing_failure(jsonrpc, id, "Invalid `from` address"@))
    } else {
        Ok((transaction->0, chain_id->0))
    }
}

/// The signed form of a transaction.
pub open spec fn signed_form(
    transaction: TransactionView,
    chain_id: u64,
    signature: Recoverable,
) -> SignedTransactionView {
    SignedTransactionView {
        transaction,
        v: spec_add(signature.v, chain_id) as u64,
        r: signature.r@,
        s: signature.s@,
    }
}

/// The call that submits a signed transaction.
pub open spec fn raw_transaction_call(
    jsonrpc: Option<Version>,
    id: IdView,
    signed: SignedTransactionView,
) -> CallView {
    CallView::MethodCall {
        jsonrpc,
        method: "eth_sendRawTransaction"@,
        params: ParamsView::Positional(seq![ValueView::String(hex_text(signed_encoding(signed)))]),
        id,
    }
}

/// The call that submits a transaction with a signature; none where the
/// chain id is too large to be folded into `v`.
pub open spec fn submission(
    transaction: TransactionView,
    chain_id: u64,
    signature: Recoverable,
    jsonrpc: Option<Version>,
    id: IdView,
) -> Option<CallView> {
    if spec_add(signature.v, chain_id) <= u64::MAX {
        Some(raw_transaction_call(jsonrpc, id, signed_form(transaction, chain_id, signature)))
    } else {
        None
    }
}

/// The call that submits a transaction signed with a key: the key signs
/// the hash of the transaction for its chain. There is none without a key
/// or without a signature.
pub open spec fn signed_submission(
    key: Option<ethsign::SecretKey>,
    transaction: TransactionView,
    chain_id: u64,
    jsonrpc: Option<Version>,
    id: IdView,
) -> Option<CallView> {
    match key {
        None => None,
        Some(key) => match signature_of(key, signing_hash(transaction, chain_id)) {
            None => None,
            Some(signature) => submission(transaction, chain_id, signature, jsonrpc, id),
        },
    }
}

/// A response to `eth_accounts` with the local account in front: only a
/// success whose result is an array changes.
pub open spec fn with_account(output: Option<OutputView>, address: Seq<u8>) -> Option<OutputView> {
    match output {
        Some(OutputView::Success { jsonrpc, result: ValueView::Array(items), id }) => Some(
            OutputView::Success {
                jsonrpc,
                result: ValueView::Array(seq![ValueView::String(hex_text(address))] + items),
                id,
            },
        ),
        other => other,
    }
}

/// The view of what was prepared.
pub open spec fn prepared_view(prepared: Prepared) -> Result<(TransactionView, u64), OutputView> {
    match prepared {
        Prepared::Reply(output) => Err(output@),
        Prepared::Sign(request) => Ok((request.transaction@, request.chain_id)),
    }
}

/// The view of an optional call.
pub open spec fn optional_call_view(call: Option<Call>) -> Option<CallView> {
    match call {
        Some(c) => Some(c@),
        None => None,
    }
}

/// The keyfile that counts among the first `count` options: what the last
/// option for the keyfile among them holds.
pub open spec fn last_account(params: Seq<Param>, count: nat) -> Option<Option<ethsign::KeyFile>>
    decreases count,
{
    if count == 0 || count > params.len() {
        None
    } else {
        match params[count - 1] {
            Param::Account(key) => Some(key),
            Param::Pass(_) => last_account(params, (count - 1) as nat),
        }
    }
}

/// The password that counts among the first `count` options: the last one
/// among them.
pub open spec fn last_password(params: Seq<Param>, count: nat) -> Option<ethsign::Protected>
    decreases count,
{
    if count == 0 || count > params.len() {
        None
    } else {
        match params[count - 1] {
            Param::Pass(password) => Some(password),
            Param::Account(_) => last_password(params, (count - 1) as nat),
        }
    }
}

/// The password that opens the keyfile: the one that counts among the
/// options, or the empty password where there is none.
pub open spec fn configured_password(params: Seq<Param>) -> ethsign::Protected {
    match last_password(params, params.len()) {
        Some(password) => password,
        None => password_of(""@),
    }
}

/// The key that the options give: none where no keyfile counts, and
/// nothing at all where the key of the keyfile that counts cannot be
/// derived or the password does not open the keyfile.
pub open spec fn configured_key(params: Seq<Param>) -> Option<Option<ethsign::SecretKey>> {
    match last_account(params, params.len()) {
        Some(Some(file)) => if can_derive(derivation_of(file)) {
            match opened_key(file, configured_password(params)) {
                Some(key) => Some(Some(key)),
                None => None,
            }
        } else {
            None
        },
        _ => Some(None),
    }
}

/// The keyfile and the password that count among the options: of each
/// the last.
pub fn selection(params: Vec<Param>) -> (r: (
    Option<Option<ethsign::KeyFile>>,
    Option<ethsign::Protected>,
))
    ensures
        r.0 == last_account(params@, params@.len()),
        r.1 == last_password(params@, params@.len()),
{
    let ghost all = params@;
    let mut params = params;
    let mut account: Option<Option<ethsign::KeyFile>> = None;
    let mut pass: Option<ethsign::Protected> = None;
    assert(params@ =~= all.subrange(0, params@.len() as int));
    while params.len() > 0
        invariant
            params@.len() <= all.len(),
            params@ == all.subrange(0, params@.len() as int),
            last_account(all, all.len()) == match account {
                Some(key) => Some(key),
                None => last_account(all, params@.len()),
            },
            last_password(all, all.len()) == match pass {
                Some(password) => Some(password),
                None => last_password(all, params@.len()),
            },
        decreases params.len(),
    {
        let ghost before = params@;
        let last = params.pop();
        assert(params@ =~= all.subrange(0, params@.len() as int));
        assert(all[before.len() - 1] == before[before.len() - 1]);
        match last {
            Some(Param::Account(key)) => {
                if account.is_none() {
                    account = Some(key);
                }
            },
            Some(Param::Pass(p)) => {
                if pass.is_none() {
                    pass = Some(p);
                }
            },
            None => {},
        }
    }
    (account, pass)
}

impl Middleware {
    /// Whether the configuration is consistent: the rewrites that are
    /// finished are among those begun, and one in flight is the first
    /// that is not finished.
    pub open spec fn wf(&self) -> bool {
        &&& self.done() <= self.begun()
        &&& self.in_flight() matches Some(ticket) ==> ticket == self.done() && ticket < self.begun()
    }

    /// Whether the rewrite with the given ticket may start: none is in
    /// flight, every earlier one is finished, and the ticket was handed
    /// out.
    pub open spec fn may_start(&self, ticket: u64) -> bool {
        &&& self.in_flight() is None
        &&& ticket == self.done()
        &&& ticket < self.begun()
    }

    /// The key of the local account, if one is loaded.
    pub closed spec fn key(&self) -> Option<ethsign::SecretKey> {
        self.secret
    }

    /// Whether a key is loaded; without one every call passes through.
    pub open spec fn active(&self) -> bool {
        self.key() is Some
    }

    /// The address of the local account.
    pub closed spec fn local_address(&self) -> Seq<u8> {
        self.address@
    }

    /// The id that the next internal request gets.
    pub closed spec fn next_id(&self) -> u64 {
        self.id
    }

    /// The number of rewrites that were begun.
    pub closed spec fn begun(&self) -> u64 {
        self.tickets
    }

    /// The number of rewrites that are finished.
    pub closed spec fn done(&self) -> u64 {
        self.finished
    }

    /// The rewrite whose compose request is in flight, if there is one.
    pub closed spec fn in_flight(&self) -> Option<u64> {
        if self.started {
            Some(self.finished)
        } else {
            None
        }
    }

    /// A signing middleware for the given key, or one that passes every
    /// call through where there is none.
    pub fn with_secret(secret: Option<ethsign::SecretKey>) -> (r: Middleware)
        ensures
            r.wf(),
            r.key() == secret,
            secret matches Some(key) ==> r.local_address() == key_address(key),
            r.next_id() == FIRST_INTERNAL_ID,
            r.begun() == 0,
            r.done() == 0,
            r.in_flight() is None,
    {
        let address = match &secret {
            Some(key) => Address { bytes: address_of(key) },
            None => Address { bytes: [0u8; 20] },
        };
        Middleware { secret, address, id: FIRST_INTERNAL_ID, tickets: 0, finished: 0, started: false }
    }

    /// Creates a new signing middleware.
    ///
    /// The last keyfile and the last password among the options count; the
    /// password is empty where none is given. Without a keyfile the
    /// middleware passes every call through. Where the key of the keyfile
    /// cannot be derived, or the password does not open the keyfile, there
    /// is no middleware.
    pub fn new(params: Vec<Param>) -> (r: Option<Middleware>)
        ensures
            match configured_key(params@) {
                None => r is None,
                Some(secret) => {
                    &&& r matches Some(middleware)
                    &&& middleware.wf()
                    &&& middleware.key() == secret
                    &&& secret matches Some(key) ==> middleware.local_address() == key_address(key)
                    &&& middleware.next_id() == FIRST_INTERNAL_ID
                    &&& middleware.begun() == 0
                    &&& middleware.done() == 0
                    &&& middleware.in_flight() is None
                },
            },
    {
        let (account, pass) = selection(params);
        match account {
            Some(Some(file)) => {
                if !derivation(&file).fits() {
                    return None;
                }
                let password = match pass {
                    Some(p) => p,
                    None => password(text("")),
                };
                match to_secret_key(&file, &password) {
                    Some(secret) => Some(Middleware::with_secret(Some(secret))),
                    None => None,
                }
            },
            _ => Some(Middleware::with_secret(None)),
        }
    }
}

impl Middleware {
    /// Decides what happens to a call.
    ///
    /// Without a key every call goes on unchanged. A call to send a
    /// transaction is rewritten: it becomes a call of
    /// `parity_composeTransaction` under a fresh internal id, beside a call
    /// of `eth_chainId` under the next one, and takes the next ticket. A
    /// call of `eth_accounts` goes on, to be completed with
    /// [`Middleware::complete_accounts`]. Any other call goes on unchanged.
    pub fn on_call(&mut self, call: Call) -> (r: Intercept)
        requires
            old(self).wf(),
            old(self).begun() < u64::MAX,
        ensures
            final(self).wf(),
            final(self).key() == old(self).key(),
            final(self).local_address() == old(self).local_address(),
            final(self).done() == old(self).done(),
            final(self).in_flight() == old(self).in_flight(),
            old(self).active() && is_send_transaction(call@) ==> {
                &&& r matches Intercept::Compose(rewrite)
                &&& rewrite.compose@ == compose_call(call@, old(self).next_id())
                &&& rewrite.chain_id@ == chain_id_call(
                    call@->MethodCall_jsonrpc,
                    id_after(old(self).next_id()),
                )
                &&& rewrite.jsonrpc == call@->MethodCall_jsonrpc
                &&& rewrite.id@ == call@->MethodCall_id
                &&& rewrite.ticket == old(self).begun()
                &&& final(self).next_id() == id_after(id_after(old(self).next_id()))
                &&& final(self).begun() == old(self).begun() + 1
            },
            !(old(self).active() && is_send_transaction(call@)) ==> {
                &&& final(self).next_id() == old(self).next_id()
                &&& final(self).begun() == old(self).begun()
                &&& if old(self).active() && is_accounts(call@) {
                    r matches Intercept::Accounts(same) && same@ == call@
                } else {
                    r matches Intercept::Forward(same) && same@ == call@
                }
            },
    {
        if self.secret.is_none() {
            return Intercept::Forward(call);
        }
        match call {
            Call::MethodCall(inner) => {
                if is_text(&inner.method, "eth_sendTransaction") || is_text(
                    &inner.method,
                    "parity_postTransaction",
                ) {
                    let compose_id = self.id;
                    let chain_id = Middleware::following(compose_id);
                    self.id = Middleware::following(chain_id);
                    let ticket = self.tickets;
                    self.tickets = ticket + 1;
                    let jsonrpc = inner.jsonrpc;
                    let compose = Call::MethodCall(
                        MethodCall {
                            jsonrpc,
                            method: text("parity_composeTransaction"),
                            params: inner.params,
                            id: Id::Num(compose_id),
                        },
                    );
                    let chain = Call::MethodCall(
                        MethodCall {
                            jsonrpc,
                            method: text("eth_chainId"),
                            params: Params::Positional(Vec::new()),
                            id: Id::Num(chain_id),
                        },
                    );
                    assert(chain@->MethodCall_params->Positional_0 =~= Seq::<ValueView>::empty());
                    Intercept::Compose(
                        Rewrite { compose, chain_id: chain, jsonrpc, id: inner.id, ticket },
                    )
                } else if is_text(&inner.method, "eth_accounts") {
                    Intercept::Accounts(Call::MethodCall(inner))
                } else {
                    Intercept::Forward(Call::MethodCall(inner))
                }
            },
            other => Intercept::Forward(other),
        }
    }

    /// The number of rewrites that were begun.
    pub fn tickets(&self) -> (r: u64)
        ensures
            r == self.begun(),
    {
        self.tickets
    }

    /// The internal id that follows `id`.
    fn following(id: u64) -> (r: u64)
        ensures
            r == id_after(id),
    {
        if id == u64::MAX {
            0
        } else {
            id + 1
        }
    }

    /// Starts the rewrite with the given ticket, if it is its turn: all
    /// earlier rewrites are finished and none is in flight.
    pub fn try_start(&mut self, ticket: u64) -> (started: bool)
        requires
            old(self).wf(),
        ensures
            final(self).wf(),
            started == old(self).may_start(ticket),
            started ==> final(self).in_flight() == Some(ticket),
            !started ==> final(self).in_flight() == old(self).in_flight(),
            final(self).done() == old(self).done(),
            final(self).begun() == old(self).begun(),
            final(self).next_id() == old(self).next_id(),
            final(self).key() == old(self).key(),
            final(self).local_address() == old(self).local_address(),
    {
        if !self.started && ticket == self.finished && ticket < self.tickets {
            self.started = true;
            true
        } else {
            false
        }
    }

    /// Finishes the rewrite with the given ticket, if it is the one in flight.
    pub fn complete(&mut self, ticket: u64) -> (finished: bool)
        requires
            old(self).wf(),
        ensures
            final(self).wf(),
            finished == (old(self).in_flight() == Some(ticket)),
            finished ==> final(self).in_flight() is None && final(self).done() == ticket + 1,
            !finished ==> final(self).in_flight() == old(self).in_flight() && final(self).done()
                == old(self).done(),
            final(self).begun() == old(self).begun(),
            final(self).next_id() == old(self).next_id(),
            final(self).key() == old(self).key(),
            final(self).local_address() == old(self).local_address(),
    {
        if self.started && ticket == self.finished {
            self.started = false;
            self.finished = ticket + 1;
            true
        } else {
            false
        }
    }

    /// The failure that answers a call which could not be signed.
    pub fn failure(jsonrpc: Option<Version>, id: Id, message: &str) -> (r: Output)
        ensures
            r@ == signing_failure(jsonrpc, id@, message@),
    {
        Output::Failure(
            Failure { jsonrpc, error: Error { code: 1, message: text(message), data: None }, id },
        )
    }

    /// Decides what follows from the two answers of upstream to a rewrite.
    ///
    /// `transaction` is the composed transaction as read from the result of
    /// `composed`, and `chain_id` the chain id as read from the result of
    /// `chain`; each is absent where the result could not be read.
    pub fn prepare(
        &self,
        jsonrpc: Option<Version>,
        id: Id,
        composed: Output,
        chain: Output,
        transaction: Option<Transaction>,
        chain_id: Option<u64>,
    ) -> (r: Prepared)
        ensures
            prepared_view(r) == prepared(
                self.local_address(),
                jsonrpc,
                id@,
                composed@,
                chain@,
                crate::accounts::optional_transaction_view(transaction),
                chain_id,
            ),
    {
        let request = match composed {
            Output::Failure(f) => {
                return Prepared::Reply(
                    Output::Failure(Failure { jsonrpc: f.jsonrpc, error: f.error, id }),
                );
            },
            Output::Success(_) => match transaction {
                Some(tx) => tx,
                None => {
                    return Prepared::Reply(
                        Middleware::failure(jsonrpc, id, "Unable to construct transaction"),
                    );
                },
            },
        };
        let chain_id = match chain {
            Output::Failure(f) => {
                return Prepared::Reply(
                    Output::Failure(Failure { jsonrpc: f.jsonrpc, error: f.error, id }),
                );
            },
            Output::Success(_) => match chain_id {
                Some(c) => c,
                None => {
                    return Prepared::Reply(
                        Middleware::failure(jsonrpc, id, "Unable to construct transaction"),
                    );
                },
            },
        };
        if !request.from.is(&self.address.bytes) {
            return Prepared::Reply(Middleware::failure(jsonrpc, id, "Invalid `from` address"));
        }
        Prepared::Sign(SignTransaction { transaction: request, chain_id })
    }

    /// The call that submits a transaction with its signature; none where
    /// the chain id is too large to be folded into `v`.
    pub fn signed_call(
        request: SignTransaction,
        signature: &Recoverable,
        jsonrpc: Option<Version>,
        id: Id,
    ) -> (r: Option<Call>)
        ensures
            optional_call_view(r) == submission(
                request.transaction@,
                request.chain_id,
                *signature,
                jsonrpc,
                id@,
            ),
    {
        match checked_add(signature.v, request.chain_id) {
            None => None,
            Some(_) => {
                let signed = SignedTransaction::new(
                    request.transaction,
                    request.chain_id,
                    signature.v,
                    signature.r,
                    signature.s,
                );
                let rlp = signed.to_rlp();
                let mut params: Vec<Value> = Vec::new();
                params.push(Value::String(to_hex(rlp.as_slice())));
                let call = Call::MethodCall(
                    MethodCall {
                        jsonrpc,
                        method: text("eth_sendRawTransaction"),
                        params: Params::Positional(params),
                        id,
                    },
                );
                assert(call@->MethodCall_params->Positional_0 =~= seq![
                    ValueView::String(hex_text(signed_encoding(signed@))),
                ]);
                Some(call)
            },
        }
    }

    /// Signs a transaction with the local key and gives the call that
    /// submits it: the key signs the hash of the transaction for its
    /// chain, and the call is that of [`Middleware::signed_call`] for the
    /// signature. There is no call where there is no key, where the key
    /// gives no signature, or where the chain id is too large to be folded
    /// into `v`.
    pub fn sign_transaction(
        &self,
        request: SignTransaction,
        jsonrpc: Option<Version>,
        id: Id,
    ) -> (r: Option<Call>)
        ensures
            optional_call_view(r) == signed_submission(
                self.key(),
                request.transaction@,
                request.chain_id,
                jsonrpc,
                id@,
            ),
    {
        let secret = match &self.secret {
            Some(secret) => secret,
            None => { return None; },
        };
        let hash = request.hash();
        match sign(secret, &hash) {
            None => None,
            Some(signature) => Middleware::signed_call(request, &signature, jsonrpc, id),
        }
    }

    /// Puts the local account in front of the accounts that upstream
    /// reports: only a success whose result is an array changes.
    pub fn complete_accounts(&self, output: Option<Output>) -> (r: Option<Output>)
        ensures
            optional_output_view(r) == with_account(
                optional_output_view(output),
                self.local_address(),
            ),
    {
        match output {
            Some(Output::Success(Success { jsonrpc, result: Value::Array(items), id })) => {
                let mut items = items;
                let ghost before = items@;
                proof {
                    lemma_array_view(items);
                }
                items.insert(0, Value::String(to_hex(self.address.bytes.as_slice())));
                proof {
                    lemma_array_view(items);
                    assert(values_view(items@) =~= seq![
                        ValueView::String(hex_text(self.address@)),
                    ] + values_view(before));
                }
                Some(Output::Success(Success { jsonrpc, result: Value::Array(items), id }))
            },
            other => other,
        }
    }
}

/// The view of an optional transaction.
pub open spec fn optional_transaction_view(transaction: Option<Transaction>) -> Option<
    TransactionView,
> {
    match transaction {
        Some(t) => Some(t@),
        None => None,
    }
}

/// Rewrites do not overlap, and they take their turns in the order of
/// their tickets: of two rewrites the later may start only when none is in
/// flight and the earlier is finished, so not while the earlier waits for
/// its turn or is in flight. The one in flight is the first that is not
/// finished.
pub proof fn lemma_rewrites_are_serialised(middleware: Middleware, earlier: u64, later: u64)
    requires
        middleware.wf(),
        earlier < later,
    ensures
        middleware.may_start(later) ==> middleware.in_flight() is None && earlier
            < middleware.done(),
        middleware.done() <= earlier ==> !middleware.may_start(later),
        middleware.in_flight() == Some(earlier) ==> !middleware.may_start(later),
        middleware.in_flight() matches Some(ticket) ==> ticket == middleware.done() && ticket
            < middleware.begun(),
        !(middleware.may_start(earlier) && middleware.may_start(later)),
{
}

/// A call to send a transaction, once upstream has composed the
/// transaction for the local account and has told the chain, is submitted
/// as one call of `eth_sendRawTransaction` under the id of the client's
/// call, whose one parameter is the hexadecimal text of the encoding of
/// the transaction with the signature of the local key.
pub proof fn lemma_send_transaction(
    key: ethsign::SecretKey,
    address: Seq<u8>,
    call: CallView,
    composed: OutputView,
    chain: OutputView,
    transaction: TransactionView,
    chain_id: u64,
    signature: Recoverable,
)
    requires
        is_send_transaction(call),
        composed is Success,
        chain is Success,
        transaction.from == address,
        signature_of(key, signing_hash(transaction, chain_id)) == Some(signature),
        spec_add(signature.v, chain_id) <= u64::MAX,
    ensures
        prepared(
            address,
            call->MethodCall_jsonrpc,
            call->MethodCall_id,
            composed,
            chain,
            Some(transaction),
            Some(chain_id),
        ) == Ok::<(TransactionView, u64), OutputView>((transaction, chain_id)),
        signed_submission(
            Some(key),
            transaction,
            chain_id,
            call->MethodCall_jsonrpc,
            call->MethodCall_id,
        ) == Some(
            CallView::MethodCall {
                jsonrpc: call->MethodCall_jsonrpc,
                method: "eth_sendRawTransaction"@,
                params: ParamsView::Positional(
                    seq![
                        ValueView::String(
                            hex_text(signed_encoding(signed_form(transaction, chain_id, signature))),
                        ),
                    ],
                ),
                id: call->MethodCall_id,
            },
        ),
{
}

} // verus!
