//! Message handlers and the chains that dispatch call data to them.
//!
//! A chain is a nested pair `(h0, (h1, (..., UnreachableMessageHandler)))`.
//! Dispatch walks it front to back: the first handler whose selector equals
//! the selector of the call data decodes the parameters and runs; its output
//! comes back tagged with its position through nested `Either`s. A call that
//! reaches the sentinel fails with `Error::InvalidFunctionSelector`, and so
//! does call data too short to carry a selector.
//!
//! Selectors are given to the handlers when the chain is built; they should
//! differ, and where two agree the earlier handler serves the call.
use vstd::prelude::*;
use core::marker::PhantomData;
use either::Either;
use crate::call_data::{params_of, selector_of, CallData, MessageHandlerSelector};
use crate::codec::DecodeInput;
use crate::exec_env::ExecutionEnv;

verus! {

/// Relies on `either::Either`: a public enum with the two variants `Left`
/// and `Right`, whose definition is read as it stands.
#[verifier::external_type_specification]
#[verifier::reject_recursive_types(L)]
#[verifier::reject_recursive_types(R)]
pub struct ExEither<L, R>(either::Either<L, R>);

/// Errors that may occur during message handling.
#[derive(Clone, Copy, Debug, PartialEq, Eq, Structural)]
pub enum Error {
    /// Encountered when no function selector
    /// matched the given input bytes representing
    /// the function selector.
    InvalidFunctionSelector,
    /// Encountered when wrong parameters have
    /// been given to a selected function.
    InvalidArguments,
}

/// A read-only message handler.
///
/// Read-only message handlers cannot mutate contract state: the raw handler
/// sees the execution context by shared reference and returns the output.
pub struct MessageHandler<Input, Output, State, F> {
    selector: MessageHandlerSelector,
    raw_handler: F,
    marker: PhantomData<(Input, Output, State)>,
}

impl<Input, Output, State, F> MessageHandler<Input, Output, State, F> where
    F: Fn(&ExecutionEnv<State>, Input) -> Output,
 {
    /// The selector this handler answers to.
    pub closed spec fn spec_selector(&self) -> u64 {
        self.selector.0
    }

    /// The raw handler function.
    pub closed spec fn raw(&self) -> F {
        self.raw_handler
    }

    /// Constructs a message handler from its raw counterpart.
    pub fn from_raw(selector: MessageHandlerSelector, raw_handler: F) -> (r: Self)
        ensures
            r.spec_selector() == selector.0,
            r.raw() == raw_handler,
    {
        MessageHandler { selector, raw_handler, marker: PhantomData }
    }

    /// Returns the associated handler selector.
    pub fn selector(&self) -> (r: MessageHandlerSelector)
        ensures
            r.0 == self.spec_selector(),
    {
        self.selector
    }
}

/// A mutable message handler.
///
/// Mutable message handlers may mutate contract state: the raw handler sees
/// takes the execution context over and hands it back as the call leaves it,
/// together with the output.
pub struct MessageHandlerMut<Input, Output, State, F> {
    selector: MessageHandlerSelector,
    raw_handler: F,
    marker: PhantomData<(Input, Output, State)>,
}

impl<Input, Output, State, F> MessageHandlerMut<Input, Output, State, F> where
    F: Fn(ExecutionEnv<State>, Input) -> (ExecutionEnv<State>, Output),
 {
    /// The selector this handler answers to.
    pub closed spec fn spec_selector(&self) -> u64 {
        self.selector.0
    }

    /// The raw handler function.
    pub closed spec fn raw(&self) -> F {
        self.raw_handler
    }

    /// Constructs a message handler from its raw counterpart.
    pub fn from_raw(selector: MessageHandlerSelector, raw_handler: F) -> (r: Self)
        ensures
            r.spec_selector() == selector.0,
            r.raw() == raw_handler,
    {
        MessageHandlerMut { selector, raw_handler, marker: PhantomData }
    }

    /// Returns the associated handler selector.
    pub fn selector(&self) -> (r: MessageHandlerSelector)
        ensures
            r.0 == self.spec_selector(),
    {
        self.selector
    }
}

/// The position of the first occurrence of `sel` in `sels`, if any.
pub open spec fn first_index(sels: Seq<u64>, sel: u64) -> Option<int>
    decreases sels.len(),
{
    if sels.len() == 0 {
        None
    } else if sels[0] == sel {
        Some(0)
    } else {
        match first_index(sels.drop_first(), sel) {
            Some(k) => Some(k + 1),
            None => None,
        }
    }
}

/// Types implementing this trait can handle contract calls.
pub trait HandleCall<State>: Sized {
    /// The return type of the handled message.
    type Output;

    /// The position of the handler that serves a call carrying the selector
    /// `sel` (`None` for call data too short to carry one), or `None` where
    /// no handler serves it.
    spec fn route(&self, sel: Option<u64>) -> Option<int>;

    /// The selectors of the handlers, in the order in which they are tried.
    spec fn selectors(&self) -> Seq<u64>;

    /// Whether the handlers are tried by selector and the last one is
    /// followed by the sentinel that serves nothing.
    spec fn terminated(&self) -> bool;

    /// Whether every handler may be called on every context and input.
    spec fn callable(&self) -> bool;

    /// Whether `params` decodes into the input of the handler at position `k`.
    spec fn decodes(&self, k: int, params: Seq<u8>) -> bool;

    /// The position of the handler that produced `out`.
    spec fn position(out: Self::Output) -> int;

    /// Whether the handler at position `k`, called on `before` and the input
    /// decoded from `params`, may leave the context `after` and return `out`.
    spec fn invoked(
        &self,
        k: int,
        before: ExecutionEnv<State>,
        params: Seq<u8>,
        after: ExecutionEnv<State>,
        out: Self::Output,
    ) -> bool;

    /// A terminated chain routes a selector to its first occurrence.
    proof fn lemma_route_first(&self, sel: u64)
        requires
            self.terminated(),
        ensures
            self.route(Some(sel)) == first_index(self.selectors(), sel),
            self.route(None) is None,
    ;

    /// Handles the call against the context `env`, and returns the context
    /// as the call leaves it together with the result.
    fn handle_call(&self, env: ExecutionEnv<State>, data: CallData) -> (r: (
        ExecutionEnv<State>,
        Result<Self::Output, Error>,
    ))
        requires
            self.callable(),
        ensures
            self.route(selector_of(data.bytes())) matches Some(k) ==> 0 <= k,
            match self.route(selector_of(data.bytes())) {
                None => r.1 == Err::<Self::Output, Error>(Error::InvalidFunctionSelector) && r.0 == env,
                Some(k) => if self.decodes(k, params_of(data.bytes())) {
                    &&& r.1 is Ok
                    &&& Self::position(r.1->Ok_0) == k
                    &&& self.invoked(k, env, params_of(data.bytes()), r.0, r.1->Ok_0)
                } else {
                    r.1 == Err::<Self::Output, Error>(Error::InvalidArguments) && r.0 == env
                },
            },
    ;
}

/// A message handler that shall never handle a message.
///
/// Since this always comes last in a chain of message handlers it can be
/// used to check for incoming unknown message selectors in call data from
/// the outside.
#[derive(Clone, Copy)]
pub struct UnreachableMessageHandler;

impl<State> HandleCall<State> for UnreachableMessageHandler {
    type Output = ();

    open spec fn route(&self, sel: Option<u64>) -> Option<int> {
        None
    }

    open spec fn selectors(&self) -> Seq<u64> {
        Seq::empty()
    }

    open spec fn terminated(&self) -> bool {
        true
    }

    open spec fn callable(&self) -> bool {
        true
    }

    open spec fn decodes(&self, k: int, params: Seq<u8>) -> bool {
        false
    }

    open spec fn position(out: ()) -> int {
        0
    }

    open spec fn invoked(
        &self,
        k: int,
        before: ExecutionEnv<State>,
        params: Seq<u8>,
        after: ExecutionEnv<State>,
        out: (),
    ) -> bool {
        false
    }

    proof fn lemma_route_first(&self, sel: u64) {
    }

    fn handle_call(&self, env: ExecutionEnv<State>, data: CallData) -> (r: (
        ExecutionEnv<State>,
        Result<(), Error>,
    )) {
        (env, Err(Error::InvalidFunctionSelector))
    }
}

impl<I: DecodeInput, O, S, F> HandleCall<S> for MessageHandler<I, O, S, F> where
    F: Fn(&ExecutionEnv<S>, I) -> O,
 {
    type Output = O;

    /// A lone handler serves every call, whatever its selector.
    open spec fn route(&self, sel: Option<u64>) -> Option<int> {
        Some(0)
    }

    open spec fn selectors(&self) -> Seq<u64> {
        seq![self.spec_selector()]
    }

    open spec fn terminated(&self) -> bool {
        false
    }

    open spec fn callable(&self) -> bool {
        forall|e: &ExecutionEnv<S>, x: I| #[trigger] self.raw().requires((e, x))
    }

    open spec fn decodes(&self, k: int, params: Seq<u8>) -> bool {
        k == 0 && I::spec_decode(params) is Some
    }

    open spec fn position(out: O) -> int {
        0
    }

    open spec fn invoked(
        &self,
        k: int,
        before: ExecutionEnv<S>,
        params: Seq<u8>,
        after: ExecutionEnv<S>,
        out: O,
    ) -> bool {
        &&& k == 0
        &&& after == before
        &&& I::spec_decode(params) matches Some(x) && self.raw().ensures((&before, x), out)
    }

    proof fn lemma_route_first(&self, sel: u64) {
    }

    fn handle_call(&self, env: ExecutionEnv<S>, data: CallData) -> (r: (ExecutionEnv<S>, Result<O, Error>)) {
        let args = match I::decode_input(data.params()) {
            Some(args) => args,
            None => return (env, Err(Error::InvalidArguments)),
        };
        assert(self.raw().requires((&env, args)));
        let out = (self.raw_handler)(&env, args);
        (env, Ok(out))
    }
}

impl<I: DecodeInput, O, S, F> HandleCall<S> for MessageHandlerMut<I, O, S, F> where
    F: Fn(ExecutionEnv<S>, I) -> (ExecutionEnv<S>, O),
 {
    type Output = O;

    /// A lone handler serves every call, whatever its selector.
    open spec fn route(&self, sel: Option<u64>) -> Option<int> {
        Some(0)
    }

    open spec fn selectors(&self) -> Seq<u64> {
        seq![self.spec_selector()]
    }

    open spec fn terminated(&self) -> bool {
        false
    }

    open spec fn callable(&self) -> bool {
        forall|e: ExecutionEnv<S>, x: I| #[trigger] self.raw().requires((e, x))
    }

    open spec fn decodes(&self, k: int, params: Seq<u8>) -> bool {
        k == 0 && I::spec_decode(params) is Some
    }

    open spec fn position(out: O) -> int {
        0
    }

    open spec fn invoked(
        &self,
        k: int,
        before: ExecutionEnv<S>,
        params: Seq<u8>,
        after: ExecutionEnv<S>,
        out: O,
    ) -> bool {
        &&& k == 0
        &&& I::spec_decode(params) matches Some(x) && self.raw().ensures((before, x), (after, out))
    }

    proof fn lemma_route_first(&self, sel: u64) {
    }

    fn handle_call(&self, env: ExecutionEnv<S>, data: CallData) -> (r: (ExecutionEnv<S>, Result<O, Error>)) {
        let args = match I::decode_input(data.params()) {
            Some(args) => args,
            None => return (env, Err(Error::InvalidArguments)),
        };
        assert(self.raw().requires((env, args)));
        let (next, out) = (self.raw_handler)(env, args);
        (next, Ok(out))
    }
}

impl<I: DecodeInput, O, S, F, Rest: HandleCall<S>> HandleCall<S> for (MessageHandler<I, O, S, F>, Rest) where
    F: Fn(&ExecutionEnv<S>, I) -> O,
 {
    type Output = Either<O, Rest::Output>;

    open spec fn route(&self, sel: Option<u64>) -> Option<int> {
        if sel == Some(self.0.spec_selector()) {
            Some(0)
        } else {
            match self.1.route(sel) {
                Some(k) => Some(k + 1),
                None => None,
            }
        }
    }

    open spec fn selectors(&self) -> Seq<u64> {
        seq![self.0.spec_selector()] + self.1.selectors()
    }

    open spec fn terminated(&self) -> bool {
        self.1.terminated()
    }

    open spec fn callable(&self) -> bool {
        self.0.callable() && self.1.callable()
    }

    open spec fn decodes(&self, k: int, params: Seq<u8>) -> bool {
        if k == 0 {
            self.0.decodes(0, params)
        } else {
            self.1.decodes(k - 1, params)
        }
    }

    open spec fn position(out: Either<O, Rest::Output>) -> int {
        match out {
            Either::Left(_) => 0,
            Either::Right(o) => Rest::position(o) + 1,
        }
    }

    open spec fn invoked(
        &self,
        k: int,
        before: ExecutionEnv<S>,
        params: Seq<u8>,
        after: ExecutionEnv<S>,
        out: Either<O, Rest::Output>,
    ) -> bool {
        match out {
            Either::Left(o) => k == 0 && self.0.invoked(0, before, params, after, o),
            Either::Right(o) => self.1.invoked(k - 1, before, params, after, o),
        }
    }

    proof fn lemma_route_first(&self, sel: u64) {
        self.1.lemma_route_first(sel);
        assert(self.selectors().drop_first() =~= self.1.selectors());
    }

    fn handle_call(&self, env: ExecutionEnv<S>, data: CallData) -> (r: (
        ExecutionEnv<S>,
        Result<Either<O, Rest::Output>, Error>,
    )) {
        let matched = match data.try_selector() {
            Some(sel) => sel.0 == self.0.selector().0,
            None => false,
        };
        if matched {
            let (env, res) = self.0.handle_call(env, data);
            match res {
                Ok(out) => (env, Ok(Either::Left(out))),
                Err(e) => (env, Err(e)),
            }
        } else {
            let (env, res) = self.1.handle_call(env, data);
            match res {
                Ok(out) => (env, Ok(Either::Right(out))),
                Err(e) => (env, Err(e)),
            }
        }
    }
}

impl<I: DecodeInput, O, S, F, Rest: HandleCall<S>> HandleCall<S> for (MessageHandlerMut<I, O, S, F>, Rest) where
    F: Fn(ExecutionEnv<S>, I) -> (ExecutionEnv<S>, O),
 {
    type Output = Either<O, Rest::Output>;

    open spec fn route(&self, sel: Option<u64>) -> Option<int> {
        if sel == Some(self.0.spec_selector()) {
            Some(0)
        } else {
            match self.1.route(sel) {
                Some(k) => Some(k + 1),
                None => None,
            }
        }
    }

    open spec fn selectors(&self) -> Seq<u64> {
        seq![self.0.spec_selector()] + self.1.selectors()
    }

    open spec fn terminated(&self) -> bool {
        self.1.terminated()
    }

    open spec fn callable(&self) -> bool {
        self.0.callable() && self.1.callable()
    }

    open spec fn decodes(&self, k: int, params: Seq<u8>) -> bool {
        if k == 0 {
            self.0.decodes(0, params)
        } else {
            self.1.decodes(k - 1, params)
        }
    }

    open spec fn position(out: Either<O, Rest::Output>) -> int {
        match out {
            Either::Left(_) => 0,
            Either::Right(o) => Rest::position(o) + 1,
        }
    }

    open spec fn invoked(
        &self,
        k: int,
        before: ExecutionEnv<S>,
        params: Seq<u8>,
        after: ExecutionEnv<S>,
        out: Either<O, Rest::Output>,
    ) -> bool {
        match out {
            Either::Left(o) => k == 0 && self.0.invoked(0, before, params, after, o),
            Either::Right(o) => self.1.invoked(k - 1, before, params, after, o),
        }
    }

    proof fn lemma_route_first(&self, sel: u64) {
        self.1.lemma_route_first(sel);
        assert(self.selectors().drop_first() =~= self.1.selectors());
    }

    fn handle_call(&self, env: ExecutionEnv<S>, data: CallData) -> (r: (
        ExecutionEnv<S>,
        Result<Either<O, Rest::Output>, Error>,
    )) {
        let matched = match data.try_selector() {
            Some(sel) => sel.0 == self.0.selector().0,
            None => false,
        };
        if matched {
            let (env, res) = self.0.handle_call(env, data);
            match res {
                Ok(out) => (env, Ok(Either::Left(out))),
                Err(e) => (env, Err(e)),
            }
        } else {
            let (env, res) = self.1.handle_call(env, data);
            match res {
                Ok(out) => (env, Ok(Either::Right(out))),
                Err(e) => (env, Err(e)),
            }
        }
    }
}

proof fn lemma_first_index_unique(sels: Seq<u64>, sel: u64, k: int)
    requires
        0 <= k < sels.len(),
        sels[k] == sel,
        forall|j: int| 0 <= j < sels.len() && j != k ==> sels[j] != sel,
    ensures
        first_index(sels, sel) == Some(k),
    decreases sels.len(),
{
    if k > 0 {
        let rest = sels.drop_first();
        assert forall|j: int| 0 <= j < rest.len() && j != k - 1 implies rest[j] != sel by {
            assert(rest[j] == sels[j + 1]);
        }
        lemma_first_index_unique(rest, sel, k - 1);
    }
}

proof fn lemma_first_index_absent(sels: Seq<u64>, sel: u64)
    requires
        !sels.contains(sel),
    ensures
        first_index(sels, sel) is None,
    decreases sels.len(),
{
    if sels.len() > 0 {
        let rest = sels.drop_first();
        assert forall|j: int| 0 <= j < rest.len() implies rest[j] != sel by {
            assert(rest[j] == sels[j + 1]);
        }
        lemma_first_index_absent(rest, sel);
    }
}

/// When the selector of the call data occurs exactly once among the
/// selectors of a terminated chain, at position `k`, dispatch is routed to
/// the handler at `k`: `handle_call` then runs that handler alone and tags
/// its output with `k`, or fails with `Error::InvalidArguments`.
pub proof fn lemma_dispatch_unique<S, C: HandleCall<S>>(chain: &C, data: Seq<u8>, k: int)
    requires
        chain.terminated(),
        0 <= k < chain.selectors().len(),
        selector_of(data) == Some(chain.selectors()[k]),
        forall|j: int|
            0 <= j < chain.selectors().len() && j != k ==> chain.selectors()[j] != chain.selectors()[k],
    ensures
        chain.route(selector_of(data)) == Some(k),
{
    let sel = chain.selectors()[k];
    chain.lemma_route_first(sel);
    lemma_first_index_unique(chain.selectors(), sel, k);
}

/// When the selector of the call data occurs nowhere in a terminated chain,
/// or the call data is too short to carry a selector, dispatch is routed to
/// no handler: `handle_call` fails with `Error::InvalidFunctionSelector` and
/// hands the context back unchanged.
pub proof fn lemma_dispatch_miss<S, C: HandleCall<S>>(chain: &C, data: Seq<u8>)
    requires
        chain.terminated(),
        selector_of(data) matches Some(sel) ==> !chain.selectors().contains(sel),
    ensures
        chain.route(selector_of(data)) is None,
{
    match selector_of(data) {
        Some(sel) => {
            chain.lemma_route_first(sel);
            lemma_first_index_absent(chain.selectors(), sel);
        },
        None => {
            chain.lemma_route_first(0);
        },
    }
}

} // verus!
