//! The execution context a message handler runs against: the contract's
//! persistent state together with a handle to its environment.
use vstd::prelude::*;
use crate::codec::EncodeOutput;
use crate::api::{self, AccountId, Balance, ContractEnv, Moment};

verus! {

/// The handle through which a contract reaches its environment.
pub struct EnvHandler {
    env: ContractEnv,
}

impl EnvHandler {
    /// The environment this handle forwards to.
    pub closed spec fn env(&self) -> ContractEnv {
        self.env
    }

    /// A handle onto the given environment.
    pub fn new(env: ContractEnv) -> (r: Self)
        ensures
            r.env() == env,
    {
        EnvHandler { env }
    }

    /// Gives the environment back, with the effects recorded so far.
    pub fn into_env(self) -> (r: ContractEnv)
        ensures
            r == self.env(),
    {
        self.env
    }

    /// Returns the address of the current smart contract.
    pub fn address(&self) -> (r: AccountId)
        ensures
            r == self.env().address,
    {
        api::address(&self.env)
    }

    /// Returns the balance of the current smart contract.
    pub fn balance(&self) -> (r: Balance)
        ensures
            r == self.env().balance,
    {
        api::balance(&self.env)
    }

    /// Returns the caller address of the current smart contract execution.
    pub fn caller(&self) -> (r: AccountId)
        ensures
            r == self.env().caller,
    {
        api::caller(&self.env)
    }

    /// Returns from the current smart contract execution with the given value.
    pub fn return_value<T: EncodeOutput>(&mut self, value: &T)
        ensures
            final(self).env().same_inputs(&old(self).env()),
            final(self).env().printed@ == old(self).env().printed@,
            final(self).env().events@ == old(self).env().events@,
            final(self).env().storage@ == old(self).env().storage@,
            final(self).env().returned matches Some(v) && v@ == value.spec_encode(),
    {
        api::return_value(&mut self.env, value)
    }

    /// Prints the given content.
    pub fn println(&mut self, content: &str)
        ensures
            final(self).env().same_inputs(&old(self).env()),
            final(self).env().printed@ == old(self).env().printed@.push(final(self).env().printed@.last()),
            final(self).env().printed@.last()@ == content@,
            final(self).env().events@ == old(self).env().events@,
            final(self).env().storage@ == old(self).env().storage@,
            final(self).env().returned == old(self).env().returned,
    {
        api::println(&mut self.env, content);
        assert(self.env.printed@ =~= old(self).env.printed@.push(self.env.printed@.last()));
    }

    /// Deposits raw event data through the contracts module.
    pub fn deposit_raw_event(&mut self, topics: &[api::Hash], event: &[u8])
        ensures
            final(self).env().same_inputs(&old(self).env()),
            final(self).env().printed@ == old(self).env().printed@,
            final(self).env().events@ == old(self).env().events@.push(final(self).env().events@.last()),
            final(self).env().events@.last().topics@ == topics@,
            final(self).env().events@.last().data@ == event@,
            final(self).env().storage@ == old(self).env().storage@,
            final(self).env().returned == old(self).env().returned,
    {
        api::deposit_raw_event(&mut self.env, topics, event);
        assert(self.env.events@ =~= old(self).env.events@.push(self.env.events@.last()));
    }

    /// Returns the random seed from the latest block.
    pub fn random_seed(&self) -> (r: api::Hash)
        ensures
            r == self.env().random_seed,
    {
        api::random_seed(&self.env)
    }

    /// Returns the timestamp of the latest block.
    pub fn now(&self) -> (r: Moment)
        ensures
            r == self.env().now,
    {
        api::now(&self.env)
    }
}

/// Provides a safe interface to an environment given a contract state.
pub struct ExecutionEnv<State> {
    /// The environment handler.
    pub env_handler: EnvHandler,
    /// The contract state.
    pub state: State,
}

impl<State> ExecutionEnv<State> {
    /// The environment handler of this context.
    pub open spec fn handler(&self) -> EnvHandler {
        self.env_handler
    }

    /// Bundles an environment with a contract state.
    pub fn new(env: ContractEnv, state: State) -> (r: Self)
        ensures
            r.handler().env() == env,
            r.state == state,
    {
        ExecutionEnv { env_handler: EnvHandler::new(env), state }
    }

    /// The environment handler of this context.
    pub fn env(&self) -> (r: &EnvHandler)
        ensures
            *r == self.handler(),
    {
        &self.env_handler
    }

    /// Splits the execution environment into shared references
    /// to the environment handler and the state.
    pub fn split(&self) -> (r: (&EnvHandler, &State))
        ensures
            *r.0 == self.handler(),
            *r.1 == self.state,
    {
        (&self.env_handler, &self.state)
    }

    /// Splits the execution environment into mutable references
    /// to the environment handler and the state.
    pub fn split_mut(&mut self) -> ((handler, state): (&mut EnvHandler, &mut State))
        ensures
            *handler == old(self).handler(),
            *state == old(self).state,
            final(self).handler() == *final(handler),
            final(self).state == *final(state),
    {
        (&mut self.env_handler, &mut self.state)
    }

    /// Takes the context apart into its environment and its state.
    pub fn into_parts(self) -> (r: (ContractEnv, State))
        ensures
            r.0 == self.handler().env(),
            r.1 == self.state,
    {
        (self.env_handler.into_env(), self.state)
    }
}

} // verus!
