//! Host capabilities: the state-access operations an execution context
//! provides to the interpreter, and the context adapter's transparent
//! forwarding of every one of them.
//!
//! Each operation's contract ties its result and its state change to one
//! specification function of the implementation's own abstract state, so a
//! host's behaviour is a deterministic function of that state. The adapter
//! adopts the inner context's state and specification functions unchanged
//! — it adds no caching, no mutation and no filtering — which is exactly
//! the transparency property: every host-capability call produces the same
//! result whether or not an observer is attached.

use vstd::prelude::*;

use crate::ctx::InspectorContext;
use crate::types::{Address, LogData, U256};

verus! {

/// A value read from host state, with the access's cold/warm flag.
#[derive(Debug)]
pub struct StateLoad<T> {
    pub data: T,
    pub is_cold: bool,
}

/// Result of loading an account for a delegated call.
#[derive(Clone, Copy, PartialEq, Eq, Structural, Debug)]
pub struct AccountLoad {
    pub is_cold: bool,
    pub is_empty: bool,
}

/// Result of a storage store: the slot's original, present and new values.
#[derive(Clone, Copy, PartialEq, Eq, Structural, Debug)]
pub struct SStoreResult {
    pub original_value: U256,
    pub present_value: U256,
    pub new_value: U256,
}

/// Result of applying a self-destruct to host state.
#[derive(Clone, Copy, PartialEq, Eq, Structural, Debug)]
pub struct SelfDestructResult {
    pub had_value: bool,
    pub target_exists: bool,
    pub previously_destroyed: bool,
}

/// The host-capability set. An implementation chooses an abstract state
/// and one specification function per operation; every operation's result
/// and state change is that function of the state alone, so the behaviour
/// is deterministic over `host_state`.
pub trait Host {
    /// The abstract state this host exposes to its specification.
    type HostState;

    /// The current abstract state.
    spec fn host_state(&self) -> Self::HostState;

    /// What `block_hash` returns in state `s`.
    spec fn block_hash_spec(s: Self::HostState, number: u64) -> Option<U256>;

    /// The state `block_hash` leaves behind.
    spec fn block_hash_update(s: Self::HostState, number: u64) -> Self::HostState;

    /// What `load_account_delegated` returns in state `s`.
    spec fn load_account_delegated_spec(s: Self::HostState, address: Address) -> Option<
        AccountLoad,
    >;

    /// The state `load_account_delegated` leaves behind.
    spec fn load_account_delegated_update(s: Self::HostState, address: Address) -> Self::HostState;

    /// What `balance` returns in state `s`.
    spec fn balance_spec(s: Self::HostState, address: Address) -> Option<StateLoad<U256>>;

    /// The state `balance` leaves behind.
    spec fn balance_update(s: Self::HostState, address: Address) -> Self::HostState;

    /// What `code` returns in state `s`.
    spec fn code_spec(s: Self::HostState, address: Address) -> Option<StateLoad<Vec<u8>>>;

    /// The state `code` leaves behind.
    spec fn code_update(s: Self::HostState, address: Address) -> Self::HostState;

    /// What `code_hash` returns in state `s`.
    spec fn code_hash_spec(s: Self::HostState, address: Address) -> Option<StateLoad<U256>>;

    /// The state `code_hash` leaves behind.
    spec fn code_hash_update(s: Self::HostState, address: Address) -> Self::HostState;

    /// What `sload` returns in state `s`.
    spec fn sload_spec(s: Self::HostState, address: Address, index: U256) -> Option<
        StateLoad<U256>,
    >;

    /// The state `sload` leaves behind.
    spec fn sload_update(s: Self::HostState, address: Address, index: U256) -> Self::HostState;

    /// What `sstore` returns in state `s`.
    spec fn sstore_spec(s: Self::HostState, address: Address, index: U256, value: U256) -> Option<
        StateLoad<SStoreResult>,
    >;

    /// The state `sstore` leaves behind.
    spec fn sstore_update(
        s: Self::HostState,
        address: Address,
        index: U256,
        value: U256,
    ) -> Self::HostState;

    /// What `tload` returns in state `s`.
    spec fn tload_spec(s: Self::HostState, address: Address, index: U256) -> U256;

    /// The state `tload` leaves behind.
    spec fn tload_update(s: Self::HostState, address: Address, index: U256) -> Self::HostState;

    /// The state `tstore` leaves behind.
    spec fn tstore_update(
        s: Self::HostState,
        address: Address,
        index: U256,
        value: U256,
    ) -> Self::HostState;

    /// The state `log` leaves behind.
    spec fn log_update(s: Self::HostState, log_entry: LogData) -> Self::HostState;

    /// What `selfdestruct` returns in state `s`.
    spec fn selfdestruct_spec(s: Self::HostState, address: Address, target: Address) -> Option<
        StateLoad<SelfDestructResult>,
    >;

    /// The state `selfdestruct` leaves behind.
    spec fn selfdestruct_update(
        s: Self::HostState,
        address: Address,
        target: Address,
    ) -> Self::HostState;

    /// Hash of the requested block number, if available.
    fn block_hash(&mut self, requested_number: u64) -> (r: Option<U256>)
        ensures
            r == Self::block_hash_spec(old(self).host_state(), requested_number),
            final(self).host_state() == Self::block_hash_update(
                old(self).host_state(),
                requested_number,
            ),
    ;

    /// Loads an account for a delegated call.
    fn load_account_delegated(&mut self, address: Address) -> (r: Option<AccountLoad>)
        ensures
            r == Self::load_account_delegated_spec(old(self).host_state(), address),
            final(self).host_state() == Self::load_account_delegated_update(
                old(self).host_state(),
                address,
            ),
    ;

    /// Balance of the account at `address`.
    fn balance(&mut self, address: Address) -> (r: Option<StateLoad<U256>>)
        ensures
            r == Self::balance_spec(old(self).host_state(), address),
            final(self).host_state() == Self::balance_update(old(self).host_state(), address),
    ;

    /// Code of the account at `address`.
    fn code(&mut self, address: Address) -> (r: Option<StateLoad<Vec<u8>>>)
        ensures
            r == Self::code_spec(old(self).host_state(), address),
            final(self).host_state() == Self::code_update(old(self).host_state(), address),
    ;

    /// Code hash of the account at `address`.
    fn code_hash(&mut self, address: Address) -> (r: Option<StateLoad<U256>>)
        ensures
            r == Self::code_hash_spec(old(self).host_state(), address),
            final(self).host_state() == Self::code_hash_update(old(self).host_state(), address),
    ;

    /// Storage load from the slot `index` of `address`.
    fn sload(&mut self, address: Address, index: U256) -> (r: Option<StateLoad<U256>>)
        ensures
            r == Self::sload_spec(old(self).host_state(), address, index),
            final(self).host_state() == Self::sload_update(old(self).host_state(), address, index),
    ;

    /// Storage store to the slot `index` of `address`.
    fn sstore(&mut self, address: Address, index: U256, value: U256) -> (r: Option<
        StateLoad<SStoreResult>,
    >)
        ensures
            r == Self::sstore_spec(old(self).host_state(), address, index, value),
            final(self).host_state() == Self::sstore_update(
                old(self).host_state(),
                address,
                index,
                value,
            ),
    ;

    /// Transient-storage load.
    fn tload(&mut self, address: Address, index: U256) -> (r: U256)
        ensures
            r == Self::tload_spec(old(self).host_state(), address, index),
            final(self).host_state() == Self::tload_update(old(self).host_state(), address, index),
    ;

    /// Transient-storage store.
    fn tstore(&mut self, address: Address, index: U256, value: U256)
        ensures
            final(self).host_state() == Self::tstore_update(
                old(self).host_state(),
                address,
                index,
                value,
            ),
    ;

    /// Applies an emitted log to host state.
    fn log(&mut self, log_entry: LogData)
        ensures
            final(self).host_state() == Self::log_update(old(self).host_state(), log_entry),
    ;

    /// Applies a self-destruct of `address` in favour of `target`.
    fn selfdestruct(&mut self, address: Address, target: Address) -> (r: Option<
        StateLoad<SelfDestructResult>,
    >)
        ensures
            r == Self::selfdestruct_spec(old(self).host_state(), address, target),
            final(self).host_state() == Self::selfdestruct_update(
                old(self).host_state(),
                address,
                target,
            ),
    ;
}

/// The adapter's forwarding impl. Beside the trait contract — which, over
/// the inner context's own state and specification functions, already says
/// the result and state change are the inner context's — every method here
/// additionally leaves the ghost trace and the frame-correlation stack
/// untouched: no observer hook fires during a host-capability call.
impl<INSP, CTX: Host> Host for InspectorContext<INSP, CTX> {
    type HostState = CTX::HostState;

    open spec fn host_state(&self) -> CTX::HostState {
        self.inner.host_state()
    }

    open spec fn block_hash_spec(s: CTX::HostState, number: u64) -> Option<U256> {
        CTX::block_hash_spec(s, number)
    }

    open spec fn block_hash_update(s: CTX::HostState, number: u64) -> CTX::HostState {
        CTX::block_hash_update(s, number)
    }

    open spec fn load_account_delegated_spec(s: CTX::HostState, address: Address) -> Option<
        AccountLoad,
    > {
        CTX::load_account_delegated_spec(s, address)
    }

    open spec fn load_account_delegated_update(s: CTX::HostState, address: Address) -> CTX::HostState {
        CTX::load_account_delegated_update(s, address)
    }

    open spec fn balance_spec(s: CTX::HostState, address: Address) -> Option<StateLoad<U256>> {
        CTX::balance_spec(s, address)
    }

    open spec fn balance_update(s: CTX::HostState, address: Address) -> CTX::HostState {
        CTX::balance_update(s, address)
    }

    open spec fn code_spec(s: CTX::HostState, address: Address) -> Option<StateLoad<Vec<u8>>> {
        CTX::code_spec(s, address)
    }

    open spec fn code_update(s: CTX::HostState, address: Address) -> CTX::HostState {
        CTX::code_update(s, address)
    }

    open spec fn code_hash_spec(s: CTX::HostState, address: Address) -> Option<StateLoad<U256>> {
        CTX::code_hash_spec(s, address)
    }

    open spec fn code_hash_update(s: CTX::HostState, address: Address) -> CTX::HostState {
        CTX::code_hash_update(s, address)
    }

    open spec fn sload_spec(s: CTX::HostState, address: Address, index: U256) -> Option<
        StateLoad<U256>,
    > {
        CTX::sload_spec(s, address, index)
    }

    open spec fn sload_update(s: CTX::HostState, address: Address, index: U256) -> CTX::HostState {
        CTX::sload_update(s, address, index)
    }

    open spec fn sstore_spec(s: CTX::HostState, address: Address, index: U256, value: U256) -> Option<
        StateLoad<SStoreResult>,
    > {
        CTX::sstore_spec(s, address, index, value)
    }

    open spec fn sstore_update(
        s: CTX::HostState,
        address: Address,
        index: U256,
        value: U256,
    ) -> CTX::HostState {
        CTX::sstore_update(s, address, index, value)
    }

    open spec fn tload_spec(s: CTX::HostState, address: Address, index: U256) -> U256 {
        CTX::tload_spec(s, address, index)
    }

    open spec fn tload_update(s: CTX::HostState, address: Address, index: U256) -> CTX::HostState {
        CTX::tload_update(s, address, index)
    }

    open spec fn tstore_update(
        s: CTX::HostState,
        address: Address,
        index: U256,
        value: U256,
    ) -> CTX::HostState {
        CTX::tstore_update(s, address, index, value)
    }

    open spec fn log_update(s: CTX::HostState, log_entry: LogData) -> CTX::HostState {
        CTX::log_update(s, log_entry)
    }

    open spec fn selfdestruct_spec(s: CTX::HostState, address: Address, target: Address) -> Option<
        StateLoad<SelfDestructResult>,
    > {
        CTX::selfdestruct_spec(s, address, target)
    }

    open spec fn selfdestruct_update(
        s: CTX::HostState,
        address: Address,
        target: Address,
    ) -> CTX::HostState {
        CTX::selfdestruct_update(s, address, target)
    }

    fn block_hash(&mut self, requested_number: u64) -> (r: Option<U256>)
        ensures
            final(self).events@ == old(self).events@,
            final(self).frame_input_stack@ == old(self).frame_input_stack@,
    {
        self.inner.block_hash(requested_number)
    }

    fn load_account_delegated(&mut self, address: Address) -> (r: Option<AccountLoad>)
        ensures
            final(self).events@ == old(self).events@,
            final(self).frame_input_stack@ == old(self).frame_input_stack@,
    {
        self.inner.load_account_delegated(address)
    }

    fn balance(&mut self, address: Address) -> (r: Option<StateLoad<U256>>)
        ensures
            final(self).events@ == old(self).events@,
            final(self).frame_input_stack@ == old(self).frame_input_stack@,
    {
        self.inner.balance(address)
    }

    fn code(&mut self, address: Address) -> (r: Option<StateLoad<Vec<u8>>>)
        ensures
            final(self).events@ == old(self).events@,
            final(self).frame_input_stack@ == old(self).frame_input_stack@,
    {
        self.inner.code(address)
    }

    fn code_hash(&mut self, address: Address) -> (r: Option<StateLoad<U256>>)
        ensures
            final(self).events@ == old(self).events@,
            final(self).frame_input_stack@ == old(self).frame_input_stack@,
    {
        self.inner.code_hash(address)
    }

    fn sload(&mut self, address: Address, index: U256) -> (r: Option<StateLoad<U256>>)
        ensures
            final(self).events@ == old(self).events@,
            final(self).frame_input_stack@ == old(self).frame_input_stack@,
    {
        self.inner.sload(address, index)
    }

    fn sstore(&mut self, address: Address, index: U256, value: U256) -> (r: Option<
        StateLoad<SStoreResult>,
    >)
        ensures
            final(self).events@ == old(self).events@,
            final(self).frame_input_stack@ == old(self).frame_input_stack@,
    {
        self.inner.sstore(address, index, value)
    }

    fn tload(&mut self, address: Address, index: U256) -> (r: U256)
        ensures
            final(self).events@ == old(self).events@,
            final(self).frame_input_stack@ == old(self).frame_input_stack@,
    {
        self.inner.tload(address, index)
    }

    fn tstore(&mut self, address: Address, index: U256, value: U256)
        ensures
            final(self).events@ == old(self).events@,
            final(self).frame_input_stack@ == old(self).frame_input_stack@,
    {
        self.inner.tstore(address, index, value)
    }

    fn log(&mut self, log_entry: LogData)
        ensures
            final(self).events@ == old(self).events@,
            final(self).frame_input_stack@ == old(self).frame_input_stack@,
    {
        self.inner.log(log_entry)
    }

    fn selfdestruct(&mut self, address: Address, target: Address) -> (r: Option<
        StateLoad<SelfDestructResult>,
    >)
        ensures
            final(self).events@ == old(self).events@,
            final(self).frame_input_stack@ == old(self).frame_input_stack@,
    {
        self.inner.selfdestruct(address, target)
    }
}

/// Transparency law: composing an observer changes no host-capability
/// behaviour. The adapter's specification functions are, definitionally,
/// those of its inner context, over the same abstract state — so every
/// host-capability call made through the adapter produces exactly the
/// result, and exactly the state change, that the same call on the bare
/// inner context would.
pub proof fn lemma_host_transparency<INSP, CTX: Host>(
    s: CTX::HostState,
    address: Address,
    target: Address,
    index: U256,
    value: U256,
    number: u64,
    log_entry: LogData,
)
    ensures
        InspectorContext::<INSP, CTX>::block_hash_spec(s, number) == CTX::block_hash_spec(
            s,
            number,
        ),
        InspectorContext::<INSP, CTX>::block_hash_update(s, number) == CTX::block_hash_update(
            s,
            number,
        ),
        InspectorContext::<INSP, CTX>::load_account_delegated_spec(s, address)
            == CTX::load_account_delegated_spec(s, address),
        InspectorContext::<INSP, CTX>::load_account_delegated_update(s, address)
            == CTX::load_account_delegated_update(s, address),
        InspectorContext::<INSP, CTX>::balance_spec(s, address) == CTX::balance_spec(s, address),
        InspectorContext::<INSP, CTX>::balance_update(s, address) == CTX::balance_update(
            s,
            address,
        ),
        InspectorContext::<INSP, CTX>::code_spec(s, address) == CTX::code_spec(s, address),
        InspectorContext::<INSP, CTX>::code_update(s, address) == CTX::code_update(s, address),
        InspectorContext::<INSP, CTX>::code_hash_spec(s, address) == CTX::code_hash_spec(
            s,
            address,
        ),
        InspectorContext::<INSP, CTX>::code_hash_update(s, address) == CTX::code_hash_update(
            s,
            address,
        ),
        InspectorContext::<INSP, CTX>::sload_spec(s, address, index) == CTX::sload_spec(
            s,
            address,
            index,
        ),
        InspectorContext::<INSP, CTX>::sload_update(s, address, index) == CTX::sload_update(
            s,
            address,
            index,
        ),
        InspectorContext::<INSP, CTX>::sstore_spec(s, address, index, value) == CTX::sstore_spec(
            s,
            address,
            index,
            value,
        ),
        InspectorContext::<INSP, CTX>::sstore_update(s, address, index, value)
            == CTX::sstore_update(s, address, index, value),
        InspectorContext::<INSP, CTX>::tload_spec(s, address, index) == CTX::tload_spec(
            s,
            address,
            index,
        ),
        InspectorContext::<INSP, CTX>::tload_update(s, address, index) == CTX::tload_update(
            s,
            address,
            index,
        ),
        InspectorContext::<INSP, CTX>::tstore_update(s, address, index, value)
            == CTX::tstore_update(s, address, index, value),
        InspectorContext::<INSP, CTX>::log_update(s, log_entry) == CTX::log_update(s, log_entry),
        InspectorContext::<INSP, CTX>::selfdestruct_spec(s, address, target)
            == CTX::selfdestruct_spec(s, address, target),
        InspectorContext::<INSP, CTX>::selfdestruct_update(s, address, target)
            == CTX::selfdestruct_update(s, address, target),
{
}

} // verus!
