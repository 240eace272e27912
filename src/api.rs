//! The contract's view of its host environment.
//!
//! The host hands the running contract its identity, balance, time and so on,
//! and receives the effects the contract asks for (printed lines, events, a
//! return payload). `ContractEnv` holds both sides as plain values: the host
//! fills in the first before a call and carries out the second after it.
use vstd::prelude::*;
use crate::codec::EncodeOutput;

verus! {

/// The environmental address type.
pub type AccountId = [u8; 32];

/// The environmental balance type.
pub type Balance = u64;

/// The environmental hash type.
pub type Hash = [u8; 32];

/// The environmental moment type.
pub type Moment = u64;

/// A key of contract storage: always exactly 32 bytes, so every value of the
/// type is a well-formed key.
#[derive(Clone, Copy)]
pub struct Key(pub [u8; 32]);

/// A raw event deposited through the contracts module.
pub struct RawEvent {
    pub topics: Vec<Hash>,
    pub data: Vec<u8>,
}

/// What the host environment provides to, and receives from, one contract execution.
pub struct ContractEnv {
    pub address: AccountId,
    pub balance: Balance,
    pub caller: AccountId,
    pub input: Vec<u8>,
    pub random_seed: Hash,
    pub now: Moment,
    pub gas_price: Balance,
    pub gas_left: Balance,
    pub value_transferred: Balance,
    /// Lines printed so far, oldest first.
    pub printed: Vec<String>,
    /// Events deposited so far, oldest first.
    pub events: Vec<RawEvent>,
    /// The encoded value the execution returned with, once it has.
    pub returned: Option<Vec<u8>>,
    /// Contract storage, as (key, value) entries; where a key has several
    /// entries, the last one counts.
    pub storage: Vec<(Key, Vec<u8>)>,
}

/// The value stored under `key` in `entries`, where the last entry for a key
/// counts.
pub open spec fn lookup(entries: Seq<(Key, Vec<u8>)>, key: Seq<u8>) -> Option<Seq<u8>>
    decreases entries.len(),
{
    if entries.len() == 0 {
        None
    } else if entries.last().0.0@ == key {
        Some(entries.last().1@)
    } else {
        lookup(entries.drop_last(), key)
    }
}

/// `entries` without the entries for `key`, in their order.
pub open spec fn without(entries: Seq<(Key, Vec<u8>)>, key: Seq<u8>) -> Seq<(Key, Vec<u8>)>
    decreases entries.len(),
{
    if entries.len() == 0 {
        entries
    } else if entries.last().0.0@ == key {
        without(entries.drop_last(), key)
    } else {
        without(entries.drop_last(), key).push(entries.last())
    }
}

proof fn lemma_lookup_without(entries: Seq<(Key, Vec<u8>)>, key: Seq<u8>, k: Seq<u8>)
    ensures
        lookup(without(entries, key), k) == if k == key {
            None
        } else {
            lookup(entries, k)
        },
    decreases entries.len(),
{
    if entries.len() > 0 {
        lemma_lookup_without(entries.drop_last(), key, k);
        if entries.last().0.0@ != key {
            assert(without(entries, key).drop_last() == without(entries.drop_last(), key));
        }
    }
}

/// Whether two keys hold the same bytes.
fn same_key(a: &Key, b: &Key) -> (r: bool)
    ensures
        r == (a.0@ == b.0@),
{
    let mut i: usize = 0;
    while i < 32
        invariant
            i <= 32,
            forall|j: int| 0 <= j < i ==> a.0@[j] == b.0@[j],
        decreases 32 - i,
    {
        if a.0[i] != b.0[i] {
            return false;
        }
        i = i + 1;
    }
    assert(a.0@ =~= b.0@);
    true
}

/// Copies a byte slice into a new vector.
pub fn copy_bytes(s: &[u8]) -> (r: Vec<u8>)
    ensures
        r@ == s@,
{
    let mut r: Vec<u8> = Vec::new();
    let mut i: usize = 0;
    while i < s.len()
        invariant
            i <= s@.len(),
            r@ == s@.subrange(0, i as int),
        decreases s@.len() - i,
    {
        r.push(s[i]);
        i = i + 1;
        assert(r@ =~= s@.subrange(0, i as int));
    }
    assert(r@ =~= s@);
    r
}

/// Copies a slice of hashes into a new vector.
fn copy_hashes(s: &[Hash]) -> (r: Vec<Hash>)
    ensures
        r@ == s@,
{
    let mut r: Vec<Hash> = Vec::new();
    let mut i: usize = 0;
    while i < s.len()
        invariant
            i <= s@.len(),
            r@ == s@.subrange(0, i as int),
        decreases s@.len() - i,
    {
        r.push(s[i]);
        i = i + 1;
        assert(r@ =~= s@.subrange(0, i as int));
    }
    assert(r@ =~= s@);
    r
}

impl ContractEnv {
    /// Whether `self` differs from `other` only in the effects it records.
    pub open spec fn same_inputs(&self, other: &ContractEnv) -> bool {
        &&& self.address == other.address
        &&& self.balance == other.balance
        &&& self.caller == other.caller
        &&& self.input@ == other.input@
        &&& self.random_seed == other.random_seed
        &&& self.now == other.now
        &&& self.gas_price == other.gas_price
        &&& self.gas_left == other.gas_left
        &&& self.value_transferred == other.value_transferred
    }
}

/// Returns the address of the current smart contract.
pub fn address(env: &ContractEnv) -> (r: AccountId)
    ensures
        r == env.address,
{
    env.address
}

/// Returns the balance of the current smart contract.
pub fn balance(env: &ContractEnv) -> (r: Balance)
    ensures
        r == env.balance,
{
    env.balance
}

/// Returns the address of the caller of the current smart contract execution.
pub fn caller(env: &ContractEnv) -> (r: AccountId)
    ensures
        r == env.caller,
{
    env.caller
}

/// Returns the uninterpreted input data of the current smart contract execution.
pub fn input(env: &ContractEnv) -> (r: Vec<u8>)
    ensures
        r@ == env.input@,
{
    copy_bytes(env.input.as_slice())
}

/// Returns the random seed from the latest block.
pub fn random_seed(env: &ContractEnv) -> (r: Hash)
    ensures
        r == env.random_seed,
{
    env.random_seed
}

/// Returns the timestamp of the latest block.
pub fn now(env: &ContractEnv) -> (r: Moment)
    ensures
        r == env.now,
{
    env.now
}

/// Returns the current gas price.
pub fn gas_price(env: &ContractEnv) -> (r: Balance)
    ensures
        r == env.gas_price,
{
    env.gas_price
}

/// Returns the amount of gas left for the contract execution.
pub fn gas_left(env: &ContractEnv) -> (r: Balance)
    ensures
        r == env.gas_left,
{
    env.gas_left
}

/// Returns the transferred value.
pub fn value_transferred(env: &ContractEnv) -> (r: Balance)
    ensures
        r == env.value_transferred,
{
    env.value_transferred
}

/// Ends the execution with the given value: the host returns its encoding
/// to the caller. A later call replaces an earlier payload.
pub fn return_value<T: EncodeOutput>(env: &mut ContractEnv, value: &T)
    ensures
        final(env).same_inputs(old(env)),
        final(env).printed@ == old(env).printed@,
        final(env).events@ == old(env).events@,
        final(env).storage@ == old(env).storage@,
        final(env).returned matches Some(v) && v@ == value.spec_encode(),
{
    env.returned = Some(value.encode_output());
}

/// Loads the data stored at the given key from the contract storage.
pub fn load(env: &ContractEnv, key: Key) -> (r: Option<Vec<u8>>)
    ensures
        r is None <==> lookup(env.storage@, key.0@) is None,
        r matches Some(v) ==> lookup(env.storage@, key.0@) == Some(v@),
{
    let mut i: usize = env.storage.len();
    assert(env.storage@.subrange(0, i as int) =~= env.storage@);
    while i > 0
        invariant
            i <= env.storage@.len(),
            lookup(env.storage@, key.0@) == lookup(env.storage@.subrange(0, i as int), key.0@),
        decreases i,
    {
        assert(env.storage@.subrange(0, i as int).drop_last() =~= env.storage@.subrange(0, i - 1));
        i = i - 1;
        let entry = &env.storage[i];
        if same_key(&entry.0, &key) {
            return Some(copy_bytes(entry.1.as_slice()));
        }
    }
    None
}

/// Clears the data stored at the given key from the contract storage.
pub fn clear(env: &mut ContractEnv, key: Key)
    ensures
        final(env).same_inputs(old(env)),
        final(env).printed@ == old(env).printed@,
        final(env).events@ == old(env).events@,
        final(env).returned == old(env).returned,
        forall|k: Seq<u8>|
            #[trigger] lookup(final(env).storage@, k) == if k == key.0@ {
                None
            } else {
                lookup(old(env).storage@, k)
            },
{
    let ghost before = env.storage@;
    let mut kept: Vec<(Key, Vec<u8>)> = Vec::new();
    let mut i: usize = 0;
    while i < env.storage.len()
        invariant
            env.storage@ == before,
            i <= before.len(),
            forall|j: int| 0 <= j < kept@.len() ==> kept@[j].0 == without(before.subrange(0, i as int), key.0@)[j].0,
            forall|j: int| 0 <= j < kept@.len() ==> kept@[j].1@ == without(before.subrange(0, i as int), key.0@)[j].1@,
            kept@.len() == without(before.subrange(0, i as int), key.0@).len(),
        decreases before.len() - i,
    {
        assert(before.subrange(0, i + 1).drop_last() =~= before.subrange(0, i as int));
        let entry = &env.storage[i];
        if !same_key(&entry.0, &key) {
            kept.push((entry.0, copy_bytes(entry.1.as_slice())));
        }
        i = i + 1;
    }
    assert(before.subrange(0, before.len() as int) =~= before);
    env.storage = kept;
    assert forall|k: Seq<u8>| #[trigger] lookup(env.storage@, k) == if k == key.0@ {
        None
    } else {
        lookup(before, k)
    } by {
        lemma_lookup_without(before, key.0@, k);
        lemma_lookup_agrees(env.storage@, without(before, key.0@), k);
    }
}

/// Lookup sees only keys and the views of values.
proof fn lemma_lookup_agrees(a: Seq<(Key, Vec<u8>)>, b: Seq<(Key, Vec<u8>)>, k: Seq<u8>)
    requires
        a.len() == b.len(),
        forall|j: int| 0 <= j < a.len() ==> a[j].0 == b[j].0,
        forall|j: int| 0 <= j < a.len() ==> a[j].1@ == b[j].1@,
    ensures
        lookup(a, k) == lookup(b, k),
    decreases a.len(),
{
    if a.len() > 0 {
        lemma_lookup_agrees(a.drop_last(), b.drop_last(), k);
    }
}

/// Stores the given value under the specified key in the contract storage,
/// replacing what was stored there.
pub fn store(env: &mut ContractEnv, key: Key, value: &[u8])
    ensures
        final(env).same_inputs(old(env)),
        final(env).printed@ == old(env).printed@,
        final(env).events@ == old(env).events@,
        final(env).returned == old(env).returned,
        forall|k: Seq<u8>|
            #[trigger] lookup(final(env).storage@, k) == if k == key.0@ {
                Some(value@)
            } else {
                lookup(old(env).storage@, k)
            },
{
    clear(env, key);
    let ghost cleared = env.storage@;
    let bytes = copy_bytes(value);
    env.storage.push((key, bytes));
    assert(env.storage@.drop_last() =~= cleared);
    assert(env.storage@.last().1@ == value@);
    assert forall|k: Seq<u8>| #[trigger] lookup(env.storage@, k) == if k == key.0@ {
        Some(value@)
    } else {
        lookup(cleared, k)
    } by {
    }
}

/// Prints the given content.
pub fn println(env: &mut ContractEnv, content: &str)
    ensures
        final(env).same_inputs(old(env)),
        final(env).printed@.len() == old(env).printed@.len() + 1,
        final(env).printed@.drop_last() == old(env).printed@,
        final(env).printed@.last()@ == content@,
        final(env).events@ == old(env).events@,
        final(env).storage@ == old(env).storage@,
        final(env).returned == old(env).returned,
{
    let line = content.to_owned();
    env.printed.push(line);
    assert(env.printed@.drop_last() =~= old(env).printed@);
}

/// Deposits raw event data through the contracts module.
pub fn deposit_raw_event(env: &mut ContractEnv, topics: &[Hash], data: &[u8])
    ensures
        final(env).same_inputs(old(env)),
        final(env).printed@ == old(env).printed@,
        final(env).events@.len() == old(env).events@.len() + 1,
        final(env).events@.drop_last() == old(env).events@,
        final(env).events@.last().topics@ == topics@,
        final(env).events@.last().data@ == data@,
        final(env).storage@ == old(env).storage@,
        final(env).returned == old(env).returned,
{
    let event = RawEvent { topics: copy_hashes(topics), data: copy_bytes(data) };
    env.events.push(event);
    assert(env.events@.drop_last() =~= old(env).events@);
}

} // verus!
