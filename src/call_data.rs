//! Call data: the selector prefix and the parameter payload of an incoming call.
use vstd::prelude::*;
use vstd::slice::slice_subrange;

verus! {

/// Number of bytes that encode the selector at the start of call data.
pub const SELECTOR_BYTES: usize = 4;

/// The little-endian value of the first four bytes of `s`.
pub open spec fn le_u32(s: Seq<u8>) -> int
    recommends
        s.len() >= 4,
{
    s[0] as int + 256 * (s[1] as int) + 65536 * (s[2] as int) + 16777216 * (s[3] as int)
}

/// A hash to identify a called function.
#[derive(Clone, Copy, PartialEq, Eq, Structural)]
pub struct MessageHandlerSelector(pub u64);

impl MessageHandlerSelector {
    /// Builds a selector from the 32-bit value carried by call data.
    pub fn new(value: u32) -> (r: Self)
        ensures
            r.0 == value as u64,
    {
        MessageHandlerSelector(value as u64)
    }
}

/// The raw data with which a contract is being called.
pub struct CallData(pub Vec<u8>);

/// The selector that call data with bytes `b` carries, if it is long enough.
pub open spec fn selector_of(b: Seq<u8>) -> Option<u64> {
    if b.len() >= 4 {
        Some(le_u32(b) as u64)
    } else {
        None
    }
}

/// The parameter payload of call data with bytes `b`.
pub open spec fn params_of(b: Seq<u8>) -> Seq<u8> {
    if b.len() <= 4 {
        Seq::empty()
    } else {
        b.subrange(4, b.len() as int)
    }
}

impl CallData {
    /// The bytes of this call data.
    pub open spec fn bytes(&self) -> Seq<u8> {
        self.0@
    }

    /// Returns the underlying bytes as slice.
    fn as_bytes(&self) -> (r: &[u8])
        ensures
            r@ == self.bytes(),
    {
        self.0.as_slice()
    }

    /// Returns the message handler selector part of this call data.
    pub fn selector(&self) -> (r: MessageHandlerSelector)
        requires
            self.bytes().len() >= SELECTOR_BYTES,
        ensures
            r.0 == le_u32(self.bytes()),
            selector_of(self.bytes()) == Some(r.0),
    {
        let b = self.as_bytes();
        let v: u64 = b[0] as u64 + 256 * (b[1] as u64) + 65536 * (b[2] as u64) + 16777216 * (b[3] as u64);
        MessageHandlerSelector(v)
    }

    /// Returns the selector if the call data is long enough to carry one.
    pub fn try_selector(&self) -> (r: Option<MessageHandlerSelector>)
        ensures
            r matches Some(s) ==> selector_of(self.bytes()) == Some(s.0),
            r is None <==> selector_of(self.bytes()) is None,
    {
        if self.0.len() >= SELECTOR_BYTES {
            Some(self.selector())
        } else {
            None
        }
    }

    /// Returns the actual call data in binary format.
    pub fn params(&self) -> (r: &[u8])
        ensures
            r@ == params_of(self.bytes()),
            self.bytes().len() <= SELECTOR_BYTES ==> r@.len() == 0,
            self.bytes().len() > SELECTOR_BYTES ==> r@ == self.bytes().subrange(4, self.bytes().len() as int),
    {
        let bytes = self.as_bytes();
        if bytes.len() <= SELECTOR_BYTES {
            slice_subrange(bytes, 0, 0)
        } else {
            slice_subrange(bytes, SELECTOR_BYTES, bytes.len())
        }
    }
}

/// The selector depends on the first four bytes alone: two buffers that
/// agree on them carry the same selector, whatever follows.
pub proof fn lemma_selector_reads_prefix(a: Seq<u8>, b: Seq<u8>)
    requires
        a.len() >= 4,
        b.len() >= 4,
        a.subrange(0, 4) == b.subrange(0, 4),
    ensures
        selector_of(a) == selector_of(b),
        selector_of(a) == Some(le_u32(a) as u64),
{
    assert(a[0] == a.subrange(0, 4)[0] && a[1] == a.subrange(0, 4)[1]);
    assert(a[2] == a.subrange(0, 4)[2] && a[3] == a.subrange(0, 4)[3]);
    assert(b[0] == b.subrange(0, 4)[0] && b[1] == b.subrange(0, 4)[1]);
    assert(b[2] == b.subrange(0, 4)[2] && b[3] == b.subrange(0, 4)[3]);
}

/// Parsing call data holds no hidden state: two call data with the same
/// bytes carry the same selector and the same parameters.
pub proof fn lemma_parse_deterministic(a: &CallData, b: &CallData)
    requires
        a.bytes() == b.bytes(),
    ensures
        selector_of(a.bytes()) == selector_of(b.bytes()),
        params_of(a.bytes()) == params_of(b.bytes()),
{
}

} // verus!
