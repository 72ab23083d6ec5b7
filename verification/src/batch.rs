//! The configured batch of transfers: three parallel sequences of equal
//! length, where index `i` across all three names one transfer instruction.

use vstd::prelude::*;

verus! {

/// Why a batch specification is refused at construction.
#[derive(Clone, Copy, Debug, PartialEq, Eq, Structural)]
pub enum ConfigError {
    /// The three sequences do not all have the same length.
    MismatchedLengths,
}

/// Three parallel ordered sequences; invariant: equal lengths. Constructed
/// once at startup and immutable thereafter.
pub struct BatchSpec {
    senders: Vec<String>,
    receivers: Vec<String>,
    amounts: Vec<u64>,
}

impl BatchSpec {
    /// All three sequences have the same length.
    pub closed spec fn wf(&self) -> bool {
        self.senders@.len() == self.amounts@.len() && self.receivers@.len() == self.amounts@.len()
    }

    /// The number of configured transfers.
    pub closed spec fn n(&self) -> nat {
        self.amounts@.len()
    }

    /// The base58-encoded sender credential at index `i`.
    pub closed spec fn sender_key(&self, i: int) -> Seq<char> {
        self.senders@[i]@
    }

    /// The receiver address string at index `i`, exactly as configured.
    pub closed spec fn receiver(&self, i: int) -> Seq<char> {
        self.receivers@[i]@
    }

    /// The amount at index `i`, in the smallest indivisible unit.
    pub closed spec fn amount(&self, i: int) -> u64 {
        self.amounts@[i]
    }

    /// Accepts the three sequences exactly when they have equal lengths;
    /// nothing is truncated or padded.
    pub fn new(senders: Vec<String>, receivers: Vec<String>, amounts: Vec<u64>) -> (r: Result<
        BatchSpec,
        ConfigError,
    >)
        ensures
            r is Ok <==> (senders@.len() == amounts@.len() && receivers@.len() == amounts@.len()),
            r matches Ok(b) ==> b.wf() && b.n() == amounts@.len() && (forall|i: int|
                0 <= i < amounts@.len() ==> #[trigger] b.sender_key(i) == senders@[i]@) && (
            forall|i: int|
                0 <= i < amounts@.len() ==> #[trigger] b.receiver(i) == receivers@[i]@) && (
            forall|i: int| 0 <= i < amounts@.len() ==> #[trigger] b.amount(i) == amounts@[i]),
            r matches Err(e) ==> e is MismatchedLengths,
    {
        if senders.len() == amounts.len() && receivers.len() == amounts.len() {
            Ok(BatchSpec { senders, receivers, amounts })
        } else {
            Err(ConfigError::MismatchedLengths)
        }
    }

    pub fn len(&self) -> (n: usize)
        ensures
            n == self.n(),
    {
        self.amounts.len()
    }

    pub fn sender_key_at(&self, i: usize) -> (s: &String)
        requires
            self.wf(),
            i < self.n(),
        ensures
            s@ == self.sender_key(i as int),
    {
        &self.senders[i]
    }

    pub fn receiver_at(&self, i: usize) -> (s: &String)
        requires
            self.wf(),
            i < self.n(),
        ensures
            s@ == self.receiver(i as int),
    {
        &self.receivers[i]
    }

    pub fn amount_at(&self, i: usize) -> (a: u64)
        requires
            self.wf(),
            i < self.n(),
        ensures
            a == self.amount(i as int),
    {
        self.amounts[i]
    }
}

} // verus!
