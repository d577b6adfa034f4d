use vstd::prelude::*;

verus! {

/// An account identifier, kept as its raw bytes.
#[derive(Clone, Debug, PartialEq, Eq)]
pub struct Address {
    pub bytes: Vec<u8>,
}

/// The length in bytes of a well-formed account identifier.
pub const ADDRESS_LEN: usize = 32;

impl View for Address {
    type V = Seq<u8>;

    open spec fn view(&self) -> Seq<u8> {
        self.bytes@
    }
}

impl Address {
    pub open spec fn well_formed(&self) -> bool {
        self@.len() == ADDRESS_LEN
    }

    pub fn from_bytes(bytes: Vec<u8>) -> (r: Address)
        ensures
            r@ == bytes@,
    {
        Address { bytes }
    }

    pub fn is_well_formed(&self) -> (r: bool)
        ensures
            r == self.well_formed(),
    {
        self.bytes.len() == ADDRESS_LEN
    }

    pub fn duplicate(&self) -> (r: Address)
        ensures
            r@ == self@,
    {
        let mut bytes: Vec<u8> = Vec::new();
        let mut i: usize = 0;
        while i < self.bytes.len()
            invariant
                i <= self.bytes.len(),
                bytes@ == self.bytes@.take(i as int),
            decreases self.bytes.len() - i,
        {
            bytes.push(self.bytes[i]);
            i = i + 1;
            assert(bytes@ =~= self.bytes@.take(i as int));
        }
        assert(self.bytes@.take(i as int) =~= self.bytes@);
        Address { bytes }
    }
}

/// One payment leg of a call: a token, its nonce (zero for fungible tokens),
/// and an amount given as big-endian unsigned bytes.
#[derive(Clone, Debug, PartialEq, Eq)]
pub struct TokenTransfer {
    pub identifier: String,
    pub nonce: u64,
    pub amount: Vec<u8>,
}

/// A side transaction that the VM produced while executing a call.
#[derive(Clone, Debug, PartialEq, Eq)]
pub struct SmartContractResult {
    pub nonce: u64,
    pub data: String,
    pub sender: String,
    pub receiver: String,
}

/// The network's record of a finalized transaction.
#[derive(Clone, Debug, PartialEq, Eq)]
pub struct TransactionOnNetwork {
    pub hash: String,
    pub smart_contract_results: Option<Vec<SmartContractResult>>,
}

/// The outcome of a call: the finalized transaction and, unless decoding was
/// skipped, the decoded return value.
#[derive(Clone, Debug, PartialEq, Eq)]
pub struct CallResult<T> {
    pub response: TransactionOnNetwork,
    pub result: Option<T>,
}

} // verus!

verus! {

/// The signing identity of an account: its address and its private key.
#[derive(Debug)]
pub struct Wallet {
    pub address: Address,
    pub private_key: Vec<u8>,
}

impl View for Wallet {
    type V = (Seq<u8>, Seq<u8>);

    open spec fn view(&self) -> (Seq<u8>, Seq<u8>) {
        (self.address@, self.private_key@)
    }
}

/// A fresh copy of a byte string.
pub fn copy_bytes(b: &Vec<u8>) -> (r: Vec<u8>)
    ensures
        r@ == b@,
{
    vstd::slice::slice_to_vec(b.as_slice())
}

/// A fresh copy of a list of byte strings.
pub fn copy_byte_lists(v: &Vec<Vec<u8>>) -> (r: Vec<Vec<u8>>)
    ensures
        r.deep_view() == v.deep_view(),
{
    let mut out: Vec<Vec<u8>> = Vec::new();
    let mut i: usize = 0;
    while i < v.len()
        invariant
            i <= v@.len(),
            out@.len() == i,
            forall|k: int| 0 <= k < i ==> (#[trigger] out@[k])@ == v@[k]@,
        decreases v.len() - i,
    {
        out.push(copy_bytes(&v[i]));
        i = i + 1;
    }
    assert forall|k: int| 0 <= k < out@.len() implies #[trigger] out.deep_view()[k]
        == v.deep_view()[k] by {
        assert(out.deep_view()[k] =~= v.deep_view()[k]);
    }
    assert(out.deep_view() =~= v.deep_view());
    out
}

impl Wallet {
    pub fn duplicate(&self) -> (r: Wallet)
        ensures
            r@ == self@,
    {
        Wallet { address: self.address.duplicate(), private_key: copy_bytes(&self.private_key) }
    }
}

impl TransactionOnNetwork {
    /// A record with no hash and no results, for calls that were never submitted.
    pub fn empty() -> (r: TransactionOnNetwork)
        ensures
            r.hash@ == Seq::<char>::empty(),
            r.smart_contract_results.is_none(),
    {
        TransactionOnNetwork { hash: String::new(), smart_contract_results: None }
    }
}

} // verus!
