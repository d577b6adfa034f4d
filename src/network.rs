use vstd::prelude::*;

use std::marker::PhantomData;

use crate::dummy::ScDeployStep;
use crate::error::{ExecutorError, TransactionError};
use crate::normalization::{hex_fields, lemma_hex_fields_round_trip, normalization_outcome, NormalizationInOut, NormalizedTransaction};
use crate::hex_codec::{decode_hex, hex_bytes, hex_text, is_hex_text};
use crate::text::{prefixed_fields, split_fields, split_text};
use crate::types::{Address, SmartContractResult, TokenTransfer, TransactionOnNetwork, Wallet};

verus! {

/// The status field of a result that the VM executed successfully ("ok" in hex).
pub open spec fn ok_code() -> Seq<char> {
    seq!['6', 'f', '6', 'b']
}

/// Whether every field from position `start` on is hexadecimal text.
pub open spec fn all_hex_from(fields: Seq<Seq<char>>, start: int) -> bool {
    forall|j: int| start <= j < fields.len() ==> is_hex_text(#[trigger] fields[j])
}

/// Whether a smart-contract result carries the VM's return data.
pub open spec fn carries_return_data(r: SmartContractResult) -> bool {
    r.nonce != 0 && r.data@.len() > 0 && r.data@[0] == '@'
}

/// What the return data `@<status>@<arg>...` yields: the status is checked
/// first, then each remaining field is read as hexadecimal.
pub open spec fn return_data_outcome(data: Seq<char>) -> Result<Seq<Seq<u8>>, TransactionError> {
    let fields = split_fields(data, '@');
    if fields.len() < 2 || fields[1] != ok_code() {
        Err(TransactionError::ResultCodeNotOk)
    } else if !all_hex_from(fields, 2) {
        Err(TransactionError::CannotDecodeHex)
    } else {
        Ok(Seq::new((fields.len() - 2) as nat, |i: int| hex_bytes(fields[i + 2])))
    }
}

/// Whether `k` is the first position in `rs` that carries return data.
pub open spec fn is_first_carrier(rs: Seq<SmartContractResult>, k: int) -> bool {
    0 <= k < rs.len() && carries_return_data(rs[k]) && forall|j: int|
        0 <= j < k ==> !carries_return_data(#[trigger] rs[j])
}

/// What the list of smart-contract results of a transaction yields.
pub open spec fn results_outcome(results: Option<Vec<SmartContractResult>>) -> Result<
    Seq<Seq<u8>>,
    TransactionError,
> {
    match results {
        None => Err(TransactionError::NoSmartContractResult),
        Some(rs) => if exists|k: int| is_first_carrier(rs@, k) {
            return_data_outcome(rs@[choose|k: int| is_first_carrier(rs@, k)].data@)
        } else {
            Err(TransactionError::NoSmartContractResult)
        },
    }
}

/// The return values of a decoding outcome as byte strings.
pub open spec fn raw_view(r: Result<Vec<Vec<u8>>, TransactionError>) -> Result<
    Seq<Seq<u8>>,
    TransactionError,
> {
    match r {
        Ok(v) => Ok(v.deep_view()),
        Err(e) => Err(e),
    }
}

/// Checks the status of return data `@<status>@<arg>...` and hex-decodes the
/// return arguments.
pub fn decode_return_data(data: &str) -> (r: Result<Vec<Vec<u8>>, TransactionError>)
    ensures
        raw_view(r) == return_data_outcome(data@),
{
    let fields = split_text(data, '@');
    let ghost fs = split_fields(data@, '@');
    assert(fields@.len() == fs.len());
    assert forall|j: int| 0 <= j < fs.len() implies #[trigger] fs[j] == fields@[j]@ by {
        assert(fields@.map_values(|f: String| f@)[j] == fields@[j]@);
    }
    if fields.len() < 2 {
        return Err(TransactionError::ResultCodeNotOk);
    }
    let ok = String::from_str("6f6b");
    proof {
        reveal_strlit("6f6b");
        assert(ok@ =~= ok_code());
    }
    if !fields[1].eq(&ok) {
        return Err(TransactionError::ResultCodeNotOk);
    }
    let mut out: Vec<Vec<u8>> = Vec::new();
    let mut j: usize = 2;
    while j < fields.len()
        invariant
            2 <= j <= fields@.len(),
            fields@.len() == fs.len(),
            forall|i: int| 0 <= i < fs.len() ==> #[trigger] fs[i] == fields@[i]@,
            out@.len() == j - 2,
            fs == split_fields(data@, '@'),
            fs[1] == ok_code(),
            forall|i: int| 2 <= i < j ==> is_hex_text(#[trigger] fs[i]),
            forall|i: int| 0 <= i < j - 2 ==> (#[trigger] out@[i])@ == hex_bytes(fs[i + 2]),
        decreases fields.len() - j,
    {
        match decode_hex(fields[j].as_str()) {
            Ok(bytes) => {
                out.push(bytes);
            },
            Err(_) => {
                assert(!is_hex_text(fs[j as int]));
                return Err(TransactionError::CannotDecodeHex);
            },
        }
        j = j + 1;
    }
    assert(fs[1] == ok_code());
    assert forall|i: int| 0 <= i < out@.len() implies #[trigger] out.deep_view()[i] == out@[i]@ by {
        assert(out.deep_view()[i] =~= out@[i]@);
    }
    assert(out.deep_view() =~= Seq::new((fs.len() - 2) as nat, |i: int| hex_bytes(fs[i + 2])));
    Ok(out)
}

/// Finds the first result that carries the VM's return data (a nonzero nonce
/// and data that starts with `@`), checks its status and decodes its return
/// arguments.
pub fn find_smart_contract_result(results: &Option<Vec<SmartContractResult>>) -> (r: Result<
    Vec<Vec<u8>>,
    TransactionError,
>)
    ensures
        raw_view(r) == results_outcome(*results),
{
    match results {
        None => Err(TransactionError::NoSmartContractResult),
        Some(rs) => {
            let mut k: usize = 0;
            while k < rs.len()
                invariant
                    k <= rs@.len(),
                    *results == Some(*rs),
                    forall|j: int| 0 <= j < k ==> !carries_return_data(#[trigger] rs@[j]),
                decreases rs.len() - k,
            {
                let r = &rs[k];
                let data = r.data.as_str();
                if r.nonce != 0 && data.unicode_len() > 0 && data.get_char(0) == '@' {
                    assert(is_first_carrier(rs@, k as int));
                    assert forall|k2: int| is_first_carrier(rs@, k2) implies k2 == k by {
                        if k2 < k {
                            assert(!carries_return_data(rs@[k2]));
                        } else if k2 > k {
                            assert(!carries_return_data(rs@[k as int]));
                        }
                    }
                    return decode_return_data(data);
                    return decode_return_data(data);
                }
                k = k + 1;
            }
            assert forall|k2: int| !is_first_carrier(rs@, k2) by {
                if 0 <= k2 < rs@.len() {
                    assert(!carries_return_data(rs@[k2]));
                }
            }
            Err(TransactionError::NoSmartContractResult)
        },
    }
}

} // verus!

verus! {

/// Executes calls against a live network through the gateway at
/// `gateway_url`, signing with `wallet`. `I` names the interactor that talks
/// to the gateway.
pub struct BaseTransactionNetworkExecutor<I> {
    pub gateway_url: String,
    pub wallet: Wallet,
    pub _phantom_data: PhantomData<I>,
}

impl<I> BaseTransactionNetworkExecutor<I> {
    pub fn new(gateway_url: &str, wallet: &Wallet) -> (r: Self)
        ensures
            r.gateway_url@ == gateway_url@,
            r.wallet@ == wallet@,
    {
        BaseTransactionNetworkExecutor {
            gateway_url: String::from_str(gateway_url),
            wallet: wallet.duplicate(),
            _phantom_data: PhantomData,
        }
    }

    /// A network call yields a VM response, which callers decode.
    pub fn should_skip_deserialization(&self) -> (r: bool)
        ensures
            !r,
    {
        false
    }

    /// Normalizes a call from this executor's wallet to `to`.
    pub fn prepare_call(
        &self,
        to: &Address,
        function: String,
        arguments: Vec<Vec<u8>>,
        egld_value: Vec<u8>,
        esdt_transfers: Vec<TokenTransfer>,
    ) -> (r: Result<NormalizedTransaction, ExecutorError>)
        ensures
            match normalization_outcome(
                (
                    self.wallet.address@,
                    to@,
                    function@,
                    arguments.deep_view(),
                    egld_value@,
                    esdt_transfers@.map_values(|t: TokenTransfer| t@),
                ),
            ) {
                Ok(v) => r is Ok && r.unwrap()@ == v,
                Err(e) => r == Err::<NormalizedTransaction, ExecutorError>(
                    ExecutorError::Normalization(e),
                ),
            },
    {
        let request = NormalizationInOut {
            sender: self.wallet.address.duplicate(),
            receiver: to.duplicate(),
            function_name: function,
            arguments,
            egld_value,
            esdt_transfers,
        };
        match request.normalize() {
            Ok(t) => Ok(t),
            Err(e) => Err(ExecutorError::Normalization(e)),
        }
    }

    /// The raw return values of a finalized call, or why there are none.
    pub fn call_return_values(response: &TransactionOnNetwork) -> (r: Result<
        Vec<Vec<u8>>,
        ExecutorError,
    >)
        ensures
            match results_outcome(response.smart_contract_results) {
                Ok(v) => r is Ok && r.unwrap().deep_view() == v,
                Err(e) => r == Err::<Vec<Vec<u8>>, ExecutorError>(ExecutorError::Transaction(e)),
            },
    {
        match find_smart_contract_result(&response.smart_contract_results) {
            Ok(v) => Ok(v),
            Err(e) => Err(ExecutorError::Transaction(e)),
        }
    }

    /// Deployment through the network is not available: it always fails and
    /// leaves the step as it was.
    pub fn sc_deploy(&mut self, sc_deploy_step: &mut ScDeployStep) -> (r: Result<(), ExecutorError>)
        ensures
            r == Err::<(), ExecutorError>(ExecutorError::DeployNotImplemented),
            *final(sc_deploy_step) == *old(sc_deploy_step),
            *final(self) == *old(self),
    {
        Err(ExecutorError::DeployNotImplemented)
    }
}

impl<I> Clone for BaseTransactionNetworkExecutor<I> {
    fn clone(&self) -> (r: Self)
        ensures
            r.gateway_url@ == self.gateway_url@,
            r.wallet@ == self.wallet@,
    {
        BaseTransactionNetworkExecutor {
            gateway_url: self.gateway_url.clone(),
            wallet: self.wallet.duplicate(),
            _phantom_data: PhantomData,
        }
    }
}

} // verus!

verus! {

/// The bytes of the success status ("ok").
pub open spec fn ok_bytes() -> Seq<u8> {
    seq![0x6fu8, 0x6bu8]
}

proof fn lemma_ok_code()
    ensures
        hex_text(ok_bytes()) == ok_code(),
{
    let t = hex_text(ok_bytes());
    assert(t.len() == 4);
    assert(t[0] == '6');
    assert(t[1] == 'f');
    assert(t[2] == '6');
    assert(t[3] == 'b');
    assert(t =~= ok_code());
}

/// Return data written as `@` followed by the success status and each return
/// value in hex decodes back to exactly those return values.
pub proof fn lemma_return_data_round_trip(values: Seq<Seq<u8>>)
    ensures
        return_data_outcome(prefixed_fields(hex_fields(seq![ok_bytes()] + values), '@')) == Ok::<
            Seq<Seq<u8>>,
            TransactionError,
        >(values),
{
    let all = seq![ok_bytes()] + values;
    let h = hex_fields(all);
    lemma_hex_fields_round_trip(all);
    let fields = split_fields(prefixed_fields(h, '@'), '@');
    assert(fields == seq![Seq::<char>::empty()] + h);
    assert(fields.len() == values.len() + 2);
    lemma_ok_code();
    assert(all[0] == ok_bytes());
    assert(fields[1] == h[0]);
    assert(fields[1] == ok_code());
    assert forall|j: int| 2 <= j < fields.len() implies is_hex_text(#[trigger] fields[j]) by {
        assert(fields[j] == h[j - 1]);
    }
    assert(all_hex_from(fields, 2));
    assert forall|i: int| 0 <= i < values.len() implies hex_bytes(fields[i + 2]) == values[i] by {
        assert(fields[i + 2] == h[i + 1]);
        assert(all[i + 1] == values[i]);
    }
    assert(Seq::new((fields.len() - 2) as nat, |i: int| hex_bytes(fields[i + 2])) =~= values);
}

} // verus!
