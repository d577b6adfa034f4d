use vstd::prelude::*;

use crate::error::ExecutorError;
use crate::normalization::TransferView;
use crate::types::{
    copy_byte_lists, copy_bytes, Address, CallResult, TokenTransfer, TransactionOnNetwork,
};

verus! {

/// An optional account as its bytes.
pub open spec fn address_option_view(a: Option<Address>) -> Option<Seq<u8>> {
    match a {
        Some(x) => Some(x@),
        None => None,
    }
}

fn duplicate_address_option(a: &Option<Address>) -> (r: Option<Address>)
    ensures
        address_option_view(r) == address_option_view(*a),
{
    match a {
        Some(x) => Some(x.duplicate()),
        None => None,
    }
}

/// A contract call as it would be sent: sender (once stamped), destination,
/// function, arguments, gas limit, native value and token transfers.
pub struct ScCallStep {
    pub from: Option<Address>,
    pub to: Option<Address>,
    pub function: String,
    pub arguments: Vec<Vec<u8>>,
    pub gas_limit: u64,
    pub egld_value: Vec<u8>,
    pub esdt_transfers: Vec<TokenTransfer>,
}

pub type CallStepView = (
    Option<Seq<u8>>,
    Option<Seq<u8>>,
    Seq<char>,
    Seq<Seq<u8>>,
    u64,
    Seq<u8>,
    Seq<TransferView>,
);

impl View for ScCallStep {
    type V = CallStepView;

    open spec fn view(&self) -> CallStepView {
        (
            address_option_view(self.from),
            address_option_view(self.to),
            self.function@,
            self.arguments.deep_view(),
            self.gas_limit,
            self.egld_value@,
            self.esdt_transfers@.map_values(|t: TokenTransfer| t@),
        )
    }
}

impl ScCallStep {
    /// A step with nothing set.
    pub fn new() -> (r: ScCallStep)
        ensures
            r@ == (
                None::<Seq<u8>>,
                None::<Seq<u8>>,
                Seq::<char>::empty(),
                Seq::<Seq<u8>>::empty(),
                0u64,
                Seq::<u8>::empty(),
                Seq::<TransferView>::empty(),
            ),
    {
        let r = ScCallStep {
            from: None,
            to: None,
            function: String::new(),
            arguments: Vec::new(),
            gas_limit: 0,
            egld_value: Vec::new(),
            esdt_transfers: Vec::new(),
        };
        assert(r.arguments.deep_view() =~= Seq::<Seq<u8>>::empty());
        assert(r.esdt_transfers@.map_values(|t: TokenTransfer| t@) =~= Seq::<TransferView>::empty());
        r
    }
}

/// A contract deployment as it would be sent: sender (once stamped), code,
/// constructor arguments, gas limit and native value.
pub struct ScDeployStep {
    pub from: Option<Address>,
    pub code: Vec<u8>,
    pub arguments: Vec<Vec<u8>>,
    pub gas_limit: u64,
    pub egld_value: Vec<u8>,
}

pub type DeployStepView = (Option<Seq<u8>>, Seq<u8>, Seq<Seq<u8>>, u64, Seq<u8>);

impl View for ScDeployStep {
    type V = DeployStepView;

    open spec fn view(&self) -> DeployStepView {
        (
            address_option_view(self.from),
            self.code@,
            self.arguments.deep_view(),
            self.gas_limit,
            self.egld_value@,
        )
    }
}

impl ScDeployStep {
    /// A step with nothing set.
    pub fn new() -> (r: ScDeployStep)
        ensures
            r@ == (
                None::<Seq<u8>>,
                Seq::<u8>::empty(),
                Seq::<Seq<u8>>::empty(),
                0u64,
                Seq::<u8>::empty(),
            ),
    {
        let r = ScDeployStep {
            from: None,
            code: Vec::new(),
            arguments: Vec::new(),
            gas_limit: 0,
            egld_value: Vec::new(),
        };
        assert(r.arguments.deep_view() =~= Seq::<Seq<u8>>::empty());
        r
    }

    pub fn duplicate(&self) -> (r: ScDeployStep)
        ensures
            r@ == self@,
    {
        ScDeployStep {
            from: duplicate_address_option(&self.from),
            code: copy_bytes(&self.code),
            arguments: copy_byte_lists(&self.arguments),
            gas_limit: self.gas_limit,
            egld_value: copy_bytes(&self.egld_value),
        }
    }
}

/// A backend-neutral snapshot of a captured transaction. A deployment has no
/// receiver and no function; its code is in `code`.
pub struct SendableTransaction {
    pub sender: Option<Address>,
    pub receiver: Option<Address>,
    pub function: String,
    pub code: Vec<u8>,
    pub arguments: Vec<Vec<u8>>,
    pub gas_limit: u64,
    pub egld_value: Vec<u8>,
    pub esdt_transfers: Vec<TokenTransfer>,
}

pub type SendableView = (
    Option<Seq<u8>>,
    Option<Seq<u8>>,
    Seq<char>,
    Seq<u8>,
    Seq<Seq<u8>>,
    u64,
    Seq<u8>,
    Seq<TransferView>,
);

impl View for SendableTransaction {
    type V = SendableView;

    open spec fn view(&self) -> SendableView {
        (
            address_option_view(self.sender),
            address_option_view(self.receiver),
            self.function@,
            self.code@,
            self.arguments.deep_view(),
            self.gas_limit,
            self.egld_value@,
            self.esdt_transfers@.map_values(|t: TokenTransfer| t@),
        )
    }
}

/// The step that a call captures: the request as given, sent by `caller`.
pub open spec fn captured_call(
    caller: Option<Seq<u8>>,
    to: Seq<u8>,
    function: Seq<char>,
    arguments: Seq<Seq<u8>>,
    gas_limit: u64,
    egld_value: Seq<u8>,
    transfers: Seq<TransferView>,
) -> CallStepView {
    (caller, Some(to), function, arguments, gas_limit, egld_value, transfers)
}

/// The step that a deployment captures: the given step, sent by `caller` if
/// there is one.
pub open spec fn captured_deploy(caller: Option<Seq<u8>>, step: DeployStepView) -> DeployStepView {
    match caller {
        Some(c) => (Some(c), step.1, step.2, step.3, step.4),
        None => step,
    }
}

/// Captures transactions instead of sending them, so that tests can inspect
/// what would have been sent.
pub struct DummyExecutor<Tx> {
    pub tx: Tx,
    pub caller: Option<Address>,
}

/// A dummy executor that captures contract calls.
pub type DummyTransactionExecutor = DummyExecutor<ScCallStep>;

/// A dummy executor that captures deployments.
pub type DummyDeployExecutor = DummyExecutor<ScDeployStep>;

impl DummyExecutor<ScCallStep> {
    /// An executor with an empty captured step.
    pub fn new(caller: &Option<Address>) -> (r: Self)
        ensures
            address_option_view(r.caller) == address_option_view(*caller),
            r.tx@ == ScCallStep::new_view(),
    {
        DummyExecutor { tx: ScCallStep::new(), caller: duplicate_address_option(caller) }
    }

    /// The captured call as a backend-neutral snapshot.
    pub fn get_transaction_details(&self) -> (r: SendableTransaction)
        ensures
            r@ == (
                self.tx@.0,
                self.tx@.1,
                self.tx@.2,
                Seq::<u8>::empty(),
                self.tx@.3,
                self.tx@.4,
                self.tx@.5,
                self.tx@.6,
            ),
    {
        let mut transfers: Vec<TokenTransfer> = Vec::new();
        let mut i: usize = 0;
        while i < self.tx.esdt_transfers.len()
            invariant
                i <= self.tx.esdt_transfers@.len(),
                transfers@.len() == i,
                forall|k: int| 0 <= k < i ==> (#[trigger] transfers@[k])@ == self.tx.esdt_transfers@[k]@,
            decreases self.tx.esdt_transfers.len() - i,
        {
            let t = &self.tx.esdt_transfers[i];
            transfers.push(
                TokenTransfer {
                    identifier: t.identifier.clone(),
                    nonce: t.nonce,
                    amount: copy_bytes(&t.amount),
                },
            );
            i = i + 1;
        }
        let r = SendableTransaction {
            sender: duplicate_address_option(&self.tx.from),
            receiver: duplicate_address_option(&self.tx.to),
            function: self.tx.function.clone(),
            code: Vec::new(),
            arguments: copy_byte_lists(&self.tx.arguments),
            gas_limit: self.tx.gas_limit,
            egld_value: copy_bytes(&self.tx.egld_value),
            esdt_transfers: transfers,
        };
        assert(r.esdt_transfers@.map_values(|t: TokenTransfer| t@) =~= self.tx@.6);
        assert(r.code@ =~= Seq::<u8>::empty());
        r
    }

    /// Captures the call, sent by the configured caller, in place of the
    /// previously captured step. Nothing is sent and nothing is decoded.
    pub fn sc_call<T>(
        &mut self,
        to: &Address,
        function: String,
        arguments: Vec<Vec<u8>>,
        gas_limit: u64,
        egld_value: Vec<u8>,
        esdt_transfers: Vec<TokenTransfer>,
    ) -> (r: Result<CallResult<T>, ExecutorError>)
        ensures
            r is Ok,
            r.unwrap().result.is_none(),
            r.unwrap().response.smart_contract_results.is_none(),
            final(self).tx@ == captured_call(
                address_option_view(old(self).caller),
                to@,
                function@,
                arguments.deep_view(),
                gas_limit,
                egld_value@,
                esdt_transfers@.map_values(|t: TokenTransfer| t@),
            ),
            address_option_view(final(self).caller) == address_option_view(old(self).caller),
    {
        let step = ScCallStep {
            from: duplicate_address_option(&self.caller),
            to: Some(to.duplicate()),
            function,
            arguments,
            gas_limit,
            egld_value,
            esdt_transfers,
        };
        self.tx = step;
        Ok(CallResult { response: TransactionOnNetwork::empty(), result: None })
    }

    /// There is no VM response to decode.
    pub fn should_skip_deserialization(&self) -> (r: bool)
        ensures
            r,
    {
        true
    }
}

impl ScCallStep {
    pub open spec fn new_view() -> CallStepView {
        (
            None,
            None,
            Seq::<char>::empty(),
            Seq::<Seq<u8>>::empty(),
            0u64,
            Seq::<u8>::empty(),
            Seq::<TransferView>::empty(),
        )
    }
}

impl ScDeployStep {
    pub open spec fn new_view() -> DeployStepView {
        (None, Seq::<u8>::empty(), Seq::<Seq<u8>>::empty(), 0u64, Seq::<u8>::empty())
    }
}

impl DummyExecutor<ScDeployStep> {
    /// An executor with an empty captured step.
    pub fn new(caller: &Option<Address>) -> (r: Self)
        ensures
            address_option_view(r.caller) == address_option_view(*caller),
            r.tx@ == ScDeployStep::new_view(),
    {
        DummyExecutor { tx: ScDeployStep::new(), caller: duplicate_address_option(caller) }
    }

    /// The captured deployment as a backend-neutral snapshot.
    pub fn get_transaction_details(&self) -> (r: SendableTransaction)
        ensures
            r@ == (
                self.tx@.0,
                None::<Seq<u8>>,
                Seq::<char>::empty(),
                self.tx@.1,
                self.tx@.2,
                self.tx@.3,
                self.tx@.4,
                Seq::<TransferView>::empty(),
            ),
    {
        let r = SendableTransaction {
            sender: duplicate_address_option(&self.tx.from),
            receiver: None,
            function: String::new(),
            code: copy_bytes(&self.tx.code),
            arguments: copy_byte_lists(&self.tx.arguments),
            gas_limit: self.tx.gas_limit,
            egld_value: copy_bytes(&self.tx.egld_value),
            esdt_transfers: Vec::new(),
        };
        assert(r.esdt_transfers@.map_values(|t: TokenTransfer| t@) =~= Seq::<TransferView>::empty());
        r
    }

    /// Stamps the deployment with the configured caller, if any, and captures
    /// it in place of the previously captured step. The caller's step carries
    /// the stamp too.
    pub fn sc_deploy(&mut self, sc_deploy_step: &mut ScDeployStep) -> (r: Result<(), ExecutorError>)
        ensures
            r is Ok,
            final(sc_deploy_step)@ == captured_deploy(
                address_option_view(old(self).caller),
                old(sc_deploy_step)@,
            ),
            final(self).tx@ == final(sc_deploy_step)@,
            address_option_view(final(self).caller) == address_option_view(old(self).caller),
    {
        match &self.caller {
            Some(c) => {
                sc_deploy_step.from = Some(c.duplicate());
            },
            None => {},
        }
        self.tx = sc_deploy_step.duplicate();
        Ok(())
    }

    /// There is no VM response to decode.
    pub fn should_skip_deserialization(&self) -> (r: bool)
        ensures
            r,
    {
        true
    }
}

} // verus!

verus! {

/// A dummy call captures a step that is sent by the configured caller (by
/// nobody when none is configured) and that depends on the request alone, not
/// on what was captured before. A dummy deployment is stamped with the
/// configured caller and otherwise keeps the step's own sender.
pub proof fn lemma_dummy_capture(
    caller: Option<Seq<u8>>,
    to: Seq<u8>,
    function: Seq<char>,
    arguments: Seq<Seq<u8>>,
    gas_limit: u64,
    egld_value: Seq<u8>,
    transfers: Seq<TransferView>,
    first: CallStepView,
    second: CallStepView,
    step: DeployStepView,
)
    requires
        first == captured_call(caller, to, function, arguments, gas_limit, egld_value, transfers),
        second == captured_call(caller, to, function, arguments, gas_limit, egld_value, transfers),
    ensures
        first == second,
        first.0 == caller,
        first.1 == Some(to),
        captured_deploy(caller, step).0 == (match caller {
            Some(c) => Some(c),
            None => step.0,
        }),
        captured_deploy(caller, step).1 == step.1,
        captured_deploy(caller, step).2 == step.2,
{
}

} // verus!
