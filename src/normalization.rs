use vstd::prelude::*;
use vstd::utf8::encode_utf8;

use crate::error::NormalizationError;
use crate::hex_codec::{encode_hex, hex_bytes, hex_text, is_hex_text, lemma_hex_round_trip};
use crate::text::{lemma_split_prefixed, prefixed_fields, push_char, split_fields};
use crate::types::{copy_bytes, Address, TokenTransfer, ADDRESS_LEN};

verus! {

/// Big-endian bytes with the leading zero bytes removed; zero is the empty string.
pub open spec fn minimal_be(b: Seq<u8>) -> Seq<u8>
    decreases b.len(),
{
    if b.len() > 0 && b[0] == 0 {
        minimal_be(b.drop_first())
    } else {
        b
    }
}

/// The shortest big-endian bytes of a natural number; zero is the empty string.
pub open spec fn be_bytes(n: nat) -> Seq<u8>
    decreases n,
{
    if n == 0 {
        Seq::empty()
    } else {
        be_bytes(n / 256).push((n % 256) as u8)
    }
}

/// The lowercase hexadecimal text of each byte string.
pub open spec fn hex_fields(args: Seq<Seq<u8>>) -> Seq<Seq<char>> {
    args.map_values(|a: Seq<u8>| hex_text(a))
}

/// What a token transfer stands for: identifier, nonce and amount.
pub type TransferView = (Seq<char>, u64, Seq<u8>);

/// The arguments that encode a list of transfers: for each, its identifier's
/// bytes, its nonce and its amount.
pub open spec fn transfer_args(ts: Seq<TransferView>) -> Seq<Seq<u8>>
    decreases ts.len(),
{
    if ts.len() == 0 {
        Seq::empty()
    } else {
        let t = ts.last();
        transfer_args(ts.drop_last()) + seq![encode_utf8(t.0), be_bytes(t.1 as nat), minimal_be(t.2)]
    }
}

/// The function that dispatches a call carrying token transfers.
pub open spec fn multi_transfer_function() -> Seq<char> {
    seq![
        'M', 'u', 'l', 't', 'i', 'E', 'S', 'D', 'T', 'N', 'F', 'T',
        'T', 'r', 'a', 'n', 's', 'f', 'e', 'r',
    ]
}

/// The arguments of the transfer-dispatch call: receiver, number of transfers,
/// the transfers, the function and then the call's own arguments.
pub open spec fn multi_transfer_args(
    receiver: Seq<u8>,
    function: Seq<char>,
    args: Seq<Seq<u8>>,
    ts: Seq<TransferView>,
) -> Seq<Seq<u8>> {
    seq![receiver, be_bytes(ts.len())] + transfer_args(ts) + seq![encode_utf8(function)] + args
}

/// The transaction data of a call: `<function>@<hex arg>...` without transfers,
/// and otherwise the transfer-dispatch function with its `@`-separated hex arguments.
pub open spec fn transaction_data(
    receiver: Seq<u8>,
    function: Seq<char>,
    args: Seq<Seq<u8>>,
    ts: Seq<TransferView>,
) -> Seq<char> {
    if ts.len() == 0 {
        function + prefixed_fields(hex_fields(args), '@')
    } else {
        multi_transfer_function() + prefixed_fields(
            hex_fields(multi_transfer_args(receiver, function, args, ts)),
            '@',
        )
    }
}

impl View for TokenTransfer {
    type V = TransferView;

    open spec fn view(&self) -> TransferView {
        (self.identifier@, self.nonce, self.amount@)
    }
}

/// A call request as the caller gives it.
pub struct NormalizationInOut {
    pub sender: Address,
    pub receiver: Address,
    pub function_name: String,
    pub arguments: Vec<Vec<u8>>,
    pub egld_value: Vec<u8>,
    pub esdt_transfers: Vec<TokenTransfer>,
}

/// What a call request stands for: sender, receiver, function, arguments,
/// native value and transfers.
pub type RequestView = (Seq<u8>, Seq<u8>, Seq<char>, Seq<Seq<u8>>, Seq<u8>, Seq<TransferView>);

impl View for NormalizationInOut {
    type V = RequestView;

    open spec fn view(&self) -> RequestView {
        (
            self.sender@,
            self.receiver@,
            self.function_name@,
            self.arguments.deep_view(),
            self.egld_value@,
            self.esdt_transfers@.map_values(|t: TokenTransfer| t@),
        )
    }
}

/// A call in canonical form, ready to be signed and submitted.
pub struct NormalizedTransaction {
    pub sender: Address,
    pub receiver: Address,
    pub transaction_data: String,
    pub egld_value: Vec<u8>,
}

/// What a normalized call stands for: sender, receiver, data and native value.
pub type NormalizedView = (Seq<u8>, Seq<u8>, Seq<char>, Seq<u8>);

impl View for NormalizedTransaction {
    type V = NormalizedView;

    open spec fn view(&self) -> NormalizedView {
        (self.sender@, self.receiver@, self.transaction_data@, self.egld_value@)
    }
}

/// The canonical form of a call request. With transfers the call is sent to
/// the sender's own account, which dispatches the transfers and the call.
pub open spec fn normalization_outcome(req: RequestView) -> Result<NormalizedView, NormalizationError> {
    let (sender, receiver, function, args, value, ts) = req;
    if sender.len() != ADDRESS_LEN || receiver.len() != ADDRESS_LEN {
        Err(NormalizationError::InvalidAddress)
    } else {
        Ok(
            (
                sender,
                if ts.len() == 0 {
                    receiver
                } else {
                    sender
                },
                transaction_data(receiver, function, args, ts),
                value,
            ),
        )
    }
}

/// A normalization outcome as the values it stands for.
pub open spec fn normalized_view(r: Result<NormalizedTransaction, NormalizationError>) -> Result<
    NormalizedView,
    NormalizationError,
> {
    match r {
        Ok(t) => Ok(t@),
        Err(e) => Err(e),
    }
}

pub proof fn lemma_prefixed_hex_push(fs: Seq<Seq<u8>>, x: Seq<u8>)
    ensures
        prefixed_fields(hex_fields(fs.push(x)), '@') == prefixed_fields(hex_fields(fs), '@').push(
            '@',
        ) + hex_text(x),
{
    let h = hex_fields(fs.push(x));
    assert(h.drop_last() =~= hex_fields(fs));
    assert(h.last() == hex_text(x));
}

/// Appends `@` and the lowercase hexadecimal text of each field to `head`.
pub fn join_hex_fields(head: &str, fields: &Vec<Vec<u8>>) -> (r: String)
    ensures
        r@ == head@ + prefixed_fields(hex_fields(fields.deep_view()), '@'),
{
    let mut out = String::from_str(head);
    let mut i: usize = 0;
    while i < fields.len()
        invariant
            i <= fields@.len(),
            out@ == head@ + prefixed_fields(hex_fields(fields.deep_view().take(i as int)), '@'),
        decreases fields.len() - i,
    {
        let ghost before = fields.deep_view().take(i as int);
        push_char(&mut out, '@');
        let h = encode_hex(fields[i].as_slice());
        out.append(h.as_str());
        proof {
            assert(fields.deep_view()[i as int] =~= fields@[i as int]@);
            assert(fields.deep_view().take(i as int + 1) =~= before.push(fields@[i as int]@));
            lemma_prefixed_hex_push(before, fields@[i as int]@);
            assert(out@ =~= head@ + prefixed_fields(
                hex_fields(fields.deep_view().take(i as int + 1)),
                '@',
            ));
        }
        i = i + 1;
    }
    assert(fields.deep_view().take(i as int) =~= fields.deep_view());
    out
}

/// The shortest big-endian bytes of `n`.
pub fn u64_be_bytes(n: u64) -> (r: Vec<u8>)
    ensures
        r@ == be_bytes(n as nat),
{
    let mut le: Vec<u8> = Vec::new();
    let mut v: u64 = n;
    while v > 0
        invariant
            be_bytes(n as nat) == be_bytes(v as nat) + Seq::new(
                le@.len(),
                |t: int| le@[le@.len() - 1 - t],
            ),
        decreases v,
    {
        let d = (v % 256) as u8;
        let ghost old_le = le@;
        le.push(d);
        assert(be_bytes(v as nat) == be_bytes((v / 256) as nat).push(d));
        assert(be_bytes((v / 256) as nat) + Seq::new(le@.len(), |t: int| le@[le@.len() - 1 - t])
            =~= be_bytes(v as nat) + Seq::new(old_le.len(), |t: int| old_le[old_le.len() - 1 - t]));
        v = v / 256;
    }
    assert(be_bytes(0) =~= Seq::<u8>::empty());
    let mut out: Vec<u8> = Vec::new();
    let mut i: usize = 0;
    let len = le.len();
    while i < len
        invariant
            len == le@.len(),
            i <= len,
            out@ =~= Seq::new(i as nat, |t: int| le@[len - 1 - t]),
        decreases len - i,
    {
        out.push(le[len - 1 - i]);
        i = i + 1;
    }
    assert(be_bytes(n as nat) =~= out@);
    out
}

/// The bytes from the first nonzero one on.
pub fn trim_leading_zeros(b: &[u8]) -> (r: Vec<u8>)
    ensures
        r@ == minimal_be(b@),
{
    let mut i: usize = 0;
    assert(b@.subrange(0, b@.len() as int) =~= b@);
    while i < b.len() && b[i] == 0
        invariant
            i <= b@.len(),
            minimal_be(b@) == minimal_be(b@.subrange(i as int, b@.len() as int)),
        decreases b.len() - i,
    {
        assert(b@.subrange(i as int, b@.len() as int).drop_first() =~= b@.subrange(
            i as int + 1,
            b@.len() as int,
        ));
        i = i + 1;
    }
    let rest = vstd::slice::slice_subrange(b, i, b.len());
    vstd::slice::slice_to_vec(rest)
}

} // verus!

verus! {

impl NormalizationInOut {
    /// Puts the call request in canonical form: both accounts must be
    /// well-formed; the data is the function with its hex arguments, or, with
    /// transfers, the transfer-dispatch call that carries them.
    pub fn normalize(&self) -> (r: Result<NormalizedTransaction, NormalizationError>)
        ensures
            normalized_view(r) == normalization_outcome(self@),
    {
        if !self.sender.is_well_formed() || !self.receiver.is_well_formed() {
            return Err(NormalizationError::InvalidAddress);
        }
        let n = self.esdt_transfers.len();
        let ghost ts = self@.5;
        if n == 0 {
            let data = join_hex_fields(self.function_name.as_str(), &self.arguments);
            return Ok(
                NormalizedTransaction {
                    sender: self.sender.duplicate(),
                    receiver: self.receiver.duplicate(),
                    transaction_data: data,
                    egld_value: copy_bytes(&self.egld_value),
                },
            );
        }
        let mut fields: Vec<Vec<u8>> = Vec::new();
        fields.push(copy_bytes(&self.receiver.bytes));
        fields.push(u64_be_bytes(n as u64));
        proof {
            assert(fields.deep_view()[0] =~= self.receiver@);
            assert(fields.deep_view()[1] =~= be_bytes(ts.len()));
            assert(transfer_args(ts.take(0)) =~= Seq::<Seq<u8>>::empty());
            assert(fields.deep_view() =~= seq![self.receiver@, be_bytes(ts.len())] + transfer_args(
                ts.take(0),
            ));
        }
        let mut i: usize = 0;
        while i < n
            invariant
                n == self.esdt_transfers@.len(),
                ts == self@.5,
                i <= n,
                fields.deep_view() == seq![self.receiver@, be_bytes(ts.len())] + transfer_args(
                    ts.take(i as int),
                ),
            decreases n - i,
        {
            let t = &self.esdt_transfers[i];
            let ghost before = fields.deep_view();
            fields.push(vstd::slice::slice_to_vec(t.identifier.as_str().as_bytes()));
            fields.push(u64_be_bytes(t.nonce));
            fields.push(trim_leading_zeros(t.amount.as_slice()));
            proof {
                let tv = ts[i as int];
                assert(tv == t@);
                assert(ts.take(i as int + 1).drop_last() =~= ts.take(i as int));
                assert(ts.take(i as int + 1).last() == tv);
                let k = before.len() as int;
                assert(fields.deep_view()[k] =~= encode_utf8(tv.0));
                assert(fields.deep_view()[k + 1] =~= be_bytes(tv.1 as nat));
                assert(fields.deep_view()[k + 2] =~= minimal_be(tv.2));
                assert(fields.deep_view() =~= before + seq![
                    encode_utf8(tv.0),
                    be_bytes(tv.1 as nat),
                    minimal_be(tv.2),
                ]);
                assert(fields.deep_view() =~= seq![self.receiver@, be_bytes(ts.len())]
                    + transfer_args(ts.take(i as int + 1)));
            }
            i = i + 1;
        }
        assert(ts.take(n as int) =~= ts);
        let ghost with_transfers = fields.deep_view();
        fields.push(vstd::slice::slice_to_vec(self.function_name.as_str().as_bytes()));
        assert(fields.deep_view()[with_transfers.len() as int] =~= encode_utf8(self.function_name@));
        assert(fields.deep_view() =~= with_transfers + seq![encode_utf8(self.function_name@)]);
        let ghost with_function = fields.deep_view();
        let mut j: usize = 0;
        while j < self.arguments.len()
            invariant
                j <= self.arguments@.len(),
                fields.deep_view() == with_function + self.arguments.deep_view().take(j as int),
            decreases self.arguments.len() - j,
        {
            let a = copy_bytes(&self.arguments[j]);
            let ghost before = fields@;
            assert(fields.deep_view().len() == before.len());
            let ghost old_dv = fields.deep_view();
            assert(old_dv == with_function + self.arguments.deep_view().take(j as int));
            fields.push(a);
            assert forall|i: int| 0 <= i < old_dv.len() implies #[trigger] fields.deep_view()[i]
                == old_dv[i] by {
                assert(fields@[i] == before[i]);
            }
            proof {
                assert(self.arguments.deep_view()[j as int] =~= self.arguments@[j as int]@);
                assert(fields.deep_view()[with_function.len() + j] =~= self.arguments@[j as int]@);
                assert(fields.deep_view() =~= with_function + self.arguments.deep_view().take(
                    j as int + 1,
                ));
            }
            j = j + 1;
        }
        assert(self.arguments.deep_view().take(j as int) =~= self.arguments.deep_view());
        assert(fields.deep_view() =~= multi_transfer_args(
            self.receiver@,
            self.function_name@,
            self.arguments.deep_view(),
            ts,
        ));
        let head = String::from_str("MultiESDTNFTTransfer");
        proof {
            reveal_strlit("MultiESDTNFTTransfer");
            assert(head@ =~= multi_transfer_function());
        }
        let data = join_hex_fields(head.as_str(), &fields);
        Ok(
            NormalizedTransaction {
                sender: self.sender.duplicate(),
                receiver: self.sender.duplicate(),
                transaction_data: data,
                egld_value: copy_bytes(&self.egld_value),
            },
        )
    }
}

} // verus!

verus! {

/// Normalization depends on nothing but the request: two normalizations of
/// requests that stand for the same values give the same canonical form.
pub proof fn lemma_normalize_deterministic(
    a: NormalizationInOut,
    b: NormalizationInOut,
    ra: Result<NormalizedTransaction, NormalizationError>,
    rb: Result<NormalizedTransaction, NormalizationError>,
)
    requires
        a@ == b@,
        normalized_view(ra) == normalization_outcome(a@),
        normalized_view(rb) == normalization_outcome(b@),
    ensures
        normalized_view(ra) == normalized_view(rb),
{
}

/// The `@`-separated hex text of byte strings splits into an empty leading
/// field and one field per byte string, and each field reads back as the byte
/// string it came from.
pub proof fn lemma_hex_fields_round_trip(args: Seq<Seq<u8>>)
    ensures
        split_fields(prefixed_fields(hex_fields(args), '@'), '@') == seq![Seq::<char>::empty()]
            + hex_fields(args),
        forall|i: int|
            0 <= i < args.len() ==> is_hex_text(#[trigger] hex_fields(args)[i]) && hex_bytes(
                hex_fields(args)[i],
            ) == args[i],
{
    let h = hex_fields(args);
    assert forall|i: int| 0 <= i < h.len() implies !(#[trigger] h[i]).contains('@') by {
        lemma_hex_round_trip(args[i]);
    }
    assert forall|i: int| 0 <= i < args.len() implies is_hex_text(#[trigger] hex_fields(args)[i])
        && hex_bytes(hex_fields(args)[i]) == args[i] by {
        lemma_hex_round_trip(args[i]);
    }
    assert(!Seq::<char>::empty().contains('@'));
    lemma_split_prefixed(Seq::empty(), h, '@');
    assert(Seq::<char>::empty() + prefixed_fields(h, '@') =~= prefixed_fields(h, '@'));
}

/// Without transfers the data is the function followed by `@` and the hex
/// text of each argument. With transfers it starts with the transfer-dispatch
/// function, and its `@`-separated fields are, in order, the hex text of the
/// receiver, of the number of transfers, of each transfer's identifier, nonce
/// and amount, of the function and of each argument.
pub proof fn lemma_transaction_data_layout(
    receiver: Seq<u8>,
    function: Seq<char>,
    args: Seq<Seq<u8>>,
    ts: Seq<TransferView>,
)
    ensures
        ts.len() == 0 ==> transaction_data(receiver, function, args, ts) == function
            + prefixed_fields(hex_fields(args), '@'),
        ts.len() > 0 ==> transaction_data(receiver, function, args, ts).take(
            multi_transfer_function().len() as int,
        ) == multi_transfer_function(),
        ts.len() > 0 ==> split_fields(transaction_data(receiver, function, args, ts), '@') == seq![
            multi_transfer_function(),
        ] + hex_fields(
            seq![receiver, be_bytes(ts.len())] + transfer_args(ts) + seq![encode_utf8(function)]
                + args,
        ),
{
    if ts.len() > 0 {
        let fields = multi_transfer_args(receiver, function, args, ts);
        let h = hex_fields(fields);
        let data = transaction_data(receiver, function, args, ts);
        assert(data.take(multi_transfer_function().len() as int) =~= multi_transfer_function());
        assert forall|i: int| 0 <= i < h.len() implies !(#[trigger] h[i]).contains('@') by {
            lemma_hex_round_trip(fields[i]);
        }
        let m = multi_transfer_function();
        assert(!m.contains('@')) by {
            if m.contains('@') {
                let k = choose|k: int| 0 <= k < m.len() && m[k] == '@';
                assert(m[k] != '@');
            }
        }
        lemma_split_prefixed(m, h, '@');
    }
}

/// The transfer arguments hold three fields per transfer: identifier, nonce
/// and amount, in the order of the transfers.
pub proof fn lemma_transfer_args_layout(ts: Seq<TransferView>)
    ensures
        transfer_args(ts).len() == 3 * ts.len(),
        forall|k: int|
            0 <= k < ts.len() ==> transfer_args(ts)[3 * k] == encode_utf8((#[trigger] ts[k]).0)
                && transfer_args(ts)[3 * k + 1] == be_bytes(ts[k].1 as nat) && transfer_args(ts)[3
                * k + 2] == minimal_be(ts[k].2),
    decreases ts.len(),
{
    if ts.len() > 0 {
        let pre = ts.drop_last();
        lemma_transfer_args_layout(pre);
        assert forall|k: int| 0 <= k < ts.len() implies transfer_args(ts)[3 * k] == encode_utf8(
            (#[trigger] ts[k]).0,
        ) && transfer_args(ts)[3 * k + 1] == be_bytes(ts[k].1 as nat) && transfer_args(ts)[3 * k
            + 2] == minimal_be(ts[k].2) by {
            if k < pre.len() {
                assert(pre[k] == ts[k]);
            }
        }
    }
}

} // verus!
