//! The fee-sponsorship interface: the granter-registration message the
//! contract sends at initialization (with its protobuf wire encoding, proved
//! against a byte-level specification), and the grant batch the runtime hands
//! to the contract for validation.

use vstd::prelude::*;
use vstd::utf8::encode_utf8;

verus! {

/// Registers a contract as a fee granter with the runtime's fee module.
#[derive(Clone, Debug, PartialEq, Eq)]
pub struct MsgRegisterAsGranter {
    /// The contract that will sponsor fees.
    pub granting_contract: String,
}

/// The protobuf LEB128 encoding of an unsigned value: seven bits per byte,
/// least significant group first, the high bit set on every byte but the last.
pub open spec fn spec_varint(n: nat) -> Seq<u8>
    decreases n,
{
    if n < 128 {
        seq![n as u8]
    } else {
        seq![(128 + n % 128) as u8] + spec_varint(n / 128)
    }
}

/// The protobuf wire encoding of [`MsgRegisterAsGranter`], a message with a
/// single `string` field at tag 1: nothing for the empty string, else the key
/// byte `0x0a` (tag 1, length-delimited), the byte length as a varint, and
/// the UTF-8 bytes themselves.
pub open spec fn spec_granter_encoding(contract: Seq<u8>) -> Seq<u8> {
    if contract.len() == 0 {
        Seq::empty()
    } else {
        seq![0x0au8] + spec_varint(contract.len() as nat) + contract
    }
}

/// LEB128-encode a value.
pub fn encode_varint(n0: u64) -> (r: Vec<u8>)
    ensures
        r@ == spec_varint(n0 as nat),
{
    let mut n = n0;
    let mut out: Vec<u8> = Vec::new();
    loop
        invariant
            spec_varint(n0 as nat) == out@ + spec_varint(n as nat),
        decreases n,
    {
        if n < 128 {
            out.push(n as u8);
            proof {
                assert(spec_varint(n as nat) == seq![n as u8]);
                assert(out@ =~= spec_varint(n0 as nat));
            }
            return out;
        } else {
            let ghost prev = out@;
            let ghost n_prev = n as nat;
            out.push((n % 128 + 128) as u8);
            n = n / 128;
            proof {
                assert(spec_varint(n_prev) == seq![(128 + n_prev % 128) as u8] + spec_varint(
                    n_prev / 128,
                ));
                assert(out@ + spec_varint(n as nat) =~= prev + spec_varint(n_prev));
            }
        }
    }
}

impl MsgRegisterAsGranter {
    /// The message's protobuf wire bytes, as the fee module decodes them.
    pub fn encode_to_vec(&self) -> (r: Vec<u8>)
        ensures
            r@ == spec_granter_encoding(encode_utf8(self.granting_contract@)),
    {
        let mut bytes: Vec<u8> = self.granting_contract.as_str().as_bytes_vec();
        if bytes.len() == 0 {
            let r: Vec<u8> = Vec::new();
            proof {
                assert(r@ =~= spec_granter_encoding(encode_utf8(self.granting_contract@)));
            }
            return r;
        }
        let ghost payload = bytes@;
        let mut out: Vec<u8> = Vec::new();
        out.push(0x0a);
        let mut len_bytes = encode_varint(bytes.len() as u64);
        out.append(&mut len_bytes);
        out.append(&mut bytes);
        proof {
            assert(out@ =~= seq![0x0au8] + spec_varint(payload.len() as nat) + payload);
        }
        out
    }
}

/// One denomination of a requested fee.
#[derive(Clone, Debug, PartialEq, Eq)]
pub struct Coin {
    pub denom: String,
    pub amount: u128,
}

/// Mathematical image of a [`Coin`].
#[verifier::ext_equal]
pub struct CoinView {
    pub denom: Seq<char>,
    pub amount: int,
}

impl View for Coin {
    type V = CoinView;

    open spec fn view(&self) -> CoinView {
        CoinView { denom: self.denom@, amount: self.amount as int }
    }
}

/// One proposed message of a grant batch.
#[derive(Clone, Debug, PartialEq, Eq)]
pub struct Msg {
    /// The message's signer, populated by the state machine; it can be
    /// trusted.
    pub sender: String,
    /// The type url of the message, e.g. `/cosmos.bank.v1beta1.MsgSend`.
    pub type_url: String,
    /// The message's binary payload, opaque to the validator.
    pub msg: Vec<u8>,
}

/// Mathematical image of a [`Msg`].
#[verifier::ext_equal]
pub struct MsgView {
    pub sender: Seq<char>,
    pub type_url: Seq<char>,
    pub msg: Seq<u8>,
}

impl View for Msg {
    type V = MsgView;

    open spec fn view(&self) -> MsgView {
        MsgView { sender: self.sender@, type_url: self.type_url@, msg: self.msg@ }
    }
}

/// A batch of proposed messages asking this contract to sponsor their fee.
#[derive(Clone, Debug, PartialEq, Eq)]
pub struct CwGrant {
    /// The fee requested for executing the batch.
    pub fee_requested: Vec<Coin>,
    /// The messages the batch intends to execute.
    pub msgs: Vec<Msg>,
}

/// Mathematical image of a [`CwGrant`].
#[verifier::ext_equal]
pub struct CwGrantView {
    pub fee_requested: Seq<CoinView>,
    pub msgs: Seq<MsgView>,
}

impl View for CwGrant {
    type V = CwGrantView;

    open spec fn view(&self) -> CwGrantView {
        CwGrantView {
            fee_requested: self.fee_requested@.map_values(|c: Coin| c@),
            msgs: self.msgs@.map_values(|m: Msg| m@),
        }
    }
}

/// What the runtime's fee module sends to the contract's privileged
/// entry point.
#[derive(Clone, Debug)]
#[non_exhaustive]
pub enum SudoMsg {
    CwGrant(CwGrant),
}

} // verus!
