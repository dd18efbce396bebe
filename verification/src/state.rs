//! What the gateway stores, and the values that travel through one operation.

use vstd::prelude::*;
use crate::bytes::{extend, put_u64_le, u32_from_le, u32_le_bytes, u64_from_le, u64_le_bytes};
use crate::constants::{ON_CALL_DISCRIMINATOR, ON_REVERT_DISCRIMINATOR};

verus! {

/// A ledger identity: the 32 bytes of an account address.
pub type Pubkey = [u8; 32];

/// The gateway's state, one per deployment.
#[derive(Clone, Copy, Debug, PartialEq, Eq)]
pub struct Pda {
    /// The nonce that the next signed message must carry.
    pub nonce: u64,
    /// The 20-byte address of the trusted signer.
    pub tss_address: [u8; 20],
    /// The identity that may change this state.
    pub authority: Pubkey,
    /// The chain identifier that signed messages are bound to.
    pub chain_id: u64,
    /// Whether deposits are refused.
    pub deposit_paused: bool,
}

/// Marker of an allowed token: a token is allowed exactly while its entry exists.
#[derive(Clone, Copy, Debug, PartialEq, Eq)]
pub struct WhitelistEntry {}

/// How a failed delivery on the remote chain is to be unwound. The gateway carries it along
/// and reads nothing of it but the length of the revert message.
#[derive(Clone, Debug, PartialEq, Eq)]
pub struct RevertOptions {
    /// Who receives the value back on this ledger.
    pub revert_address: Pubkey,
    /// Who receives the value on the remote chain if the revert is given up.
    pub abort_address: [u8; 20],
    /// Whether the revert is delivered as a call.
    pub call_on_revert: bool,
    /// Bytes handed to that call.
    pub revert_message: Vec<u8>,
    /// Gas that the revert may use.
    pub on_revert_gas_limit: u64,
}

/// The kind of a signed message. Each kind has its own number in the signed bytes, so that a
/// signature over one kind never authenticates another.
#[derive(Clone, Copy, Debug, PartialEq, Eq)]
pub enum InstructionId {
    Withdraw,
    WithdrawSplToken,
    WhitelistSplToken,
    UnwhitelistSplToken,
    ExecuteSol,
    ExecuteSplToken,
    IncrementNonce,
    ExecuteSolRevert,
    ExecuteSplTokenRevert,
}

impl InstructionId {
    /// The number that stands for this kind in the signed bytes.
    pub open spec fn spec_discriminant(self) -> u8 {
        match self {
            InstructionId::Withdraw => 1,
            InstructionId::WithdrawSplToken => 2,
            InstructionId::WhitelistSplToken => 3,
            InstructionId::UnwhitelistSplToken => 4,
            InstructionId::ExecuteSol => 5,
            InstructionId::ExecuteSplToken => 6,
            InstructionId::IncrementNonce => 7,
            InstructionId::ExecuteSolRevert => 8,
            InstructionId::ExecuteSplTokenRevert => 9,
        }
    }

    #[verifier::when_used_as_spec(spec_discriminant)]
    pub fn discriminant(self) -> (d: u8)
        ensures
            d == self.spec_discriminant(),
    {
        match self {
            InstructionId::Withdraw => 1,
            InstructionId::WithdrawSplToken => 2,
            InstructionId::WhitelistSplToken => 3,
            InstructionId::UnwhitelistSplToken => 4,
            InstructionId::ExecuteSol => 5,
            InstructionId::ExecuteSplToken => 6,
            InstructionId::IncrementNonce => 7,
            InstructionId::ExecuteSolRevert => 8,
            InstructionId::ExecuteSplTokenRevert => 9,
        }
    }
}

/// What a connected program is called with.
#[allow(inconsistent_fields)]
#[derive(Clone, Debug, PartialEq, Eq)]
pub enum CallableInstruction {
    /// A call that the remote chain sent: the sender is a 20-byte remote address.
    OnCall { amount: u64, sender: [u8; 20], data: Vec<u8> },
    /// The return of a call that failed remotely: the sender is an identity of this ledger.
    OnRevert { amount: u64, sender: Pubkey, data: Vec<u8> },
}

/// A callable instruction as a mathematical value.
pub enum CallableInstructionView {
    OnCall { amount: u64, sender: Seq<u8>, data: Seq<u8> },
    OnRevert { amount: u64, sender: Seq<u8>, data: Seq<u8> },
}

impl View for CallableInstruction {
    type V = CallableInstructionView;

    open spec fn view(&self) -> CallableInstructionView {
        match self {
            CallableInstruction::OnCall { amount, sender, data } => CallableInstructionView::OnCall {
                amount: *amount,
                sender: sender@,
                data: data@,
            },
            CallableInstruction::OnRevert { amount, sender, data } => {
                CallableInstructionView::OnRevert { amount: *amount, sender: sender@, data: data@ }
            },
        }
    }
}

/// The length prefix of a payload of `len` bytes: its length modulo 2^32, in four bytes, least
/// significant first.
pub open spec fn length_prefix(len: nat) -> Seq<u8> {
    u32_le_bytes((len % 0x1_0000_0000) as u32)
}

/// The wire form of a call: discriminator, amount (8 bytes, little-endian), sender, length
/// prefix of the data, data.
pub open spec fn callable_bytes(discriminator: Seq<u8>, amount: u64, sender: Seq<u8>, data: Seq<u8>) -> Seq<u8> {
    discriminator + u64_le_bytes(amount) + sender + length_prefix(data.len()) + data
}

impl CallableInstructionView {
    /// The bytes that a connected program receives for this instruction.
    pub open spec fn packed(self) -> Seq<u8> {
        match self {
            CallableInstructionView::OnCall { amount, sender, data } => callable_bytes(
                ON_CALL_DISCRIMINATOR@,
                amount,
                sender,
                data,
            ),
            CallableInstructionView::OnRevert { amount, sender, data } => callable_bytes(
                ON_REVERT_DISCRIMINATOR@,
                amount,
                sender,
                data,
            ),
        }
    }
}

impl CallableInstruction {
    /// Serializes the instruction for the connected program.
    pub fn pack(&self) -> (buf: Vec<u8>)
        ensures
            buf@ == self@.packed(),
    {
        let mut buf: Vec<u8> = Vec::new();
        match self {
            CallableInstruction::OnCall { amount, sender, data } => {
                extend(&mut buf, &ON_CALL_DISCRIMINATOR);
                put_u64_le(&mut buf, *amount);
                extend(&mut buf, sender);
                put_length_prefix(&mut buf, data.len());
                extend(&mut buf, data);
            },
            CallableInstruction::OnRevert { amount, sender, data } => {
                extend(&mut buf, &ON_REVERT_DISCRIMINATOR);
                put_u64_le(&mut buf, *amount);
                extend(&mut buf, sender);
                put_length_prefix(&mut buf, data.len());
                extend(&mut buf, data);
            },
        }
        buf
    }
}

/// What a connected program reads back from a payload: the instruction whose wire form the
/// bytes are, or `None` where they are the wire form of none. The discriminator selects the
/// variant and with it the width of the sender, 20 bytes for a call and 32 for a revert; the
/// length prefix must count exactly the bytes that follow it.
pub open spec fn parse_callable(bytes: Seq<u8>) -> Option<CallableInstructionView> {
    if bytes.len() >= 8 && bytes.take(8) == ON_CALL_DISCRIMINATOR@ {
        match parse_fields(bytes, 20) {
            Some((amount, sender, data)) => Some(
                CallableInstructionView::OnCall { amount, sender, data },
            ),
            None => None,
        }
    } else if bytes.len() >= 8 && bytes.take(8) == ON_REVERT_DISCRIMINATOR@ {
        match parse_fields(bytes, 32) {
            Some((amount, sender, data)) => Some(
                CallableInstructionView::OnRevert { amount, sender, data },
            ),
            None => None,
        }
    } else {
        None
    }
}

/// Amount, sender and data of a payload whose sender has `sender_len` bytes.
pub open spec fn parse_fields(bytes: Seq<u8>, sender_len: int) -> Option<(u64, Seq<u8>, Seq<u8>)> {
    let head = 16 + sender_len + 4;
    if bytes.len() >= head && bytes.len() - head == u32_from_le(
        bytes.subrange(16 + sender_len, head),
    ) {
        Some(
            (
                u64_from_le(bytes.subrange(8, 16)) as u64,
                bytes.subrange(16, 16 + sender_len),
                bytes.subrange(head, bytes.len() as int),
            ),
        )
    } else {
        None
    }
}

impl CallableInstruction {
    /// Number of data bytes that the instruction carries.
    pub open spec fn data_len(&self) -> nat {
        match self {
            CallableInstruction::OnCall { data, .. } => data@.len(),
            CallableInstruction::OnRevert { data, .. } => data@.len(),
        }
    }

    /// Reads an instruction back from its wire form, as a connected program does on entry.
    pub fn unpack(bytes: &[u8]) -> (parsed: Option<CallableInstruction>)
        ensures
            match parsed {
                Some(instruction) => parse_callable(bytes@) == Some(instruction@),
                None => parse_callable(bytes@) is None,
            },
    {
        if has_prefix(bytes, &ON_CALL_DISCRIMINATOR) {
            if !fields_fit(bytes, 20) {
                return None;
            }
            let amount = read_u64_le(bytes, 8);
            let mut sender = [0u8; 20];
            let mut i: usize = 0;
            while i < 20
                invariant
                    i <= 20,
                    bytes.len() >= 40,
                    forall|j: int| 0 <= j < i ==> sender@[j] == bytes@[16 + j],
                decreases 20 - i,
            {
                sender[i] = bytes[16 + i];
                i += 1;
            }
            assert(sender@ =~= bytes@.subrange(16, 36));
            let data = tail(bytes, 40);
            Some(CallableInstruction::OnCall { amount, sender, data })
        } else if has_prefix(bytes, &ON_REVERT_DISCRIMINATOR) {
            if !fields_fit(bytes, 32) {
                return None;
            }
            let amount = read_u64_le(bytes, 8);
            let mut sender = [0u8; 32];
            let mut i: usize = 0;
            while i < 32
                invariant
                    i <= 32,
                    bytes.len() >= 52,
                    forall|j: int| 0 <= j < i ==> sender@[j] == bytes@[16 + j],
                decreases 32 - i,
            {
                sender[i] = bytes[16 + i];
                i += 1;
            }
            assert(sender@ =~= bytes@.subrange(16, 48));
            let data = tail(bytes, 52);
            Some(CallableInstruction::OnRevert { amount, sender, data })
        } else {
            None
        }
    }
}

/// Whether `bytes` begins with the eight bytes of `prefix`.
fn has_prefix(bytes: &[u8], prefix: &[u8; 8]) -> (yes: bool)
    ensures
        yes == (bytes@.len() >= 8 && bytes@.take(8) == prefix@),
{
    if bytes.len() < 8 {
        return false;
    }
    let mut i: usize = 0;
    while i < 8
        invariant
            i <= 8,
            bytes.len() >= 8,
            forall|j: int| 0 <= j < i ==> bytes@[j] == prefix@[j],
        decreases 8 - i,
    {
        if bytes[i] != prefix[i] {
            assert(bytes@.take(8)[i as int] != prefix@[i as int]);
            return false;
        }
        i += 1;
    }
    assert(bytes@.take(8) =~= prefix@);
    true
}

/// Whether the length prefix behind a sender of `sender_len` bytes counts the rest of `bytes`.
fn fields_fit(bytes: &[u8], sender_len: usize) -> (yes: bool)
    requires
        sender_len <= 32,
    ensures
        yes == parse_fields(bytes@, sender_len as int).is_some(),
        yes ==> bytes@.len() >= 20 + sender_len,
{
    let head: usize = 20 + sender_len;
    if bytes.len() < head {
        return false;
    }
    let at: usize = 16 + sender_len;
    let b0: u64 = bytes[at] as u64;
    let b1: u64 = bytes[at + 1] as u64;
    let b2: u64 = bytes[at + 2] as u64;
    let b3: u64 = bytes[at + 3] as u64;
    let counted: u64 = b0 + 256 * (b1 + 256 * (b2 + 256 * b3));
    assert(bytes@.subrange(at as int, head as int) =~= seq![bytes@[at as int], bytes@[at + 1], bytes@[at + 2], bytes@[at + 3]]);
    (bytes.len() - head) as u64 == counted
}

/// The number that the eight bytes of `bytes` from `at` on spell, least significant first.
fn read_u64_le(bytes: &[u8], at: usize) -> (value: u64)
    requires
        at + 8 <= bytes@.len(),
    ensures
        value == u64_from_le(bytes@.subrange(at as int, at + 8)),
{
    let b0: u64 = bytes[at] as u64;
    let b1: u64 = bytes[at + 1] as u64;
    let b2: u64 = bytes[at + 2] as u64;
    let b3: u64 = bytes[at + 3] as u64;
    let b4: u64 = bytes[at + 4] as u64;
    let b5: u64 = bytes[at + 5] as u64;
    let b6: u64 = bytes[at + 6] as u64;
    let b7: u64 = bytes[at + 7] as u64;
    let v6: u64 = b6 + 256 * b7;
    let v5: u64 = b5 + 256 * v6;
    let v4: u64 = b4 + 256 * v5;
    let v3: u64 = b3 + 256 * v4;
    let v2: u64 = b2 + 256 * v3;
    let v1: u64 = b1 + 256 * v2;
    b0 + 256 * v1
}

/// A copy of the bytes of `bytes` from `from` on.
fn tail(bytes: &[u8], from: usize) -> (rest: Vec<u8>)
    requires
        from <= bytes@.len(),
    ensures
        rest@ == bytes@.subrange(from as int, bytes@.len() as int),
{
    let mut rest: Vec<u8> = Vec::new();
    let mut i: usize = from;
    while i < bytes.len()
        invariant
            from <= i <= bytes.len(),
            rest@ == bytes@.subrange(from as int, i as int),
        decreases bytes.len() - i,
    {
        rest.push(bytes[i]);
        i += 1;
        assert(rest@ =~= bytes@.subrange(from as int, i as int));
    }
    rest
}

/// Appends the length prefix of a payload of `len` bytes.
fn put_length_prefix(buf: &mut Vec<u8>, len: usize)
    ensures
        final(buf)@ == old(buf)@ + length_prefix(len as nat),
{
    let low: u64 = (len as u64) % 0x1_0000_0000;
    buf.push((low % 256) as u8);
    buf.push((low / 256 % 256) as u8);
    buf.push((low / 256 / 256 % 256) as u8);
    buf.push((low / 256 / 256 / 256 % 256) as u8);
    assert(buf@ =~= old(buf)@ + length_prefix(len as nat));
}

} // verus!
