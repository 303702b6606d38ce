//! What a signature-verification record must look like.
//!
//! The platform verifies an Ed25519 signature in a step of its own, which
//! stands in the same transaction as the operation that relies on it. The
//! data of that step names the key, the signature and the message that were
//! verified. An operation trusts a statement only if that data is, byte for
//! byte, the record of its own key, signature and message.

use vstd::prelude::*;
use crate::errors::error::ErrorCode;
use crate::pubkey::Pubkey;

verus! {

/// An account that an instruction names.
#[derive(Clone, Copy, Debug, PartialEq, Eq)]
pub struct AccountMeta {
    pub pubkey: Pubkey,
    pub is_signer: bool,
    pub is_writable: bool,
}

/// One step of a transaction: the program it runs, the accounts it names
/// and its data.
#[derive(Clone, Debug, PartialEq, Eq)]
pub struct Instruction {
    pub program_id: Pubkey,
    pub accounts: Vec<AccountMeta>,
    pub data: Vec<u8>,
}

/// An instruction as a mathematical value.
pub struct InstructionView {
    pub program_id: Seq<u8>,
    pub accounts: Seq<AccountMeta>,
    pub data: Seq<u8>,
}

impl View for Instruction {
    type V = InstructionView;

    open spec fn view(&self) -> InstructionView {
        InstructionView {
            program_id: self.program_id@,
            accounts: self.accounts@,
            data: self.data@,
        }
    }
}

/// The identity of the platform's Ed25519 verification program.
pub const ED25519_ID: [u8; 32] = [
    3, 125, 70, 214, 124, 147, 251, 190, 18, 249, 66, 143, 131, 141, 64, 255,
    5, 112, 116, 73, 39, 244, 138, 100, 252, 202, 112, 68, 128, 0, 0, 0,
];

/// Where the verified key stands in a record.
pub const PUBLIC_KEY_OFFSET: usize = 16;

/// Where the verified signature stands in a record.
pub const SIGNATURE_OFFSET: usize = 48;

/// Where the verified message stands in a record.
pub const MESSAGE_OFFSET: usize = 112;

/// The longest message that a record can name.
pub const MAX_MESSAGE_LEN: usize = 0xffff;

/// The sixteen bytes that open the record of one signature over a message
/// of `message_len` bytes: one signature, no padding, then the offsets of
/// signature, key and message, each followed by `0xffff` for "in this same
/// instruction", with the message's length after its offset. All numbers
/// but the first two are 16 bits wide, low byte first.
pub open spec fn record_header(message_len: int) -> Seq<u8> {
    seq![
        1u8, 0u8,
        48u8, 0u8, 0xffu8, 0xffu8,
        16u8, 0u8, 0xffu8, 0xffu8,
        112u8, 0u8, (message_len % 256) as u8, (message_len / 256) as u8, 0xffu8, 0xffu8,
    ]
}

/// The data of the record that verifies `sig` over `msg` under `pubkey`.
pub open spec fn record_data(pubkey: Seq<u8>, msg: Seq<u8>, sig: Seq<u8>) -> Seq<u8> {
    record_header(msg.len() as int) + pubkey + sig + msg
}

/// Whether `data` is the record of exactly this key, message and signature.
pub open spec fn is_record_of(data: Seq<u8>, pubkey: Seq<u8>, msg: Seq<u8>, sig: Seq<u8>) -> bool {
    &&& pubkey.len() == 32
    &&& sig.len() == 64
    &&& msg.len() <= MAX_MESSAGE_LEN
    &&& data == record_data(pubkey, msg, sig)
}

/// Whether `ix` is a genuine verification step for exactly this key,
/// message and signature: it runs the Ed25519 program, names no account,
/// and its data is the record of the three.
pub open spec fn attests(ix: InstructionView, pubkey: Seq<u8>, msg: Seq<u8>, sig: Seq<u8>) -> bool {
    &&& ix.program_id == ED25519_ID@
    &&& ix.accounts.len() == 0
    &&& is_record_of(ix.data, pubkey, msg, sig)
}

/// Whether the sixteen bytes at the head of `data` are the header of a
/// record for a message of `message_len` bytes.
fn check_header(data: &[u8], message_len: usize) -> (ok: bool)
    requires
        data@.len() >= 16,
        message_len <= MAX_MESSAGE_LEN,
    ensures
        ok == (data@.subrange(0, 16) == record_header(message_len as int)),
{
    let low: u8 = (message_len % 256) as u8;
    let high: u8 = (message_len / 256) as u8;
    let ok = data[0] == 1 && data[1] == 0 && data[2] == 48 && data[3] == 0 && data[4] == 0xff
        && data[5] == 0xff && data[6] == 16 && data[7] == 0 && data[8] == 0xff && data[9] == 0xff
        && data[10] == 112 && data[11] == 0 && data[12] == low && data[13] == high && data[14]
        == 0xff && data[15] == 0xff;
    proof {
        let head = data@.subrange(0, 16);
        let want = record_header(message_len as int);
        if ok {
            assert(head =~= want);
        } else {
            assert(exists|i: int| 0 <= i < 16 && head[i] != want[i]) by {
                if data[0] != 1 {
                    assert(head[0] != want[0]);
                } else if data[1] != 0 {
                    assert(head[1] != want[1]);
                } else if data[2] != 48 {
                    assert(head[2] != want[2]);
                } else if data[3] != 0 {
                    assert(head[3] != want[3]);
                } else if data[4] != 0xff {
                    assert(head[4] != want[4]);
                } else if data[5] != 0xff {
                    assert(head[5] != want[5]);
                } else if data[6] != 16 {
                    assert(head[6] != want[6]);
                } else if data[7] != 0 {
                    assert(head[7] != want[7]);
                } else if data[8] != 0xff {
                    assert(head[8] != want[8]);
                } else if data[9] != 0xff {
                    assert(head[9] != want[9]);
                } else if data[10] != 112 {
                    assert(head[10] != want[10]);
                } else if data[11] != 0 {
                    assert(head[11] != want[11]);
                } else if data[12] != low {
                    assert(head[12] != want[12]);
                } else if data[13] != high {
                    assert(head[13] != want[13]);
                } else if data[14] != 0xff {
                    assert(head[14] != want[14]);
                } else {
                    assert(head[15] != want[15]);
                }
            }
        }
    }
    ok
}

/// Whether the bytes of `data` from `at` on begin with `part`.
fn holds_at(data: &[u8], at: usize, part: &[u8]) -> (ok: bool)
    requires
        at + part@.len() <= data@.len(),
    ensures
        ok == (data@.subrange(at as int, at + part@.len()) == part@),
{
    let n = part.len();
    let len = data.len();
    let mut i: usize = 0;
    while i < n
        invariant
            i <= n,
            n == part@.len(),
            len == data@.len(),
            at + n <= len,
            forall|j: int| 0 <= j < i ==> data@[at + j] == part@[j],
        decreases n - i,
    {
        if data[at + i] != part[i] {
            proof {
                assert(data@.subrange(at as int, at + n)[i as int] != part@[i as int]);
            }
            return false;
        }
        i += 1;
    }
    proof {
        assert(data@.subrange(at as int, at + n) =~= part@);
    }
    true
}

/// Checks that `data` is the record of exactly this key, message and
/// signature.
pub fn check_ed25519_data(data: &[u8], pubkey: &[u8; 32], msg: &[u8], sig: &[u8; 64]) -> (r: Result<
    (),
    ErrorCode,
>)
    ensures
        r is Ok <==> is_record_of(data@, pubkey@, msg@, sig@),
        r is Err ==> r == Err::<(), ErrorCode>(ErrorCode::SigVerificationFailed),
{
    let n = msg.len();
    if n > MAX_MESSAGE_LEN || data.len() != MESSAGE_OFFSET + n {
        proof {
            assert(record_data(pubkey@, msg@, sig@).len() == 112 + msg@.len());
        }
        return Err(ErrorCode::SigVerificationFailed);
    }
    let ok = check_header(data, n) && holds_at(data, PUBLIC_KEY_OFFSET, pubkey.as_slice())
        && holds_at(data, SIGNATURE_OFFSET, sig.as_slice()) && holds_at(data, MESSAGE_OFFSET, msg);
    proof {
        let want = record_data(pubkey@, msg@, sig@);
        assert(want.len() == data@.len());
        assert(want.subrange(0, 16) =~= record_header(n as int));
        assert(want.subrange(16, 48) =~= pubkey@);
        assert(want.subrange(48, 112) =~= sig@);
        assert(want.subrange(112, 112 + n) =~= msg@);
        if ok {
            assert forall|i: int| 0 <= i < data@.len() implies data@[i] == want[i] by {
                if i < 16 {
                    assert(data@.subrange(0, 16)[i] == want.subrange(0, 16)[i]);
                } else if i < 48 {
                    assert(data@.subrange(16, 48)[i - 16] == want.subrange(16, 48)[i - 16]);
                } else if i < 112 {
                    assert(data@.subrange(48, 112)[i - 48] == want.subrange(48, 112)[i - 48]);
                } else {
                    assert(data@.subrange(112, 112 + n)[i - 112] == want.subrange(112, 112 + n)[i
                        - 112]);
                }
            }
            assert(data@ =~= want);
        }
    }
    if ok {
        Ok(())
    } else {
        Err(ErrorCode::SigVerificationFailed)
    }
}

/// Checks that `ix` is a genuine verification step for exactly this key,
/// message and signature.
pub fn verify_ed25519_ix(ix: &Instruction, pubkey: &[u8; 32], msg: &[u8], sig: &[u8; 64]) -> (r:
    Result<(), ErrorCode>)
    ensures
        r is Ok <==> attests(ix@, pubkey@, msg@, sig@),
        r is Err ==> r == Err::<(), ErrorCode>(ErrorCode::SigVerificationFailed),
{
    let program = Pubkey { bytes: ED25519_ID };
    if ix.program_id != program || ix.accounts.len() != 0 {
        return Err(ErrorCode::SigVerificationFailed);
    }
    check_ed25519_data(ix.data.as_slice(), pubkey, msg, sig)
}

/// A record vouches for one key, one message and one signature: whatever
/// differs from them in a single bit is not what the record verifies.
pub proof fn lemma_record_binds(
    data: Seq<u8>,
    pubkey: Seq<u8>,
    msg: Seq<u8>,
    sig: Seq<u8>,
    other_pubkey: Seq<u8>,
    other_msg: Seq<u8>,
    other_sig: Seq<u8>,
)
    requires
        is_record_of(data, pubkey, msg, sig),
        is_record_of(data, other_pubkey, other_msg, other_sig),
    ensures
        other_pubkey == pubkey,
        other_msg == msg,
        other_sig == sig,
{
    let a = record_data(pubkey, msg, sig);
    let b = record_data(other_pubkey, other_msg, other_sig);
    assert(a.len() == 112 + msg.len());
    assert(b.len() == 112 + other_msg.len());
    assert(a.subrange(16, 48) =~= pubkey);
    assert(b.subrange(16, 48) =~= other_pubkey);
    assert(a.subrange(48, 112) =~= sig);
    assert(b.subrange(48, 112) =~= other_sig);
    assert(a.subrange(112, a.len() as int) =~= msg);
    assert(b.subrange(112, b.len() as int) =~= other_msg);
}

} // verus!
