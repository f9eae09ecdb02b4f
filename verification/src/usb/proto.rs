//! Samsung Portable SSD unlock protocol over bulk transfers.
//!
//! - Vendor id 0x04e8 (Samsung Electronics); product ids per model in
//!   [`super::model::Model`].
//! - Bulk OUT endpoint 0x02, bulk IN endpoint 0x81, interface 0.
//!
//! Unlock sequence:
//!   1. claim interface 0
//!   2. OUT: 31-byte unlock command block
//!   3. OUT: 512-byte password block
//!   4. IN:  512-byte reply
//!   5. OUT: 31-byte relink command block
//!   6. IN:  512-byte reply

use vstd::prelude::*;
use super::model::Model;

verus! {

/// Bulk OUT endpoint (host to device).
pub const EP_OUT: u8 = 0x02;
/// Bulk IN endpoint (device to host).
pub const EP_IN: u8 = 0x81;
/// USB interface of the mass-storage protocol.
pub const INTERFACE: u8 = 0;
/// Length of a command block.
pub const COMMAND_LEN: usize = 31;
/// Length of the password block and of a reply.
pub const BLOCK_LEN: usize = 512;

/// The "USBC" signature that opens every command block.
pub open spec fn command_signature() -> Seq<u8> {
    seq![0x55u8, 0x53u8, 0x42u8, 0x43u8]
}

/// The model-dependent parameter byte of the unlock block (byte 19).
pub open spec fn unlock_param(model: Model) -> u8 {
    match model {
        Model::T1 => 0xd2,
        Model::T3 => 0xd6,
        Model::T5 => 0xde,
    }
}

/// The model-dependent trailer of the unlock block (bytes 24 to 30).
pub open spec fn unlock_trailer(model: Model) -> Seq<u8> {
    match model {
        Model::T1 => seq![0x2eu8, 0x00u8, 0xe1u8, 0x00u8, 0x00u8, 0x00u8, 0x00u8],
        Model::T3 => seq![0xc6u8, 0x00u8, 0x4fu8, 0x00u8, 0xc2u8, 0x00u8, 0xb0u8],
        Model::T5 => seq![0xcau8, 0x00u8, 0x57u8, 0x00u8, 0xcau8, 0x00u8, 0xb1u8],
    }
}

/// `n` zero bytes.
pub open spec fn zeros(n: nat) -> Seq<u8> {
    Seq::new(n, |i: int| 0u8)
}

/// The 31-byte unlock block of a model:
/// signature, request type 0x0a, three zero bytes, 0x00, flags 0x02,
/// four zero bytes, 0x10, 85 0a 26, 0x00, the model's parameter byte,
/// four zero bytes and the model's seven-byte trailer.
pub open spec fn unlock_block(model: Model) -> Seq<u8> {
    command_signature()
        + seq![0x0au8]
        + zeros(4)
        + seq![0x02u8]
        + zeros(4)
        + seq![0x10u8, 0x85u8, 0x0au8, 0x26u8, 0x00u8, unlock_param(model)]
        + zeros(4)
        + unlock_trailer(model)
}

/// The 31-byte relink block: signature, request type 0x0b, ten zero bytes,
/// 06 e8, and fourteen zero bytes.
pub open spec fn relink_block() -> Seq<u8> {
    command_signature() + seq![0x0bu8] + zeros(10) + seq![0x06u8, 0xe8u8] + zeros(14)
}

/// The 512-byte password block: the password's first bytes, as many as fit,
/// padded with zero bytes.
pub open spec fn password_block(password: Seq<u8>) -> Seq<u8> {
    Seq::new(512, |i: int| if i < password.len() { password[i] } else { 0u8 })
}

/// A reply reports failure when its byte 9 is 0x02.
pub open spec fn reply_failed(reply: Seq<u8>) -> bool {
    reply[9] == 0x02
}

/// Builds the 31-byte unlock block of a model.
pub fn build_unlock_frame(model: Model) -> (frame: [u8; 31])
    ensures
        frame@ == unlock_block(model),
{
    let mut frame = [0u8; 31];
    frame[0] = 0x55;
    frame[1] = 0x53;
    frame[2] = 0x42;
    frame[3] = 0x43;
    frame[4] = 0x0a;
    frame[9] = 0x02;
    frame[14] = 0x10;
    frame[15] = 0x85;
    frame[16] = 0x0a;
    frame[17] = 0x26;
    match model {
        Model::T1 => {
            frame[19] = 0xd2;
            frame[24] = 0x2e;
            frame[25] = 0x00;
            frame[26] = 0xe1;
            frame[27] = 0x00;
        },
        Model::T3 => {
            frame[19] = 0xd6;
            frame[24] = 0xc6;
            frame[25] = 0x00;
            frame[26] = 0x4f;
            frame[27] = 0x00;
            frame[28] = 0xc2;
            frame[29] = 0x00;
            frame[30] = 0xb0;
        },
        Model::T5 => {
            frame[19] = 0xde;
            frame[24] = 0xca;
            frame[25] = 0x00;
            frame[26] = 0x57;
            frame[27] = 0x00;
            frame[28] = 0xca;
            frame[29] = 0x00;
            frame[30] = 0xb1;
        },
    }
    assert(frame@ =~= unlock_block(model));
    frame
}

/// Builds the 31-byte relink (reconnect) block.
pub fn build_relink_frame() -> (frame: [u8; 31])
    ensures
        frame@ == relink_block(),
{
    let mut frame = [0u8; 31];
    frame[0] = 0x55;
    frame[1] = 0x53;
    frame[2] = 0x42;
    frame[3] = 0x43;
    frame[4] = 0x0b;
    frame[15] = 0x06;
    frame[16] = 0xe8;
    assert(frame@ =~= relink_block());
    frame
}

/// Builds the 512-byte password block: the password zero-padded, or cut to
/// its first 512 bytes when it is longer.
pub fn build_password_frame(password: &[u8]) -> (frame: [u8; 512])
    ensures
        frame@ == password_block(password@),
        frame@.len() == 512,
        forall|i: int| 0 <= i < password@.len() && i < 512 ==> frame@[i] == password@[i],
        forall|i: int| password@.len() <= i < 512 ==> frame@[i] == 0u8,
{
    let mut frame = [0u8; 512];
    let len: usize = if password.len() < BLOCK_LEN { password.len() } else { BLOCK_LEN };
    let mut i: usize = 0;
    while i < len
        invariant
            len <= password@.len(),
            len <= 512,
            i <= len,
            frame@.len() == 512,
            forall|j: int| 0 <= j < i ==> frame@[j] == password@[j],
            forall|j: int| i <= j < 512 ==> frame@[j] == 0u8,
        decreases len - i,
    {
        frame[i] = password[i];
        i = i + 1;
    }
    assert(frame@ =~= password_block(password@));
    frame
}

/// Tells whether a 512-byte reply reports failure: byte 9 equal to 0x02.
pub fn response_failed(response: &[u8; 512]) -> (failed: bool)
    ensures
        failed == reply_failed(response@),
        failed == (response@[9] == 0x02u8),
{
    response[9] == 0x02
}

/// The unlock blocks of two models differ, and no unlock block is the
/// relink block; every command block opens with the signature.
pub proof fn lemma_blocks_distinct(a: Model, b: Model)
    ensures
        unlock_block(a) == unlock_block(b) ==> a == b,
        unlock_block(a) != relink_block(),
        unlock_block(a).len() == 31,
        relink_block().len() == 31,
        unlock_block(a).take(4) == command_signature(),
        relink_block().take(4) == command_signature(),
{
    if unlock_block(a) == unlock_block(b) {
        assert(unlock_block(a)[19] == unlock_param(a));
        assert(unlock_block(b)[19] == unlock_param(b));
    }
    assert(unlock_block(a)[4] == 0x0a);
    assert(relink_block()[4] == 0x0b);
    assert(unlock_block(a).take(4) =~= command_signature());
    assert(relink_block().take(4) =~= command_signature());
}

/// The password block holds the password byte for byte, as far as 512 bytes
/// reach, and zeros after it: every byte of a password shorter than the block
/// arrives, whatever its length, and a longer one is cut at exactly 512 bytes.
pub proof fn lemma_password_block_holds_password(password: Seq<u8>)
    ensures
        password_block(password).len() == 512,
        forall|i: int|
            0 <= i < password.len() && i < 512 ==> #[trigger] password_block(password)[i]
                == password[i],
        forall|i: int| password.len() <= i < 512 ==> #[trigger] password_block(password)[i] == 0u8,
        password.len() <= 512 ==> password_block(password).take(password.len() as int)
            == password,
        password.len() >= 512 ==> password_block(password) == password.take(512),
{
    if password.len() <= 512 {
        assert(password_block(password).take(password.len() as int) =~= password);
    }
    if password.len() >= 512 {
        assert(password_block(password) =~= password.take(512));
    }
}

/// A reply is judged by its byte 9 alone: it reports failure exactly when
/// that byte is 0x02, and two replies that agree on byte 9 are judged alike,
/// whatever their other bytes.
pub proof fn lemma_reply_judged_by_byte_nine(a: Seq<u8>, b: Seq<u8>)
    requires
        a.len() == 512,
        b.len() == 512,
    ensures
        reply_failed(a) <==> a[9] == 0x02u8,
        a[9] == b[9] ==> reply_failed(a) == reply_failed(b),
{
}

/// The byte layout of the command blocks: "USBC" (55 53 42 43), then for the
/// unlock block request type 0x0a, flags 0x02 at byte 9, 10 85 0a 26 at bytes
/// 14 to 17 and the model's parameter at byte 19 (T1 0xd2, T3 0xd6, T5 0xde);
/// for the relink block request type 0x0b and 06 e8 at bytes 15 and 16. All
/// other bytes of the relink block are zero.
pub proof fn lemma_block_layout(m: Model, i: int)
    requires
        0 <= i < 31,
    ensures
        unlock_block(m)[0] == 0x55u8 && unlock_block(m)[1] == 0x53u8 && unlock_block(m)[2]
            == 0x42u8 && unlock_block(m)[3] == 0x43u8,
        unlock_block(m)[4] == 0x0au8,
        unlock_block(m)[9] == 0x02u8,
        unlock_block(m)[14] == 0x10u8 && unlock_block(m)[15] == 0x85u8 && unlock_block(m)[16]
            == 0x0au8 && unlock_block(m)[17] == 0x26u8,
        m == Model::T1 ==> unlock_block(m)[19] == 0xd2u8 && unlock_block(m)[24] == 0x2eu8
            && unlock_block(m)[26] == 0xe1u8 && unlock_block(m)[28] == 0u8,
        m == Model::T3 ==> unlock_block(m)[19] == 0xd6u8 && unlock_block(m)[24] == 0xc6u8
            && unlock_block(m)[26] == 0x4fu8 && unlock_block(m)[28] == 0xc2u8
            && unlock_block(m)[30] == 0xb0u8,
        m == Model::T5 ==> unlock_block(m)[19] == 0xdeu8 && unlock_block(m)[24] == 0xcau8
            && unlock_block(m)[26] == 0x57u8 && unlock_block(m)[28] == 0xcau8
            && unlock_block(m)[30] == 0xb1u8,
        (5 <= i < 9 || 10 <= i < 14 || i == 18 || 20 <= i < 24 || i == 25 || i == 27 || i
            == 29) ==> unlock_block(m)[i] == 0u8,
        relink_block()[0] == 0x55u8 && relink_block()[1] == 0x53u8 && relink_block()[2]
            == 0x42u8 && relink_block()[3] == 0x43u8,
        relink_block()[4] == 0x0bu8,
        relink_block()[15] == 0x06u8 && relink_block()[16] == 0xe8u8,
        (5 <= i < 15 || 17 <= i < 31) ==> relink_block()[i] == 0u8,
{
}

} // verus!
