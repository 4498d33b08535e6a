//! Ring entries for the device commands, built with the io-uring crate.
use vstd::prelude::*;
use crate::ctrl::ControlRequest;
use crate::queue::Submission;

verus! {

#[verifier::external_type_specification]
#[verifier::external_body]
pub struct ExEntry128(io_uring::squeue::Entry128);

/// Relies on io-uring's `opcode::UringCmd80` builder and `Entry128::user_data`:
/// a 128-byte submission entry carrying the 80-byte device command `cmd`
/// under opcode `cmd_op` for descriptor `fd`, whose completion echoes
/// `user_data`. The entry exposes none of these back.
#[verifier::external_body]
fn uring_cmd80(
    fd: i32,
    cmd_op: u32,
    cmd: &Vec<u8>,
    user_data: u64,
) -> (r: io_uring::squeue::Entry128)
    requires
        cmd@.len() == 80,
{
    let mut bytes = [0u8; 80];
    bytes.copy_from_slice(cmd.as_slice());
    io_uring::opcode::UringCmd80::new(io_uring::types::Fd(fd), cmd_op).cmd(bytes).build().user_data(
        user_data,
    )
}

impl Submission {
    /// The queue-ring entry of this submission, addressed to the data device `fd`.
    pub fn ring_entry(&self, fd: i32) -> io_uring::squeue::Entry128 {
        let bytes = self.command.encode();
        uring_cmd80(fd, self.cmd_op, &bytes, self.user_data)
    }
}

impl ControlRequest {
    /// The control-ring entry of this request, addressed to the control
    /// device `fd`, with the payload held at `payload_addr`.
    pub fn ring_entry(&self, fd: i32, payload_addr: u64) -> io_uring::squeue::Entry128 {
        let bytes = self.encode(payload_addr);
        uring_cmd80(fd, self.cmd_op, &bytes, 0)
    }
}

} // verus!
