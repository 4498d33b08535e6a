//! Constants of the kernel interface and the fixed-size records exchanged
//! over the control and queue rings.
use vstd::prelude::*;
use crate::bytes::{
    get_u32, get_u64, lemma_le_zero, le16, le32, le64, pad_to, push_u16, push_u32, push_u64, push_u8, read32,
    read64, zeros,
};

verus! {

/// Control command: add a device.
pub const CMD_ADD_DEV: u32 = 0x04;

/// Control command: delete a device.
pub const CMD_DEL_DEV: u32 = 0x05;

/// Control command: start a device.
pub const CMD_START_DEV: u32 = 0x06;

/// Control command: set the device parameters.
pub const CMD_SET_PARAMS: u32 = 0x08;

/// Queue command: arm a tag to receive its next request.
pub const IO_FETCH_REQ: u32 = 0x20;

/// Queue command: report a request's outcome and re-arm the tag.
pub const IO_COMMIT_AND_FETCH_REQ: u32 = 0x21;

/// Completion result of a successful fetch.
pub const IO_RES_OK: i32 = 0;

/// Offset of queue 0's descriptor array in the data device.
pub const CMD_BUF_OFFSET: u64 = 0;

/// The kernel's maximum queue depth, which sets the stride between the
/// descriptor arrays of consecutive queues.
pub const KERNEL_MAX_QUEUE_DEPTH: u64 = 4096;

/// Size in bytes of one I/O descriptor.
pub const IO_DESC_SIZE: u64 = 24;

/// Size in bytes of a ring command payload.
pub const COMMAND_BYTES: usize = 80;

/// Queue id carried by control commands, which address no queue.
pub const NO_QUEUE: u16 = 0xffff;

/// Parameter-block type bit of the basic parameters.
pub const PARAM_TYPE_BASIC: u32 = 1;

/// Size in bytes of the encoded parameter block.
pub const PARAMS_BYTES: u32 = 80;

/// Size in bytes of the encoded device info.
pub const DEV_INFO_BYTES: u16 = 64;

/// Maximum number of hardware queues a device may be created with.
pub const MAX_QUEUES: u16 = 4;

/// Maximum depth of each hardware queue.
pub const MAX_QUEUE_DEPTH: u16 = 128;

/// Largest I/O the device accepts, in bytes.
pub const MAX_IO_BYTES: u32 = 65536;

/// Number of entries of the control ring.
pub const CTRL_RING_DEPTH: u32 = 32;

/// Alignment of each queue's data buffer.
pub const IO_BUFFER_ALIGN: usize = 4096;

/// Why a device cannot be created with the requested shape.
#[derive(Clone, Copy, Debug, PartialEq, Eq, Structural)]
pub enum ConfigError {
    /// Queue count outside `1..=MAX_QUEUES`.
    QueueCount,
    /// Queue depth outside `1..=MAX_QUEUE_DEPTH`.
    QueueDepth,
}

/// Device description handed to the kernel when the device is added.
#[derive(Clone, Copy, Debug, PartialEq, Eq, Structural)]
pub struct DeviceInfo {
    pub nr_hw_queues: u16,
    pub queue_depth: u16,
    pub state: u16,
    pub max_io_buf_bytes: u32,
    pub dev_id: u32,
    pub ublksrv_pid: i32,
    pub flags: u64,
    pub ublksrv_flags: u64,
    pub owner_uid: u32,
    pub owner_gid: u32,
}

/// A requested shape is accepted exactly when both counts are within their maxima.
pub open spec fn valid_shape(queues: u16, depth: u16) -> bool {
    1 <= queues <= MAX_QUEUES && 1 <= depth <= MAX_QUEUE_DEPTH
}

impl DeviceInfo {
    /// 64-byte wire form.
    pub open spec fn wire(self) -> Seq<u8> {
        le16(self.nr_hw_queues) + le16(self.queue_depth) + le16(self.state) + zeros(2) + le32(
            self.max_io_buf_bytes,
        ) + le32(self.dev_id) + le32(self.ublksrv_pid as u32) + zeros(4) + le64(self.flags)
            + le64(self.ublksrv_flags) + le32(self.owner_uid) + le32(self.owner_gid) + zeros(16)
    }

    /// Builds the info of a fresh device with the requested shape.
    pub fn new(queues: u16, depth: u16, dev_id: u32) -> (r: Result<DeviceInfo, ConfigError>)
        ensures
            r is Ok <==> valid_shape(queues, depth),
            r == Err::<DeviceInfo, ConfigError>(ConfigError::QueueCount) <==> !(1 <= queues
                <= MAX_QUEUES),
            1 <= queues <= MAX_QUEUES && !(1 <= depth <= MAX_QUEUE_DEPTH) ==> r == Err::<
                DeviceInfo,
                ConfigError,
            >(ConfigError::QueueDepth),
            r is Ok ==> r->Ok_0 == (DeviceInfo {
                nr_hw_queues: queues,
                queue_depth: depth,
                state: 0,
                max_io_buf_bytes: MAX_IO_BYTES,
                dev_id,
                ublksrv_pid: 0,
                flags: 0,
                ublksrv_flags: 0,
                owner_uid: 0,
                owner_gid: 0,
            }),
    {
        if queues < 1 || queues > MAX_QUEUES {
            return Err(ConfigError::QueueCount);
        }
        if depth < 1 || depth > MAX_QUEUE_DEPTH {
            return Err(ConfigError::QueueDepth);
        }
        Ok(DeviceInfo {
            nr_hw_queues: queues,
            queue_depth: depth,
            state: 0,
            max_io_buf_bytes: MAX_IO_BYTES,
            dev_id,
            ublksrv_pid: 0,
            flags: 0,
            ublksrv_flags: 0,
            owner_uid: 0,
            owner_gid: 0,
        })
    }

    /// Encodes the info in its wire form.
    pub fn encode(&self) -> (r: Vec<u8>)
        ensures
            r@ == self.wire(),
            r@.len() == DEV_INFO_BYTES,
    {
        let mut out: Vec<u8> = Vec::new();
        push_u16(&mut out, self.nr_hw_queues);
        push_u16(&mut out, self.queue_depth);
        push_u16(&mut out, self.state);
        push_u16(&mut out, 0);
        push_u32(&mut out, self.max_io_buf_bytes);
        push_u32(&mut out, self.dev_id);
        push_u32(&mut out, #[verifier::truncate] (self.ublksrv_pid as u32));
        push_u32(&mut out, 0);
        push_u64(&mut out, self.flags);
        push_u64(&mut out, self.ublksrv_flags);
        push_u32(&mut out, self.owner_uid);
        push_u32(&mut out, self.owner_gid);
        let len: usize = out.len();
        pad_to(&mut out, len + 16);
        proof {
            lemma_le_zero();
        }
        assert(out@ =~= self.wire());
        out
    }
}

/// A control-ring command record.
#[derive(Clone, Copy, Debug, PartialEq, Eq, Structural)]
pub struct ControlCommand {
    pub dev_id: u32,
    pub queue_id: u16,
    pub len: u16,
    pub addr: u64,
    pub data: u64,
}

impl ControlCommand {
    /// 80-byte wire form: the 32-byte record followed by zero padding.
    pub open spec fn wire(self) -> Seq<u8> {
        le32(self.dev_id) + le16(self.queue_id) + le16(self.len) + le64(self.addr) + le64(
            self.data,
        ) + zeros(8) + zeros(48)
    }

    /// Encodes the command as a ring payload.
    pub fn encode(&self) -> (r: Vec<u8>)
        ensures
            r@ == self.wire(),
            r@.len() == COMMAND_BYTES,
    {
        let mut out: Vec<u8> = Vec::new();
        push_u32(&mut out, self.dev_id);
        push_u16(&mut out, self.queue_id);
        push_u16(&mut out, self.len);
        push_u64(&mut out, self.addr);
        push_u64(&mut out, self.data);
        pad_to(&mut out, COMMAND_BYTES);
        assert(out@ =~= self.wire());
        out
    }
}

/// A queue-ring command record.
#[derive(Clone, Copy, Debug, PartialEq, Eq, Structural)]
pub struct IoCommand {
    pub q_id: u16,
    pub tag: u16,
    pub result: i32,
    pub addr: u64,
}

impl IoCommand {
    /// 80-byte wire form: the 16-byte record followed by zero padding.
    pub open spec fn wire(self) -> Seq<u8> {
        le16(self.q_id) + le16(self.tag) + le32(self.result as u32) + le64(self.addr) + zeros(
            64,
        )
    }

    /// Encodes the command as a ring payload.
    pub fn encode(&self) -> (r: Vec<u8>)
        ensures
            r@ == self.wire(),
            r@.len() == COMMAND_BYTES,
    {
        let mut out: Vec<u8> = Vec::new();
        push_u16(&mut out, self.q_id);
        push_u16(&mut out, self.tag);
        push_u32(&mut out, #[verifier::truncate] (self.result as u32));
        push_u64(&mut out, self.addr);
        pad_to(&mut out, COMMAND_BYTES);
        assert(out@ =~= self.wire());
        out
    }
}

/// The basic device parameters sent before the device is started.
#[derive(Clone, Copy, Debug, PartialEq, Eq, Structural)]
pub struct DeviceParams {
    pub logical_bs_shift: u8,
    pub physical_bs_shift: u8,
    pub io_opt_shift: u8,
    pub io_min_shift: u8,
    pub max_sectors: u32,
    pub dev_sectors: u64,
}

impl DeviceParams {
    /// 80-byte wire form: length and type mask, the basic block, and the
    /// discard and device-number blocks left zero.
    pub open spec fn wire(self) -> Seq<u8> {
        le32(PARAMS_BYTES) + le32(PARAM_TYPE_BASIC) + zeros(4) + seq![
            self.logical_bs_shift,
            self.physical_bs_shift,
            self.io_opt_shift,
            self.io_min_shift,
        ] + le32(self.max_sectors) + zeros(4) + le64(self.dev_sectors) + zeros(8) + zeros(20)
            + zeros(16) + zeros(4)
    }

    /// Parameters of a device whose largest I/O is `info.max_io_buf_bytes`:
    /// 512-byte logical and 4096-byte physical blocks, 512 sectors.
    pub fn basic(info: &DeviceInfo) -> (r: DeviceParams)
        ensures
            r == (DeviceParams {
                logical_bs_shift: 9,
                physical_bs_shift: 12,
                io_opt_shift: 12,
                io_min_shift: 9,
                max_sectors: (info.max_io_buf_bytes / 512) as u32,
                dev_sectors: 512,
            }),
    {
        let max_bytes: u32 = info.max_io_buf_bytes;
        let max_sectors: u32 = max_bytes >> 9u32;
        assert(max_bytes >> 9u32 == max_bytes / 512) by (bit_vector);
        DeviceParams {
            logical_bs_shift: 9,
            physical_bs_shift: 12,
            io_opt_shift: 12,
            io_min_shift: 9,
            max_sectors,
            dev_sectors: 512,
        }
    }

    /// Encodes the parameter block.
    pub fn encode(&self) -> (r: Vec<u8>)
        ensures
            r@ == self.wire(),
            r@.len() == PARAMS_BYTES,
    {
        let mut out: Vec<u8> = Vec::new();
        push_u32(&mut out, PARAMS_BYTES);
        push_u32(&mut out, PARAM_TYPE_BASIC);
        push_u32(&mut out, 0);
        push_u8(&mut out, self.logical_bs_shift);
        push_u8(&mut out, self.physical_bs_shift);
        push_u8(&mut out, self.io_opt_shift);
        push_u8(&mut out, self.io_min_shift);
        push_u32(&mut out, self.max_sectors);
        push_u32(&mut out, 0);
        push_u64(&mut out, self.dev_sectors);
        pad_to(&mut out, 80);
        proof {
            lemma_le_zero();
        }
        assert(out@ =~= self.wire());
        out
    }
}

/// A kernel-written I/O descriptor.
#[derive(Clone, Copy, Debug, PartialEq, Eq, Structural)]
pub struct IoDescriptor {
    pub op_flags: u32,
    pub nr_sectors: u32,
    pub start_sector: u64,
    pub addr: u64,
}

/// The descriptor stored for `tag` in a descriptor array.
pub open spec fn descriptor_in(region: Seq<u8>, tag: int) -> IoDescriptor {
    let at = tag * IO_DESC_SIZE;
    IoDescriptor {
        op_flags: read32(region, at),
        nr_sectors: read32(region, at + 4),
        start_sector: read64(region, at + 8),
        addr: read64(region, at + 16),
    }
}

impl IoDescriptor {
    /// Reads the descriptor of `tag` from a descriptor array.
    pub fn read(region: &[u8], tag: u16) -> (r: IoDescriptor)
        requires
            (tag as int + 1) * IO_DESC_SIZE <= region@.len(),
        ensures
            r == descriptor_in(region@, tag as int),
    {
        let at: usize = tag as usize * 24;
        IoDescriptor {
            op_flags: get_u32(region, at),
            nr_sectors: get_u32(region, at + 4),
            start_sector: get_u64(region, at + 8),
            addr: get_u64(region, at + 16),
        }
    }

    /// The operation code, the low byte of the flags word.
    pub fn op(&self) -> (r: u8)
        ensures
            r == self.op_flags % 256,
    {
        let flags: u32 = self.op_flags;
        let r = (flags & 0xff) as u8;
        assert(flags & 0xff == flags % 256) by (bit_vector);
        r
    }
}

} // verus!
