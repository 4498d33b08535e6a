//! Per-queue I/O engine: descriptor-array placement, the per-tag
//! fetch/commit cycle, and dispatch of each fetched request to a backend.
//!
//! The engine decides what to submit; the caller owns the ring, submits what
//! the engine returns and hands back each completion.
use vstd::prelude::*;
use crate::abi::{
    descriptor_in, DeviceInfo, IoCommand, IoDescriptor, CMD_BUF_OFFSET, IO_BUFFER_ALIGN,
    IO_COMMIT_AND_FETCH_REQ, IO_DESC_SIZE, IO_FETCH_REQ, IO_RES_OK, KERNEL_MAX_QUEUE_DEPTH,
};
use crate::token::{decode_token, encode_token, token_fields, token_value, TokenFields};

verus! {

/// Byte offset of queue `q`'s descriptor array in the data device.
pub open spec fn descriptor_offset(q: int) -> int {
    CMD_BUF_OFFSET + q * (KERNEL_MAX_QUEUE_DEPTH * IO_DESC_SIZE)
}

/// Length in bytes of a descriptor array of `depth` entries.
pub open spec fn descriptor_len(depth: int) -> int {
    depth * IO_DESC_SIZE
}

/// Offset at which queue `queue_index` maps its descriptor array.
pub fn io_descriptor_offset(queue_index: u16) -> (r: u64)
    ensures
        r == descriptor_offset(queue_index as int),
{
    let q: u64 = queue_index as u64;
    assert(q * 98304 <= 0xffff * 98304) by (nonlinear_arith)
        requires
            q <= 0xffff,
    ;
    CMD_BUF_OFFSET + q * (KERNEL_MAX_QUEUE_DEPTH * IO_DESC_SIZE)
}

/// Number of bytes a queue of depth `depth` maps.
pub fn io_descriptor_len(depth: u16) -> (r: usize)
    ensures
        r == descriptor_len(depth as int),
{
    depth as usize * 24
}

/// The arrays of two consecutive queues lie exactly one stride apart, and
/// the arrays of two distinct queues never overlap when neither is deeper
/// than the kernel's maximum depth.
pub proof fn lemma_descriptor_regions_disjoint(q0: u16, q1: u16, depth: u16)
    requires
        q0 != q1,
        depth <= KERNEL_MAX_QUEUE_DEPTH,
    ensures
        descriptor_offset(q0 as int + 1) - descriptor_offset(q0 as int) == KERNEL_MAX_QUEUE_DEPTH
            * IO_DESC_SIZE,
        descriptor_offset(q0 as int) + descriptor_len(depth as int) <= descriptor_offset(
            q1 as int,
        ) || descriptor_offset(q1 as int) + descriptor_len(depth as int) <= descriptor_offset(
            q0 as int,
        ),
{
    if q0 < q1 {
        assert(q0 as int * 98304 + 98304 <= q1 as int * 98304) by (nonlinear_arith)
            requires
                q0 < q1,
        ;
    } else {
        assert(q1 as int * 98304 + 98304 <= q0 as int * 98304) by (nonlinear_arith)
            requires
                q1 < q0,
        ;
    }
}

/// Everything a queue needs to set itself up.
#[derive(Clone, Copy, Debug, PartialEq, Eq, Structural)]
pub struct QueueConfig {
    pub queue_index: u16,
    pub queue_depth: u16,
    /// Where the descriptor array is mapped, and how many bytes.
    pub map_offset: u64,
    pub map_len: usize,
    /// Size and alignment of the queue's data buffer.
    pub buffer_size: usize,
    pub buffer_align: usize,
}

/// The setup of queue `q` of a device described by `info`.
pub open spec fn queue_config(info: DeviceInfo, q: u16) -> QueueConfig {
    QueueConfig {
        queue_index: q,
        queue_depth: info.queue_depth,
        map_offset: descriptor_offset(q as int) as u64,
        map_len: descriptor_len(info.queue_depth as int) as usize,
        buffer_size: info.max_io_buf_bytes as usize,
        buffer_align: IO_BUFFER_ALIGN,
    }
}

impl QueueConfig {
    /// Setup of queue `queue_index` of the device described by `info`.
    pub fn new(info: &DeviceInfo, queue_index: u16) -> (r: QueueConfig)
        ensures
            r == queue_config(*info, queue_index),
    {
        QueueConfig {
            queue_index,
            queue_depth: info.queue_depth,
            map_offset: io_descriptor_offset(queue_index),
            map_len: io_descriptor_len(info.queue_depth),
            buffer_size: info.max_io_buf_bytes as usize,
            buffer_align: IO_BUFFER_ALIGN,
        }
    }
}

/// One setup per hardware queue of the device, in queue order.
pub fn queue_plan(info: &DeviceInfo) -> (r: Vec<QueueConfig>)
    ensures
        r@.len() == info.nr_hw_queues,
        forall|q: int| 0 <= q < r@.len() ==> r@[q] == queue_config(*info, q as u16),
{
    let mut out: Vec<QueueConfig> = Vec::new();
    let mut q: u16 = 0;
    while q < info.nr_hw_queues
        invariant
            q <= info.nr_hw_queues,
            out@.len() == q,
            forall|i: int| 0 <= i < out@.len() ==> out@[i] == queue_config(*info, i as u16),
        decreases info.nr_hw_queues - q,
    {
        out.push(QueueConfig::new(info, q));
        q = q + 1;
    }
    out
}

/// Where one tag stands in its fetch/commit cycle.
#[derive(Clone, Copy, Debug, PartialEq, Eq, Structural)]
pub enum SlotState {
    /// Nothing in flight for the tag.
    Idle,
    /// A fetch is in flight: the tag waits for its next request.
    Fetching,
    /// A commit-and-fetch is in flight: the tag reported its last request
    /// and waits for the next.
    Committing,
}

/// A command for the queue's ring, with the token its completion echoes.
#[derive(Clone, Copy, Debug, PartialEq, Eq, Structural)]
pub struct Submission {
    pub cmd_op: u32,
    pub user_data: u64,
    pub command: IoCommand,
}

/// A backend's failure to serve a request, with its error code.
#[derive(Clone, Copy, Debug, PartialEq, Eq, Structural)]
pub struct TargetError {
    pub code: i32,
}

/// A backend: serves one fetched request, synchronously, against the
/// queue's data buffer.
pub trait Target {
    fn handle_io(&mut self, desc: &IoDescriptor) -> Result<(), TargetError>;
}

/// The backend that does nothing and always succeeds.
pub struct NullTarget;

impl Target for NullTarget {
    fn handle_io(&mut self, _desc: &IoDescriptor) -> (r: Result<(), TargetError>)
        ensures
            r is Ok,
    {
        Ok(())
    }
}

/// Errors of the queue engine.
#[derive(Clone, Copy, Debug, PartialEq, Eq, Structural)]
pub enum QueueError {
    /// A completion named a tag outside the queue.
    BadTag(u16),
    /// The descriptor array is too short to hold the tag's descriptor.
    ShortRegion,
    /// The backend failed.
    Target(TargetError),
}

/// What handling one completion led to.
#[derive(Clone, Copy, Debug, PartialEq, Eq, Structural)]
pub enum Completion {
    /// The request was served; the commit-and-fetch to submit for its tag.
    Committed(Submission),
    /// The kernel reported a failure for the tag, which is not re-armed.
    Failed { tag: u16, result: i32 },
}

/// The result reported for a request of `nr_sectors` sectors: its size in
/// bytes, kept to 32 bits.
pub open spec fn commit_result(nr_sectors: u32) -> i32 {
    (nr_sectors << 9u32) as i32
}

/// A request of fewer than 2^22 sectors reports its exact size in bytes.
pub proof fn lemma_commit_result_exact(nr_sectors: u32)
    requires
        nr_sectors < 0x40_0000,
    ensures
        commit_result(nr_sectors) as int == nr_sectors as int * 512,
{
    assert(nr_sectors < 0x40_0000 ==> (nr_sectors << 9u32) == nr_sectors * 512 && (nr_sectors
        << 9u32) < 0x8000_0000) by (bit_vector);
}

/// The submission of `command` under opcode `op`, with a driver token.
pub open spec fn driver_submission(op: u32, command: IoCommand) -> Submission {
    Submission {
        cmd_op: op,
        user_data: token_value(
            TokenFields { tag: command.tag, op: op as u8, target_data: 0, is_target_io: false },
        ) as u64,
        command,
    }
}

/// The fetch that arms `tag` of queue `q`.
pub open spec fn fetch_submission(q: u16, tag: u16, addr: u64) -> Submission {
    driver_submission(IO_FETCH_REQ, IoCommand { q_id: q, tag, result: 0, addr })
}

/// The commit-and-fetch that reports `desc` for `tag` of queue `q` and re-arms it.
pub open spec fn commit_submission(q: u16, tag: u16, addr: u64, desc: IoDescriptor) -> Submission {
    driver_submission(
        IO_COMMIT_AND_FETCH_REQ,
        IoCommand { q_id: q, tag, result: commit_result(desc.nr_sectors), addr },
    )
}

/// Every tag has exactly one command in flight.
pub open spec fn all_armed(slots: Seq<SlotState>) -> bool {
    forall|t: int| 0 <= t < slots.len() ==> slots[t] != SlotState::Idle
}

/// Each tag alternates between a fetch and a commit-and-fetch in flight:
/// once every tag is armed, re-arming a tag after its request was served
/// leaves that tag awaiting its commit and every tag still armed, so no tag
/// ever has zero or two commands in flight.
pub proof fn lemma_rearm_keeps_all_armed(slots: Seq<SlotState>, tag: int)
    requires
        all_armed(slots),
        0 <= tag < slots.len(),
    ensures
        slots.update(tag, SlotState::Committing)[tag] == SlotState::Committing,
        all_armed(slots.update(tag, SlotState::Committing)),
        forall|t: int|
            0 <= t < slots.len() && t != tag ==> slots.update(tag, SlotState::Committing)[t]
                == slots[t],
{
}

/// The state of one hardware queue. Its fields change only through the
/// engine's own steps.
pub struct UblkQueue {
    queue_index: u16,
    queue_depth: u16,
    /// Address of the queue's data buffer, handed to the kernel with every command.
    buffer_addr: u64,
    /// The cycle state of each tag.
    slots: Vec<SlotState>,
}

impl UblkQueue {
    /// The queue's index within the device.
    pub closed spec fn spec_queue_index(&self) -> u16 {
        self.queue_index
    }

    /// The number of tags of the queue.
    pub closed spec fn spec_queue_depth(&self) -> u16 {
        self.queue_depth
    }

    /// The address of the queue's data buffer.
    pub closed spec fn spec_buffer_addr(&self) -> u64 {
        self.buffer_addr
    }

    /// The cycle state of each tag, by tag.
    pub closed spec fn spec_slots(&self) -> Seq<SlotState> {
        self.slots@
    }

    /// One slot per tag.
    pub open spec fn wf(&self) -> bool {
        self.spec_slots().len() == self.spec_queue_depth()
    }

    /// The queue's index within the device.
    pub fn queue_index(&self) -> (r: u16)
        ensures
            r == self.spec_queue_index(),
    {
        self.queue_index
    }

    /// The number of tags of the queue.
    pub fn queue_depth(&self) -> (r: u16)
        ensures
            r == self.spec_queue_depth(),
    {
        self.queue_depth
    }

    /// The address of the queue's data buffer.
    pub fn buffer_addr(&self) -> (r: u64)
        ensures
            r == self.spec_buffer_addr(),
    {
        self.buffer_addr
    }

    /// The cycle state of `tag`.
    pub fn slot(&self, tag: u16) -> (r: SlotState)
        requires
            self.wf(),
            tag < self.spec_queue_depth(),
        ensures
            r == self.spec_slots()[tag as int],
    {
        self.slots[tag as usize]
    }

    /// A queue with every tag idle.
    pub fn new(queue_index: u16, queue_depth: u16, buffer_addr: u64) -> (r: UblkQueue)
        ensures
            r.wf(),
            r.spec_queue_index() == queue_index,
            r.spec_queue_depth() == queue_depth,
            r.spec_buffer_addr() == buffer_addr,
            forall|t: int| 0 <= t < queue_depth ==> r.spec_slots()[t] == SlotState::Idle,
    {
        let mut slots: Vec<SlotState> = Vec::new();
        let mut t: u16 = 0;
        while t < queue_depth
            invariant
                t <= queue_depth,
                slots@.len() == t,
                forall|i: int| 0 <= i < t ==> slots@[i] == SlotState::Idle,
            decreases queue_depth - t,
        {
            slots.push(SlotState::Idle);
            t = t + 1;
        }
        UblkQueue { queue_index, queue_depth, buffer_addr, slots }
    }

    /// Packs `command` for the ring under opcode `command_op`, with the token
    /// that carries its tag, opcode and backend byte.
    pub fn encode_and_send(
        &self,
        command_op: u32,
        command: IoCommand,
        target_data: u8,
        is_target_io: bool,
    ) -> (r: Submission)
        requires
            command_op < 256,
        ensures
            r.cmd_op == command_op,
            r.command == command,
            r.user_data as int == token_value(
                TokenFields { tag: command.tag, op: command_op as u8, target_data, is_target_io },
            ),
    {
        let user_data = encode_token(
            TokenFields { tag: command.tag, op: command_op as u8, target_data, is_target_io },
        );
        Submission { cmd_op: command_op, user_data, command }
    }

    /// Arms every tag with a fetch: the fetches to submit, in tag order.
    pub fn handle_queue(&mut self) -> (r: Vec<Submission>)
        requires
            old(self).wf(),
        ensures
            final(self).wf(),
            final(self).spec_queue_index() == old(self).spec_queue_index(),
            final(self).spec_queue_depth() == old(self).spec_queue_depth(),
            final(self).spec_buffer_addr() == old(self).spec_buffer_addr(),
            r@.len() == old(self).spec_queue_depth(),
            forall|t: int|
                #![trigger r@[t]]
                0 <= t < r@.len() ==> r@[t] == fetch_submission(
                    old(self).spec_queue_index(),
                    t as u16,
                    old(self).spec_buffer_addr(),
                ),
            forall|t: int|
                0 <= t < final(self).spec_slots().len() ==> final(self).spec_slots()[t]
                    == SlotState::Fetching,
            all_armed(final(self).spec_slots()),
    {
        let mut out: Vec<Submission> = Vec::new();
        let mut t: u16 = 0;
        while t < self.queue_depth
            invariant
                self.slots@.len() == self.queue_depth,
                self.queue_index == old(self).queue_index,
                self.queue_depth == old(self).queue_depth,
                self.buffer_addr == old(self).buffer_addr,
                t <= self.queue_depth,
                out@.len() == t,
                forall|i: int|
                    #![trigger out@[i]]
                    0 <= i < t ==> out@[i] == fetch_submission(
                        self.queue_index,
                        i as u16,
                        self.buffer_addr,
                    ),
                forall|i: int| 0 <= i < t ==> self.slots@[i] == SlotState::Fetching,
            decreases self.queue_depth - t,
        {
            let cmd = IoCommand { q_id: self.queue_index, tag: t, result: 0, addr: self.buffer_addr };
            let sub = self.encode_and_send(IO_FETCH_REQ, cmd, 0, false);
            out.push(sub);
            self.slots.set(t as usize, SlotState::Fetching);
            t = t + 1;
        }
        out
    }

    /// The descriptor of `tag`, read from the queue's descriptor array.
    pub fn get_io_descriptor(&self, region: &[u8], tag: u16) -> (r: Result<IoDescriptor, QueueError>)
        ensures
            tag >= self.spec_queue_depth() ==> r == Err::<IoDescriptor, QueueError>(
                QueueError::BadTag(tag),
            ),
            tag < self.spec_queue_depth() && region@.len() < (tag as int + 1) * IO_DESC_SIZE ==> r
                == Err::<IoDescriptor, QueueError>(QueueError::ShortRegion),
            tag < self.spec_queue_depth() && region@.len() >= (tag as int + 1) * IO_DESC_SIZE
                ==> r == Ok::<IoDescriptor, QueueError>(descriptor_in(region@, tag as int)),
    {
        if tag >= self.queue_depth {
            return Err(QueueError::BadTag(tag));
        }
        if region.len() / 24 <= tag as usize {
            return Err(QueueError::ShortRegion);
        }
        Ok(IoDescriptor::read(region, tag))
    }

    /// Completes a served request of `tag`, given the backend's outcome for
    /// it: on success the commit-and-fetch that reports the request's size
    /// and re-arms the tag; on failure the backend's error, with nothing to
    /// submit and the tag left as it was.
    pub fn finish_io(
        &mut self,
        tag: u16,
        desc: IoDescriptor,
        outcome: Result<(), TargetError>,
    ) -> (r: Result<Completion, QueueError>)
        requires
            old(self).wf(),
            tag < old(self).spec_queue_depth(),
        ensures
            final(self).wf(),
            final(self).spec_queue_index() == old(self).spec_queue_index(),
            final(self).spec_queue_depth() == old(self).spec_queue_depth(),
            final(self).spec_buffer_addr() == old(self).spec_buffer_addr(),
            outcome is Ok ==> r == Ok::<Completion, QueueError>(
                Completion::Committed(
                    commit_submission(
                        old(self).spec_queue_index(),
                        tag,
                        old(self).spec_buffer_addr(),
                        desc,
                    ),
                ),
            ) && final(self).spec_slots() == old(self).spec_slots().update(
                tag as int,
                SlotState::Committing,
            ),
            outcome is Err ==> r == Err::<Completion, QueueError>(
                QueueError::Target(outcome->Err_0),
            ) && final(self).spec_slots() == old(self).spec_slots(),
    {
        match outcome {
            Err(e) => Err(QueueError::Target(e)),
            Ok(()) => {
                let sectors: u32 = desc.nr_sectors;
                let io_cmd = IoCommand {
                    q_id: self.queue_index,
                    tag,
                    result: (sectors << 9u32) as i32,
                    addr: self.buffer_addr,
                };
                let sub = self.encode_and_send(IO_COMMIT_AND_FETCH_REQ, io_cmd, 0, false);
                self.slots.set(tag as usize, SlotState::Committing);
                Ok(Completion::Committed(sub))
            },
        }
    }

    /// Handles one completion of the queue's ring, given its token and
    /// result and the queue's descriptor array. On success the tag's request
    /// goes to `target` and `finish_io` completes it with the backend's
    /// outcome. A failure result is handed back, leaves the tag idle, and
    /// does not reach the backend.
    pub fn handle_io<T: Target>(
        &mut self,
        target: &mut T,
        user_data: u64,
        result: i32,
        region: &[u8],
    ) -> (r: Result<Completion, QueueError>)
        requires
            old(self).wf(),
        ensures
            final(self).wf(),
            final(self).spec_queue_index() == old(self).spec_queue_index(),
            final(self).spec_queue_depth() == old(self).spec_queue_depth(),
            final(self).spec_buffer_addr() == old(self).spec_buffer_addr(),
            ({
                let tag = token_fields(user_data).tag;
                let depth = old(self).spec_queue_depth();
                let slots = old(self).spec_slots();
                &&& result != IO_RES_OK ==> r == Ok::<Completion, QueueError>(
                    Completion::Failed { tag, result },
                ) && *final(target) == *old(target)
                &&& result != IO_RES_OK && tag < depth ==> final(self).spec_slots()
                    == slots.update(tag as int, SlotState::Idle)
                &&& result != IO_RES_OK && tag >= depth ==> final(self).spec_slots() == slots
                &&& result == IO_RES_OK && tag >= depth ==> r == Err::<Completion, QueueError>(
                    QueueError::BadTag(tag),
                ) && *final(target) == *old(target) && final(self).spec_slots() == slots
                &&& result == IO_RES_OK && tag < depth && region@.len() < (tag as int + 1)
                    * IO_DESC_SIZE ==> r == Err::<Completion, QueueError>(QueueError::ShortRegion)
                    && *final(target) == *old(target) && final(self).spec_slots() == slots
                &&& result == IO_RES_OK && tag < depth && region@.len() >= (tag as int + 1)
                    * IO_DESC_SIZE ==> {
                    ||| r == Ok::<Completion, QueueError>(
                        Completion::Committed(
                            commit_submission(
                                old(self).spec_queue_index(),
                                tag,
                                old(self).spec_buffer_addr(),
                                descriptor_in(region@, tag as int),
                            ),
                        ),
                    ) && final(self).spec_slots() == slots.update(
                        tag as int,
                        SlotState::Committing,
                    )
                    ||| r is Err && r->Err_0 is Target && final(self).spec_slots() == slots
                }
            }),
            result == IO_RES_OK && r is Ok && all_armed(old(self).spec_slots()) ==> all_armed(
                final(self).spec_slots(),
            ),
    {
        let fields = decode_token(user_data);
        let tag = fields.tag;
        if result != IO_RES_OK {
            if tag < self.queue_depth {
                self.slots.set(tag as usize, SlotState::Idle);
            }
            return Ok(Completion::Failed { tag, result });
        }
        let desc = match self.get_io_descriptor(region, tag) {
            Ok(d) => d,
            Err(e) => {
                return Err(e);
            },
        };
        let outcome = target.handle_io(&desc);
        self.finish_io(tag, desc, outcome)
    }
}

} // verus!
