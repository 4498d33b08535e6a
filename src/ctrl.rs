//! Control-plane session: the lifecycle commands that add, configure, start
//! and delete a device, each a synchronous request/response exchange on the
//! control ring.
//!
//! The session decides what to send and how to read the answer; the caller
//! submits each request and hands back the completion.
use vstd::prelude::*;
use crate::abi::{
    valid_shape, ConfigError, ControlCommand, DeviceInfo, DeviceParams, CMD_ADD_DEV,
    CMD_DEL_DEV, CMD_SET_PARAMS, CMD_START_DEV, MAX_IO_BYTES, MAX_QUEUES, MAX_QUEUE_DEPTH, NO_QUEUE,
};

verus! {

/// One of the four lifecycle commands.
#[derive(Clone, Copy, Debug, PartialEq, Eq, Structural)]
pub enum CtrlStep {
    AddDevice,
    SetParams,
    Start,
    Delete,
}

/// Where the device stands in its lifecycle.
#[derive(Clone, Copy, Debug, PartialEq, Eq, Structural)]
pub enum CtrlState {
    /// Session open, device not yet added.
    Created,
    /// Device added.
    Added,
    /// Parameters set.
    Configured,
    /// Device started.
    Started,
    /// Device deleted.
    Deleted,
}

/// Errors of the control session.
#[derive(Clone, Copy, Debug, PartialEq, Eq, Structural)]
pub enum CtrlError {
    /// The requested device shape is invalid.
    Config(ConfigError),
    /// The step is not allowed in the current lifecycle state.
    OutOfOrder,
    /// A request is already awaiting its completion.
    Busy,
    /// A completion arrived with no request outstanding.
    NotPending,
    /// Submission reported a number of completions other than one.
    CompletionCount(u32),
    /// The kernel answered with a nonzero result.
    Rejected(i32),
}

/// Whether `step` may be issued in state `s`: add first, then parameters,
/// then start; delete once the device exists and is not yet deleted.
pub open spec fn step_allowed(s: CtrlState, step: CtrlStep) -> bool {
    match step {
        CtrlStep::AddDevice => s == CtrlState::Created,
        CtrlStep::SetParams => s == CtrlState::Added,
        CtrlStep::Start => s == CtrlState::Configured,
        CtrlStep::Delete => s == CtrlState::Added || s == CtrlState::Configured || s
            == CtrlState::Started,
    }
}

/// The state reached once `step` has completed successfully.
pub open spec fn state_after(step: CtrlStep) -> CtrlState {
    match step {
        CtrlStep::AddDevice => CtrlState::Added,
        CtrlStep::SetParams => CtrlState::Configured,
        CtrlStep::Start => CtrlState::Started,
        CtrlStep::Delete => CtrlState::Deleted,
    }
}

/// The lifecycle runs in one order: parameters may be set only in the
/// state that only a completed add reaches, and the device may be started
/// only in the state that only completed parameters reach. So neither
/// set-parameters before add nor start before set-parameters is ever issued.
pub proof fn lemma_lifecycle_order(s: CtrlState, step: CtrlStep)
    ensures
        step_allowed(s, CtrlStep::SetParams) <==> s == CtrlState::Added,
        step_allowed(s, CtrlStep::Start) <==> s == CtrlState::Configured,
        state_after(step) == CtrlState::Added <==> step == CtrlStep::AddDevice,
        state_after(step) == CtrlState::Configured <==> step == CtrlStep::SetParams,
        state_after(step) != CtrlState::Created,
{
}

/// The command id of each step.
pub open spec fn step_op(step: CtrlStep) -> u32 {
    match step {
        CtrlStep::AddDevice => CMD_ADD_DEV,
        CtrlStep::SetParams => CMD_SET_PARAMS,
        CtrlStep::Start => CMD_START_DEV,
        CtrlStep::Delete => CMD_DEL_DEV,
    }
}

/// The payload each step carries for a device described by `info`.
pub open spec fn step_payload(info: DeviceInfo, step: CtrlStep) -> Seq<u8> {
    match step {
        CtrlStep::AddDevice => info.wire(),
        CtrlStep::SetParams => DeviceParams {
            logical_bs_shift: 9,
            physical_bs_shift: 12,
            io_opt_shift: 12,
            io_min_shift: 9,
            max_sectors: (info.max_io_buf_bytes / 512) as u32,
            dev_sectors: 512,
        }.wire(),
        _ => Seq::empty(),
    }
}

/// The command record of each step; a payload's address is filled in when
/// the request is encoded.
pub open spec fn step_command(info: DeviceInfo, step: CtrlStep, pid: u32) -> ControlCommand {
    ControlCommand {
        dev_id: info.dev_id,
        queue_id: NO_QUEUE,
        len: step_payload(info, step).len() as u16,
        addr: 0,
        data: if step == CtrlStep::Start {
            pid as u64
        } else {
            0
        },
    }
}

/// A control request ready to be submitted.
pub struct ControlRequest {
    pub cmd_op: u32,
    pub command: ControlCommand,
    pub payload: Vec<u8>,
}

impl ControlRequest {
    /// The 80-byte ring payload, given the address at which `payload` is
    /// held for the duration of the exchange.
    pub fn encode(&self, payload_addr: u64) -> (r: Vec<u8>)
        ensures
            r@ == (ControlCommand {
                addr: if self.payload@.len() > 0 {
                    payload_addr
                } else {
                    self.command.addr
                },
                ..self.command
            }).wire(),
    {
        let addr = if self.payload.len() > 0 {
            payload_addr
        } else {
            self.command.addr
        };
        let cmd = ControlCommand { addr, ..self.command };
        cmd.encode()
    }
}

/// The lifecycle of one device. Its state moves only through `complete`.
pub struct ControlSession {
    info: DeviceInfo,
    state: CtrlState,
    pending: Option<CtrlStep>,
}

impl ControlSession {
    /// The device's description.
    pub closed spec fn spec_info(&self) -> DeviceInfo {
        self.info
    }

    /// The lifecycle state reached so far.
    pub closed spec fn spec_state(&self) -> CtrlState {
        self.state
    }

    /// The step whose completion is awaited, if any.
    pub closed spec fn spec_pending(&self) -> Option<CtrlStep> {
        self.pending
    }

    /// The device's description.
    pub fn info(&self) -> (r: DeviceInfo)
        ensures
            r == self.spec_info(),
    {
        self.info
    }

    /// The lifecycle state reached so far.
    pub fn state(&self) -> (r: CtrlState)
        ensures
            r == self.spec_state(),
    {
        self.state
    }

    /// The step whose completion is awaited, if any.
    pub fn pending(&self) -> (r: Option<CtrlStep>)
        ensures
            r == self.spec_pending(),
    {
        self.pending
    }

    /// Opens a session for a device of `queues` queues of `depth` entries;
    /// the device id defaults to 0.
    pub fn new(queues: u16, depth: u16, dev_id: Option<u32>) -> (r: Result<
        ControlSession,
        CtrlError,
    >)
        ensures
            r is Ok <==> valid_shape(queues, depth),
            !(1 <= queues <= MAX_QUEUES) ==> r is Err && r->Err_0 == CtrlError::Config(
                ConfigError::QueueCount,
            ),
            1 <= queues <= MAX_QUEUES && !(1 <= depth <= MAX_QUEUE_DEPTH) ==> r is Err
                && r->Err_0 == CtrlError::Config(ConfigError::QueueDepth),
            r is Ok ==> {
                let s = r->Ok_0;
                &&& s.spec_info() == (DeviceInfo {
                    nr_hw_queues: queues,
                    queue_depth: depth,
                    state: 0,
                    max_io_buf_bytes: MAX_IO_BYTES,
                    dev_id: if dev_id is Some {
                        dev_id->Some_0
                    } else {
                        0
                    },
                    ublksrv_pid: 0,
                    flags: 0,
                    ublksrv_flags: 0,
                    owner_uid: 0,
                    owner_gid: 0,
                })
                &&& s.spec_state() == CtrlState::Created
                &&& s.spec_pending() is None
            },
    {
        let id = match dev_id {
            Some(v) => v,
            None => 0,
        };
        match DeviceInfo::new(queues, depth, id) {
            Ok(info) => Ok(ControlSession { info, state: CtrlState::Created, pending: None }),
            Err(e) => Err(CtrlError::Config(e)),
        }
    }

    /// Checks that `step` may be issued now and marks it outstanding.
    fn begin(&mut self, step: CtrlStep) -> (r: Result<(), CtrlError>)
        ensures
            old(self).spec_pending() is Some ==> r == Err::<(), CtrlError>(CtrlError::Busy),
            old(self).spec_pending() is None && !step_allowed(old(self).spec_state(), step) ==> r == Err::<
                (),
                CtrlError,
            >(CtrlError::OutOfOrder),
            old(self).spec_pending() is None && step_allowed(old(self).spec_state(), step) ==> r is Ok,
            r is Ok ==> final(self).spec_pending() == Some(step),
            r is Err ==> final(self).spec_pending() == old(self).spec_pending(),
            final(self).spec_info() == old(self).spec_info(),
            final(self).spec_state() == old(self).spec_state(),
    {
        if self.pending.is_some() {
            return Err(CtrlError::Busy);
        }
        let allowed = match step {
            CtrlStep::AddDevice => self.state == CtrlState::Created,
            CtrlStep::SetParams => self.state == CtrlState::Added,
            CtrlStep::Start => self.state == CtrlState::Configured,
            CtrlStep::Delete => self.state == CtrlState::Added || self.state
                == CtrlState::Configured || self.state == CtrlState::Started,
        };
        if !allowed {
            return Err(CtrlError::OutOfOrder);
        }
        self.pending = Some(step);
        Ok(())
    }

    /// A request that carries no payload.
    fn send_command(&self, cmd_op: u32) -> (r: ControlRequest)
        ensures
            r.cmd_op == cmd_op,
            r.command == (ControlCommand {
                dev_id: self.info.dev_id,
                queue_id: NO_QUEUE,
                len: 0,
                addr: 0,
                data: 0,
            }),
            r.payload@ == Seq::<u8>::empty(),
    {
        ControlRequest {
            cmd_op,
            command: ControlCommand {
                dev_id: self.info.dev_id,
                queue_id: NO_QUEUE,
                len: 0,
                addr: 0,
                data: 0,
            },
            payload: Vec::new(),
        }
    }

    /// A request whose payload is `buffer`.
    fn send_command_with_buffer(&self, cmd_op: u32, buffer: Vec<u8>) -> (r: ControlRequest)
        requires
            buffer@.len() <= u16::MAX,
        ensures
            r.cmd_op == cmd_op,
            r.command == (ControlCommand {
                dev_id: self.info.dev_id,
                queue_id: NO_QUEUE,
                len: buffer@.len() as u16,
                addr: 0,
                data: 0,
            }),
            r.payload@ == buffer@,
    {
        let len = buffer.len() as u16;
        ControlRequest {
            cmd_op,
            command: ControlCommand {
                dev_id: self.info.dev_id,
                queue_id: NO_QUEUE,
                len,
                addr: 0,
                data: 0,
            },
            payload: buffer,
        }
    }

    /// A request that carries `data` in the command's data slot.
    fn send_command_with_data(&self, cmd_op: u32, data: u64) -> (r: ControlRequest)
        ensures
            r.cmd_op == cmd_op,
            r.command == (ControlCommand {
                dev_id: self.info.dev_id,
                queue_id: NO_QUEUE,
                len: 0,
                addr: 0,
                data,
            }),
            r.payload@ == Seq::<u8>::empty(),
    {
        ControlRequest {
            cmd_op,
            command: ControlCommand {
                dev_id: self.info.dev_id,
                queue_id: NO_QUEUE,
                len: 0,
                addr: 0,
                data,
            },
            payload: Vec::new(),
        }
    }

    /// Issues a lifecycle step: the request for it when it is allowed in the
    /// current state and no other request is outstanding.
    pub fn request(&mut self, step: CtrlStep, pid: u32) -> (r: Result<ControlRequest, CtrlError>)
        ensures
            old(self).spec_pending() is Some ==> r is Err && r->Err_0 == CtrlError::Busy,
            old(self).spec_pending() is None && !step_allowed(old(self).spec_state(), step) ==> r is Err
                && r->Err_0 == CtrlError::OutOfOrder,
            r is Ok <==> old(self).spec_pending() is None && step_allowed(old(self).spec_state(), step),
            r is Ok ==> {
                &&& r->Ok_0.cmd_op == step_op(step)
                &&& r->Ok_0.command == step_command(old(self).spec_info(), step, pid)
                &&& r->Ok_0.payload@ == step_payload(old(self).spec_info(), step)
                &&& final(self).spec_pending() == Some(step)
            },
            r is Err ==> final(self).spec_pending() == old(self).spec_pending(),
            final(self).spec_info() == old(self).spec_info(),
            final(self).spec_state() == old(self).spec_state(),
    {
        match self.begin(step) {
            Err(e) => Err(e),
            Ok(()) => match step {
                CtrlStep::AddDevice => {
                    let payload = self.info.encode();
                    Ok(self.send_command_with_buffer(CMD_ADD_DEV, payload))
                },
                CtrlStep::SetParams => {
                    let params = DeviceParams::basic(&self.info);
                    let payload = params.encode();
                    Ok(self.send_command_with_buffer(CMD_SET_PARAMS, payload))
                },
                CtrlStep::Start => Ok(self.send_command_with_data(CMD_START_DEV, pid as u64)),
                CtrlStep::Delete => Ok(self.send_command(CMD_DEL_DEV)),
            },
        }
    }

    /// The add-device request, which carries the device info.
    pub fn add_device(&mut self) -> (r: Result<ControlRequest, CtrlError>)
        ensures
            old(self).spec_pending() is Some ==> r is Err && r->Err_0 == CtrlError::Busy,
            old(self).spec_pending() is None && !step_allowed(old(self).spec_state(), CtrlStep::AddDevice) ==> r is Err
                && r->Err_0 == CtrlError::OutOfOrder,
            r is Ok <==> old(self).spec_pending() is None && old(self).spec_state() == CtrlState::Created,
            r is Ok ==> r->Ok_0.cmd_op == CMD_ADD_DEV && r->Ok_0.payload@ == old(self).spec_info().wire()
                && r->Ok_0.command == step_command(old(self).spec_info(), CtrlStep::AddDevice, 0),
            r is Ok ==> final(self).spec_pending() == Some(CtrlStep::AddDevice),
            r is Err ==> final(self).spec_pending() == old(self).spec_pending(),
            final(self).spec_info() == old(self).spec_info(),
            final(self).spec_state() == old(self).spec_state(),
    {
        self.request(CtrlStep::AddDevice, 0)
    }

    /// The set-parameters request; allowed only right after the device was added.
    pub fn set_params(&mut self) -> (r: Result<ControlRequest, CtrlError>)
        ensures
            old(self).spec_pending() is Some ==> r is Err && r->Err_0 == CtrlError::Busy,
            old(self).spec_pending() is None && !step_allowed(old(self).spec_state(), CtrlStep::SetParams) ==> r is Err
                && r->Err_0 == CtrlError::OutOfOrder,
            r is Ok <==> old(self).spec_pending() is None && old(self).spec_state() == CtrlState::Added,
            r is Ok ==> r->Ok_0.cmd_op == CMD_SET_PARAMS && r->Ok_0.payload@ == step_payload(
                old(self).spec_info(),
                CtrlStep::SetParams,
            ) && r->Ok_0.command == step_command(old(self).spec_info(), CtrlStep::SetParams, 0),
            r is Ok ==> final(self).spec_pending() == Some(CtrlStep::SetParams),
            r is Err ==> final(self).spec_pending() == old(self).spec_pending(),
            final(self).spec_info() == old(self).spec_info(),
            final(self).spec_state() == old(self).spec_state(),
    {
        self.request(CtrlStep::SetParams, 0)
    }

    /// The start request carrying the servicing process id `pid`; allowed
    /// only once the parameters are set.
    pub fn start(&mut self, pid: u32) -> (r: Result<ControlRequest, CtrlError>)
        ensures
            old(self).spec_pending() is Some ==> r is Err && r->Err_0 == CtrlError::Busy,
            old(self).spec_pending() is None && !step_allowed(old(self).spec_state(), CtrlStep::Start) ==> r is Err
                && r->Err_0 == CtrlError::OutOfOrder,
            r is Ok <==> old(self).spec_pending() is None && old(self).spec_state() == CtrlState::Configured,
            r is Ok ==> r->Ok_0.cmd_op == CMD_START_DEV && r->Ok_0.payload@.len() == 0
                && r->Ok_0.command == step_command(old(self).spec_info(), CtrlStep::Start, pid)
                && r->Ok_0.command.data == pid as u64,
            r is Ok ==> final(self).spec_pending() == Some(CtrlStep::Start),
            r is Err ==> final(self).spec_pending() == old(self).spec_pending(),
            final(self).spec_info() == old(self).spec_info(),
            final(self).spec_state() == old(self).spec_state(),
    {
        self.request(CtrlStep::Start, pid)
    }

    /// The delete request; allowed once the device exists.
    pub fn delete_device(&mut self) -> (r: Result<ControlRequest, CtrlError>)
        ensures
            old(self).spec_pending() is Some ==> r is Err && r->Err_0 == CtrlError::Busy,
            old(self).spec_pending() is None && !step_allowed(old(self).spec_state(), CtrlStep::Delete) ==> r is Err
                && r->Err_0 == CtrlError::OutOfOrder,
            r is Ok <==> old(self).spec_pending() is None && step_allowed(
                old(self).spec_state(),
                CtrlStep::Delete,
            ),
            r is Ok ==> r->Ok_0.cmd_op == CMD_DEL_DEV && r->Ok_0.payload@.len() == 0
                && r->Ok_0.command == step_command(old(self).spec_info(), CtrlStep::Delete, 0),
            r is Ok ==> final(self).spec_pending() == Some(CtrlStep::Delete),
            r is Err ==> final(self).spec_pending() == old(self).spec_pending(),
            final(self).spec_info() == old(self).spec_info(),
            final(self).spec_state() == old(self).spec_state(),
    {
        self.request(CtrlStep::Delete, 0)
    }

    /// Takes the outcome of the outstanding request: the number of
    /// completions the submission reported and the completion's result.
    /// Anything but exactly one completion with result zero fails the step,
    /// which leaves the state as it was; success moves to the step's state.
    pub fn complete(&mut self, completions: u32, result: i32) -> (r: Result<(), CtrlError>)
        ensures
            final(self).spec_info() == old(self).spec_info(),
            final(self).spec_pending() is None,
            old(self).spec_pending() is None ==> r == Err::<(), CtrlError>(CtrlError::NotPending),
            old(self).spec_pending() is Some && completions != 1 ==> r == Err::<(), CtrlError>(
                CtrlError::CompletionCount(completions),
            ),
            old(self).spec_pending() is Some && completions == 1 && result != 0 ==> r == Err::<
                (),
                CtrlError,
            >(CtrlError::Rejected(result)),
            r is Ok <==> old(self).spec_pending() is Some && completions == 1 && result == 0,
            r is Ok ==> final(self).spec_state() == state_after(old(self).spec_pending()->Some_0),
            r is Err ==> final(self).spec_state() == old(self).spec_state(),
    {
        let step = match self.pending {
            None => {
                return Err(CtrlError::NotPending);
            },
            Some(s) => s,
        };
        self.pending = None;
        if completions != 1 {
            return Err(CtrlError::CompletionCount(completions));
        }
        if result != 0 {
            return Err(CtrlError::Rejected(result));
        }
        self.state = match step {
            CtrlStep::AddDevice => CtrlState::Added,
            CtrlStep::SetParams => CtrlState::Configured,
            CtrlStep::Start => CtrlState::Started,
            CtrlStep::Delete => CtrlState::Deleted,
        };
        Ok(())
    }
}

} // verus!
