use ublk::abi::{
    ConfigError, DeviceInfo, CMD_ADD_DEV, CMD_DEL_DEV, CMD_SET_PARAMS, CMD_START_DEV,
    MAX_IO_BYTES, MAX_QUEUES, MAX_QUEUE_DEPTH, NO_QUEUE,
};
use ublk::ctrl::{ControlSession, CtrlError, CtrlState, CtrlStep};

#[test]
fn construction_echoes_every_valid_shape() {
    for q in 1..=MAX_QUEUES {
        for d in 1..=MAX_QUEUE_DEPTH {
            let s = ControlSession::new(q, d, Some(3)).unwrap();
            assert_eq!(s.info().nr_hw_queues, q);
            assert_eq!(s.info().queue_depth, d);
            assert_eq!(s.info().dev_id, 3);
            assert_eq!(s.info().max_io_buf_bytes, MAX_IO_BYTES);
            assert_eq!(s.state(), CtrlState::Created);
            assert_eq!(s.info(), DeviceInfo::new(q, d, 3).unwrap());
            assert_eq!(s.info().flags, 0);
            assert_eq!(s.info().ublksrv_pid, 0);
            assert_eq!(s.info().state, 0);
        }
    }
}

#[test]
fn construction_rejects_out_of_range_shapes() {
    assert_eq!(DeviceInfo::new(0, 128, 0), Err(ConfigError::QueueCount));
    assert_eq!(DeviceInfo::new(5, 128, 0), Err(ConfigError::QueueCount));
    assert_eq!(DeviceInfo::new(2, 0, 0), Err(ConfigError::QueueDepth));
    assert_eq!(DeviceInfo::new(2, 129, 0), Err(ConfigError::QueueDepth));
    assert!(matches!(
        ControlSession::new(2, 129, None),
        Err(CtrlError::Config(ConfigError::QueueDepth))
    ));
}

#[test]
fn default_device_id_is_zero() {
    let s = ControlSession::new(1, 1, None).unwrap();
    assert_eq!(s.info().dev_id, 0);
}

#[test]
fn device_info_wire_form() {
    let info = DeviceInfo::new(2, 128, 7).unwrap();
    let b = info.encode();
    assert_eq!(b.len(), 64);
    assert_eq!(&b[0..16], &[2, 0, 128, 0, 0, 0, 0, 0, 0, 0, 1, 0, 7, 0, 0, 0]);
    assert!(b[16..].iter().all(|&x| x == 0));
}

#[test]
fn start_without_set_params_is_rejected() {
    let mut s = ControlSession::new(2, 128, None).unwrap();
    assert_eq!(s.start(1).err(), Some(CtrlError::OutOfOrder));
    let _ = s.add_device().unwrap();
    s.complete(1, 0).unwrap();
    assert_eq!(s.start(1).err(), Some(CtrlError::OutOfOrder));
    assert_eq!(s.state(), CtrlState::Added);
}

#[test]
fn set_params_before_add_is_rejected() {
    let mut s = ControlSession::new(2, 128, None).unwrap();
    assert_eq!(s.set_params().err(), Some(CtrlError::OutOfOrder));
    assert_eq!(s.delete_device().err(), Some(CtrlError::OutOfOrder));
    assert_eq!(s.pending(), None);
}

#[test]
fn second_request_while_pending_is_busy() {
    let mut s = ControlSession::new(2, 128, None).unwrap();
    let _ = s.add_device().unwrap();
    assert_eq!(s.add_device().err(), Some(CtrlError::Busy));
    assert_eq!(s.pending(), Some(CtrlStep::AddDevice));
}

#[test]
fn control_completion_errors() {
    let mut s = ControlSession::new(2, 128, None).unwrap();
    assert_eq!(s.complete(1, 0), Err(CtrlError::NotPending));
    let _ = s.add_device().unwrap();
    assert_eq!(s.complete(2, 0), Err(CtrlError::CompletionCount(2)));
    assert_eq!(s.state(), CtrlState::Created);
    let _ = s.add_device().unwrap();
    assert_eq!(s.complete(1, -22), Err(CtrlError::Rejected(-22)));
    assert_eq!(s.state(), CtrlState::Created);
    assert_eq!(s.pending(), None);
}

#[test]
fn full_lifecycle_requests() {
    let mut s = ControlSession::new(2, 128, Some(4)).unwrap();
    let add = s.add_device().unwrap();
    assert_eq!(add.cmd_op, CMD_ADD_DEV);
    assert_eq!(add.payload, s.info().encode());
    assert_eq!(add.command.len, 64);
    assert_eq!(add.command.queue_id, NO_QUEUE);
    assert_eq!(add.command.dev_id, 4);
    s.complete(1, 0).unwrap();

    let params = s.set_params().unwrap();
    assert_eq!(params.cmd_op, CMD_SET_PARAMS);
    assert_eq!(params.payload.len(), 80);
    assert_eq!(&params.payload[0..8], &[80, 0, 0, 0, 1, 0, 0, 0]);
    assert_eq!(&params.payload[12..16], &[9, 12, 12, 9]);
    // 65536 bytes are 128 sectors; the device has 512 sectors.
    assert_eq!(&params.payload[16..20], &[128, 0, 0, 0]);
    assert_eq!(&params.payload[24..32], &[0, 2, 0, 0, 0, 0, 0, 0]);
    s.complete(1, 0).unwrap();
    assert_eq!(s.state(), CtrlState::Configured);

    let start = s.start(4321).unwrap();
    assert_eq!(start.cmd_op, CMD_START_DEV);
    assert_eq!(start.command.data, 4321);
    assert!(start.payload.is_empty());
    s.complete(1, 0).unwrap();
    assert_eq!(s.state(), CtrlState::Started);

    let del = s.delete_device().unwrap();
    assert_eq!(del.cmd_op, CMD_DEL_DEV);
    assert_eq!(del.command.len, 0);
    s.complete(1, 0).unwrap();
    assert_eq!(s.state(), CtrlState::Deleted);
    assert_eq!(s.delete_device().err(), Some(CtrlError::OutOfOrder));
}

#[test]
fn control_request_wire_form() {
    let mut s = ControlSession::new(1, 8, Some(0x0102_0304)).unwrap();
    let add = s.add_device().unwrap();
    let b = add.encode(0x1122_3344_5566_7788);
    assert_eq!(b.len(), 80);
    assert_eq!(
        &b[0..24],
        &[
            4, 3, 2, 1, 0xff, 0xff, 64, 0, 0x88, 0x77, 0x66, 0x55, 0x44, 0x33, 0x22, 0x11, 0, 0,
            0, 0, 0, 0, 0, 0
        ]
    );
    assert!(b[24..].iter().all(|&x| x == 0));
}

#[test]
fn empty_payload_keeps_zero_address() {
    let mut s = ControlSession::new(1, 8, None).unwrap();
    let _ = s.add_device().unwrap();
    s.complete(1, 0).unwrap();
    let del = s.delete_device().unwrap();
    let b = del.encode(0xdead_beef);
    assert!(b[8..16].iter().all(|&x| x == 0));
}

#[test]
fn control_ring_entry_builds() {
    let mut s = ControlSession::new(1, 8, None).unwrap();
    let add = s.add_device().unwrap();
    let text = format!("{:?}", add.ring_entry(3, add.payload.as_ptr() as u64));
    assert!(text.contains("user_data: 0"));
}
