use ublk::abi::{
    DeviceInfo, IoCommand, IoDescriptor, IO_COMMIT_AND_FETCH_REQ, IO_FETCH_REQ, MAX_IO_BYTES,
};
use ublk::queue::{
    io_descriptor_len, io_descriptor_offset, queue_plan, Completion, NullTarget, QueueConfig,
    QueueError, SlotState, Target, TargetError, UblkQueue,
};
use ublk::token::{decode_token, encode_token, TokenFields};

struct Counting {
    calls: usize,
    seen: Vec<IoDescriptor>,
    fail: bool,
}

impl Target for Counting {
    fn handle_io(&mut self, desc: &IoDescriptor) -> Result<(), TargetError> {
        self.calls += 1;
        self.seen.push(*desc);
        if self.fail {
            Err(TargetError { code: -5 })
        } else {
            Ok(())
        }
    }
}

fn region_with(depth: usize, tag: usize, desc: [u32; 6]) -> Vec<u8> {
    let mut r = vec![0u8; depth * 24];
    for (i, w) in desc.iter().enumerate() {
        r[tag * 24 + i * 4..tag * 24 + i * 4 + 4].copy_from_slice(&w.to_le_bytes());
    }
    r
}

fn token(tag: u16, op: u32) -> u64 {
    encode_token(TokenFields { tag, op: op as u8, target_data: 0, is_target_io: false })
}

#[test]
fn token_round_trip() {
    for tag in [0u16, 1, 127, 0x1234, 0xffff] {
        for op in [0u8, 0x20, 0x21, 0xff] {
            for data in [0u8, 7, 0xff] {
                for t in [false, true] {
                    let f = TokenFields { tag, op, target_data: data, is_target_io: t };
                    assert_eq!(decode_token(encode_token(f)), f);
                }
            }
        }
    }
}

#[test]
fn token_exact_values() {
    assert_eq!(token(5, IO_COMMIT_AND_FETCH_REQ), 0x21_0005);
    let f = TokenFields { tag: 0xffff, op: 0xff, target_data: 0xab, is_target_io: true };
    assert_eq!(encode_token(f), 0x8000_0000_abff_ffff);
}

#[test]
fn descriptor_offsets_one_stride_apart() {
    assert_eq!(io_descriptor_offset(0), 0);
    assert_eq!(io_descriptor_offset(1), 4096 * 24);
    assert_eq!(io_descriptor_offset(1) - io_descriptor_offset(0), 98304);
    assert!(io_descriptor_offset(0) + io_descriptor_len(128) as u64 <= io_descriptor_offset(1));
    assert_eq!(io_descriptor_offset(0xffff), 0xffff * 98304);
}

#[test]
fn queue_setup_for_depth_128() {
    let info = DeviceInfo::new(2, 128, 0).unwrap();
    let c = QueueConfig::new(&info, 1);
    assert_eq!(c.map_len, 128 * 24);
    assert_eq!(c.map_offset, 98304);
    assert_eq!(c.buffer_size, MAX_IO_BYTES as usize);
    assert_eq!(c.buffer_align, 4096);
    assert_eq!(c.queue_depth, 128);
}

#[test]
fn two_queues_each_prime_all_tags() {
    let info = DeviceInfo::new(2, 128, 0).unwrap();
    let plan = queue_plan(&info);
    assert_eq!(plan.len(), 2);
    for (i, c) in plan.iter().enumerate() {
        assert_eq!(c.queue_index as usize, i);
        let mut q = UblkQueue::new(c.queue_index, c.queue_depth, 0x1000);
        let subs = q.handle_queue();
        assert_eq!(subs.len(), 128);
        for (t, s) in subs.iter().enumerate() {
            assert_eq!(s.cmd_op, IO_FETCH_REQ);
            assert_eq!(s.command.tag as usize, t);
            assert_eq!(s.command.q_id as usize, i);
            assert_eq!(s.command.addr, 0x1000);
            let f = decode_token(s.user_data);
            assert_eq!(f.tag as usize, t);
            assert_eq!(f.op as u32, IO_FETCH_REQ);
        }
        assert!((0..128).all(|t| q.slot(t) == SlotState::Fetching));
    }
}

#[test]
fn success_runs_backend_once_then_commits() {
    let mut q = UblkQueue::new(1, 4, 0x2000);
    let _ = q.handle_queue();
    let region = region_with(4, 2, [0, 8, 100, 0, 0, 0]);
    let mut target = Counting { calls: 0, seen: Vec::new(), fail: false };
    let r = q.handle_io(&mut target, token(2, IO_FETCH_REQ), 0, &region).unwrap();
    assert_eq!(target.calls, 1);
    assert_eq!(target.seen[0].nr_sectors, 8);
    assert_eq!(target.seen[0].start_sector, 100);
    match r {
        Completion::Committed(s) => {
            assert_eq!(s.cmd_op, IO_COMMIT_AND_FETCH_REQ);
            assert_eq!(s.command, IoCommand { q_id: 1, tag: 2, result: 4096, addr: 0x2000 });
            assert_eq!(decode_token(s.user_data).tag, 2);
            assert_eq!(decode_token(s.user_data).op as u32, IO_COMMIT_AND_FETCH_REQ);
        }
        other => panic!("unexpected {:?}", other),
    }
    assert_eq!(q.slot(2), SlotState::Committing);
    assert_eq!(q.slot(1), SlotState::Fetching);
}

#[test]
fn failed_completion_is_reported_and_idles_tag() {
    let mut q = UblkQueue::new(0, 4, 0);
    let _ = q.handle_queue();
    let region = vec![0u8; 96];
    let mut target = Counting { calls: 0, seen: Vec::new(), fail: false };
    let r = q.handle_io(&mut target, token(3, IO_FETCH_REQ), -19, &region);
    assert_eq!(r, Ok(Completion::Failed { tag: 3, result: -19 }));
    assert_eq!(target.calls, 0);
    assert_eq!(q.slot(3), SlotState::Idle);
}

#[test]
fn queue_completion_errors() {
    let mut q = UblkQueue::new(0, 4, 0);
    let _ = q.handle_queue();
    let mut null = NullTarget;
    assert_eq!(q.handle_io(&mut null, token(4, IO_FETCH_REQ), 0, &[0u8; 96]), Err(QueueError::BadTag(4)));
    assert_eq!(q.handle_io(&mut null, token(3, IO_FETCH_REQ), 0, &[0u8; 80]), Err(QueueError::ShortRegion));
    let mut failing = Counting { calls: 0, seen: Vec::new(), fail: true };
    assert_eq!(
        q.handle_io(&mut failing, token(1, IO_FETCH_REQ), 0, &[0u8; 96]),
        Err(QueueError::Target(TargetError { code: -5 }))
    );
    assert_eq!(q.slot(1), SlotState::Fetching);
}

#[test]
fn descriptor_read() {
    let region = region_with(3, 1, [0x0101, 16, 0x10, 0x1, 0xabc, 0]);
    let d = IoDescriptor::read(&region, 1);
    assert_eq!(d.op_flags, 0x0101);
    assert_eq!(d.op(), 1);
    assert_eq!(d.nr_sectors, 16);
    assert_eq!(d.start_sector, 0x1_0000_0010);
    assert_eq!(d.addr, 0xabc);
}

#[test]
fn io_command_wire_form() {
    let c = IoCommand { q_id: 1, tag: 0x0203, result: -1, addr: 0x10 };
    let b = c.encode();
    assert_eq!(b.len(), 80);
    assert_eq!(&b[0..16], &[1, 0, 3, 2, 0xff, 0xff, 0xff, 0xff, 0x10, 0, 0, 0, 0, 0, 0, 0]);
    assert!(b[16..].iter().all(|&x| x == 0));
}

#[test]
fn null_target_succeeds() {
    let mut t = NullTarget;
    let d = IoDescriptor { op_flags: 0, nr_sectors: 1, start_sector: 0, addr: 0 };
    assert_eq!(t.handle_io(&d), Ok(()));
}

#[test]
fn ring_entry_carries_token() {
    let mut q = UblkQueue::new(0, 2, 0x3000);
    let subs = q.handle_queue();
    let entry = subs[1].ring_entry(3);
    let text = format!("{:?}", entry);
    assert!(text.contains(&format!("user_data: {}", subs[1].user_data)));
    assert_eq!(subs[1].user_data, 0x20_0001);
}

#[test]
fn plan_for_most_queues_has_disjoint_regions() {
    let info = DeviceInfo::new(4, 128, 0).unwrap();
    let plan = queue_plan(&info);
    assert_eq!(plan.len(), 4);
    for w in plan.windows(2) {
        assert_eq!(w[1].map_offset - w[0].map_offset, 98304);
        assert!(w[0].map_offset + w[0].map_len as u64 <= w[1].map_offset);
    }
}

#[test]
fn depth_one_queue_cycles_its_only_tag() {
    let mut q = UblkQueue::new(0, 1, 0);
    let subs = q.handle_queue();
    assert_eq!(subs.len(), 1);
    let region = region_with(1, 0, [1, 1, 0, 0, 0, 0]);
    let mut null = NullTarget;
    for _ in 0..3 {
        let r = q.handle_io(&mut null, token(0, IO_COMMIT_AND_FETCH_REQ), 0, &region).unwrap();
        assert!(matches!(r, Completion::Committed(s) if s.command.result == 512));
        assert_eq!(q.slot(0), SlotState::Committing);
    }
}

#[test]
fn target_token_flag_is_kept_apart() {
    let f = TokenFields { tag: 1, op: 0x20, target_data: 9, is_target_io: true };
    let t = encode_token(f);
    assert_eq!(t >> 63, 1);
    assert_eq!(decode_token(t & !(1u64 << 63)).is_target_io, false);
}

#[test]
fn finish_io_commits_on_backend_success() {
    let mut q = UblkQueue::new(2, 4, 0x4000);
    let _ = q.handle_queue();
    let desc = IoDescriptor { op_flags: 0, nr_sectors: 3, start_sector: 0, addr: 0 };
    let r = q.finish_io(1, desc, Ok(())).unwrap();
    match r {
        Completion::Committed(s) => {
            assert_eq!(s.command, IoCommand { q_id: 2, tag: 1, result: 1536, addr: 0x4000 });
            assert_eq!(s.cmd_op, IO_COMMIT_AND_FETCH_REQ);
        }
        other => panic!("unexpected {:?}", other),
    }
    assert_eq!(q.slot(1), SlotState::Committing);
}

#[test]
fn finish_io_passes_backend_error_through() {
    let mut q = UblkQueue::new(0, 4, 0);
    let _ = q.handle_queue();
    let desc = IoDescriptor { op_flags: 0, nr_sectors: 3, start_sector: 0, addr: 0 };
    let r = q.finish_io(1, desc, Err(TargetError { code: -7 }));
    assert_eq!(r, Err(QueueError::Target(TargetError { code: -7 })));
    assert_eq!(q.slot(1), SlotState::Fetching);
}

#[test]
fn queue_getters() {
    let q = UblkQueue::new(3, 5, 0x9000);
    assert_eq!(q.queue_index(), 3);
    assert_eq!(q.queue_depth(), 5);
    assert_eq!(q.buffer_addr(), 0x9000);
    assert_eq!(q.slot(4), SlotState::Idle);
}
