use vc4::bo::{page_round, Allocation, BoKind, BoStore, BufferObject};
use vc4::bytes::{push_le32, read_le16, read_le32, read_le64};
use vc4::error::GpuError;
use vc4::memory::{frame_range, frame_start, init_frame_allocator, memory_map, Atag};
use vc4::packet::{address_field, describe, span, Layout, Role};
use vc4::regs::{in_window, RegisterOp};
use vc4::render::{build, Job, Phase, POLL_LIMIT};
use vc4::request::{decode, payload_len, read_handles, Request, Source};

#[test]
fn little_endian_fields() {
    let bytes = [0x78u8, 0x56, 0x34, 0x12, 0xEF, 0xCD, 0xAB, 0x90, 0xFF];
    assert_eq!(read_le16(&bytes, 0), 0x5678);
    assert_eq!(read_le16(&bytes, 7), 0xFF90);
    assert_eq!(read_le32(&bytes, 0), 0x1234_5678);
    assert_eq!(read_le32(&bytes, 1), 0xEF12_3456);
    assert_eq!(read_le64(&bytes, 0), 0x90AB_CDEF_1234_5678);
    let mut out = vec![9u8];
    push_le32(&mut out, 0x1234_5678);
    push_le32(&mut out, 0xFFFF_FFFF);
    push_le32(&mut out, 0);
    assert_eq!(out, vec![9, 0x78, 0x56, 0x34, 0x12, 0xFF, 0xFF, 0xFF, 0xFF, 0, 0, 0, 0]);
    assert_eq!(read_le32(&out, 1), 0x1234_5678);
}

#[test]
fn error_codes_are_negative_and_distinct() {
    let all = [
        GpuError::Unsupported,
        GpuError::BadPayload,
        GpuError::HandleNotFound,
        GpuError::Protected,
        GpuError::AllocationFailure,
        GpuError::MalformedStream,
        GpuError::OutOfBounds,
        GpuError::HardwareTimeout,
        GpuError::Busy,
    ];
    let codes: Vec<i32> = all.iter().map(|e| e.code()).collect();
    assert_eq!(codes, vec![-95, -14, -2, -13, -12, -22, -34, -110, -16]);
}

#[test]
fn packet_table() {
    assert_eq!(describe(0), Some(Layout { operands: 0, role: Role::Plain }));
    assert_eq!(describe(6), Some(Layout { operands: 0, role: Role::Plain }));
    assert_eq!(describe(56), Some(Layout { operands: 1, role: Role::Plain }));
    assert_eq!(describe(96), Some(Layout { operands: 3, role: Role::Plain }));
    assert_eq!(describe(102), Some(Layout { operands: 8, role: Role::Plain }));
    assert_eq!(describe(114), Some(Layout { operands: 13, role: Role::Plain }));
    assert_eq!(describe(33), Some(Layout { operands: 9, role: Role::Plain }));
    assert_eq!(describe(254), Some(Layout { operands: 8, role: Role::SelectHandles }));
    assert_eq!(describe(32), Some(Layout { operands: 13, role: Role::IndexData }));
    assert_eq!(describe(113), Some(Layout { operands: 10, role: Role::RenderSurface }));
    assert_eq!(describe(112), None);
    assert_eq!(describe(16), None);
    assert_eq!(describe(64), None);
    assert_eq!(address_field(Role::IndexData), Some(5));
    assert_eq!(address_field(Role::RenderSurface), Some(0));
    assert_eq!(address_field(Role::Plain), None);
    assert_eq!(address_field(Role::SelectHandles), None);
}

#[test]
fn referenced_spans() {
    let draw = [0x14u8, 10, 0, 0, 0, 0, 0, 0, 0, 0, 0, 0, 0];
    assert_eq!(span(Role::IndexData, &draw, 0), 20);
    let draw = [0x04u8, 10, 0, 0, 0, 0, 0, 0, 0, 0, 0, 0, 0];
    assert_eq!(span(Role::IndexData, &draw, 0), 10);
    let draw = [0xF0u8, 0xFF, 0xFF, 0xFF, 0xFF, 0, 0, 0, 0, 0, 0, 0, 0];
    assert_eq!(span(Role::IndexData, &draw, 0), 0x1_FFFF_FFFE);
    let surface = [9u8, 0, 0, 0, 0, 0x80, 0x07, 0x38, 0x04, 0x04, 0x00];
    assert_eq!(span(Role::RenderSurface, &surface, 1), 1920 * 1080 * 4);
    let surface = [0u8, 0, 0, 0, 0x80, 0x07, 0x38, 0x04, 0x08, 0x00];
    assert_eq!(span(Role::RenderSurface, &surface, 0), 1920 * 1080 * 2);
    let surface = [0u8, 0, 0, 0, 0xFF, 0xFF, 0xFF, 0xFF, 0x04, 0x00];
    assert_eq!(span(Role::RenderSurface, &surface, 0), 65535 * 65535 * 4);
    assert_eq!(span(Role::Plain, &[], 0), 0);
}

#[test]
fn store_creates_looks_up_and_frees() {
    let mut store = BoStore::new();
    assert_eq!(store.len(), 0);
    assert_eq!(store.upcoming(), 1);
    assert_eq!(store.plan(8192), Ok(8192));
    assert_eq!(store.plan(8193), Ok(12288));
    assert_eq!(store.plan(0), Err(GpuError::AllocationFailure));
    let memory = Allocation { physical_address: 0x1000, mapped_address: 0x2000 };
    assert_eq!(store.create(100, BoKind::Normal, memory), Ok(1));
    assert_eq!(store.create(200, BoKind::Binner, memory), Ok(2));
    assert_eq!(store.len(), 2);
    assert!(store.contains(1));
    assert!(!store.contains(3));
    assert_eq!(
        store.lookup(2),
        Ok(BufferObject {
            size: 200,
            handle: 2,
            physical_address: 0x1000,
            mapped_address: 0x2000,
            kind: BoKind::Binner
        })
    );
    assert_eq!(store.map(1), Ok((0x2000, 100)));
    assert_eq!(store.map(3), Err(GpuError::HandleNotFound));
    assert_eq!(store.lookup(0), Err(GpuError::HandleNotFound));
    assert_eq!(store.free(1).map(|bo| bo.size), Ok(100));
    assert_eq!(store.free(1), Err(GpuError::HandleNotFound));
    assert_eq!(store.len(), 1);
    assert_eq!(store.create(300, BoKind::Normal, memory), Ok(3));
    let unusable = Allocation { physical_address: 0xFFFF_F000, mapped_address: 0 };
    assert_eq!(store.create(1, BoKind::Normal, unusable), Err(GpuError::AllocationFailure));
    assert_eq!(store.create(0, BoKind::Normal, memory), Err(GpuError::AllocationFailure));
    assert_eq!(store.upcoming(), 4);
}

#[test]
fn page_rounding() {
    assert_eq!(page_round(0), Some(0));
    assert_eq!(page_round(1), Some(4096));
    assert_eq!(page_round(4096), Some(4096));
    assert_eq!(page_round(4097), Some(8192));
    assert_eq!(page_round(0xFFFF_F000), Some(0xFFFF_F000));
    assert_eq!(page_round(0xFFFF_F001), None);
}

#[test]
fn image_is_bin_list_binner_packet_render_list() {
    let binner = BufferObject {
        size: 0x8_0000,
        handle: 4,
        physical_address: 0x0100_0000,
        mapped_address: 0,
        kind: BoKind::Binner,
    };
    let image = build(&[6, 4], &[25], binner);
    assert_eq!(
        image,
        vec![
            6, 4, 112, 0x00, 0xC0, 0x00, 0x01, 0x00, 0x40, 0x07, 0x00, 0x00, 0x00, 0x00, 0x01, 0, 0,
            0, 25
        ]
    );
    let small = BufferObject { size: 0x100, ..binner };
    assert_eq!(
        build(&[], &[], small),
        vec![112, 0x00, 0x01, 0x00, 0x01, 0, 0, 0, 0, 0x00, 0x00, 0x00, 0x01, 0, 0, 0]
    );
}

#[test]
fn job_makes_its_register_accesses_in_order() {
    let mut job = Job::start(0x1000, 0x20, 0x30);
    let mut seen = Vec::new();
    while let Some(op) = job.op() {
        seen.push(op);
        job = job.advance(1);
    }
    assert_eq!(job.phase, Phase::Finished);
    assert_eq!(
        seen,
        vec![
            RegisterOp::Write { offset: 0x134, value: 1 },
            RegisterOp::Write { offset: 0x110, value: 0x1000 },
            RegisterOp::Write { offset: 0x108, value: 0x1020 },
            RegisterOp::Read { offset: 0x134 },
            RegisterOp::Write { offset: 0x138, value: 1 },
            RegisterOp::Write { offset: 0x114, value: 0x1020 },
            RegisterOp::Write { offset: 0x10c, value: 0x1030 },
            RegisterOp::Read { offset: 0x138 },
        ]
    );
}

#[test]
fn job_gives_up_after_the_poll_limit() {
    let mut job = Job::start(0x1000, 0x20, 0x30);
    let mut reads = 0u32;
    while let Some(op) = job.op() {
        if let RegisterOp::Read { .. } = op {
            reads += 1;
        }
        job = job.advance(0);
    }
    assert_eq!(job.phase, Phase::TimedOut);
    assert_eq!(reads, POLL_LIMIT);
    assert_eq!(job.advance(1).phase, Phase::TimedOut);
}

#[test]
fn request_records_are_decoded() {
    assert_eq!(payload_len(0xC068_6440), Some(104));
    assert_eq!(payload_len(0xC010_6443), Some(16));
    assert_eq!(payload_len(0xC010_6444), Some(16));
    assert_eq!(payload_len(0xC008_6445), Some(8));
    assert_eq!(payload_len(0xC008_6446), None);
    let mut create = vec![0u8; 16];
    create[0..4].copy_from_slice(&8192u32.to_le_bytes());
    create[4] = 2;
    assert_eq!(
        decode(0xC010_6443, &create),
        Ok(Request::CreateBo { size: 8192, kind: BoKind::Framebuffer })
    );
    create[4] = 1;
    assert_eq!(
        decode(0xC010_6443, &create),
        Ok(Request::CreateBo { size: 8192, kind: BoKind::Binner })
    );
    assert_eq!(decode(0xC010_6444, &create), Ok(Request::MapBo { handle: 8192 }));
    assert_eq!(decode(0xC008_6445, &create[..8]), Ok(Request::FreeBo { handle: 8192 }));
    assert_eq!(decode(0xC008_6445, &create), Err(GpuError::BadPayload));
    assert_eq!(decode(7, &create), Err(GpuError::Unsupported));
    let mut submit = vec![0u8; 104];
    submit[4..8].copy_from_slice(&77u32.to_le_bytes());
    submit[8..16].copy_from_slice(&0x0000_7FFF_0000_1000u64.to_le_bytes());
    submit[16] = 1;
    submit[20..24].copy_from_slice(&4096u32.to_le_bytes());
    submit[24..32].copy_from_slice(&9u64.to_le_bytes());
    submit[32] = 3;
    submit[40..44].copy_from_slice(&5u32.to_le_bytes());
    submit[44..48].copy_from_slice(&0x0102_0304u32.to_le_bytes());
    submit[48..52].copy_from_slice(&3u32.to_le_bytes());
    submit[52..56].copy_from_slice(&8u32.to_le_bytes());
    assert_eq!(
        decode(0xC068_6440, &submit),
        Ok(Request::SubmitCl {
            bin: Source::Inline { address: 0x0000_7FFF_0000_1000, length: 77 },
            render: Source::Buffer { handle: 9, length: 4096 },
            handles: 3,
        })
    );
    assert_eq!(read_handles(&submit, 3), vec![5, 0x0102_0304, 3]);
    assert_eq!(read_handles(&submit, 0), Vec::<u32>::new());
    assert_eq!(read_handles(&submit, 16).len(), 16);
}

#[test]
fn memory_map_takes_the_first_region() {
    let atags = [
        Atag::Other,
        Atag::Mem { start: 0, size: 0x3B40_0000 },
        Atag::Mem { start: 0x4000_0000, size: 0x1000 },
    ];
    assert_eq!(memory_map(0x0012_3456, &atags), Some((0x0012_3456, 0x3B40_0000)));
    assert_eq!(memory_map(0x0012_3456, &[Atag::Other, Atag::Other]), None);
    assert_eq!(memory_map(0x0012_3456, &[]), None);
    assert_eq!(
        memory_map(8, &[Atag::Mem { start: 0xFFFF_FFFF, size: 0xFFFF_FFFF }]),
        Some((8, 0x1_FFFF_FFFE))
    );
}

#[test]
fn frames_cover_the_free_memory() {
    assert_eq!(frame_range(0x0012_3456, 0x3B40_0000), (0x123, 0x3B400));
    assert_eq!(frame_range(0x1000, 0x2000), (1, 2));
    assert_eq!(frame_range(0x1000, 0x2001), (1, 3));
    assert_eq!(frame_range(0x0FFF, 0x1000), (0, 1));
    assert_eq!(frame_range(0, 1), (0, 1));
    assert_eq!(frame_start(0x0008_1234), 0x0008_1000);
    assert_eq!(frame_start(0x0008_1000), 0x0008_1000);
    assert_eq!(frame_start(0xFFF), 0);
}

#[test]
fn memory_init_frees_the_frames_behind_the_kernel_image() {
    let atags = [Atag::Other, Atag::Mem { start: 0, size: 0x3B40_0000 }];
    let allocator = vc4::memory::init(0x0012_3456, &atags).expect("a memory map");
    assert!(!allocator.is_free(0));
    assert!(!allocator.is_free(0x122));
    assert!(allocator.is_free(0x123));
    assert!(allocator.is_free(0x124));
    assert!(allocator.is_free(0x2_0000));
    assert!(allocator.is_free(0x3_B3FF));
    assert!(!allocator.is_free(0x3_B400));
    assert!(!allocator.is_free(0xF_FFFF));
    assert!(!allocator.is_free(0x10_0000));
    assert!(!allocator.is_free(u64::MAX));
}

#[test]
fn memory_init_without_usable_memory_gives_no_allocator() {
    assert!(vc4::memory::init(0x0012_3456, &[Atag::Other]).is_none());
    assert!(vc4::memory::init(0x0012_3456, &[]).is_none());
    assert!(vc4::memory::init(0x0012_3456, &[Atag::Mem { start: 0, size: 0 }]).is_none());
    assert!(vc4::memory::init(0x0012_3456, &[Atag::Mem { start: 0, size: 0x0012_3456 }]).is_none());
    assert!(vc4::memory::init(
        0x0012_3456,
        &[Atag::Mem { start: 0xFFFF_FFFF, size: 0xFFFF_FFFF }]
    )
    .is_none());
    let whole = vc4::memory::init(0, &[Atag::Mem { start: 0, size: 0xFFFF_FFFF }]).unwrap();
    assert!(whole.is_free(0));
    assert!(whole.is_free(0xF_FFFF));
}

#[test]
fn frame_allocator_takes_further_memory() {
    let mut allocator =
        vc4::memory::init(0x0010_0000, &[Atag::Mem { start: 0, size: 0x0010_2000 }]).unwrap();
    assert!(allocator.is_free(0x100));
    assert!(allocator.is_free(0x101));
    assert!(!allocator.is_free(0x102));
    assert!(!allocator.is_free(1));
    assert_eq!(init_frame_allocator(&mut allocator, 0x1000, 0x2001), Some((1, 3)));
    assert!(!allocator.is_free(0));
    assert!(allocator.is_free(1));
    assert!(allocator.is_free(2));
    assert!(!allocator.is_free(3));
    assert!(allocator.is_free(0x100));
    assert_eq!(init_frame_allocator(&mut allocator, 0x5000, 0x5000), None);
    assert_eq!(init_frame_allocator(&mut allocator, 0x6000, 0x5000), None);
    assert_eq!(init_frame_allocator(&mut allocator, 0x5000, 0x1_0000_0001), None);
    assert!(!allocator.is_free(5));
    assert_eq!(
        init_frame_allocator(&mut allocator, 0xFFFF_F000, 0x1_0000_0000),
        Some((0xF_FFFF, 0x10_0000))
    );
    assert!(allocator.is_free(0xF_FFFF));
    assert!(!allocator.is_free(0xF_FFFE));
}

#[test]
fn register_offsets_are_aligned_and_inside_the_window() {
    for offset in [0u32, 0x108, 0x10c, 0x110, 0x114, 0x134, 0x138, 0xFFC] {
        assert!(in_window(offset));
    }
    for offset in [1u32, 2, 3, 0x1000, 0x1001, 0xFFFF_FFFC, 0xFFD] {
        assert!(!in_window(offset));
    }
}

#[test]
fn frame_allocator_frees_exactly_the_frames_it_is_given() {
    let ranges: [(u64, u64); 9] = [
        (0, 1),
        (0, 16),
        (15, 17),
        (255, 257),
        (4095, 4097),
        (1, 0xF_FFFF),
        (0xF_FFFF, 0x10_0000),
        (0x1_2345, 0x8_0001),
        (0, 0x10_0000),
    ];
    for (first, last) in ranges {
        let end = if last == 0x10_0000 { 0xFFFF_FFFF } else { (last * 4096) as u32 };
        let allocator =
            vc4::memory::init((first * 4096) as u32, &[Atag::Mem { start: 0, size: end }]).unwrap();
        for frame in 0..0x10_0000u64 {
            assert_eq!(allocator.is_free(frame), first <= frame && frame < last);
        }
    }
}
