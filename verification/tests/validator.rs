use vc4::bo::{BoKind, BufferObject};
use vc4::error::GpuError;
use vc4::validate::{validate, Rejection};

fn object(handle: u32, physical_address: u32, size: u32) -> BufferObject {
    BufferObject { size, handle, physical_address, mapped_address: 0x4000_0000, kind: BoKind::Normal }
}

fn select(first: u32, second: u32) -> Vec<u8> {
    let mut p = vec![254u8];
    p.extend_from_slice(&first.to_le_bytes());
    p.extend_from_slice(&second.to_le_bytes());
    p
}

fn indexed(mode: u8, count: u32, offset: u32, max_index: u32) -> Vec<u8> {
    let mut p = vec![32u8, mode];
    p.extend_from_slice(&count.to_le_bytes());
    p.extend_from_slice(&offset.to_le_bytes());
    p.extend_from_slice(&max_index.to_le_bytes());
    p
}

fn surface(address: u32, width: u16, height: u16, config: u16) -> Vec<u8> {
    let mut p = vec![113u8];
    p.extend_from_slice(&address.to_le_bytes());
    p.extend_from_slice(&width.to_le_bytes());
    p.extend_from_slice(&height.to_le_bytes());
    p.extend_from_slice(&config.to_le_bytes());
    p
}

#[test]
fn in_bounds_relocation_is_rewritten_to_the_physical_address() {
    let table = [object(5, 0x0200_0000, 8192)];
    let mut stream = select(0, 0);
    stream.extend(indexed(0x04, 16, 4096, 15));
    let out = validate(&stream, &table).expect("accepted");
    assert_eq!(out, indexed(0x04, 16, 0x0200_0000 + 4096, 15));
    assert_eq!(&out[6..10], &(0x0200_1000u32).to_le_bytes());
}

#[test]
fn relocation_may_end_exactly_at_the_end_of_the_object() {
    let table = [object(5, 0x0200_0000, 8192)];
    let mut stream = select(0, 0);
    stream.extend(indexed(0x04, 16, 8192 - 16, 15));
    assert_eq!(validate(&stream, &table), Ok(indexed(0x04, 16, 0x0200_0000 + 8176, 15)));
}

#[test]
fn relocation_past_the_end_is_out_of_bounds() {
    let table = [object(5, 0x0200_0000, 8192)];
    let mut stream = vec![1u8, 4u8];
    stream.extend(select(0, 0));
    stream.extend(indexed(0x04, 16, 8192 - 15, 15));
    stream.push(4);
    assert_eq!(
        validate(&stream, &table),
        Err(Rejection { error: GpuError::OutOfBounds, offset: 11 })
    );
}

#[test]
fn wide_indices_take_two_bytes_each() {
    let table = [object(5, 0x0200_0000, 8192)];
    let mut fits = select(0, 0);
    fits.extend(indexed(0x14, 4096, 0, 9));
    assert_eq!(validate(&fits, &table), Ok(indexed(0x14, 4096, 0x0200_0000, 9)));
    let mut spills = select(0, 0);
    spills.extend(indexed(0x14, 4097, 0, 9));
    assert_eq!(
        validate(&spills, &table),
        Err(Rejection { error: GpuError::OutOfBounds, offset: 9 })
    );
    let mut narrow = select(0, 0);
    narrow.extend(indexed(0x04, 4097, 0, 9));
    assert!(validate(&narrow, &table).is_ok());
}

#[test]
fn huge_count_does_not_wrap() {
    let table = [object(5, 0x0200_0000, 8192)];
    let mut stream = select(0, 0);
    stream.extend(indexed(0x14, 0x8000_0001, 0, 9));
    assert_eq!(
        validate(&stream, &table),
        Err(Rejection { error: GpuError::OutOfBounds, offset: 9 })
    );
    let mut stream = select(0, 0);
    stream.extend(indexed(0x04, 16, 0xFFFF_FFF8, 9));
    assert_eq!(
        validate(&stream, &table),
        Err(Rejection { error: GpuError::OutOfBounds, offset: 9 })
    );
}

#[test]
fn render_surface_spans_width_times_height_pixels() {
    let table = [object(3, 0x3E00_0000, 64 * 32 * 4)];
    let mut stream = select(0, 0);
    stream.extend(surface(0, 64, 32, 0x0004));
    assert_eq!(validate(&stream, &table), Ok(surface(0x3E00_0000, 64, 32, 0x0004)));
    let mut shifted = select(0, 0);
    shifted.extend(surface(1, 64, 32, 0x0004));
    assert_eq!(
        validate(&shifted, &table),
        Err(Rejection { error: GpuError::OutOfBounds, offset: 9 })
    );
    let mut narrow_pixels = select(0, 0);
    narrow_pixels.extend(surface(4096, 64, 32, 0x0008));
    assert_eq!(validate(&narrow_pixels, &table), Ok(surface(0x3E00_1000, 64, 32, 0x0008)));
}

#[test]
fn selection_picks_the_buffer_object() {
    let table = [object(5, 0x0200_0000, 8192), object(6, 0x0300_0000, 64)];
    let mut stream = select(1, 0);
    stream.extend(indexed(0x04, 64, 0, 63));
    stream.extend(select(0, 1));
    stream.extend(indexed(0x04, 64, 64, 63));
    let mut expected = indexed(0x04, 64, 0x0300_0000, 63);
    expected.extend(indexed(0x04, 64, 0x0200_0040, 63));
    assert_eq!(validate(&stream, &table), Ok(expected));
    let mut spills = select(1, 0);
    spills.extend(indexed(0x04, 64, 1, 63));
    assert_eq!(
        validate(&spills, &table),
        Err(Rejection { error: GpuError::OutOfBounds, offset: 9 })
    );
}

#[test]
fn selection_outside_the_table_is_malformed() {
    let table = [object(5, 0x0200_0000, 8192)];
    let mut stream = select(1, 0);
    stream.extend(indexed(0x04, 16, 0, 15));
    assert_eq!(
        validate(&stream, &table),
        Err(Rejection { error: GpuError::MalformedStream, offset: 9 })
    );
    assert_eq!(
        validate(&indexed(0x04, 16, 0, 15), &[]),
        Err(Rejection { error: GpuError::MalformedStream, offset: 0 })
    );
}

#[test]
fn address_field_uses_the_first_entry_before_any_selection() {
    let table = [object(5, 0x0200_0000, 8192)];
    assert_eq!(
        validate(&indexed(0x04, 16, 32, 15), &table),
        Ok(indexed(0x04, 16, 0x0200_0020, 15))
    );
}

#[test]
fn plain_packets_pass_unchanged() {
    let stream = vec![
        6u8, 56, 0x32, 102, 0, 0, 0, 0, 0x80, 0x07, 0x38, 0x04, 96, 3, 0, 2, 103, 0, 0, 0, 0, 33, 4,
        3, 0, 0, 0, 0, 0, 0, 0, 7, 4, 1, 0,
    ];
    assert_eq!(validate(&stream, &[]), Ok(stream.clone()));
}

#[test]
fn empty_list_is_accepted() {
    assert_eq!(validate(&[], &[]), Ok(vec![]));
}

#[test]
fn unknown_opcode_is_malformed() {
    for opcode in [2u8, 16, 17, 26, 28, 64, 65, 112, 255] {
        assert_eq!(
            validate(&[1, 1, opcode, 0, 0, 0, 0, 0, 0, 0, 0, 0, 0, 0, 0, 0, 0, 0], &[]),
            Err(Rejection { error: GpuError::MalformedStream, offset: 2 })
        );
    }
}

#[test]
fn truncated_packet_is_malformed() {
    assert_eq!(
        validate(&[4, 102, 0, 0, 0, 0, 0, 0, 0], &[]),
        Err(Rejection { error: GpuError::MalformedStream, offset: 1 })
    );
    assert_eq!(validate(&[4, 102, 0, 0, 0, 0, 0, 0, 0, 0], &[]).map(|v| v.len()), Ok(10));
    let table = [object(5, 0x0200_0000, 8192)];
    let mut stream = indexed(0x04, 16, 0, 15);
    stream.pop();
    assert_eq!(
        validate(&stream, &table),
        Err(Rejection { error: GpuError::MalformedStream, offset: 0 })
    );
}

#[test]
fn first_violation_wins() {
    let table = [object(5, 0x0200_0000, 8192)];
    let mut stream = indexed(0x04, 16, 8192, 15);
    stream.push(255);
    assert_eq!(
        validate(&stream, &table),
        Err(Rejection { error: GpuError::OutOfBounds, offset: 0 })
    );
    let mut stream = vec![255u8];
    stream.extend(indexed(0x04, 16, 8192, 15));
    assert_eq!(
        validate(&stream, &table),
        Err(Rejection { error: GpuError::MalformedStream, offset: 0 })
    );
}

#[test]
fn address_beyond_32_bits_is_out_of_bounds() {
    let table = [object(5, 0xFFFF_FFF0, 0x100)];
    assert_eq!(
        validate(&indexed(0x04, 1, 0x10, 0), &table),
        Err(Rejection { error: GpuError::OutOfBounds, offset: 0 })
    );
    assert_eq!(
        validate(&indexed(0x04, 1, 0x0F, 0), &table),
        Ok(indexed(0x04, 1, 0xFFFF_FFFF, 0))
    );
}
