use dyn_struct::dyn_arg::{DynArg, ShapeMeta};
use dyn_struct::DynStruct;

fn push_u16_le(out: &mut Vec<u8>, v: u16) {
    for b in v.to_le_bytes() {
        out.push(b);
    }
}

fn push_u32_le(out: &mut Vec<u8>, v: u32) {
    for b in v.to_le_bytes() {
        out.push(b);
    }
}

fn push_u64_le(out: &mut Vec<u8>, v: u64) {
    for b in v.to_le_bytes() {
        out.push(b);
    }
}

fn u32s_from_bytes(bytes: &[u8]) -> Vec<u32> {
    assert_eq!(bytes.len() % 4, 0);
    let mut out = Vec::new();
    for chunk in bytes.chunks(4) {
        out.push(u32::from_le_bytes([chunk[0], chunk[1], chunk[2], chunk[3]]));
    }
    out
}

fn u64s_from_bytes(bytes: &[u8]) -> Vec<u64> {
    assert_eq!(bytes.len() % 8, 0);
    let mut out = Vec::new();
    for chunk in bytes.chunks(8) {
        out.push(u64::from_le_bytes([
            chunk[0], chunk[1], chunk[2], chunk[3], chunk[4], chunk[5], chunk[6], chunk[7],
        ]));
    }
    out
}

/// The header `(true, 32u16)` as bytes: the flag, one padding byte, then the
/// count in little-endian order. Its alignment requirement is 2.
fn header_true_32() -> Vec<u8> {
    let mut h = vec![1u8, 0u8];
    push_u16_le(&mut h, 32);
    h
}

fn tail_one_to_four_u64() -> Vec<u8> {
    let mut t = Vec::new();
    for v in [1u64, 2, 3, 4] {
        push_u64_le(&mut t, v);
    }
    t
}

#[test]
fn sized_types() {
    let header = header_true_32();
    let tail = tail_one_to_four_u64();
    let mixed = DynStruct::new(header.clone(), 2, DynArg::from_raw(tail, 8, ShapeMeta::Fixed));
    assert_eq!(mixed.read_header(), header);
    assert_eq!(u64s_from_bytes(&mixed.read_tail()), vec![1, 2, 3, 4]);
}

#[test]
fn unsized_types() {
    let header = header_true_32();
    let tail = tail_one_to_four_u64();
    let arg = DynArg::from_raw(tail, 8, ShapeMeta::Fixed).widen_to_slice(4, 8);
    let mixed = DynStruct::new(header.clone(), 2, arg);
    assert_eq!(mixed.read_header(), header);
    assert_eq!(u64s_from_bytes(&mixed.read_tail()), vec![1, 2, 3, 4]);
    assert_eq!(mixed.metadata(), ShapeMeta::ElemCount(4));
}

#[test]
fn zero_sized_types() {
    // A header with no bytes and a tail of two zero-sized elements.
    let arg = DynArg::from_raw(Vec::new(), 1, ShapeMeta::Fixed).widen_to_slice(2, 0);
    let zero = DynStruct::new(Vec::new(), 1, arg);
    assert_eq!(zero.read_header(), Vec::<u8>::new());
    assert_eq!(zero.read_tail(), Vec::<u8>::new());
    assert_eq!(zero.total_size(), 0);
    assert!(!zero.is_allocated());
}

#[test]
fn transmute() {
    // Header (false, 50usize): the flag, seven padding bytes, the count.
    let mut header = vec![0u8; 8];
    push_u64_le(&mut header, 50);
    let mut tail = Vec::new();
    for v in [1u32, 2, 3, 4] {
        push_u32_le(&mut tail, v);
    }
    let arg = DynArg::from_raw(tail, 4, ShapeMeta::Fixed).widen_to_slice(4, 4);
    let mixed = DynStruct::new(header.clone(), 8, arg);
    assert_eq!(mixed.read_header(), header);
    assert_eq!(u32s_from_bytes(&mixed.read_tail()), vec![1, 2, 3, 4]);

    // Re-type to a layout-identical record { foo: bool, bar: usize, baz: [u32] }.
    let mixed = mixed.transmute();
    let header = mixed.read_header();
    assert_eq!(header[0], 0u8);
    assert_eq!(
        u64::from_le_bytes([
            header[8], header[9], header[10], header[11], header[12], header[13], header[14],
            header[15],
        ]),
        50
    );
    assert_eq!(u32s_from_bytes(&mixed.read_tail()), vec![1, 2, 3, 4]);
}

#[test]
fn size_law_concrete() {
    // A 4-byte header before an 8-aligned, 32-byte tail: 4 bytes of padding.
    let tail = tail_one_to_four_u64();
    let arg = DynArg::from_raw(tail, 8, ShapeMeta::Fixed);
    assert_eq!(DynStruct::size(4, &arg), 4 + 4 + 32);
    assert_eq!(DynStruct::align(2, &arg), 8);
    let composite = DynStruct::new(header_true_32(), 2, arg);
    assert_eq!(composite.total_size(), 40);
    assert_eq!(composite.header_size(), 4);
    assert_eq!(composite.padding(), 4);
    assert_eq!(composite.alignment(), 8);
}

#[test]
fn padding_examples() {
    assert_eq!(dyn_struct::layout::padding_for(4, 8), 4);
    assert_eq!(dyn_struct::layout::padding_for(8, 8), 0);
    assert_eq!(dyn_struct::layout::padding_for(0, 1), 0);
    assert_eq!(dyn_struct::layout::padding_for(5, 4), 3);
    assert_eq!(dyn_struct::layout::padding_for(0, 16), 0);
}

#[test]
fn widening_preserves_consumed_bytes() {
    let bytes = tail_one_to_four_u64();
    let direct = DynArg::from_raw(bytes.clone(), 8, ShapeMeta::Fixed);
    let widened = DynArg::from_raw(bytes, 8, ShapeMeta::Fixed).widen_to_slice(4, 8);
    assert_eq!(widened.metadata(), ShapeMeta::ElemCount(4));
    assert_eq!(direct.as_ptr(), widened.as_ptr());

    let mut dst_direct = vec![0xAAu8; 40];
    let mut dst_widened = vec![0xAAu8; 40];
    direct.write_into(&mut dst_direct, 8);
    widened.write_into(&mut dst_widened, 8);
    assert_eq!(dst_direct, dst_widened);
}

#[test]
fn write_into_leaves_surroundings() {
    let arg = DynArg::from_raw(vec![7u8, 8, 9], 1, ShapeMeta::Fixed);
    let mut dst = vec![0xFFu8; 8];
    arg.write_into(&mut dst, 2);
    assert_eq!(dst, vec![0xFF, 0xFF, 7, 8, 9, 0xFF, 0xFF, 0xFF]);
}

#[test]
fn capture_introspection() {
    let arg = DynArg::from_raw(vec![5u8, 6, 7, 8], 4, ShapeMeta::Fixed);
    assert_eq!(arg.size(), 4);
    assert_eq!(arg.align(), 4);
    assert_eq!(arg.metadata(), ShapeMeta::Fixed);
    assert_eq!(arg.as_ptr(), &vec![5u8, 6, 7, 8]);
}

#[test]
fn widening_to_interface() {
    let arg = DynArg::from_raw(vec![42u8; 16], 8, ShapeMeta::Fixed).widen_to_iface(3);
    assert_eq!(arg.metadata(), ShapeMeta::Behavior(3));
    assert_eq!(arg.size(), 16);
    assert_eq!(arg.align(), 8);
    let composite = DynStruct::new(vec![41u8], 1, arg);
    assert_eq!(composite.read_header(), vec![41u8]);
    assert_eq!(composite.read_tail(), vec![42u8; 16]);
    assert_eq!(composite.metadata(), ShapeMeta::Behavior(3));
}

#[test]
fn unchecked_reinterpretation_replaces_descriptor() {
    let tail = tail_one_to_four_u64();
    let arg = DynArg::from_raw(tail.clone(), 8, ShapeMeta::Fixed).widen_to_slice(4, 8);
    let composite = DynStruct::new(header_true_32(), 2, arg);
    assert_eq!(composite.metadata(), ShapeMeta::ElemCount(4));
    let reborn = composite.more_unsafe_transmute(ShapeMeta::ElemCount(32));
    assert_eq!(reborn.metadata(), ShapeMeta::ElemCount(32));
    assert_eq!(reborn.read_header(), header_true_32());
    assert_eq!(reborn.read_tail(), tail);
}

#[test]
fn example_scenario() {
    // Header (true, 32), tail of four 8-byte integers.
    let header = header_true_32();
    let tail = tail_one_to_four_u64();
    let arg = DynArg::from_raw(tail, 8, ShapeMeta::Fixed).widen_to_slice(4, 8);
    let composite = DynStruct::new(header, 2, arg);
    assert_eq!(composite.total_size(), 40);

    // Reinterpret into a record { flag: bool, n: u16, data: [u64] } with an
    // identical layout and descriptor representation.
    let record = composite.transmute();
    let header = record.read_header();
    let flag = header[0] != 0;
    let n = u16::from_le_bytes([header[2], header[3]]);
    let data = u64s_from_bytes(&record.read_tail());
    assert!(flag);
    assert_eq!(n, 32);
    assert_eq!(data, vec![1, 2, 3, 4]);
    assert_eq!(record.metadata(), ShapeMeta::ElemCount(4));
}
