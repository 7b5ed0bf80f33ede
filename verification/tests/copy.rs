use arraynforest::backend::buffers::{
    Buffer, BufferCopyError, BufferUsages, Capability, CopyInfo,
};
use arraynforest::backend::util::{Bound, Bounds};

fn usage(capabilities: &[Capability]) -> BufferUsages {
    let mut usage = BufferUsages::from_bits(0);
    for capability in capabilities {
        usage = usage.union(BufferUsages::of(*capability));
    }
    usage
}

fn bytes_of(values: &[f32]) -> u64 {
    (values.len() * std::mem::size_of::<f32>()) as u64
}

#[test]
fn new_buffer_keeps_usage_and_size() {
    let flags = usage(&[Capability::CopySrc, Capability::MapRead]);
    let buffer: Buffer<f32> = Buffer::new(flags, 16);
    assert_eq!(buffer.usage(), flags);
    assert_eq!(buffer.size(), 16);
}

#[test]
fn copy_of_full_range_to_full_range_moves_the_whole_buffer() {
    let values = [1.0f32, 2.0, 3.0, 4.0];
    let source: Buffer<f32> =
        Buffer::new(usage(&[Capability::CopySrc, Capability::MapRead]), bytes_of(&values));
    let mut destination: Buffer<f32> =
        Buffer::new(usage(&[Capability::CopyDst, Capability::MapRead]), source.size());
    let copy = source.try_copy_to(Bounds::full(), &mut destination, Bounds::full());
    assert_eq!(copy, Ok(CopyInfo { first_start: 0, second_start: 0, size: 16 }));
    let mapping = destination.slice(Bounds::full()).try_map().unwrap();
    assert_eq!(mapping.offset(), 0);
    assert_eq!(mapping.size(), 16);
}

#[test]
fn copy_into_buffer_without_copy_destination_is_refused() {
    let values = [1.0f32, 2.0, 3.0, 4.0];
    let source: Buffer<f32> =
        Buffer::new(usage(&[Capability::CopySrc, Capability::MapRead]), bytes_of(&values));
    let only_source = usage(&[Capability::CopySrc]);
    let mut destination: Buffer<f32> = Buffer::new(only_source, source.size());
    let copy = source.try_copy_to(Bounds::full(), &mut destination, Bounds::full());
    assert_eq!(copy, Err(BufferCopyError::InvalidDestinationBuffer(only_source)));
    assert_eq!(destination.usage(), only_source);
    assert_eq!(destination.size(), 16);
}

#[test]
fn copy_from_buffer_without_copy_source_is_refused() {
    let flags = usage(&[Capability::CopyDst, Capability::MapRead]);
    let source: Buffer<u32> = Buffer::new(flags, 16);
    let mut destination: Buffer<u32> = Buffer::new(usage(&[Capability::CopyDst]), 16);
    let copy = source.try_copy_to(Bounds::full(), &mut destination, Bounds::full());
    assert_eq!(copy, Err(BufferCopyError::InvalidSourceBuffer(flags)));
}

#[test]
fn source_is_checked_before_destination() {
    let none = BufferUsages::from_bits(0);
    let source: Buffer<u32> = Buffer::new(none, 16);
    let mut destination: Buffer<u32> = Buffer::new(none, 16);
    let copy = source.try_copy_to(Bounds::half_open(0, 4), &mut destination, Bounds::full());
    assert_eq!(copy, Err(BufferCopyError::InvalidSourceBuffer(none)));
}

#[test]
fn usage_is_checked_before_lengths() {
    let source: Buffer<u32> = Buffer::new(usage(&[Capability::CopySrc]), 16);
    let lacking = usage(&[Capability::MapRead]);
    let mut destination: Buffer<u32> = Buffer::new(lacking, 16);
    let copy = source.try_copy_to(Bounds::half_open(0, 4), &mut destination, Bounds::full());
    assert_eq!(copy, Err(BufferCopyError::InvalidDestinationBuffer(lacking)));
}

#[test]
fn copy_of_windows_of_unequal_length_is_refused() {
    let source: Buffer<u32> = Buffer::new(usage(&[Capability::CopySrc]), 16);
    let mut destination: Buffer<u32> = Buffer::new(usage(&[Capability::CopyDst]), 16);
    let from = Bounds::half_open(0, 8);
    let into = Bounds::half_open(4, 16);
    let copy = source.try_copy_to(from, &mut destination, into);
    assert_eq!(copy, Err(BufferCopyError::UnequalReferenceLengths(from, into)));
    assert_eq!(destination.size(), 16);
}

#[test]
fn copy_of_windows_of_equal_length_starts_where_they_start() {
    let source: Buffer<u32> = Buffer::new(usage(&[Capability::CopySrc]), 32);
    let mut destination: Buffer<u32> = Buffer::new(usage(&[Capability::CopyDst]), 16);
    let copy = source.try_copy_to(
        Bounds::half_open(8, 16),
        &mut destination,
        Bounds::new(Bound::Excluded(3), Bound::Included(11)),
    );
    assert_eq!(copy, Ok(CopyInfo { first_start: 8, second_start: 4, size: 8 }));
}

#[test]
fn each_range_is_resolved_against_its_own_buffer() {
    let source: Buffer<u32> = Buffer::new(usage(&[Capability::CopySrc]), 32);
    let mut destination: Buffer<u32> = Buffer::new(usage(&[Capability::CopyDst]), 16);
    let copy = source.try_copy_to(Bounds::full(), &mut destination, Bounds::full());
    assert_eq!(
        copy,
        Err(BufferCopyError::UnequalReferenceLengths(Bounds::full(), Bounds::full()))
    );
    let fitted = source.try_copy_to(Bounds::half_open(16, 64), &mut destination, Bounds::full());
    assert_eq!(fitted, Ok(CopyInfo { first_start: 16, second_start: 0, size: 16 }));
}

#[test]
fn copy_succeeds_exactly_when_the_windows_are_equally_long() {
    let source: Buffer<u8> = Buffer::new(usage(&[Capability::CopySrc]), 6);
    let mut destination: Buffer<u8> = Buffer::new(usage(&[Capability::CopyDst]), 5);
    for a in 0..8usize {
        for b in 0..8usize {
            for c in 0..8usize {
                for d in 0..8usize {
                    let from = Bounds::half_open(a, b);
                    let into = Bounds::half_open(c, d);
                    let first = (a.min(6), b.min(6).max(a.min(6)));
                    let second = (c.min(5), d.min(5).max(c.min(5)));
                    let copy = source.try_copy_to(from, &mut destination, into);
                    if first.1 - first.0 == second.1 - second.0 {
                        let info = copy.unwrap();
                        assert_eq!(info.first_start, first.0 as u64);
                        assert_eq!(info.second_start, second.0 as u64);
                        assert_eq!(info.size, (first.1 - first.0) as u64);
                        assert!(info.first_start + info.size <= source.size());
                        assert!(info.second_start + info.size <= destination.size());
                    } else {
                        assert_eq!(
                            copy,
                            Err(BufferCopyError::UnequalReferenceLengths(from, into))
                        );
                    }
                }
            }
        }
    }
}

#[test]
fn copy_of_empty_windows_moves_nothing() {
    let source: Buffer<u8> = Buffer::new(usage(&[Capability::CopySrc]), 6);
    let mut destination: Buffer<u8> = Buffer::new(usage(&[Capability::CopyDst]), 5);
    let copy = source.try_copy_to(
        Bounds::new(Bound::Unbounded, Bound::Excluded(0)),
        &mut destination,
        Bounds::half_open(9, 2),
    );
    assert_eq!(copy, Ok(CopyInfo { first_start: 0, second_start: 5, size: 0 }));
}

#[test]
fn copy_to_gives_the_copy_of_try_copy_to() {
    let source: Buffer<u32> = Buffer::new(usage(&[Capability::CopySrc]), 16);
    let mut destination: Buffer<u32> = Buffer::new(usage(&[Capability::CopyDst]), 16);
    let info = source.copy_to(Bounds::half_open(4, 12), &mut destination, Bounds::half_open(8, 16));
    assert_eq!(info, CopyInfo { first_start: 4, second_start: 8, size: 8 });
}

#[test]
fn buffers_test_copy_between() {
    let vec: Vec<f32> = vec![1., 2., 3., 4.];
    let x: Buffer<f32> = Buffer::new(usage(&[Capability::CopySrc]), bytes_of(&vec));
    let mut y: Buffer<f32> =
        Buffer::new(usage(&[Capability::CopyDst, Capability::MapRead]), x.size());

    let info = x.copy_to(Bounds::full(), &mut y, Bounds::full());
    assert_eq!(info, CopyInfo { first_start: 0, second_start: 0, size: x.size() });
    let y_read = y.slice(Bounds::full()).map();

    assert_eq!(y_read.size(), bytes_of(&vec));
}

#[test]
#[should_panic]
fn buffers_test_invalid_copy_between() {
    let vec: Vec<f32> = vec![1., 2., 3., 4.];
    let x: Buffer<f32> = Buffer::new(usage(&[Capability::CopyDst]), bytes_of(&vec));
    let mut y: Buffer<f32> =
        Buffer::new(usage(&[Capability::CopySrc, Capability::MapRead]), x.size());

    x.copy_to(Bounds::full(), &mut y, Bounds::full());
    let y_read = y.slice(Bounds::full()).map();

    assert_eq!(y_read.size(), bytes_of(&vec));
}

#[test]
fn mod_test_copy_between() {
    let vec: Vec<f32> = vec![1., 2., 3., 4.];
    let x: Buffer<f32> = Buffer::new(usage(&[Capability::CopySrc]), bytes_of(&vec));
    let mut y: Buffer<f32> =
        Buffer::new(usage(&[Capability::CopyDst, Capability::MapRead]), x.size());

    let info = x.copy_to(Bounds::full(), &mut y, Bounds::full());
    assert_eq!(info, CopyInfo { first_start: 0, second_start: 0, size: 16 });
    let y_read = y.slice(Bounds::full()).map();

    assert_eq!(y_read.offset(), 0);
    assert_eq!(y_read.size(), 16);
}

#[test]
#[should_panic]
fn mod_test_invalid_copy_between() {
    let vec: Vec<f32> = vec![1., 2., 3., 4.];
    let x: Buffer<f32> = Buffer::new(usage(&[Capability::CopyDst]), bytes_of(&vec));
    let mut y: Buffer<f32> =
        Buffer::new(usage(&[Capability::CopySrc, Capability::MapRead]), x.size());

    x.copy_to(Bounds::full(), &mut y, Bounds::full());
    let y_read = y.slice(Bounds::full()).map();

    assert_eq!(y_read.size(), 16);
}
