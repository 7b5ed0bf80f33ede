use arraynforest::backend::buffers::{BufferUsages, Capability};

#[test]
fn flags_are_those_of_the_device_api() {
    assert_eq!(BufferUsages::of(Capability::MapRead).bits, wgpu::BufferUsages::MAP_READ.bits());
    assert_eq!(BufferUsages::of(Capability::MapWrite).bits, wgpu::BufferUsages::MAP_WRITE.bits());
    assert_eq!(BufferUsages::of(Capability::CopySrc).bits, wgpu::BufferUsages::COPY_SRC.bits());
    assert_eq!(BufferUsages::of(Capability::CopyDst).bits, wgpu::BufferUsages::COPY_DST.bits());
}

#[test]
fn flags_have_the_stated_bits() {
    assert_eq!(BufferUsages::of(Capability::MapRead).bits, 1);
    assert_eq!(BufferUsages::of(Capability::MapWrite).bits, 2);
    assert_eq!(BufferUsages::of(Capability::CopySrc).bits, 4);
    assert_eq!(BufferUsages::of(Capability::CopyDst).bits, 8);
}

#[test]
fn from_bits_keeps_the_bits() {
    assert_eq!(BufferUsages::from_bits(0x85).bits, 0x85);
    assert_eq!(BufferUsages::from_bits(0), BufferUsages { bits: 0 });
}

#[test]
fn union_joins_the_flags() {
    let usage = BufferUsages::of(Capability::CopyDst).union(BufferUsages::of(Capability::MapRead));
    assert_eq!(usage.bits, 9);
    assert_eq!(
        usage.bits,
        (wgpu::BufferUsages::COPY_DST | wgpu::BufferUsages::MAP_READ).bits()
    );
}

#[test]
fn allows_agrees_with_the_device_api() {
    let capabilities = [
        (Capability::MapRead, wgpu::BufferUsages::MAP_READ),
        (Capability::MapWrite, wgpu::BufferUsages::MAP_WRITE),
        (Capability::CopySrc, wgpu::BufferUsages::COPY_SRC),
        (Capability::CopyDst, wgpu::BufferUsages::COPY_DST),
    ];
    for bits in 0u32..1024 {
        let usage = BufferUsages::from_bits(bits);
        let theirs = wgpu::BufferUsages::from_bits_retain(bits);
        for (capability, flag) in capabilities {
            assert_eq!(usage.allows(capability), theirs.contains(flag));
        }
    }
}

#[test]
fn allows_only_what_the_flags_grant() {
    let usage = BufferUsages::of(Capability::CopySrc).union(BufferUsages::of(Capability::MapRead));
    assert!(usage.allows(Capability::CopySrc));
    assert!(usage.allows(Capability::MapRead));
    assert!(!usage.allows(Capability::CopyDst));
    assert!(!usage.allows(Capability::MapWrite));
    assert!(!BufferUsages::from_bits(0).allows(Capability::MapRead));
}

#[test]
fn contains_asks_for_every_flag() {
    let usage = BufferUsages::from_bits(0b1101);
    assert!(usage.contains(BufferUsages::from_bits(0b0101)));
    assert!(usage.contains(BufferUsages::from_bits(0)));
    assert!(!usage.contains(BufferUsages::from_bits(0b0011)));
    assert!(usage.contains(usage));
}

#[test]
fn storage_flag_grants_none_of_the_capabilities() {
    let usage = BufferUsages::from_bits(wgpu::BufferUsages::STORAGE.bits());
    assert!(!usage.allows(Capability::MapRead));
    assert!(!usage.allows(Capability::MapWrite));
    assert!(!usage.allows(Capability::CopySrc));
    assert!(!usage.allows(Capability::CopyDst));
}
