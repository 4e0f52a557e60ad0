use practice_tool::bitflag::Bitflag;
use practice_tool::memory::{HostMemory, MemoryImage};
use practice_tool::pointer_chain::PointerChain;

fn image() -> MemoryImage {
    // 0x1000: pointer to 0x1020; 0x1008: null pointer; 0x1010: pointer out of the image;
    // 0x1020..0x1040: data.
    let mut data = vec![0u8; 0x40];
    data[0..8].copy_from_slice(&0x1020u64.to_le_bytes());
    data[0x10..0x18].copy_from_slice(&0x9000u64.to_le_bytes());
    data[0x20..0x28].copy_from_slice(&0x1000u64.to_le_bytes());
    data[0x30..0x34].copy_from_slice(&0xDEADBEEFu32.to_le_bytes());
    data[0x38] = 0b0000_0101;
    MemoryImage::new(0x1000, data)
}

#[test]
fn guarded_copies_stay_inside_the_image() {
    let mut mem = image();
    assert_eq!(mem.try_copy(0x1030, 4), Some(vec![0xEF, 0xBE, 0xAD, 0xDE]));
    assert_eq!(mem.try_copy(0x1040, 0), Some(vec![]));
    assert_eq!(mem.try_copy(0x103F, 2), None);
    assert_eq!(mem.try_copy(0x0FFF, 1), None);
    assert_eq!(mem.try_copy(u64::MAX, 2), None);
    assert!(!mem.try_store(0x103E, &[1, 2, 3]));
    assert_eq!(mem.try_copy(0x103E, 2), Some(vec![0, 0]));
    assert!(mem.try_store(0x103E, &[1, 2]));
    assert_eq!(mem.try_copy(0x103E, 2), Some(vec![1, 2]));
}

#[test]
fn chain_resolves_through_pointers() {
    let mem = image();
    assert_eq!(PointerChain::new(0x1234, vec![]).resolve(&mem), Some(0x1234));
    assert_eq!(PointerChain::new(0x1000, vec![0x30]).resolve(&mem), Some(0x1030));
    assert_eq!(PointerChain::new(0x1000, vec![0, 0x10]).resolve(&mem), Some(0x1030));
    assert_eq!(PointerChain::new(0x1000, vec![0, 0, 0, 0x10]).resolve(&mem), Some(0x1030));
    assert_eq!(PointerChain::new(0x1000, vec![0, 0x10]).read_u32(&mem), Some(0xDEADBEEF));
    assert_eq!(PointerChain::new(0x1000, vec![0, 0]).read_u64(&mem), Some(0x1000));
}

#[test]
fn null_unmapped_or_misaligned_intermediate_yields_none() {
    let mem = image();
    let null = PointerChain::new(0x1000, vec![8, 0x10]);
    assert_eq!(null.resolve(&mem), None);
    assert_eq!(null.read_u32(&mem), None);
    assert_eq!(null.read_bytes(&mem, 0), None);
    let null_in_the_middle = PointerChain::new(0x1000, vec![0, 0x18, 0]);
    assert_eq!(null_in_the_middle.read_u8(&mem), None);
    let dangling = PointerChain::new(0x1000, vec![0x10, 0]);
    assert_eq!(dangling.resolve(&mem), Some(0x9000));
    assert_eq!(dangling.read_u8(&mem), None);
    let through_dangling = PointerChain::new(0x1000, vec![0x10, 0, 0]);
    assert_eq!(through_dangling.resolve(&mem), None);
    let misaligned = PointerChain::new(0x1000, vec![4, 0]);
    assert_eq!(misaligned.resolve(&mem), None);
    let overflowing = PointerChain::new(u64::MAX, vec![1]);
    assert_eq!(overflowing.resolve(&mem), None);
    let past_the_end = PointerChain::new(0x1000, vec![0, u64::MAX]);
    assert_eq!(past_the_end.resolve(&mem), None);
}

#[test]
fn write_to_unresolved_chain_changes_nothing() {
    let mut mem = image();
    let before = mem.data.clone();
    PointerChain::new(0x1000, vec![8, 0x10]).write_u32(&mut mem, 7);
    PointerChain::new(0x1000, vec![0x10, 0]).write_u8(&mut mem, 7);
    PointerChain::new(0x1000, vec![0x3E]).write_u32(&mut mem, 7);
    assert_eq!(mem.data, before);
}

#[test]
fn read_after_write_gives_the_value() {
    let mut mem = image();
    let chain = PointerChain::new(0x1000, vec![0, 0x10]);
    for value in [0u32, 1, 0x0102_0304, u32::MAX] {
        chain.write_u32(&mut mem, value);
        assert_eq!(chain.read_u32(&mem), Some(value));
    }
    assert_eq!(mem.data[0x30..0x34], u32::MAX.to_le_bytes());
    for value in [0u64, 0x0102_0304_0506_0708, u64::MAX] {
        chain.write_u64(&mut mem, value);
        assert_eq!(chain.read_u64(&mem), Some(value));
        assert_eq!(mem.data[0x30..0x38], value.to_le_bytes());
    }
    chain.write_bytes(&mut mem, &[9, 8, 7]);
    assert_eq!(chain.read_bytes(&mem, 3), Some(vec![9, 8, 7]));
    chain.write_u8(&mut mem, 0xAB);
    assert_eq!(chain.read_u8(&mem), Some(0xAB));
}

#[test]
fn toggle_twice_restores_the_byte() {
    let mut mem = image();
    let flag = Bitflag::new(PointerChain::new(0x1000, vec![0, 0x18]), 0b0000_0110);
    let before = mem.data.clone();
    assert_eq!(flag.get(&mem), Some(true));
    flag.toggle(&mut mem);
    assert_eq!(mem.data[0x38], 0b0000_0011);
    flag.toggle(&mut mem);
    assert_eq!(mem.data, before);
    assert_eq!(flag.get(&mem), Some(true));
}

#[test]
fn set_and_get_a_single_bit() {
    let mut mem = image();
    let flag = Bitflag::new(PointerChain::new(0x1038, vec![]), 0b0000_0010);
    assert_eq!(flag.get(&mem), Some(false));
    flag.set(&mut mem, true);
    assert_eq!(flag.get(&mem), Some(true));
    assert_eq!(mem.data[0x38], 0b0000_0111);
    flag.set(&mut mem, false);
    assert_eq!(flag.get(&mem), Some(false));
    assert_eq!(mem.data[0x38], 0b0000_0101);
    flag.toggle(&mut mem);
    assert_eq!(flag.get(&mem), Some(true));
}

#[test]
fn flag_on_unresolved_chain_reads_none_and_ignores_writes() {
    let mut mem = image();
    let before = mem.data.clone();
    let flag = Bitflag::new(PointerChain::new(0x1000, vec![8, 0]), 1);
    assert_eq!(flag.get(&mem), None);
    flag.toggle(&mut mem);
    flag.set(&mut mem, true);
    assert_eq!(mem.data, before);
}
