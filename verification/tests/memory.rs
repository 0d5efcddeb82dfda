use intel8080::memory::{self, Linear, Memory};

#[test]
fn linear_memory_starts_zeroed() {
    let memory = Linear::new();
    assert_eq!(memory.data.len(), 0x10000);
    assert!(memory.data.iter().all(|byte| *byte == 0));
    assert_eq!(memory.get(0x0000), 0);
    assert_eq!(memory.get(0xffff), 0);
}

#[test]
fn set_then_get() {
    let mut memory = Linear::new();
    memory.set(0x1234, 0xab);
    memory.set(0xffff, 0xcd);
    memory.set(0x0000, 0xef);
    assert_eq!(memory.get(0x1234), 0xab);
    assert_eq!(memory.get(0xffff), 0xcd);
    assert_eq!(memory.get(0x0000), 0xef);
    assert_eq!(memory.get(0x1233), 0);
    assert_eq!(memory.get(0x1235), 0);
}

#[test]
fn words_are_little_endian() {
    let mut memory = Linear::new();
    memory.set(0x2000, 0x34);
    memory.set(0x2001, 0x12);
    assert_eq!(memory.get_word(0x2000), 0x1234);
    memory.set_word(0x3000, 0xbeef);
    assert_eq!(memory.get(0x3000), 0xef);
    assert_eq!(memory.get(0x3001), 0xbe);
    assert_eq!(memory.get_word(0x3000), 0xbeef);
}

#[test]
fn a_word_at_the_last_address_wraps_to_zero() {
    let mut memory = Linear::new();
    memory.set_word(0xffff, 0xa55a);
    assert_eq!(memory.get(0xffff), 0x5a);
    assert_eq!(memory.get(0x0000), 0xa5);
    assert_eq!(memory.get_word(0xffff), 0xa55a);
    assert_eq!(memory.get(0x0001), 0);
    assert_eq!(memory.get(0xfffe), 0);
}

#[test]
fn load_copies_an_image() {
    let mut memory = Linear::new();
    memory.set(0x00ff, 0x11);
    memory.set(0x0100, 0x22);
    memory.set(0x0103, 0x33);
    memory.set(0x0104, 0x44);
    memory::load(&mut memory, &[0xaa, 0xbb, 0xcc, 0xdd], 0x0100);
    assert_eq!(memory.data[0x00ff..0x0105], [0x11, 0xaa, 0xbb, 0xcc, 0xdd, 0x44]);
    assert_eq!(memory.data.len(), 0x10000);
}

#[test]
fn load_at_the_ends_of_memory() {
    let mut memory = Linear::new();
    memory::load(&mut memory, &[1, 2], 0);
    memory::load(&mut memory, &[3, 4], 0xfffe);
    memory::load(&mut memory, &[], 0x10000);
    assert_eq!(memory.data[0..3], [1, 2, 0]);
    assert_eq!(memory.data[0xfffd..], [0, 3, 4]);
}

#[test]
fn load_of_a_whole_address_space() {
    let image: Vec<u8> = (0..0x10000u32).map(|i| (i % 251) as u8).collect();
    let mut memory = Linear::new();
    memory::load(&mut memory, &image, 0);
    assert_eq!(memory.data, image);
}
