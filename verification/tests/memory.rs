use nescore::mem::Memory;

#[test]
fn read_bank() {
    let mut data = vec![0; 10];
    data[5] = 0xDE;

    let mem = Memory::new(data, 1, 10);

    assert_eq!(mem.read(0, 5), 0xDE);
}

#[test]
fn read_bank_2() {
    let mut data = vec![0; 20];
    data[10] = 0xDE;

    let mem = Memory::new(data, 2, 10);

    assert_eq!(mem.read(1, 0), 0xDE);
}

#[test]
fn write_then_read_bank() {
    let data = vec![0; 32];
    let mut mem = Memory::new(data, 4, 8);

    mem.write(2, 3, 0xAB);

    assert_eq!(mem.read(2, 3), 0xAB);
    assert_eq!(mem.read_first(19), 0xAB);
    assert_eq!(mem.size(), 32);
}

#[test]
fn read_last_bank() {
    let mut data = vec![0; 32];
    data[25] = 0x77;
    let mem = Memory::new(data, 4, 8);

    assert_eq!(mem.read_last(1), 0x77);
}
