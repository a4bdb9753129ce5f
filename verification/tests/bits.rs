use nescore::bits::{bit_is_set, bv, mask_clear, mask_is_clear, mask_is_set, mask_set};

#[test]
fn test_mask_is_set() {
    let x = 0x0F;
    let m = 0x01;

    assert_eq!(mask_is_set(x, m), true);
}

#[test]
fn test_mask_is_clear() {
    let x = 0x0E;
    let m = 0x01;

    assert_eq!(mask_is_clear(x, m), true);
}

#[test]
fn test_bit_is_set() {
    let x = 0x80;
    let b = 7;

    assert_eq!(bit_is_set(x, b), true);
}

#[test]
fn test_mask_set() {
    let x = mask_set(0x00, 0x0F);

    assert_eq!(x, 0x0F);
}

#[test]
fn test_mask_clear() {
    let x = mask_clear(0x0F, 0x0F);

    assert_eq!(x, 0x00);
}

#[test]
fn test_bit_value() {
    assert_eq!(bv(0), 0x01);
    assert_eq!(bv(1), 0x02);
    assert_eq!(bv(2), 0x04);
    assert_eq!(bv(3), 0x08);
    assert_eq!(bv(4), 0x10);
    assert_eq!(bv(5), 0x20);
    assert_eq!(bv(6), 0x40);
    assert_eq!(bv(7), 0x80);
}
