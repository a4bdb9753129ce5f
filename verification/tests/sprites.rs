use nescore::ppu::sprite_zero_hit_fires;
use nescore::sprite::Sprite;

#[test]
fn load_from_slice() {
    let data: [u8; 4] = [0, 2, 0, 3];
    let sprite = Sprite::from(&data[..], 0);

    assert_eq!(sprite.x, 3);
    assert_eq!(sprite.y, 1);
    assert_eq!(sprite.tile, 2);
}

#[test]
fn sprite_attributes() {
    let data: [u8; 4] = [0, 0, 0xFF, 0];
    let sprite = Sprite::from(&data[..], 0);

    assert_eq!(sprite.palette(), 3);
    assert_eq!(sprite.priority(), true);
    assert_eq!(sprite.flip_v(), true);
    assert_eq!(sprite.flip_h(), true);
}

#[test]
fn sprite_y_255() {
    let data: [u8; 4] = [255, 0, 0, 0];
    let sprite = Sprite::from(&data[..], 0);

    assert_eq!(sprite.y, 256);
}

#[test]
fn sprite_8x16_mode() {
    let data: [u8; 4] = [0, 0x0F, 0, 0];
    let sprite = Sprite::from(&data[..], 0);

    assert_eq!(sprite.pattern_table_8x16(), 0x1000);
    assert_eq!(sprite.tile_number_8x16(), 0x0E);
}

#[test]
fn sprite_zero_hit_never_at_255_or_layers_off() {
    // both layers on: fires in the open field, never at x=255
    assert!(sprite_zero_hit_fires(0x18, 100));
    assert!(!sprite_zero_hit_fires(0x18, 255));
    // either layer off: never fires
    assert!(!sprite_zero_hit_fires(0x10, 100));
    assert!(!sprite_zero_hit_fires(0x08, 100));
    assert!(!sprite_zero_hit_fires(0x00, 100));
}
