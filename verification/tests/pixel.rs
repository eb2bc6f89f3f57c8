use arbitrary_int::traits::Integer;
use arbitrary_int::{u5, u6};
use libretro_rs::retro::pixel::format::{Format, ORGB1555, RGB565, XRGB8888};
use libretro_rs::retro::pixel::uint::{U5, U6};

#[test]
fn xrgb8888_decodes_red() {
    let pixel = XRGB8888::new_with_raw_value(0x00FF0000);
    assert_eq!(pixel.r(), 255);
    assert_eq!(pixel.g(), 0);
    assert_eq!(pixel.b(), 0);
    assert_eq!(pixel.x(), 0);
}

#[test]
fn rgb565_decodes_red() {
    let pixel = RGB565::new_with_raw_value(0xF800);
    assert_eq!(pixel.r().value(), 31);
    assert_eq!(pixel.g().value(), 0);
    assert_eq!(pixel.b().value(), 0);
}

#[test]
fn orgb1555_decodes_each_channel() {
    let pixel = ORGB1555::new_with_raw_value(0b0_10101_01010_11011);
    assert_eq!(pixel.r().value(), 0b10101);
    assert_eq!(pixel.g().value(), 0b01010);
    assert_eq!(pixel.b().value(), 0b11011);
    // Bit 15 belongs to no channel.
    let pixel = ORGB1555::new_with_raw_value(0x8000);
    assert_eq!(pixel.r().value(), 0);
    assert_eq!(pixel.g().value(), 0);
    assert_eq!(pixel.b().value(), 0);
}

#[test]
fn rgb565_decodes_each_channel() {
    let pixel = RGB565::new_with_raw_value(0b10101_010101_11011);
    assert_eq!(pixel.r().value(), 0b10101);
    assert_eq!(pixel.g().value(), 0b010101);
    assert_eq!(pixel.b().value(), 0b11011);
}

#[test]
fn xrgb8888_decodes_each_channel() {
    let pixel = XRGB8888::new_with_raw_value(0x12345678);
    assert_eq!(pixel.x(), 0x12);
    assert_eq!(pixel.r(), 0x34);
    assert_eq!(pixel.g(), 0x56);
    assert_eq!(pixel.b(), 0x78);
}

#[test]
fn raw_value_round_trips() {
    for raw in [0u16, 1, 0x7FFF, 0x8000, 0xF800, 0x07E0, 0x001F, 0xFFFF, 0x1234] {
        assert_eq!(ORGB1555::new_with_raw_value(raw).raw_value(), raw);
        assert_eq!(RGB565::new_with_raw_value(raw).raw_value(), raw);
    }
    for raw in [0u32, 1, 0x00FF0000, 0xFF000000, 0xFFFFFFFF, 0x12345678] {
        assert_eq!(XRGB8888::new_with_raw_value(raw).raw_value(), raw);
    }
}

#[test]
fn raw_value_round_trips_for_every_16_bit_value() {
    for raw in 0..=u16::MAX {
        assert_eq!(ORGB1555::new_with_raw_value(raw).raw_value(), raw);
        assert_eq!(RGB565::new_with_raw_value(raw).raw_value(), raw);
    }
}

#[test]
fn defaults_are_zero() {
    assert_eq!(ORGB1555::default().raw_value(), 0);
    assert_eq!(RGB565::default().raw_value(), 0);
    assert_eq!(XRGB8888::default().raw_value(), 0);
    assert_eq!(XRGB8888::default(), XRGB8888::new_with_raw_value(0));
}

#[test]
fn orgb1555_setters_place_the_bits() {
    let zero = ORGB1555::new_with_raw_value(0);
    assert_eq!(zero.with_r(U5::new(31)).raw_value(), 0x7C00);
    assert_eq!(zero.with_g(U5::new(31)).raw_value(), 0x03E0);
    assert_eq!(zero.with_b(U5::new(31)).raw_value(), 0x001F);
    assert_eq!(zero.with_r(U5::new(1)).raw_value(), 0x0400);
    let ones = ORGB1555::new_with_raw_value(0xFFFF);
    assert_eq!(ones.with_r(U5::new(0)).raw_value(), 0x83FF);
    assert_eq!(ones.with_g(U5::new(0)).raw_value(), 0xFC1F);
    assert_eq!(ones.with_b(U5::new(0)).raw_value(), 0xFFE0);
}

#[test]
fn rgb565_setters_place_the_bits() {
    let zero = RGB565::new_with_raw_value(0);
    assert_eq!(zero.with_r(U5::new(31)).raw_value(), 0xF800);
    assert_eq!(zero.with_g(U6::new(63)).raw_value(), 0x07E0);
    assert_eq!(zero.with_b(U5::new(31)).raw_value(), 0x001F);
    let ones = RGB565::new_with_raw_value(0xFFFF);
    assert_eq!(ones.with_r(U5::new(0)).raw_value(), 0x07FF);
    assert_eq!(ones.with_g(U6::new(0)).raw_value(), 0xF81F);
    assert_eq!(ones.with_b(U5::new(0)).raw_value(), 0xFFE0);
}

#[test]
fn xrgb8888_setters_place_the_bits() {
    let zero = XRGB8888::new_with_raw_value(0);
    assert_eq!(zero.with_x(0xAB).raw_value(), 0xAB000000);
    assert_eq!(zero.with_r(0xAB).raw_value(), 0x00AB0000);
    assert_eq!(zero.with_g(0xAB).raw_value(), 0x0000AB00);
    assert_eq!(zero.with_b(0xAB).raw_value(), 0x000000AB);
    let ones = XRGB8888::new_with_raw_value(0xFFFFFFFF);
    assert_eq!(ones.with_x(0).raw_value(), 0x00FFFFFF);
    assert_eq!(ones.with_r(0).raw_value(), 0xFF00FFFF);
    assert_eq!(ones.with_g(0).raw_value(), 0xFFFF00FF);
    assert_eq!(ones.with_b(0).raw_value(), 0xFFFFFF00);
}

#[test]
fn orgb1555_channels_are_isolated() {
    for raw in [0u16, 0xFFFF, 0x8000, 0x1234, 0xABCD] {
        let pixel = ORGB1555::new_with_raw_value(raw);
        for value in [0u8, 1, 17, 31] {
            let red = pixel.with_r(U5::new(value));
            assert_eq!(red.r().value(), value);
            assert_eq!(red.g(), pixel.g());
            assert_eq!(red.b(), pixel.b());
            assert_eq!(red.raw_value() & 0x8000, raw & 0x8000);
            let green = pixel.with_g(U5::new(value));
            assert_eq!(green.g().value(), value);
            assert_eq!(green.r(), pixel.r());
            assert_eq!(green.b(), pixel.b());
            assert_eq!(green.raw_value() & 0x8000, raw & 0x8000);
            let blue = pixel.with_b(U5::new(value));
            assert_eq!(blue.b().value(), value);
            assert_eq!(blue.r(), pixel.r());
            assert_eq!(blue.g(), pixel.g());
            assert_eq!(blue.raw_value() & 0x8000, raw & 0x8000);
        }
    }
}

#[test]
fn rgb565_channels_are_isolated() {
    for raw in [0u16, 0xFFFF, 0x8000, 0x1234, 0xABCD] {
        let pixel = RGB565::new_with_raw_value(raw);
        for value in [0u8, 1, 17, 31] {
            let red = pixel.with_r(U5::new(value));
            assert_eq!(red.r().value(), value);
            assert_eq!(red.g(), pixel.g());
            assert_eq!(red.b(), pixel.b());
            let blue = pixel.with_b(U5::new(value));
            assert_eq!(blue.b().value(), value);
            assert_eq!(blue.r(), pixel.r());
            assert_eq!(blue.g(), pixel.g());
        }
        for value in [0u8, 1, 33, 63] {
            let green = pixel.with_g(U6::new(value));
            assert_eq!(green.g().value(), value);
            assert_eq!(green.r(), pixel.r());
            assert_eq!(green.b(), pixel.b());
        }
    }
}

#[test]
fn xrgb8888_channels_are_isolated() {
    for raw in [0u32, 0xFFFFFFFF, 0x12345678, 0x00FF0000] {
        let pixel = XRGB8888::new_with_raw_value(raw);
        for value in [0u8, 1, 0x80, 0xFF] {
            let x = pixel.with_x(value);
            assert_eq!((x.x(), x.r(), x.g(), x.b()), (value, pixel.r(), pixel.g(), pixel.b()));
            let r = pixel.with_r(value);
            assert_eq!((r.x(), r.r(), r.g(), r.b()), (pixel.x(), value, pixel.g(), pixel.b()));
            let g = pixel.with_g(value);
            assert_eq!((g.x(), g.r(), g.g(), g.b()), (pixel.x(), pixel.r(), value, pixel.b()));
            let b = pixel.with_b(value);
            assert_eq!((b.x(), b.r(), b.g(), b.b()), (pixel.x(), pixel.r(), pixel.g(), value));
        }
    }
}

#[test]
fn setters_in_place_agree_with_the_copying_ones() {
    let mut pixel = ORGB1555::new_with_raw_value(0x8000);
    pixel.set_r(U5::new(3));
    pixel.set_g(U5::new(5));
    pixel.set_b(U5::new(7));
    assert_eq!(pixel.raw_value(), 0x8000 | (3 << 10) | (5 << 5) | 7);

    let mut pixel = RGB565::new_with_raw_value(0);
    pixel.set_r(U5::new(3));
    pixel.set_g(U6::new(40));
    pixel.set_b(U5::new(7));
    assert_eq!(pixel.raw_value(), (3 << 11) | (40 << 5) | 7);

    let mut pixel = XRGB8888::new_with_raw_value(0);
    pixel.set_x(1);
    pixel.set_r(2);
    pixel.set_g(3);
    pixel.set_b(4);
    assert_eq!(pixel.raw_value(), 0x01020304);
}

#[test]
fn narrow_integers_keep_their_range() {
    assert_eq!(U5::new(0).value(), 0);
    assert_eq!(U5::new(31).value(), 31);
    assert_eq!(U5::try_new(31).map(U5::value), Some(31));
    assert_eq!(U5::try_new(32), None);
    assert_eq!(U5::try_new(255), None);
    assert_eq!(U5::MAX, 31);
    assert_eq!(U6::new(63).value(), 63);
    assert_eq!(U6::try_new(63).map(U6::value), Some(63));
    assert_eq!(U6::try_new(64), None);
    assert_eq!(U6::MAX, 63);
}

#[test]
fn formats_report_their_storage() {
    assert_eq!(ORGB1555::size(), 2);
    assert_eq!(RGB565::size(), 2);
    assert_eq!(XRGB8888::size(), 4);
    assert_eq!(ORGB1555::new_with_raw_value(0xABCD).raw(), 0xABCD);
    assert_eq!(RGB565::new_with_raw_value(0xABCD).raw(), 0xABCD);
    assert_eq!(XRGB8888::new_with_raw_value(0x89ABCDEF).raw(), 0x89ABCDEF);
}

#[test]
fn channels_agree_with_arbitrary_int_on_every_16_bit_value() {
    for raw in 0..=u16::MAX {
        let pixel = ORGB1555::new_with_raw_value(raw);
        assert_eq!(pixel.r().value(), u5::extract_u16(raw, 10).value());
        assert_eq!(pixel.g().value(), u5::extract_u16(raw, 5).value());
        assert_eq!(pixel.b().value(), u5::extract_u16(raw, 0).value());
        let pixel = RGB565::new_with_raw_value(raw);
        assert_eq!(pixel.r().value(), u5::extract_u16(raw, 11).value());
        assert_eq!(pixel.g().value(), u6::extract_u16(raw, 5).value());
        assert_eq!(pixel.b().value(), u5::extract_u16(raw, 0).value());
    }
}

#[test]
fn narrow_integers_agree_with_arbitrary_int() {
    for value in 0..=u8::MAX {
        assert_eq!(U5::try_new(value).map(U5::value), u5::try_new(value).ok().map(u5::value));
        assert_eq!(U6::try_new(value).map(U6::value), u6::try_new(value).ok().map(u6::value));
    }
    assert_eq!(U5::MAX, u5::MAX.value());
    assert_eq!(U6::MAX, u6::MAX.value());
}
