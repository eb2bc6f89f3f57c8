use libretro_rs::retro::pixel::format::{ORGB1555, RGB565, XRGB8888};
use libretro_rs::retro::video::{
    as_bytes, ArrayFrameBuffer, ByteOrder, FrameBuffer, PackedFrameBuffer, PackedFrameBufferMut,
    PixelBuffer, PixelBufferMut, SliceFrameBuffer,
};
use std::rc::Rc;
use std::sync::Arc;

fn px(raw: u32) -> XRGB8888 {
    XRGB8888::new_with_raw_value(raw)
}

fn px16(raw: u16) -> RGB565 {
    RGB565::new_with_raw_value(raw)
}

fn raws(pixels: &[XRGB8888]) -> Vec<u32> {
    pixels.iter().map(|pixel| pixel.raw_value()).collect()
}

#[test]
fn array_buffer_of_four_pixels_has_two_rows() {
    assert!(ArrayFrameBuffer::<XRGB8888, 4, 2>::shape_is_valid());
    let mut buffer = ArrayFrameBuffer::<XRGB8888, 4, 2>::new([px(1), px(2), px(3), px(4)]);
    assert_eq!(buffer.width(), 2);
    assert_eq!(buffer.height(), 2);
    assert_eq!(buffer.pitch(), 8);

    // Row 0, column 1 and row 1, column 0 are written one without the other.
    buffer[1] = px(0xAA);
    assert_eq!(raws(buffer.pixels()), vec![1, 0xAA, 3, 4]);
    buffer[2] = px(0xBB);
    assert_eq!(raws(buffer.pixels()), vec![1, 0xAA, 0xBB, 4]);
    let rows = buffer.rows();
    assert_eq!(rows.len(), 2);
    assert_eq!(rows[0][1].raw_value(), 0xAA);
    assert_eq!(rows[1][0].raw_value(), 0xBB);
    assert_eq!(rows[0][0].raw_value(), 1);
    assert_eq!(rows[1][1].raw_value(), 4);
}

#[test]
fn array_buffer_shapes_are_checked() {
    assert!(ArrayFrameBuffer::<XRGB8888, 6, 3>::shape_is_valid());
    assert!(ArrayFrameBuffer::<XRGB8888, 0, 3>::shape_is_valid());
    assert!(ArrayFrameBuffer::<XRGB8888, 65535, 1>::shape_is_valid());
    // The rows do not come out even.
    assert!(!ArrayFrameBuffer::<XRGB8888, 5, 2>::shape_is_valid());
    // No width.
    assert!(!ArrayFrameBuffer::<XRGB8888, 4, 0>::shape_is_valid());
    assert!(!ArrayFrameBuffer::<XRGB8888, 0, 0>::shape_is_valid());
    // The height does not fit in 16 bits.
    assert!(!ArrayFrameBuffer::<XRGB8888, 65536, 1>::shape_is_valid());
}

#[test]
fn array_buffer_gives_its_array_back() {
    let pixels = [px(10), px(20), px(30), px(40), px(50), px(60)];
    let buffer = ArrayFrameBuffer::<XRGB8888, 6, 3>::new(pixels);
    assert_eq!(buffer.into_inner(), pixels);
    let buffer = ArrayFrameBuffer::<XRGB8888, 6, 3>::new(pixels);
    let array: [XRGB8888; 6] = buffer.into();
    assert_eq!(array, pixels);
}

#[test]
fn array_buffer_defaults_to_zero_pixels() {
    let buffer = ArrayFrameBuffer::<XRGB8888, 6, 2>::default();
    assert_eq!(raws(buffer.pixels()), vec![0; 6]);
    assert_eq!(buffer.height(), 3);
    let buffer = ArrayFrameBuffer::<ORGB1555, 4, 4>::default();
    assert_eq!(buffer.height(), 1);
    assert!(buffer.pixels().iter().all(|pixel| pixel.raw_value() == 0));
}

#[test]
fn array_buffer_is_read_and_written_as_a_slice() {
    let mut buffer = ArrayFrameBuffer::<XRGB8888, 4, 2>::new([px(1), px(2), px(3), px(4)]);
    let slice: &[XRGB8888] = buffer.as_ref();
    assert_eq!(raws(slice), vec![1, 2, 3, 4]);
    let slice: &mut [XRGB8888] = buffer.as_mut();
    slice[3] = px(9);
    buffer.pixels_mut()[0] = px(8);
    assert_eq!(raws(&buffer[..]), vec![8, 2, 3, 9]);
    assert_eq!(buffer.len(), 4);
    let copy = buffer.clone();
    assert_eq!(copy.into_inner(), buffer.into_inner());
}

#[test]
fn slice_buffer_refuses_a_width_that_leaves_a_remainder() {
    let pixels = vec![px16(0); 6];
    assert!(SliceFrameBuffer::with_width(pixels.clone(), 4).is_err());
    let buffer = SliceFrameBuffer::with_width(pixels, 3).unwrap();
    assert_eq!(buffer.height(), 2);
    assert_eq!(buffer.width(), 3);
}

#[test]
fn slice_buffer_refuses_a_width_of_zero() {
    assert!(SliceFrameBuffer::with_width(vec![px(0); 6], 0).is_err());
    assert!(SliceFrameBuffer::with_width(Vec::<XRGB8888>::new(), 0).is_err());
}

#[test]
fn slice_buffer_refuses_a_height_beyond_16_bits() {
    assert!(SliceFrameBuffer::with_width(vec![px16(0); 65536], 1).is_err());
    assert!(SliceFrameBuffer::with_width(vec![px16(0); 65536 * 2], 2).is_err());
    let tallest = SliceFrameBuffer::with_width(vec![px16(0); 65535], 1).unwrap();
    assert_eq!(tallest.height(), 65535);
    let wide = SliceFrameBuffer::with_width(vec![px16(0); 65536], 2).unwrap();
    assert_eq!(wide.height(), 32768);
}

#[test]
fn slice_buffer_accepts_an_empty_container() {
    let buffer = SliceFrameBuffer::with_width(Vec::<XRGB8888>::new(), 5).unwrap();
    assert_eq!(buffer.width(), 5);
    assert_eq!(buffer.height(), 0);
    assert_eq!(buffer.pitch(), 20);
    assert!(buffer.rows().is_empty());
    assert!(buffer.data().is_empty());
}

#[test]
fn slice_buffer_error_says_what_went_wrong() {
    let error = SliceFrameBuffer::with_width(vec![px(0); 6], 4).unwrap_err();
    assert_eq!(
        error.message(),
        "invalid combination of framebuffer size, width, height and/or pitch"
    );
}

#[test]
fn slice_buffer_dimensions_multiply_to_the_length() {
    for (len, width) in [(6usize, 3u16), (6, 1), (6, 6), (12, 4), (1, 1), (0, 7)] {
        let buffer = SliceFrameBuffer::with_width(vec![px(7); len], width).unwrap();
        assert_eq!(buffer.height() as usize * buffer.width() as usize, len);
        assert_eq!(buffer.pitch(), width as usize * 4);
        assert_eq!(buffer.data().len(), buffer.pitch() * buffer.height() as usize);
    }
    let buffer = SliceFrameBuffer::with_width(vec![px16(7); 12], 4).unwrap();
    assert_eq!(buffer.pitch(), 8);
    assert_eq!(buffer.data().len(), 24);
}

#[test]
fn slice_buffer_succeeds_exactly_on_valid_shapes() {
    for len in 0..40usize {
        for width in 0..10u16 {
            let result = SliceFrameBuffer::with_width(vec![px16(0); len], width);
            let valid = width != 0 && len % width as usize == 0;
            assert_eq!(result.is_ok(), valid);
        }
    }
}

#[test]
fn slice_buffer_gives_its_container_back() {
    let pixels = vec![px(1), px(2), px(3), px(4), px(5), px(6)];
    let buffer = SliceFrameBuffer::with_width(pixels.clone(), 2).unwrap();
    assert_eq!(buffer.buffer(), &pixels);
    assert_eq!(buffer.into_inner(), pixels);
}

#[test]
fn rows_partition_the_pixels() {
    let pixels: Vec<XRGB8888> = (0..12).map(px).collect();
    let buffer = SliceFrameBuffer::with_width(pixels.clone(), 4).unwrap();
    let rows = buffer.rows();
    assert_eq!(rows.len(), buffer.height() as usize);
    assert!(rows.iter().all(|row| row.len() == buffer.width() as usize));
    assert_eq!(raws(rows[0]), vec![0, 1, 2, 3]);
    assert_eq!(raws(rows[1]), vec![4, 5, 6, 7]);
    assert_eq!(raws(rows[2]), vec![8, 9, 10, 11]);
    let joined: Vec<XRGB8888> = rows.iter().flat_map(|row| row.iter().copied()).collect();
    assert_eq!(joined, buffer.pixels());
    assert_eq!(joined, pixels);
    // The rows are made anew on every call.
    assert_eq!(buffer.rows(), rows);
}

#[test]
fn rows_are_as_long_as_the_width_not_the_pitch() {
    // With four bytes per pixel the pitch is four times the width.
    let buffer = ArrayFrameBuffer::<XRGB8888, 8, 2>::new([px(0); 8]);
    assert_eq!(buffer.pitch(), 8);
    let rows = buffer.rows();
    assert_eq!(rows.len(), 4);
    assert!(rows.iter().all(|row| row.len() == 2));
}

#[test]
fn rows_mut_write_through_to_the_pixels() {
    let mut buffer = SliceFrameBuffer::with_width(vec![px(0); 6], 3).unwrap();
    {
        let rows = buffer.rows_mut();
        assert_eq!(rows.len(), 2);
        for (y, row) in rows.into_iter().enumerate() {
            assert_eq!(row.len(), 3);
            for (x, pixel) in row.iter_mut().enumerate() {
                *pixel = px((10 * y + x) as u32);
            }
        }
    }
    assert_eq!(raws(buffer.pixels()), vec![0, 1, 2, 10, 11, 12]);
    assert_eq!(buffer.height(), 2);

    let mut buffer = ArrayFrameBuffer::<XRGB8888, 4, 2>::new([px(1), px(2), px(3), px(4)]);
    let mut rows = buffer.rows_mut();
    rows[1][0] = px(30);
    rows[0][1] = px(20);
    assert_eq!(raws(buffer.pixels()), vec![1, 20, 30, 4]);
}

#[test]
fn pixels_mut_writes_to_a_vec() {
    let mut buffer = SliceFrameBuffer::with_width(vec![px(1), px(2), px(3), px(4)], 2).unwrap();
    {
        let pixels = buffer.pixels_mut();
        assert_eq!(raws(pixels), vec![1, 2, 3, 4]);
        pixels[2] = px(33);
    }
    buffer[0] = px(11);
    assert_eq!(raws(buffer.buffer()), vec![11, 2, 33, 4]);
    assert_eq!(buffer.height(), 2);
    assert_eq!(raws(&buffer.into_inner()), vec![11, 2, 33, 4]);
}

#[test]
fn pixels_mut_writes_to_a_boxed_slice() {
    let boxed: Box<[XRGB8888]> = vec![px(1), px(2), px(3), px(4)].into_boxed_slice();
    let mut buffer = SliceFrameBuffer::with_width(boxed, 4).unwrap();
    {
        let pixels = buffer.pixels_mut();
        assert_eq!(raws(pixels), vec![1, 2, 3, 4]);
        pixels[1] = px(22);
    }
    buffer.as_mut()[3] = px(44);
    assert_eq!(raws(buffer.buffer()), vec![1, 22, 3, 44]);
    assert_eq!(buffer.height(), 1);
}

#[test]
fn pixels_mut_writes_to_an_array() {
    let mut buffer = SliceFrameBuffer::with_width([px(1), px(2), px(3), px(4)], 1).unwrap();
    buffer.pixels_mut()[0] = px(9);
    assert_eq!(raws(buffer.buffer()), vec![9, 2, 3, 4]);
    assert_eq!(buffer.height(), 4);
}

#[test]
fn every_container_is_read_alike() {
    let pixels = [px(1), px(2), px(3), px(4), px(5), px(6)];
    let expected = vec![1, 2, 3, 4, 5, 6];

    let array = SliceFrameBuffer::with_width(pixels, 3).unwrap();
    assert_eq!(raws(array.pixels()), expected);
    let slice = SliceFrameBuffer::with_width(&pixels[..], 3).unwrap();
    assert_eq!(raws(slice.pixels()), expected);
    assert_eq!(slice.height(), 2);
    let vec = SliceFrameBuffer::with_width(pixels.to_vec(), 3).unwrap();
    assert_eq!(raws(vec.pixels()), expected);
    let boxed = SliceFrameBuffer::with_width(pixels.to_vec().into_boxed_slice(), 3).unwrap();
    assert_eq!(raws(boxed.pixels()), expected);
    let rc = SliceFrameBuffer::with_width(Rc::<[XRGB8888]>::from(&pixels[..]), 3).unwrap();
    assert_eq!(raws(rc.pixels()), expected);
    assert_eq!(raws(&rc), expected);
    let arc = SliceFrameBuffer::with_width(Arc::<[XRGB8888]>::from(&pixels[..]), 3).unwrap();
    assert_eq!(raws(arc.pixels()), expected);
    assert_eq!(raws(arc.as_ref()), expected);
    assert_eq!(arc.rows().len(), 2);
}

#[test]
fn containers_hand_out_their_pixels() {
    let mut pixels = vec![px(1), px(2)];
    assert_eq!(raws(pixels.as_pixels()), vec![1, 2]);
    pixels.as_pixels_mut()[0] = px(5);
    assert_eq!(raws(&pixels), vec![5, 2]);
    let mut array = [px(1), px(2)];
    array.as_pixels_mut()[1] = px(6);
    assert_eq!(raws(array.as_pixels()), vec![1, 6]);
    let mut boxed: Box<[XRGB8888]> = vec![px(1), px(2)].into_boxed_slice();
    boxed.as_pixels_mut()[1] = px(7);
    assert_eq!(raws(boxed.as_pixels()), vec![1, 7]);
}

#[test]
fn bytes_follow_the_byte_order() {
    let pixels = [px(0x01020304), px(0xA1B2C3D4)];
    assert_eq!(
        as_bytes(&pixels, ByteOrder::LittleEndian),
        vec![0x04, 0x03, 0x02, 0x01, 0xD4, 0xC3, 0xB2, 0xA1]
    );
    assert_eq!(
        as_bytes(&pixels, ByteOrder::BigEndian),
        vec![0x01, 0x02, 0x03, 0x04, 0xA1, 0xB2, 0xC3, 0xD4]
    );
    let pixels = [px16(0x0102), px16(0xF800)];
    assert_eq!(as_bytes(&pixels, ByteOrder::LittleEndian), vec![0x02, 0x01, 0x00, 0xF8]);
    assert_eq!(as_bytes(&pixels, ByteOrder::BigEndian), vec![0x01, 0x02, 0xF8, 0x00]);
    let pixels = [ORGB1555::new_with_raw_value(0x7C1F)];
    assert_eq!(as_bytes(&pixels, ByteOrder::LittleEndian), vec![0x1F, 0x7C]);
    assert!(as_bytes::<XRGB8888>(&[], ByteOrder::BigEndian).is_empty());
}

#[test]
fn byte_order_is_read_from_a_probe() {
    assert_eq!(ByteOrder::of_probe([1, 0]), ByteOrder::LittleEndian);
    assert_eq!(ByteOrder::of_probe([0, 1]), ByteOrder::BigEndian);
}

#[test]
fn data_is_the_memory_of_the_pixels() {
    let pixels = [px(0x01020304), px(0xA1B2C3D4), px(0), px(0xFFFFFFFF)];
    let expected: Vec<u8> =
        pixels.iter().flat_map(|pixel| pixel.raw_value().to_ne_bytes()).collect();
    let buffer = ArrayFrameBuffer::<XRGB8888, 4, 2>::new(pixels);
    assert_eq!(buffer.data(), expected);
    assert_eq!(buffer.data().len(), buffer.pitch() * buffer.height() as usize);
    let order = ByteOrder::of_probe(1u16.to_ne_bytes());
    assert_eq!(buffer.data_in(order), expected);

    let pixels = vec![px16(0x0102), px16(0xF800), px16(0x07E0)];
    let expected: Vec<u8> =
        pixels.iter().flat_map(|pixel| pixel.raw_value().to_ne_bytes()).collect();
    let buffer = SliceFrameBuffer::with_width(pixels, 3).unwrap();
    assert_eq!(buffer.data(), expected);
    assert_eq!(buffer.data_in(ByteOrder::BigEndian), vec![0x01, 0x02, 0xF8, 0x00, 0x07, 0xE0]);
    assert_eq!(buffer.data_in(ByteOrder::LittleEndian), vec![0x02, 0x01, 0x00, 0xF8, 0xE0, 0x07]);
}

#[test]
fn a_row_fits_in_the_pitch() {
    let buffer = ArrayFrameBuffer::<RGB565, 6, 3>::new([px16(0); 6]);
    assert!(buffer.width() as usize * 2 <= buffer.pitch());
    assert_eq!(buffer.pitch(), 6);
    let buffer = SliceFrameBuffer::with_width(vec![px(0); 65535], 65535).unwrap();
    assert_eq!(buffer.pitch(), 65535 * 4);
    assert_eq!(buffer.height(), 1);
}
