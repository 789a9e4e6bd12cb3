use mountain::geometry::{span_of, ClientRect, SizeU, HALVES_PER_UNIT};

#[test]
fn pixel_size_of_a_client_area() {
    let rect = ClientRect { left: 0, top: 0, right: 640, bottom: 480 };
    assert_eq!(rect.pixel_size(), SizeU { width: 640, height: 480 });
    let moved = ClientRect { left: 10, top: 20, right: 810, bottom: 620 };
    assert_eq!(moved.pixel_size(), SizeU { width: 800, height: 600 });
    let empty = ClientRect { left: 0, top: 0, right: 0, bottom: 0 };
    assert_eq!(empty.pixel_size(), SizeU { width: 0, height: 0 });
}

#[test]
fn pixel_size_wraps_like_the_32_bit_difference() {
    let inverted = ClientRect { left: 1, top: 5, right: 0, bottom: 0 };
    assert_eq!(inverted.pixel_size(), SizeU { width: u32::MAX, height: u32::MAX - 4 });
    let widest = ClientRect { left: i32::MIN, top: i32::MIN, right: i32::MAX, bottom: 0 };
    assert_eq!(widest.pixel_size(), SizeU { width: u32::MAX, height: 0x8000_0000 });
    for (lo, hi) in [(0, 0), (0, 7), (7, 0), (-3, 4), (i32::MAX, i32::MIN), (i32::MIN, i32::MAX)] {
        assert_eq!(span_of(lo, hi), hi.wrapping_sub(lo) as u32);
    }
}

#[test]
fn two_halves_make_a_unit() {
    assert_eq!(HALVES_PER_UNIT, 2);
}
