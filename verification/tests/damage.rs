use nelly::damage::{copy_damage, PixelRect};

fn picture(len: usize, seed: u8) -> Vec<u8> {
    (0..len).map(|i| (i as u8).wrapping_mul(7).wrapping_add(seed)).collect()
}

#[test]
fn only_the_rectangle_is_copied() {
    let stride = 16;
    let source = picture(stride * 4, 1);
    let before = picture(stride * 4, 100);
    let mut target = before.clone();
    let rect = PixelRect { x: 1, y: 1, width: 2, height: 2 };
    assert!(copy_damage(&source, &mut target, stride, 4, rect, false));
    for i in 0..target.len() {
        let (row, col) = (i / stride, i % stride);
        let inside = (1..3).contains(&row) && (4..12).contains(&col);
        assert_eq!(target[i], if inside { source[i] } else { before[i] }, "byte {i}");
    }
}

#[test]
fn red_and_blue_change_places() {
    let source = vec![1u8, 2, 3, 4, 5, 6, 7, 8];
    let mut target = vec![0u8; 8];
    let rect = PixelRect { x: 0, y: 0, width: 2, height: 1 };
    assert!(copy_damage(&source, &mut target, 8, 4, rect, true));
    assert_eq!(target, vec![3, 2, 1, 4, 7, 6, 5, 8]);
}

#[test]
fn swizzled_copy_leaves_the_rest() {
    let stride = 12;
    let source = picture(stride * 3, 3);
    let before = picture(stride * 3, 50);
    let mut target = before.clone();
    let rect = PixelRect { x: 2, y: 1, width: 1, height: 1 };
    assert!(copy_damage(&source, &mut target, stride, 4, rect, true));
    let mut expected = before.clone();
    expected[12 + 8] = source[12 + 10];
    expected[12 + 9] = source[12 + 9];
    expected[12 + 10] = source[12 + 8];
    expected[12 + 11] = source[12 + 11];
    assert_eq!(target, expected);
}

#[test]
fn two_byte_pixels_are_copied() {
    let stride = 6;
    let source = picture(stride * 2, 9);
    let before = vec![0u8; stride * 2];
    let mut target = before.clone();
    let rect = PixelRect { x: 1, y: 0, width: 1, height: 2 };
    assert!(copy_damage(&source, &mut target, stride, 2, rect, false));
    let mut expected = before;
    for row in 0..2 {
        expected[row * stride + 2] = source[row * stride + 2];
        expected[row * stride + 3] = source[row * stride + 3];
    }
    assert_eq!(target, expected);
}

#[test]
fn empty_rectangle_copies_nothing() {
    let source = picture(32, 1);
    let mut target = vec![0u8; 32];
    assert!(copy_damage(&source, &mut target, 16, 4, PixelRect { x: 4, y: 2, width: 0, height: 0 }, false));
    assert_eq!(target, vec![0u8; 32]);
}

#[test]
fn whole_picture_is_copied() {
    let source = picture(64, 1);
    let mut target = vec![0u8; 64];
    assert!(copy_damage(&source, &mut target, 16, 4, PixelRect { x: 0, y: 0, width: 4, height: 4 }, false));
    assert_eq!(target, source);
}

#[test]
fn rectangles_that_do_not_fit_are_refused() {
    let source = picture(64, 1);
    let before = vec![9u8; 64];
    let cases = [
        (16, 4, PixelRect { x: 1, y: 0, width: 4, height: 1 }, false),
        (16, 4, PixelRect { x: 0, y: 1, width: 1, height: 4 }, false),
        (0, 4, PixelRect { x: 0, y: 0, width: 0, height: 0 }, false),
        (16, 0, PixelRect { x: 0, y: 0, width: 1, height: 1 }, false),
        (16, 2, PixelRect { x: 0, y: 0, width: 1, height: 1 }, true),
        (16, 4, PixelRect { x: usize::MAX, y: 0, width: 1, height: 1 }, false),
        (16, 4, PixelRect { x: 0, y: usize::MAX, width: 1, height: 1 }, false),
        (16, 4, PixelRect { x: usize::MAX / 2, y: 0, width: 1, height: 1 }, false),
    ];
    for (stride, pixel_bytes, rect, swizzle) in cases {
        let mut target = before.clone();
        assert!(!copy_damage(&source, &mut target, stride, pixel_bytes, rect, swizzle));
        assert_eq!(target, before);
    }
}

#[test]
fn pictures_of_different_lengths_are_refused() {
    let source = picture(64, 1);
    let mut target = vec![0u8; 48];
    assert!(!copy_damage(&source, &mut target, 16, 4, PixelRect { x: 0, y: 0, width: 1, height: 1 }, false));
    assert_eq!(target, vec![0u8; 48]);
}
