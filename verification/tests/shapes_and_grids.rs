use wtensor::bytes::{decode_words, encode_words};
use wtensor::grid::{linear_grid, Grid};
use wtensor::shape::{Kind, Shape, D2, F32};
use wtensor::tensor::{elementwise_grid, matmul_sizes_fit};

#[test]
fn pair_has_two_dimensions() {
    let shape: D2 = (3, 5);
    assert_eq!(shape.num_dims(), 2);
    assert_eq!(shape.dims(), vec![3, 5]);
}

#[test]
fn element_count_is_the_product() {
    assert_eq!((3usize, 5usize).num_elements(), 15);
    assert_eq!((0usize, 7usize).num_elements(), 0);
    assert_eq!((1024usize, 1024usize).num_elements(), 1_048_576);
}

#[test]
fn checked_element_count_refuses_overflow() {
    assert_eq!((3usize, 5usize).checked_num_elements(), Some(15));
    assert_eq!((usize::MAX, 2usize).checked_num_elements(), None);
    assert_eq!((usize::MAX, 1usize).checked_num_elements(), Some(usize::MAX));
    assert_eq!((usize::MAX, 0usize).checked_num_elements(), Some(0));
}

#[test]
fn duplicate_keeps_the_shape() {
    let shape: D2 = (4, 9);
    assert_eq!(shape.duplicate(), (4, 9));
}

#[test]
fn single_precision_takes_four_bytes() {
    assert_eq!(F32::size_of(), 4);
    assert_eq!(F32::size_of(), std::mem::size_of::<f32>());
}

#[test]
fn grid_of_nothing_has_no_rows() {
    assert_eq!(linear_grid(0), Some(Grid { x: 1024, y: 0, z: 1 }));
}

#[test]
fn grid_rounds_up_twice() {
    assert_eq!(linear_grid(1), Some(Grid { x: 1024, y: 1, z: 1 }));
    assert_eq!(linear_grid(64), Some(Grid { x: 1024, y: 1, z: 1 }));
    assert_eq!(linear_grid(64 * 1024), Some(Grid { x: 1024, y: 1, z: 1 }));
    assert_eq!(linear_grid(64 * 1024 + 1), Some(Grid { x: 1024, y: 2, z: 1 }));
    assert_eq!(linear_grid(1024 * 1024), Some(Grid { x: 1024, y: 16, z: 1 }));
}

#[test]
fn grid_covers_every_element() {
    for elements in [0usize, 1, 63, 64, 65, 65535, 65536, 65537, 1_000_000, 123_456_789] {
        let grid = linear_grid(elements).unwrap();
        let room = 64u128 * grid.x as u128 * grid.y as u128 * grid.z as u128;
        assert!(room >= elements as u128);
        if elements > 0 {
            assert!(64u128 * 1024 * (grid.y as u128 - 1) < elements as u128);
        }
    }
}

#[test]
fn grid_refuses_rows_beyond_a_dispatch_dimension() {
    let most: u128 = 64 * 1024 * (u32::MAX as u128);
    if (usize::MAX as u128) > most {
        assert_eq!(
            linear_grid(most as usize),
            Some(Grid { x: 1024, y: u32::MAX, z: 1 })
        );
        assert_eq!(linear_grid(most as usize + 1), None);
    }
    if usize::BITS == 64 {
        assert_eq!(linear_grid(usize::MAX), None);
    }
}

#[test]
fn elementwise_grid_refuses_overflow() {
    assert_eq!(elementwise_grid(2, 2), Some(Grid { x: 1024, y: 1, z: 1 }));
    assert_eq!(elementwise_grid(usize::MAX, 2), None);
    assert_eq!(elementwise_grid(usize::MAX / 2, 1), None);
    assert_eq!(elementwise_grid(0, usize::MAX), Some(Grid { x: 1024, y: 0, z: 1 }));
}

#[test]
fn matmul_sizes_are_bounded() {
    assert!(matmul_sizes_fit(2, 3, 4));
    assert!(matmul_sizes_fit(0, 0, 0));
    assert!(matmul_sizes_fit(u32::MAX as usize, 1, 1));
    if usize::BITS == 64 {
        assert!(!matmul_sizes_fit(u32::MAX as usize + 1, 1, 1));
        assert!(!matmul_sizes_fit(1, u32::MAX as usize + 1, 1));
        assert!(!matmul_sizes_fit(1, 1, u32::MAX as usize + 1));
        assert!(!matmul_sizes_fit(u32::MAX as usize, 1, u32::MAX as usize));
    }
}

#[test]
fn words_are_encoded_in_host_order() {
    let words = [1u32, 0x0102_0304, u32::MAX];
    let mut expected: Vec<u8> = Vec::new();
    for w in words {
        expected.extend_from_slice(&w.to_ne_bytes());
    }
    assert_eq!(encode_words(&words), expected);
    assert_eq!(encode_words(&[]), Vec::<u8>::new());
}

#[test]
fn float_patterns_are_encoded_as_the_floats_are() {
    for v in [0.0f32, -1.5, 0.1, 1.1, -0.0] {
        assert_eq!(encode_words(&[v.to_bits()]), v.to_ne_bytes().to_vec());
    }
}

#[test]
fn bytes_are_decoded_in_host_order() {
    let bytes = [1u8, 2, 3, 4, 5, 6, 7, 8];
    let expected = vec![
        u32::from_ne_bytes([1, 2, 3, 4]),
        u32::from_ne_bytes([5, 6, 7, 8]),
    ];
    assert_eq!(decode_words(&bytes), Some(expected));
    assert_eq!(decode_words(&[]), Some(Vec::new()));
}

#[test]
fn decoding_needs_whole_words() {
    assert_eq!(decode_words(&[1u8, 2, 3]), None);
    assert_eq!(decode_words(&[1u8, 2, 3, 4, 5]), None);
}

#[test]
fn decoding_undoes_encoding() {
    let words = vec![0u32, 1, 0xdead_beef, 1.25f32.to_bits(), u32::MAX];
    assert_eq!(decode_words(&encode_words(&words)), Some(words));
}

#[test]
fn decoding_works_at_any_offset() {
    let bytes = [9u8, 1, 2, 3, 4, 5, 6, 7, 8];
    assert_eq!(
        decode_words(&bytes[1..]),
        Some(vec![
            u32::from_ne_bytes([1, 2, 3, 4]),
            u32::from_ne_bytes([5, 6, 7, 8])
        ])
    );
}
