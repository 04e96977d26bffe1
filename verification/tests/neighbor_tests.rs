use hutton32_gpu::neighbor::{pack_neighbor_key, unpack_neighbor_key, KEY_COUNT};

#[test]
fn pack_has_known_values() {
    assert_eq!(pack_neighbor_key(0, 0, 0, 0, 0), 0);
    assert_eq!(pack_neighbor_key(1, 0, 0, 0, 0), 1);
    assert_eq!(pack_neighbor_key(0, 1, 0, 0, 0), 32);
    assert_eq!(pack_neighbor_key(0, 0, 1, 0, 0), 1024);
    assert_eq!(pack_neighbor_key(0, 0, 0, 1, 0), 32768);
    assert_eq!(pack_neighbor_key(0, 0, 0, 0, 1), 1048576);
    assert_eq!(
        pack_neighbor_key(1, 2, 3, 4, 5),
        1 + 2 * 32 + 3 * 1024 + 4 * 32768 + 5 * 1048576
    );
    assert_eq!(pack_neighbor_key(31, 31, 31, 31, 31), KEY_COUNT - 1);
}

#[test]
fn unpack_inverts_pack() {
    let samples: [(u8, u8, u8, u8, u8); 6] = [
        (0, 0, 0, 0, 0),
        (31, 31, 31, 31, 31),
        (1, 2, 3, 4, 5),
        (31, 0, 17, 0, 9),
        (16, 8, 4, 2, 1),
        (0, 31, 0, 31, 0),
    ];
    for &(c, n, e, s, w) in samples.iter() {
        let key = pack_neighbor_key(c, n, e, s, w);
        assert_eq!(unpack_neighbor_key(key), (c, n, e, s, w));
    }
}

#[test]
fn pack_inverts_unpack() {
    let samples: [u32; 6] = [0, 1, 31, 123_456, 5_377_089, KEY_COUNT - 1];
    for &key in samples.iter() {
        let (c, n, e, s, w) = unpack_neighbor_key(key);
        assert_eq!(pack_neighbor_key(c, n, e, s, w), key);
    }
}
