use bscreen::texturepacker::{TexturePacker, DEFAULT_TEXTURE_HEIGHT, DEFAULT_TEXTURE_WIDTH};

#[test]
fn test_insert_exact_fit() {
    let mut packer = TexturePacker::default();

    let maybe_handle = packer.insert(DEFAULT_TEXTURE_WIDTH, DEFAULT_TEXTURE_HEIGHT);
    assert!(maybe_handle.is_some());

    let handle = maybe_handle.unwrap();
    let entry = packer.get(handle);
    assert!(entry.in_use);
    assert_eq!(entry.x, 0);
    assert_eq!(entry.y, 0);
    assert_eq!(entry.w, DEFAULT_TEXTURE_WIDTH);
    assert_eq!(entry.h, DEFAULT_TEXTURE_HEIGHT);
}

#[test]
fn test_insert_too_large() {
    let mut packer = TexturePacker::default();

    let maybe_handle = packer.insert(DEFAULT_TEXTURE_WIDTH, DEFAULT_TEXTURE_HEIGHT + 1);
    assert!(maybe_handle.is_none());
}

#[test]
fn test_horizontal_split() {
    let mut packer = TexturePacker::default();

    // create a rectangle that will cause a horizontal split (width difference
    // > height difference)
    let maybe_handle1 = packer.insert(400, DEFAULT_TEXTURE_HEIGHT);
    assert!(maybe_handle1.is_some());

    // the root should now have two children
    let root = packer.root();
    assert!(!packer.is_leaf(root));

    // try inserting another rectangle in the remaining space
    let maybe_handle2 = packer.insert(400, DEFAULT_TEXTURE_HEIGHT);
    assert!(maybe_handle2.is_some());

    assert!(maybe_handle1 != maybe_handle2);
}

#[test]
fn test_vertical_split() {
    let mut packer = TexturePacker::default();

    // create a rectangle that will cause a vertical split (height difference
    // > width difference)
    let maybe_handle1 = packer.insert(DEFAULT_TEXTURE_WIDTH, 400);
    assert!(maybe_handle1.is_some());

    // the root should now have two children
    let root = packer.root();
    assert!(!packer.is_leaf(root));

    // try inserting another rectangle in the remaining space
    let maybe_handle2 = packer.insert(DEFAULT_TEXTURE_WIDTH, 400);
    assert!(maybe_handle2.is_some());

    assert!(maybe_handle1 != maybe_handle2);
}

#[test]
fn test_split_regions_within_texture() {
    let mut packer = TexturePacker::new(512, 256);

    let first = packer.insert(100, 50).expect("first insert");
    let second = packer.insert(200, 100).expect("second insert");

    for handle in [first, second] {
        let entry = packer.get(handle);
        assert!(entry.in_use);
        assert!(entry.x + entry.w <= 512);
        assert!(entry.y + entry.h <= 256);
    }
    let first_entry = packer.get(first);
    assert_eq!((first_entry.w, first_entry.h), (100, 50));
    let second_entry = packer.get(second);
    assert_eq!((second_entry.w, second_entry.h), (200, 100));
}

#[test]
fn test_insert_after_exhaustion() {
    let mut packer = TexturePacker::new(64, 64);

    assert!(packer.insert(64, 64).is_some());
    // the whole texture is taken: nothing else fits
    assert!(packer.insert(1, 1).is_none());
}
