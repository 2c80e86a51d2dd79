use storaged::{block_file_name, segment, Segmenter};

#[test]
fn fifty_bytes_into_two_block_files() {
    let src = vec![0x41u8; 50];
    let files = segment(&src, 16, 2);
    assert_eq!(files.len(), 2);
    assert_eq!(files[0].len(), 32);
    assert_eq!(files[1].len(), 18);
    assert_eq!(files.concat(), src);
}

#[test]
fn exact_multiple_gives_full_files() {
    for k in 1..4usize {
        let src: Vec<u8> = (0..16 * 3 * k).map(|i| i as u8).collect();
        let files = segment(&src, 16, 3);
        assert_eq!(files.len(), k);
        for f in &files {
            assert_eq!(f.len(), 48);
        }
        assert_eq!(files.concat(), src);
    }
}

#[test]
fn one_capacity_and_a_remainder() {
    for r in [1usize, 15, 16, 63] {
        let src: Vec<u8> = (0..64 + r).map(|i| (i * 7) as u8).collect();
        let files = segment(&src, 32, 2);
        assert_eq!(files.len(), 2);
        assert_eq!(files[0].len(), 64);
        assert_eq!(files[1].len(), r);
        assert_eq!(files.concat(), src);
    }
}

#[test]
fn empty_source_gives_no_block_file() {
    assert!(segment(&[], 16, 4).is_empty());
}

#[test]
fn rotation_policy() {
    let mut s = Segmenter::new(2);
    assert_eq!(s.route_chunk(), Some(1));
    assert_eq!(s.route_chunk(), None);
    assert_eq!(s.route_chunk(), Some(2));
    assert_eq!(s.files_opened(), 2);
    assert_eq!(s.chunks_in_file(), 1);
    assert_eq!(s.route_chunk(), None);
    assert_eq!(s.route_chunk(), Some(3));
    assert_eq!(s.chunks_per_file(), 2);
}

#[test]
fn block_file_names() {
    assert_eq!(block_file_name("data.bin", 1), "data.bin.1");
    assert_eq!(block_file_name("out", 10), "out.10");
    assert_eq!(block_file_name("x", 0), "x.0");
    assert_eq!(block_file_name("blocks/part", 1234567), "blocks/part.1234567");
}
