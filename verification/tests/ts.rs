use moonlit::ts::cut_ts_window;

#[test]
fn ts_cut_resyncs() {
    // Garbage head, then aligned 188 B packets starting with 0x47.
    let mut ring = vec![0xAAu8; 100];
    for _ in 0..4 {
        ring.push(0x47);
        ring.extend(std::iter::repeat(0x00).take(187));
    }
    let cut = cut_ts_window(&ring, 600);
    assert_eq!(cut[0], 0x47);
    assert_eq!(cut[188], 0x47);
    assert!(cut.len() <= 600);
    // A window with no sync at all is delivered whole, never empty.
    let plain = vec![0x11u8; 500];
    assert_eq!(cut_ts_window(&plain, 600).len(), 500);
}

#[test]
fn cut_is_the_end_of_the_ring() {
    let ring: Vec<u8> = (0..200u8).collect();
    assert_eq!(cut_ts_window(&ring, 0), &[] as &[u8]);
    // 0x47 stands at 71, but no packet follows it.
    assert_eq!(cut_ts_window(&ring, 200), &ring[..]);
    assert_eq!(cut_ts_window(&ring, 100), &ring[100..]);
    assert_eq!(cut_ts_window(&[0x11, 0x47, 0x11], 3), &[0x11, 0x47, 0x11]);
    assert!(cut_ts_window(&[], 10).is_empty());
}

#[test]
fn lone_sync_bytes_are_passed_over() {
    let mut ring = vec![0u8; 2000];
    ring[3] = 0x47;
    ring[10] = 0x47;
    ring[198] = 0x47;
    assert_eq!(cut_ts_window(&ring, 2000).len(), 1990);
    // The partner lies just past the window's end.
    let mut ring = vec![0u8; 198];
    ring[10] = 0x47;
    assert_eq!(cut_ts_window(&ring, 198).len(), 198);
    ring.push(0x47);
    assert_eq!(cut_ts_window(&ring, 199).len(), 189);
}

#[test]
fn packets_are_found_anywhere_in_the_window() {
    let mut ring = vec![0u8; 1504];
    for _ in 0..2 {
        ring.push(0x47);
        ring.extend(std::iter::repeat(0x00).take(187));
    }
    assert_eq!(cut_ts_window(&ring, 1880), &ring[1504..]);
    let mut ring = vec![0u8; 100_000];
    ring[99_811] = 0x47;
    ring[99_999] = 0x47;
    assert_eq!(cut_ts_window(&ring, 100_000).len(), 189);
}
