use frameloop::capture::{flip_rows, render_frame, Capture};

fn filename_str(bytes: &[u8]) -> &str {
    std::str::from_utf8(bytes).unwrap()
}

#[test]
fn sequence_numbers_strictly_increase_across_stop_start() {
    let mut cap = Capture::init(2, 2);
    cap.start();
    assert!(cap.enabled());
    let mut seqs: Vec<u64> = Vec::new();
    let j = cap.screen_grab(vec![0u8; 12]).unwrap();
    seqs.push(j.seq);
    let j = cap.screen_grab(vec![1u8; 12]).unwrap();
    seqs.push(j.seq);
    let _ = cap.stop();
    assert!(!cap.enabled());
    cap.start();
    let j = cap.screen_grab(vec![2u8; 12]).unwrap();
    seqs.push(j.seq);
    assert_eq!(seqs, vec![1, 2, 3]);
    for w in seqs.windows(2) {
        assert!(w[0] < w[1]);
    }
}

#[test]
fn grab_while_disabled_is_a_no_op() {
    let mut cap = Capture::init(2, 2);
    assert!(cap.screen_grab(vec![0u8; 12]).is_none());
    assert_eq!(cap.seq, 0);
    cap.start();
    let j = cap.screen_grab(vec![0u8; 12]).unwrap();
    assert_eq!(j.seq, 1);
}

#[test]
fn enable_is_idempotent() {
    let mut cap = Capture::init(2, 2);
    // Pending frames so that a transition to disabled would flush.
    cap.start();
    cap.images.push(vec![7u8; 12]);

    let jobs = cap.enable(true);
    assert!(jobs.is_empty());
    assert!(cap.enabled());
    assert_eq!(cap.seq, 0);
    assert_eq!(cap.images.len(), 1);

    // The true transition flushes, exactly once.
    let jobs = cap.enable(false);
    assert_eq!(jobs.len(), 1);
    assert_eq!(cap.seq, 1);
    assert!(cap.images.is_empty());

    // The redundant second call flushes nothing and changes nothing.
    let jobs = cap.enable(false);
    assert!(jobs.is_empty());
    assert_eq!(cap.seq, 1);
    assert!(!cap.enabled());
}

#[test]
fn toggle_flips_state() {
    let mut cap = Capture::init(2, 2);
    let _ = cap.toggle();
    assert!(cap.enabled());
    let _ = cap.toggle();
    assert!(!cap.enabled());
}

#[test]
fn flush_numbers_buffered_frames_in_order() {
    let mut cap = Capture::init(2, 2);
    cap.start();
    let j = cap.screen_grab(vec![0u8; 12]).unwrap();
    assert_eq!(j.seq, 1);
    cap.images.push(vec![1u8; 12]);
    cap.images.push(vec![2u8; 12]);
    let jobs = cap.stop();
    assert_eq!(jobs.len(), 2);
    assert_eq!(jobs[0].seq, 2);
    assert_eq!(jobs[1].seq, 3);
    assert!(filename_str(&jobs[0].filename).ends_with("00000002.png"));
    assert!(filename_str(&jobs[1].filename).ends_with("00000003.png"));
    assert_eq!(jobs[0].pixels, vec![1u8; 12]);
    assert!(cap.images.is_empty());
}

#[test]
fn flip_rows_mirrors_row_order() {
    // Two rows of two RGB pixels, bottom row first as a framebuffer
    // readback delivers them.
    let buf = vec![
        1, 2, 3, 4, 5, 6, // framebuffer row 0 (bottom of the image)
        7, 8, 9, 10, 11, 12, // framebuffer row 1 (top of the image)
    ];
    let out = flip_rows(&buf, 2, 2);
    assert_eq!(out, vec![7, 8, 9, 10, 11, 12, 1, 2, 3, 4, 5, 6]);
    // Flipping twice restores the readback.
    assert_eq!(flip_rows(&out, 2, 2), buf);
}

#[test]
fn flip_rows_single_row_is_identity() {
    let buf = vec![9u8, 8, 7, 6, 5, 4];
    assert_eq!(flip_rows(&buf, 2, 1), buf);
}

#[test]
fn two_by_two_grab_scenario() {
    let mut cap = Capture::init(2, 2);
    cap.start();
    let buf = vec![
        10, 11, 12, 20, 21, 22, // R0 G0 B0, R1 G1 B1 (bottom row)
        30, 31, 32, 40, 41, 42, // R2 G2 B2, R3 G3 B3 (top row)
    ];
    let job = cap.screen_grab(buf.clone()).unwrap();
    assert!(filename_str(&job.filename).ends_with("00000001.png"));
    assert_eq!(filename_str(&job.filename), "frame_00000001.png");
    assert_eq!(job.pixels, buf);

    let flipped = flip_rows(&job.pixels, 2, 2);
    // The saved image's top row is the readback's last row...
    assert_eq!(&flipped[0..6], &[30, 31, 32, 40, 41, 42]);
    // ...and its bottom row is the readback's first row.
    assert_eq!(&flipped[6..12], &[10, 11, 12, 20, 21, 22]);
}

#[test]
fn png_round_trip_reproduces_mirrored_pixels() {
    let mut cap = Capture::init(2, 2);
    cap.start();
    let buf = vec![
        10, 11, 12, 20, 21, 22, // bottom row of the framebuffer
        30, 31, 32, 40, 41, 42, // top row of the framebuffer
    ];
    let job = cap.screen_grab(buf.clone()).unwrap();
    let png = render_frame(&job).unwrap();
    let decoded = image::load_from_memory(&png).unwrap().to_rgb8();
    assert_eq!(decoded.width(), 2);
    assert_eq!(decoded.height(), 2);
    let raw = decoded.into_raw();
    // Row 0 of the saved image equals the last row read from the
    // framebuffer; per-pixel values survive the encode/decode round trip.
    assert_eq!(&raw[0..6], &[30, 31, 32, 40, 41, 42]);
    assert_eq!(&raw[6..12], &[10, 11, 12, 20, 21, 22]);
    assert_eq!(raw, flip_rows(&buf, 2, 2));
}

#[test]
fn capture_directory_is_timestamped_under_the_root() {
    let cap = Capture::init(2, 2);
    assert!(cap.capture_dir.starts_with("capture/"));
    assert!(cap.capture_dir.len() > "capture/".len());
}
