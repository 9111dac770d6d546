use fakecam::multipart::{boundary_bytes, encode_part, Frame};
use futures_util::stream::StreamExt;
use fakecam::session::pacing_interval_secs;
use fakecam::{content_type_for, stream_content_type, CameraConfig, ReadOutcome, Session};

fn config(paths: &[&str]) -> CameraConfig {
    let imgs: Vec<Vec<u8>> = paths.iter().map(|p| p.as_bytes().to_vec()).collect();
    CameraConfig::new(imgs, b"localhost:8080".to_vec()).expect("non-empty list")
}

fn emit(session: &mut Session, cfg: &CameraConfig, body: &[u8]) -> Vec<u8> {
    session
        .step(cfg, ReadOutcome::Data(body.to_vec()))
        .expect("a successful read emits a part")
}

/// Splits one encoded part into its header block and its payload, checking
/// the framing along the way: boundary line first, blank line before the
/// payload, separator after it, and a Content-Length that matches.
fn split_part(chunk: &[u8]) -> (String, Vec<u8>) {
    assert!(chunk.starts_with(b"--foo\r\n"));
    let blank = chunk
        .windows(4)
        .position(|w| w == b"\r\n\r\n")
        .expect("a blank line ends the headers");
    let header = String::from_utf8(chunk[..blank + 4].to_vec()).expect("ASCII headers");
    let declared: usize = header
        .lines()
        .find_map(|l| l.strip_prefix("Content-Length: "))
        .expect("a Content-Length header")
        .parse()
        .expect("a decimal length");
    let payload = chunk[blank + 4..blank + 4 + declared].to_vec();
    assert_eq!(&chunk[blank + 4 + declared..], b"\r\n");
    (header, payload)
}

fn content_type_of(header: &str) -> String {
    header
        .lines()
        .find_map(|l| l.strip_prefix("Content-Type: "))
        .expect("a Content-Type header")
        .to_string()
}

#[test]
fn jpeg_png_webp_map_to_their_types() {
    assert_eq!(content_type_for(b"a.jpeg"), b"image/jpeg");
    assert_eq!(content_type_for(b"b.png"), b"image/png");
    assert_eq!(content_type_for(b"c.webp"), b"image/webp");
    assert_eq!(content_type_for(b"dir/sub/frame.png"), b"image/png");
}

#[test]
fn other_or_missing_extensions_fall_back_to_generic() {
    assert_eq!(content_type_for(b"c.bin"), b"image/*");
    assert_eq!(content_type_for(b"noext"), b"image/*");
    assert_eq!(content_type_for(b"a.JPEG"), b"image/*");
    assert_eq!(content_type_for(b"x.tar.bak"), b"image/*");
    assert_eq!(content_type_for(b".jpeg"), b"image/*");
    assert_eq!(content_type_for(b"dir.png/file"), b"image/*");
    assert_eq!(content_type_for(b""), b"image/*");
}

#[test]
fn empty_image_list_is_rejected_at_startup() {
    assert!(CameraConfig::new(Vec::new(), b"localhost:8080".to_vec()).is_none());
    assert!(CameraConfig::new(vec![b"a.jpeg".to_vec()], Vec::new()).is_some());
}

#[test]
fn encoded_part_is_exact_bytes() {
    let frame = Frame {
        content_type: b"image/jpeg".to_vec(),
        body: b"JPEGDATA".to_vec(),
    };
    assert_eq!(
        encode_part(&frame),
        b"--foo\r\nContent-Type: image/jpeg\r\nContent-Length: 8\r\n\r\nJPEGDATA\r\n"
    );
}

#[test]
fn content_length_equals_payload_and_payload_round_trips() {
    let bodies: [&[u8]; 3] = [b"", b"x", b"some larger payload\r\nwith a line break"];
    for body in bodies {
        let frame = Frame {
            content_type: b"image/png".to_vec(),
            body: body.to_vec(),
        };
        assert_eq!(frame.content_length(), body.len());
        let chunk = encode_part(&frame);
        let (header, payload) = split_part(&chunk);
        assert!(header.contains(&format!("Content-Length: {}\r\n", body.len())));
        assert_eq!(payload, body);
    }
}

#[test]
fn two_image_cycle_emits_in_order_and_repeats() {
    let cfg = config(&["a.jpeg", "b.png"]);
    assert_eq!(cfg.image_count(), 2);
    let mut s = Session::new(&cfg);
    let a: &[u8] = b"aaaa";
    let b: &[u8] = b"bb";

    let (h1, p1) = split_part(&emit(&mut s, &cfg, a));
    assert_eq!(content_type_of(&h1), "image/jpeg");
    assert_eq!(p1, a);

    let (h2, p2) = split_part(&emit(&mut s, &cfg, b));
    assert_eq!(content_type_of(&h2), "image/png");
    assert_eq!(p2, b);

    let (h3, p3) = split_part(&emit(&mut s, &cfg, a));
    assert_eq!(content_type_of(&h3), "image/jpeg");
    assert_eq!(p3, a);
}

#[test]
fn attributes_over_two_full_cycles_repeat_the_configured_list_twice() {
    let cfg = config(&["a.jpeg", "b.png", "c.webp"]);
    let contents: [&[u8]; 3] = [b"12345", b"123", b"1234567"];
    let mut s = Session::new(&cfg);
    let mut seen: Vec<(String, usize)> = Vec::new();
    for k in 0..6 {
        let (h, p) = split_part(&emit(&mut s, &cfg, contents[k % 3]));
        assert_eq!(s.cursor, (k + 1) % 3);
        seen.push((content_type_of(&h), p.len()));
    }
    let expected_once = vec![
        ("image/jpeg".to_string(), 5),
        ("image/png".to_string(), 3),
        ("image/webp".to_string(), 7),
    ];
    assert_eq!(&seen[..3], &expected_once[..]);
    assert_eq!(&seen[3..], &expected_once[..]);
}

#[test]
fn unknown_extension_yields_generic_type_for_every_part() {
    let cfg = config(&["c.bin"]);
    let mut s = Session::new(&cfg);
    for _ in 0..4 {
        let (h, _) = split_part(&emit(&mut s, &cfg, b"payload"));
        assert_eq!(content_type_of(&h), "image/*");
    }
}

#[test]
fn concurrent_sessions_start_independently_at_the_first_image() {
    let cfg = config(&["a.jpeg", "b.png"]);
    let mut first = Session::new(&cfg);
    emit(&mut first, &cfg, b"a");
    assert_eq!(first.cursor, 1);

    let mut second = Session::new(&cfg);
    assert_eq!(second.cursor, 0);
    let (h, _) = split_part(&emit(&mut second, &cfg, b"a"));
    assert_eq!(content_type_of(&h), "image/jpeg");
    assert_eq!(first.cursor, 1);
}

#[test]
fn failed_read_emits_nothing_and_ends_the_session() {
    let cfg = config(&["a.jpeg", "b.png"]);
    let mut s = Session::new(&cfg);
    emit(&mut s, &cfg, b"a");
    let cursor_before = s.cursor;
    assert!(s.step(&cfg, ReadOutcome::Failure).is_none());
    assert_eq!(s.cursor, cursor_before);
}

#[test]
fn decimal_rendering_is_exact() {
    assert_eq!(fakecam::digits::decimal_digits(0), b"0");
    assert_eq!(fakecam::digits::decimal_digits(7), b"7");
    assert_eq!(fakecam::digits::decimal_digits(10), b"10");
    assert_eq!(fakecam::digits::decimal_digits(65536), b"65536");
}

#[test]
fn response_content_type_names_the_boundary() {
    assert_eq!(
        stream_content_type(),
        b"multipart/x-mixed-replace; boundary=foo"
    );
    assert_eq!(boundary_bytes(), b"foo");
}

#[test]
fn pacing_interval_is_one_second() {
    assert_eq!(pacing_interval_secs(), 1);
}

#[test]
fn standard_multipart_consumer_round_trips_the_frames() {
    let cfg = config(&["a.jpeg", "b.png"]);
    let mut s = Session::new(&cfg);
    let chunks: Vec<Result<bytes::Bytes, std::convert::Infallible>> = vec![
        Ok(bytes::Bytes::from(emit(&mut s, &cfg, b"AAA"))),
        Ok(bytes::Bytes::from(emit(&mut s, &cfg, b"BB"))),
    ];
    let mut parts = Box::pin(multipart_stream::parse(
        futures_util::stream::iter(chunks),
        "foo",
    ));
    let waker = futures_util::task::noop_waker();
    let mut cx = std::task::Context::from_waker(&waker);
    let mut got: Vec<multipart_stream::Part> = Vec::new();
    loop {
        match parts.poll_next_unpin(&mut cx) {
            std::task::Poll::Ready(Some(Ok(p))) => got.push(p),
            std::task::Poll::Ready(Some(Err(e))) => panic!("parse error: {}", e),
            std::task::Poll::Ready(None) => break,
            std::task::Poll::Pending => break,
        }
    }
    assert_eq!(got.len(), 2);
    assert_eq!(
        got[0].headers.get("content-type").unwrap().to_str().unwrap(),
        "image/jpeg"
    );
    assert_eq!(
        got[0].headers.get("content-length").unwrap().to_str().unwrap(),
        "3"
    );
    assert_eq!(got[0].body.as_ref(), b"AAA");
    assert_eq!(
        got[1].headers.get("content-type").unwrap().to_str().unwrap(),
        "image/png"
    );
    assert_eq!(got[1].body.as_ref(), b"BB");
}
