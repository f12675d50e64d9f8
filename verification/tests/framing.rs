use procfan::framer::LineEnding;
use procfan::framer::LineFramer;
use procfan::framer::chunk_terminator;

#[test]
fn carriage_return_then_newline_chunks() {
    let mut framer = LineFramer::new();
    let chunks = framer.feed(b"abc\rdef\n");
    assert_eq!(
        chunks,
        vec![
            (LineEnding::CarriageReturn, b"abc".to_vec()),
            (LineEnding::Newline, b"def".to_vec()),
        ]
    );
    assert!(framer.finish().is_none());
}

#[test]
fn chunks_split_across_feeds() {
    let mut framer = LineFramer::new();
    assert_eq!(framer.feed(b"ab"), vec![]);
    assert_eq!(
        framer.feed(b"c\rde"),
        vec![(LineEnding::CarriageReturn, b"abc".to_vec())]
    );
    assert_eq!(
        framer.feed(b"f\n"),
        vec![(LineEnding::Newline, b"def".to_vec())]
    );
}

#[test]
fn empty_lines_are_empty_chunks() {
    let mut framer = LineFramer::new();
    let chunks = framer.feed(b"\n\r\n");
    assert_eq!(
        chunks,
        vec![
            (LineEnding::Newline, vec![]),
            (LineEnding::CarriageReturn, vec![]),
            (LineEnding::Newline, vec![]),
        ]
    );
}

#[test]
fn finish_flushes_unterminated_tail_as_newline() {
    let mut framer = LineFramer::new();
    assert_eq!(framer.feed(b"tail"), vec![]);
    let last = framer.finish().unwrap();
    assert_eq!(last.0, LineEnding::Newline);
    assert_eq!(last.1, b"tail".to_vec());
}

#[test]
fn finish_after_terminator_is_none() {
    let mut framer = LineFramer::new();
    framer.feed(b"line\n");
    assert!(framer.finish().is_none());
}

#[test]
fn carriage_return_passes_through_only_for_a_single_worker() {
    assert_eq!(chunk_terminator(1, LineEnding::CarriageReturn), b'\r');
    assert_eq!(chunk_terminator(1, LineEnding::Newline), b'\n');
    assert_eq!(chunk_terminator(3, LineEnding::CarriageReturn), b'\n');
    assert_eq!(chunk_terminator(3, LineEnding::Newline), b'\n');
}

#[test]
fn line_ending_reports_carriage_return() {
    assert!(LineEnding::CarriageReturn.is_carriage_return());
    assert!(!LineEnding::Newline.is_carriage_return());
}
