use le_hey_eye_lib::sse::LineSplitter;

fn collect_lines(chunks: &[&str]) -> Vec<String> {
    let mut splitter = LineSplitter::new();
    let mut lines: Vec<String> = Vec::new();
    for chunk in chunks {
        lines.extend(splitter.feed(chunk));
    }
    if let Some(last) = splitter.finish() {
        lines.push(last);
    }
    lines
}

#[test]
fn split_is_chunking_insensitive() {
    let whole = collect_lines(&["data: a\ndata: b\n"]);
    let split = collect_lines(&["data: ", "a\nda", "ta: b\n"]);
    assert_eq!(whole, vec!["data: a".to_string(), "data: b".to_string()]);
    assert_eq!(split, whole);
}

#[test]
fn every_boundary_gives_the_same_lines() {
    let input = "event: x\ndata: {\"k\":1}\n\ndata: [DONE]\n";
    let whole = collect_lines(&[input]);
    for cut in 0..=input.len() {
        if !input.is_char_boundary(cut) {
            continue;
        }
        let (a, b) = input.split_at(cut);
        assert_eq!(collect_lines(&[a, b]), whole, "cut at {cut}");
    }
}

#[test]
fn finish_flushes_trailing_partial_line() {
    let mut splitter = LineSplitter::new();
    assert!(splitter.feed("data: x").is_empty());
    assert_eq!(splitter.finish(), Some("data: x".to_string()));
    assert_eq!(splitter.finish(), None);
}

#[test]
fn lines_are_trimmed_and_crlf_is_handled() {
    let mut splitter = LineSplitter::new();
    let lines = splitter.feed("  data: a  \r\ndata: b\r\n");
    assert_eq!(lines, vec!["data: a".to_string(), "data: b".to_string()]);
}

#[test]
fn whitespace_only_leftover_is_not_flushed() {
    let mut splitter = LineSplitter::new();
    let _ = splitter.feed("   ");
    assert_eq!(splitter.finish(), None);
}

#[test]
fn blank_lines_are_yielded_empty() {
    let mut splitter = LineSplitter::new();
    let lines = splitter.feed("\n\ndata: a\n");
    assert_eq!(lines, vec!["".to_string(), "".to_string(), "data: a".to_string()]);
}
