use rustycode::sse::{
    event_url, FrameDecoder, LineSplitter, Reconnect, MAX_RECONNECT_ATTEMPTS,
};

#[test]
fn line_splitter_cuts_on_newlines_and_trims_cr() {
    let mut s = LineSplitter::new();
    s.push_chunk(b"data: a\r\nda");
    assert_eq!(s.next_line(), Some("data: a".to_string()));
    assert_eq!(s.next_line(), None);
    s.push_chunk(b"ta: b\n\n");
    assert_eq!(s.next_line(), Some("data: b".to_string()));
    assert_eq!(s.next_line(), Some(String::new()));
    assert_eq!(s.next_line(), None);
    assert_eq!(s.finish(), None);
}

#[test]
fn line_splitter_decodes_each_chunk() {
    let mut s = LineSplitter::new();
    s.push_chunk("héllo\n".as_bytes());
    assert_eq!(s.next_line(), Some("héllo".to_string()));
}

#[test]
fn line_splitter_replaces_invalid_bytes() {
    let mut s = LineSplitter::new();
    s.push_chunk(&[b'a', 0xff, b'\n']);
    assert_eq!(s.next_line(), Some("a\u{fffd}".to_string()));
}

#[test]
fn line_splitter_finish_returns_rest() {
    let mut s = LineSplitter::new();
    s.push_chunk(b"tail");
    assert_eq!(s.next_line(), None);
    assert_eq!(s.finish(), Some("tail".to_string()));
    assert_eq!(s.finish(), None);
}

#[test]
fn frame_decoder_joins_data_lines() {
    let mut d = FrameDecoder::new();
    assert_eq!(d.on_line("event: message"), None);
    assert_eq!(d.event_type, "message");
    assert_eq!(d.on_line("data: {\"a\":1}"), None);
    assert_eq!(d.on_line("data:  second  "), None);
    assert_eq!(d.on_line(": comment"), None);
    assert_eq!(d.on_line(""), Some("{\"a\":1}\nsecond".to_string()));
    assert_eq!(d.event_type, "");
    assert_eq!(d.data, "");
}

#[test]
fn frame_decoder_empty_line_without_data_is_nothing() {
    let mut d = FrameDecoder::new();
    assert_eq!(d.on_line(""), None);
    assert_eq!(d.on_line("event: x"), None);
    assert_eq!(d.on_line(""), None);
    assert_eq!(d.event_type, "x");
}

#[test]
fn reconnect_backs_off_and_caps() {
    let mut r = Reconnect::new();
    let mut delays = Vec::new();
    for _ in 0..8 {
        delays.push(r.next_attempt().unwrap());
    }
    assert_eq!(delays, vec![0, 1000, 2000, 4000, 8000, 16000, 30000, 30000]);
    for w in delays.windows(2) {
        assert!(w[0] <= w[1]);
    }
}

#[test]
fn reconnect_resets_on_event() {
    let mut r = Reconnect::new();
    r.next_attempt();
    r.next_attempt();
    r.on_event();
    assert_eq!(r.attempts, 0);
    assert_eq!(r.next_attempt(), Some(0));
}

#[test]
fn reconnect_gives_up_after_max_attempts() {
    let mut r = Reconnect::new();
    for _ in 0..MAX_RECONNECT_ATTEMPTS {
        assert!(r.next_attempt().is_some());
    }
    assert_eq!(r.next_attempt(), None);
    assert_eq!(r.attempts, MAX_RECONNECT_ATTEMPTS);
}

#[test]
fn event_url_appends_event_path() {
    assert_eq!(event_url("http://h:4000"), "http://h:4000/event");
    assert_eq!(event_url("http://h:4000//"), "http://h:4000/event");
}

fn lines_of(chunks: &[&[u8]]) -> Vec<String> {
    let mut s = LineSplitter::new();
    let mut out = Vec::new();
    for c in chunks {
        s.push_chunk(c);
        out.extend(s.take_lines());
    }
    if let Some(l) = s.finish() {
        out.push(l);
    }
    out
}

#[test]
fn chunking_at_character_boundaries_does_not_matter() {
    let whole: &[u8] = "aé\r\nbç\n".as_bytes();
    let one = lines_of(&[whole]);
    let split = lines_of(&[&whole[..3], &whole[3..6], &whole[6..]]);
    assert_eq!(one, vec!["aé".to_string(), "bç".to_string()]);
    assert_eq!(one, split);
}

#[test]
fn chunk_split_inside_a_character_keeps_it() {
    // 'é' is 0xC3 0xA9: the leading byte waits for the rest of the character.
    let lines = lines_of(&[&[b'a', 0xC3], &[0xA9, b'\n']]);
    assert_eq!(lines, vec!["aé".to_string()]);
}

#[test]
fn every_chunking_gives_the_same_lines() {
    let whole: &[u8] = "x€y\r\n\n𝄞z\nlast\r".as_bytes();
    let expected = vec![
        "x€y".to_string(),
        String::new(),
        "𝄞z".to_string(),
        "last".to_string(),
    ];
    assert_eq!(lines_of(&[whole]), expected);
    let bytes: Vec<&[u8]> = whole.chunks(1).collect();
    assert_eq!(lines_of(&bytes), expected);
    for cut in 0..=whole.len() {
        assert_eq!(lines_of(&[&whole[..cut], &whole[cut..]]), expected);
    }
}

#[test]
fn held_back_bytes_wait_for_the_rest_of_their_character() {
    let mut s = LineSplitter::new();
    s.push_chunk(&[0xE2, 0x82]);
    assert_eq!(s.take_lines(), Vec::<String>::new());
    s.push_chunk(&[0xAC, b'\n']);
    assert_eq!(s.take_lines(), vec!["€".to_string()]);
}

#[test]
fn finish_trims_carriage_returns_from_the_last_line() {
    let mut s = LineSplitter::new();
    s.push_chunk(b"a\r");
    assert_eq!(s.take_lines(), Vec::<String>::new());
    assert_eq!(s.finish(), Some("a".to_string()));
}

#[test]
fn finish_replaces_a_character_cut_off_by_the_end() {
    let mut s = LineSplitter::new();
    s.push_chunk(&[b'a', 0xC3]);
    assert_eq!(s.finish(), Some("a\u{fffd}".to_string()));
    assert_eq!(s.finish(), None);
}

#[test]
fn take_lines_leaves_the_unfinished_line() {
    let mut s = LineSplitter::new();
    s.push_chunk(b"one\r\ntwo\nthr");
    assert_eq!(s.take_lines(), vec!["one".to_string(), "two".to_string()]);
    s.push_chunk(b"ee");
    assert_eq!(s.take_lines(), Vec::<String>::new());
    assert_eq!(s.finish(), Some("three".to_string()));
}
