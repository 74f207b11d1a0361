use gigawatt::gfx::osc::{
    accumulate_reply, background_from_reply, background_query, hex_rgb_from_osc_reply, hex_to_u8,
    parse_osc_reply, term_background, ReadEvent, ReplyReader, ReplyStep, MAX_OSC_LEN,
    READ_MIN_BYTES, READ_TIMEOUT_TENTHS,
};

#[test]
fn test_hex_to_u8() {
    assert_eq!(hex_to_u8("1"), Some(0x11));
    assert_eq!(hex_to_u8("a"), Some(0xaa));
    assert_eq!(hex_to_u8("f"), Some(0xff));
    assert_eq!(hex_to_u8("01"), Some(1));
    assert_eq!(hex_to_u8("ffff"), Some(0xff));
    assert_eq!(hex_to_u8("00001"), None);
    assert_eq!(hex_to_u8("1x"), None);
    assert_eq!(hex_to_u8(""), None);
}

#[test]
fn hex_channels_round_to_nearest() {
    assert_eq!(hex_to_u8("0"), Some(0));
    assert_eq!(hex_to_u8("8"), Some(0x88));
    assert_eq!(hex_to_u8("80"), Some(0x80));
    assert_eq!(hex_to_u8("FF"), Some(0xff));
    assert_eq!(hex_to_u8("fff"), Some(0xff));
    assert_eq!(hex_to_u8("800"), Some(128));
    assert_eq!(hex_to_u8("7ff"), Some(127));
    assert_eq!(hex_to_u8("1e1e"), Some(30));
    assert_eq!(hex_to_u8("0080"), Some(0));
    assert_eq!(hex_to_u8("0081"), Some(1));
    assert_eq!(hex_to_u8("8000"), Some(128));
    assert_eq!(hex_to_u8("AbCd"), Some(171));
}

#[test]
fn hex_channels_reject_what_is_no_digit() {
    assert_eq!(hex_to_u8("+f"), None);
    assert_eq!(hex_to_u8("-1"), None);
    assert_eq!(hex_to_u8(" 1"), None);
    assert_eq!(hex_to_u8("g"), None);
    assert_eq!(hex_to_u8("é"), None);
}

#[test]
fn reply_fields_are_cut_at_colon_and_slashes() {
    assert_eq!(
        hex_rgb_from_osc_reply("\x1b]11;rgb:1e1e/2d2d/3c3c\x07"),
        Some(("1e1e", "2d2d", "3c3c"))
    );
    assert_eq!(
        hex_rgb_from_osc_reply("\x1b]11;rgb:ff/00/80\x1b\\"),
        Some(("ff", "00", "80"))
    );
    assert_eq!(hex_rgb_from_osc_reply("rgb:a/b/c"), Some(("a", "b", "c")));
    assert_eq!(hex_rgb_from_osc_reply("x:y:1/2/3"), Some(("y:1", "2", "3")));
    assert_eq!(hex_rgb_from_osc_reply(":///"), None);
    assert_eq!(hex_rgb_from_osc_reply("://"), Some(("", "", "")));
}

#[test]
fn reply_without_colon_is_absent() {
    assert_eq!(hex_rgb_from_osc_reply("\x1b]11;rgb 1e1e/2d2d/3c3c\x07"), None);
    assert_eq!(parse_osc_reply("\x1b]11;rgb 1e1e/2d2d/3c3c\x07"), None);
    assert_eq!(parse_osc_reply(""), None);
}

#[test]
fn reply_with_two_fields_is_absent() {
    assert_eq!(hex_rgb_from_osc_reply("\x1b]11;rgb:1e1e/2d2d\x07"), None);
    assert_eq!(parse_osc_reply("\x1b]11;rgb:1e1e/2d2d\x07"), None);
    assert_eq!(parse_osc_reply("\x1b]11;rgb:1e1e\x07"), None);
}

#[test]
fn reply_with_four_fields_is_absent() {
    assert_eq!(hex_rgb_from_osc_reply("\x1b]11;rgb:1/2/3/4\x07"), None);
    assert_eq!(parse_osc_reply("\x1b]11;rgb:1/2/3/4\x07"), None);
}

#[test]
fn reply_names_its_color() {
    assert_eq!(parse_osc_reply("\x1b]11;rgb:1e1e/1e1e/1e1e\x07"), Some((30, 30, 30)));
    assert_eq!(parse_osc_reply("\x1b]11;rgb:ffff/ffff/ffff\x1b\\"), Some((255, 255, 255)));
    assert_eq!(parse_osc_reply("\x1b]11;rgb:f/80/000\x07"), Some((255, 128, 0)));
    assert_eq!(parse_osc_reply("\x1b]11;rgb:f/80/00000\x07"), None);
    assert_eq!(parse_osc_reply("\x1b]11;rgb:f/8x/0\x07"), None);
    assert_eq!(parse_osc_reply("\x1b]11;rgb:f//0\x07"), None);
}

#[test]
fn query_is_osc_eleven() {
    assert_eq!(background_query(), b"\x1b]11;?\x07".to_vec());
    assert_eq!(background_query(), vec![0x1b, 0x5d, 0x31, 0x31, 0x3b, 0x3f, 0x07]);
}

#[test]
fn read_policy_is_one_second_and_no_minimum() {
    assert_eq!(MAX_OSC_LEN, 64);
    assert_eq!(READ_MIN_BYTES, 0);
    assert_eq!(READ_TIMEOUT_TENTHS, 10);
}

#[test]
fn seventy_bytes_without_terminator_are_absent() {
    let sent = vec![b'a'; 70];
    assert_eq!(accumulate_reply(&sent), None);
    assert_eq!(term_background(&sent), None);
}

#[test]
fn reply_stops_at_first_terminator() {
    assert_eq!(accumulate_reply(b"ab\x07cd\x07"), Some(b"ab\x07".to_vec()));
    assert_eq!(accumulate_reply(b"ab\x1b\\cd"), Some(b"ab\x1b\\".to_vec()));
    assert_eq!(accumulate_reply(b"\\"), None);
    assert_eq!(accumulate_reply(b"ab\x1b"), None);
    assert_eq!(accumulate_reply(b""), None);
}

#[test]
fn reply_may_fill_the_cap_but_not_pass_it() {
    let mut full = vec![b'a'; 63];
    full.push(0x07);
    assert_eq!(accumulate_reply(&full), Some(full.clone()));
    let mut over = vec![b'a'; 64];
    over.push(0x07);
    assert_eq!(accumulate_reply(&over), None);
    let mut split = vec![b'a'; 63];
    split.push(0x1b);
    split.push(b'\\');
    assert_eq!(accumulate_reply(&split), None);
}

#[test]
fn reader_steps_byte_by_byte() {
    let reader = ReplyReader::new();
    assert_eq!(reader.len(), 0);
    let reader = match reader.feed(ReadEvent::Byte(b'x')) {
        ReplyStep::Reading(reader) => reader,
        _ => panic!("one byte does not end a reply"),
    };
    assert_eq!(reader.len(), 1);
    match reader.feed(ReadEvent::Byte(0x07)) {
        ReplyStep::Complete(bytes) => assert_eq!(bytes, b"x\x07".to_vec()),
        _ => panic!("the bell ends a reply"),
    }
}

#[test]
fn reader_fails_on_silence() {
    let reader = ReplyReader::new();
    assert!(matches!(reader.feed(ReadEvent::Nothing), ReplyStep::Failed));
    let reader = match ReplyReader::new().feed(ReadEvent::Byte(b'x')) {
        ReplyStep::Reading(reader) => reader,
        _ => panic!("one byte does not end a reply"),
    };
    assert!(matches!(reader.feed(ReadEvent::Nothing), ReplyStep::Failed));
}

#[test]
fn reply_bytes_must_be_text() {
    assert_eq!(
        background_from_reply(b"\x1b]11;rgb:1e1e/1e1e/1e1e\x07".to_vec()),
        Some((30, 30, 30))
    );
    assert_eq!(background_from_reply(b"\xff]11;rgb:1e1e/1e1e/1e1e\x07".to_vec()), None);
    assert_eq!(background_from_reply(b"\xc3\xa9:1/2/3\x07".to_vec()), Some((0x11, 0x22, 0x33)));
}

#[test]
fn background_of_a_dark_terminal() {
    assert_eq!(term_background(b"\x1b]11;rgb:1e1e/1e1e/1e1e\x07"), Some((30, 30, 30)));
    assert_eq!(term_background(b"\x1b]11;rgb:1e1e/1e1e/1e1e\x1b\\trailing"), Some((30, 30, 30)));
    assert_eq!(term_background(b"\x1b]11;rgb:1e1e/1e1e\x07"), None);
    assert_eq!(term_background(b"\x1b]11;rgb 1e1e/1e1e/1e1e\x07"), None);
    assert_eq!(term_background(b"\x1b]11;rgb:1e1e/1e1e/1e1e"), None);
}
