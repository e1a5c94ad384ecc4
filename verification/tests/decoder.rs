use vorbis::decoder::Decoded;
use vorbis::headers::Headers;
use vorbis::shim::ReadStep;
use vorbis::Comment;
use vorbis::Decoder;
use vorbis::VorbisError;

fn decoder_with(vendor: &[u8], comments: &[&[u8]]) -> Decoder {
    let mut decoder = Decoder::new();
    let comments: Vec<Vec<u8>> = comments.iter().map(|raw| raw.to_vec()).collect();
    decoder.set_headers(Headers::new(vendor.to_vec(), comments));
    decoder
}

fn fault(kind: std::io::ErrorKind, text: &str) -> std::io::Error {
    std::io::Error::new(kind, text.to_string())
}

fn all_comments(decoder: &Decoder) -> Vec<Vec<u8>> {
    let mut cursor = decoder.comments();
    let mut found = Vec::new();
    while let Some(comment) = cursor.next() {
        found.push(comment.bytes());
    }
    found
}

#[test]
fn get_comment_keeps_order_and_duplicates() {
    let decoder = decoder_with(b"v", &[b"SPLICEPOINT=10", b"SPLICEPOINT=5", b"TITLE=x"]);
    assert_eq!(decoder.get_comment("SPLICEPOINT").unwrap(), vec!["10", "5"]);
    assert_eq!(decoder.get_comment("TITLE").unwrap(), vec!["x"]);
}

#[test]
fn get_comment_does_not_drop_equal_values() {
    let decoder = decoder_with(b"v", &[b"A=1", b"B=2", b"A=1", b"A=0", b"A=1"]);
    assert_eq!(decoder.get_comment("A").unwrap(), vec!["1", "1", "0", "1"]);
}

#[test]
fn get_comment_of_a_key_that_is_not_there() {
    let decoder = decoder_with(b"v", &[b"SPLICEPOINT=10", b"TITLE=x"]);
    assert_eq!(decoder.get_comment("ARTIST").unwrap(), Vec::<String>::new());
    assert_eq!(decoder.get_comment("").unwrap(), Vec::<String>::new());
    assert_eq!(Decoder::new().get_comment("TITLE").unwrap(), Vec::<String>::new());
}

#[test]
fn get_comment_compares_keys_byte_for_byte() {
    let decoder = decoder_with(b"v", &[b"title=a", b"TITLE=b", b"TITLE =c", b"=d"]);
    assert_eq!(decoder.get_comment("TITLE").unwrap(), vec!["b"]);
    assert_eq!(decoder.get_comment("title").unwrap(), vec!["a"]);
    assert_eq!(decoder.get_comment("").unwrap(), vec!["d"]);
}

#[test]
fn get_comment_stops_at_a_comment_without_separator() {
    let decoder = decoder_with(b"v", &[b"TITLE=x", b"broken", b"TITLE=y"]);
    assert!(matches!(decoder.get_comment("TITLE"), Err(VorbisError::CommentFormat)));
    assert!(matches!(decoder.get_comment("OTHER"), Err(VorbisError::CommentFormat)));
}

#[test]
fn get_comment_stops_at_a_value_that_is_not_utf8() {
    let decoder = decoder_with(b"v", &[b"TITLE=x", b"TITLE=\xff", b"ARTIST=y"]);
    assert!(matches!(decoder.get_comment("TITLE"), Err(VorbisError::CommentCharacter(_))));
    assert_eq!(decoder.get_comment("ARTIST").unwrap(), vec!["y"]);
}

#[test]
fn get_comment_reports_the_first_comment_it_cannot_read() {
    let text_first = decoder_with(b"v", &[b"TITLE=\xff", b"broken"]);
    assert!(matches!(text_first.get_comment("TITLE"), Err(VorbisError::CommentCharacter(_))));
    let format_first = decoder_with(b"v", &[b"broken", b"TITLE=\xff"]);
    assert!(matches!(format_first.get_comment("TITLE"), Err(VorbisError::CommentFormat)));
}

#[test]
fn get_comment_does_not_read_keys_as_text() {
    let decoder = decoder_with(b"v", &[b"K\x01Y=v", b"TITLE=x"]);
    assert_eq!(decoder.get_comment("TITLE").unwrap(), vec!["x"]);
    assert_eq!(decoder.get_comment("K\u{1}Y").unwrap(), vec!["v"]);
}

#[test]
fn get_comment_with_a_key_beyond_ascii() {
    let decoder = decoder_with(b"v", &["cl\u{e9}=valeur".as_bytes(), b"cle=other"]);
    assert_eq!(decoder.get_comment("cl\u{e9}").unwrap(), vec!["valeur"]);
}

#[test]
fn comment_at_is_checked_against_the_bounds() {
    let decoder = decoder_with(b"v", &[b"A=1", b"B=2", b"C=3"]);
    assert_eq!(decoder.comment_at(0).unwrap().bytes(), b"A=1".to_vec());
    assert_eq!(decoder.comment_at(1).unwrap().bytes(), b"B=2".to_vec());
    assert_eq!(decoder.comment_at(2).unwrap().key().unwrap(), "C");
    assert!(decoder.comment_at(3).is_none());
    assert!(decoder.comment_at(-1).is_none());
    assert!(decoder.comment_at(i32::MAX).is_none());
    assert!(decoder.comment_at(i32::MIN).is_none());
    assert!(Decoder::new().comment_at(0).is_none());
}

#[test]
fn comments_come_in_the_order_of_storage() {
    let decoder = decoder_with(b"v", &[b"B=2", b"A=1", b"broken", b"A=1"]);
    assert_eq!(
        all_comments(&decoder),
        vec![b"B=2".to_vec(), b"A=1".to_vec(), b"broken".to_vec(), b"A=1".to_vec()]
    );
    assert!(all_comments(&Decoder::new()).is_empty());
}

#[test]
fn comments_twice_give_the_same() {
    let decoder = decoder_with(b"v", &[b"SPLICEPOINT=10", b"SPLICEPOINT=5", b"TITLE=x"]);
    let first = all_comments(&decoder);
    let second = all_comments(&decoder);
    assert_eq!(first, second);
    assert_eq!(first.len(), 3);
}

#[test]
fn a_cursor_that_has_ended_stays_ended() {
    let decoder = decoder_with(b"v", &[b"A=1"]);
    let mut cursor = decoder.comments();
    assert!(cursor.next().is_some());
    assert!(cursor.next().is_none());
    assert!(cursor.next().is_none());
}

#[test]
fn the_cursor_and_comment_at_agree() {
    let decoder = decoder_with(b"v", &[b"A=1", b"B=2", b"C"]);
    let mut cursor = decoder.comments();
    let mut index = 0;
    while let Some(comment) = cursor.next() {
        assert_eq!(comment.bytes(), decoder.comment_at(index).unwrap().bytes());
        index += 1;
    }
    assert_eq!(index, 3);
    assert!(decoder.comment_at(index).is_none());
}

#[test]
fn fold_goes_through_the_comments_from_first_to_last() {
    let decoder = decoder_with(b"v", &[b"A=1", b"B=2", b"C=3"]);
    let joined = decoder.fold_comments(String::new(), |mut text: String, comment: &Comment| {
        text.push_str(&comment.key().unwrap());
        text.push_str(&comment.value().unwrap());
        text
    });
    assert_eq!(joined, "A1B2C3");
    let count = decoder.fold_comments(0usize, |count: usize, _: &Comment| count + 1);
    assert_eq!(count, 3);
}

#[test]
fn fold_over_no_comments_gives_the_seed() {
    let seed = Decoder::new().fold_comments(41, |count: i32, _: &Comment| count + 1);
    assert_eq!(seed, 41);
}

#[test]
fn vendor_text() {
    let decoder = decoder_with(b"Xiph.Org libVorbis I 20200704", &[]);
    assert_eq!(decoder.vendor().unwrap(), "Xiph.Org libVorbis I 20200704");
    assert_eq!(decoder_with("caf\u{e9}".as_bytes(), &[]).vendor().unwrap(), "caf\u{e9}");
    assert_eq!(Decoder::new().vendor().unwrap(), "");
}

#[test]
fn vendor_text_that_is_not_utf8() {
    let decoder = decoder_with(b"Xiph\xff", &[b"TITLE=x"]);
    assert!(matches!(decoder.vendor(), Err(VorbisError::CommentCharacter(_))));
    assert_eq!(decoder.get_comment("TITLE").unwrap(), vec!["x"]);
}

#[test]
fn a_new_decoder_is_at_the_first_sub_stream() {
    let mut decoder = Decoder::new();
    assert_eq!(decoder.current_logical_bitstream(), 0);
    assert!(matches!(decoder.next_packet(0, 0, Vec::new()), Decoded::Finished));
}

#[test]
fn open_succeeds_on_zero() {
    let mut decoder = Decoder::new();
    assert!(decoder.accepts_open(0));
    assert!(matches!(decoder.open_result(0), Ok(())));
}

#[test]
fn open_fails_with_the_kind_of_the_code() {
    let mut decoder = Decoder::new();
    assert!(matches!(decoder.open_result(-132), Err(VorbisError::NotVorbis)));
    assert!(matches!(decoder.open_result(-134), Err(VorbisError::VersionMismatch)));
    assert!(matches!(decoder.open_result(-133), Err(VorbisError::BadHeader)));
    assert!(matches!(decoder.open_result(-131), Err(VorbisError::InitialFileHeadersCorrupt)));
    assert!(matches!(decoder.open_result(-3), Err(VorbisError::Hole)));
}

#[test]
fn open_fails_with_the_fault_of_the_stream() {
    let mut decoder = Decoder::new();
    let step = decoder.read_finished(Err(fault(std::io::ErrorKind::PermissionDenied, "denied")));
    assert_eq!(step, ReadStep::Done(0));
    match decoder.open_result(vorbis_sys::OV_ENOTVORBIS) {
        Err(VorbisError::ReadError(inner)) => {
            assert_eq!(inner.kind(), std::io::ErrorKind::PermissionDenied);
            assert_eq!(inner.to_string(), "denied");
        }
        other => panic!("{:?}", other),
    }
    assert!(matches!(decoder.next_packet(0, 0, Vec::new()), Decoded::Finished));
}

#[test]
fn open_takes_the_read_code_only_with_a_fault() {
    let mut decoder = Decoder::new();
    assert!(!decoder.accepts_open(vorbis_sys::OV_EREAD));
    decoder.read_finished(Err(fault(std::io::ErrorKind::Other, "gone")));
    assert!(decoder.accepts_open(vorbis_sys::OV_EREAD));
    assert!(matches!(
        decoder.open_result(vorbis_sys::OV_EREAD),
        Err(VorbisError::ReadError(_))
    ));
    assert!(!decoder.accepts_open(vorbis_sys::OV_EREAD));
}

#[test]
fn open_never_takes_a_fault_of_the_engine() {
    let mut decoder = Decoder::new();
    assert!(!decoder.accepts_open(vorbis_sys::OV_EFAULT));
    assert!(!decoder.accepts_open(-9999));
    assert!(!decoder.accepts_open(1));
    decoder.read_finished(Err(fault(std::io::ErrorKind::Other, "gone")));
    assert!(!decoder.accepts_open(vorbis_sys::OV_EFAULT));
    assert!(!decoder.accepts_open(-9999));
    assert!(decoder.accepts_open(vorbis_sys::OV_EBADHEADER));
}

#[test]
fn a_fault_stays_when_the_open_succeeds() {
    let mut decoder = Decoder::new();
    decoder.read_finished(Err(fault(std::io::ErrorKind::Other, "late")));
    assert!(matches!(decoder.open_result(0), Ok(())));
    assert!(matches!(
        decoder.next_packet(0, 0, Vec::new()),
        Decoded::Failed(VorbisError::ReadError(_))
    ));
}

#[test]
fn a_read_that_went_well_reports_its_count() {
    let mut decoder = Decoder::new();
    assert_eq!(decoder.read_finished(Ok(4096)), ReadStep::Done(4096));
    assert_eq!(decoder.read_finished(Ok(17)), ReadStep::Done(17));
    assert_eq!(decoder.read_finished(Ok(0)), ReadStep::Done(0));
    assert!(matches!(decoder.next_packet(0, 0, Vec::new()), Decoded::Finished));
}

#[test]
fn an_interrupted_read_is_tried_again() {
    let mut decoder = Decoder::new();
    let step = decoder.read_finished(Err(fault(std::io::ErrorKind::Interrupted, "signal")));
    assert_eq!(step, ReadStep::Retry);
    assert!(matches!(decoder.next_packet(0, 0, Vec::new()), Decoded::Finished));
}

#[test]
fn a_failed_read_is_reported_once() {
    let mut decoder = Decoder::new();
    let step = decoder.read_finished(Err(fault(std::io::ErrorKind::BrokenPipe, "pipe")));
    assert_eq!(step, ReadStep::Done(0));
    match decoder.next_packet(0, 0, vec![0; 2048]) {
        Decoded::Failed(VorbisError::ReadError(inner)) => {
            assert_eq!(inner.kind(), std::io::ErrorKind::BrokenPipe);
            assert_eq!(inner.to_string(), "pipe");
        }
        _ => panic!("the fault was not reported"),
    }
    assert!(matches!(decoder.next_packet(0, 0, vec![0; 2048]), Decoded::Finished));
    assert!(matches!(decoder.next_packet(0, 0, vec![0; 2048]), Decoded::Finished));
}

#[test]
fn the_last_fault_takes_the_place_of_the_one_before() {
    let mut decoder = Decoder::new();
    decoder.read_finished(Err(fault(std::io::ErrorKind::BrokenPipe, "first")));
    decoder.read_finished(Err(fault(std::io::ErrorKind::TimedOut, "second")));
    decoder.read_finished(Err(fault(std::io::ErrorKind::Interrupted, "signal")));
    decoder.read_finished(Ok(12));
    match decoder.next_packet(0, 0, Vec::new()) {
        Decoded::Failed(VorbisError::ReadError(inner)) => {
            assert_eq!(inner.kind(), std::io::ErrorKind::TimedOut);
            assert_eq!(inner.to_string(), "second");
        }
        _ => panic!("the fault was not reported"),
    }
    assert!(matches!(decoder.next_packet(0, 0, Vec::new()), Decoded::Finished));
}

#[test]
fn read_step_goes_by_what_it_is_told() {
    let mut decoder = Decoder::new();
    let step = decoder.read_step(Err(fault(std::io::ErrorKind::Other, "kept")), true);
    assert_eq!(step, ReadStep::Retry);
    assert!(matches!(decoder.next_packet(0, 0, Vec::new()), Decoded::Finished));
    let step = decoder.read_step(Err(fault(std::io::ErrorKind::Interrupted, "kept")), false);
    assert_eq!(step, ReadStep::Done(0));
    assert!(matches!(
        decoder.next_packet(0, 0, Vec::new()),
        Decoded::Failed(VorbisError::ReadError(_))
    ));
    assert_eq!(decoder.read_step(Ok(5), true), ReadStep::Done(5));
    assert_eq!(decoder.read_step(Ok(5), false), ReadStep::Done(5));
}

#[test]
fn a_fault_waits_through_packets_and_errors() {
    let mut decoder = Decoder::new();
    decoder.read_finished(Err(fault(std::io::ErrorKind::Other, "waiting")));
    assert!(matches!(decoder.next_packet(4, 0, vec![1, 2, 3]), Decoded::Samples { .. }));
    assert!(matches!(decoder.next_packet(-3, 0, vec![1, 2, 3]), Decoded::Failed(VorbisError::Hole)));
    assert!(matches!(
        decoder.next_packet(0, 0, vec![1, 2, 3]),
        Decoded::Failed(VorbisError::ReadError(_))
    ));
    assert!(matches!(decoder.next_packet(0, 0, vec![1, 2, 3]), Decoded::Finished));
}

#[test]
fn a_positive_code_is_a_number_of_bytes() {
    let mut decoder = Decoder::new();
    match decoder.next_packet(6, 0, vec![11, 22, 33, 44, 55]) {
        Decoded::Samples { data, bitstream } => {
            assert_eq!(data, vec![11, 22, 33]);
            assert_eq!(bitstream, 0);
        }
        _ => panic!("no samples"),
    }
    match decoder.next_packet(4096, 0, vec![7; 2048]) {
        Decoded::Samples { data, .. } => assert_eq!(data, vec![7; 2048]),
        _ => panic!("no samples"),
    }
    match decoder.next_packet(1, 0, vec![7; 2048]) {
        Decoded::Samples { data, .. } => assert!(data.is_empty()),
        _ => panic!("no samples"),
    }
}

#[test]
fn the_active_sub_stream_follows_the_engine() {
    let mut decoder = Decoder::new();
    match decoder.next_packet(2, 3, vec![1, 2]) {
        Decoded::Samples { data, bitstream } => {
            assert_eq!(data, vec![1]);
            assert_eq!(bitstream, 3);
        }
        _ => panic!("no samples"),
    }
    assert_eq!(decoder.current_logical_bitstream(), 3);
    assert!(matches!(decoder.next_packet(-3, 4, vec![1, 2]), Decoded::Failed(VorbisError::Hole)));
    assert_eq!(decoder.current_logical_bitstream(), 4);
    assert!(matches!(decoder.next_packet(0, 5, vec![1, 2]), Decoded::Finished));
    assert_eq!(decoder.current_logical_bitstream(), 5);
}

#[test]
fn a_negative_code_is_an_error_item() {
    let mut decoder = Decoder::new();
    assert!(matches!(decoder.next_packet(-3, 0, Vec::new()), Decoded::Failed(VorbisError::Hole)));
    assert!(matches!(
        decoder.next_packet(-133, 0, Vec::new()),
        Decoded::Failed(VorbisError::BadHeader)
    ));
    assert!(matches!(
        decoder.next_packet(-131, 0, Vec::new()),
        Decoded::Failed(VorbisError::InitialFileHeadersCorrupt)
    ));
    assert!(matches!(
        decoder.next_packet(-132, 0, Vec::new()),
        Decoded::Failed(VorbisError::NotVorbis)
    ));
    assert!(matches!(
        decoder.next_packet(-134, 0, Vec::new()),
        Decoded::Failed(VorbisError::VersionMismatch)
    ));
}

#[test]
fn codes_that_a_decode_read_takes() {
    assert!(Decoder::accepts_read(0));
    assert!(Decoder::accepts_read(1));
    assert!(Decoder::accepts_read(4096));
    assert!(Decoder::accepts_read(i64::MAX));
    assert!(Decoder::accepts_read(-3));
    assert!(Decoder::accepts_read(-134));
    assert!(!Decoder::accepts_read(-1));
    assert!(!Decoder::accepts_read(-2));
    assert!(!Decoder::accepts_read(-128));
    assert!(!Decoder::accepts_read(-129));
    assert!(!Decoder::accepts_read(i64::MIN));
    assert!(!Decoder::accepts_read(-132 - (1i64 << 32)));
}

#[test]
fn decoding_leaves_the_headers_alone() {
    let mut decoder = decoder_with(b"vendor", &[b"A=1", b"B=2"]);
    let before = all_comments(&decoder);
    decoder.read_finished(Err(fault(std::io::ErrorKind::Other, "x")));
    decoder.next_packet(8, 1, vec![0; 16]);
    decoder.next_packet(-3, 1, vec![0; 16]);
    decoder.next_packet(0, 1, vec![0; 16]);
    decoder.next_packet(0, 1, vec![0; 16]);
    assert_eq!(all_comments(&decoder), before);
    assert_eq!(decoder.vendor().unwrap(), "vendor");
}

#[test]
fn new_headers_take_the_place_of_the_old() {
    let mut decoder = decoder_with(b"old", &[b"A=1"]);
    decoder.next_packet(2, 7, vec![0; 2]);
    decoder.set_headers(Headers::new(b"new".to_vec(), vec![b"B=2".to_vec(), b"C=3".to_vec()]));
    assert_eq!(decoder.vendor().unwrap(), "new");
    assert_eq!(all_comments(&decoder), vec![b"B=2".to_vec(), b"C=3".to_vec()]);
    assert_eq!(decoder.current_logical_bitstream(), 7);
}

#[test]
fn headers_answer_for_themselves() {
    let headers = Headers::new(b"v".to_vec(), vec![b"A=1".to_vec(), b"B=2".to_vec()]);
    assert_eq!(headers.len(), 2);
    assert_eq!(headers.vendor_text().unwrap(), "v");
    assert_eq!(headers.comment_at(1).unwrap().value().unwrap(), "2");
    assert!(headers.comment_at(2).is_none());
    let mut cursor = headers.cursor();
    assert_eq!(cursor.next().unwrap().key().unwrap(), "A");
    assert_eq!(Headers::empty().len(), 0);
    assert_eq!(Headers::empty().vendor_text().unwrap(), "");
}

#[test]
fn an_opened_decoder_releases_once() {
    let mut decoder = Decoder::new();
    assert!(decoder.open_result(0).is_ok());
    assert!(decoder.close());
    assert!(!decoder.close());
    assert!(!decoder.close());
}

#[test]
fn a_decoder_that_was_not_opened_releases_nothing() {
    let mut fresh = Decoder::new();
    assert!(!fresh.close());
    let mut refused = Decoder::new();
    assert!(refused.open_result(vorbis_sys::OV_ENOTVORBIS).is_err());
    assert!(!refused.close());
    let mut failed = Decoder::new();
    failed.read_finished(Err(fault(std::io::ErrorKind::Other, "gone")));
    assert!(failed.open_result(vorbis_sys::OV_EREAD).is_err());
    assert!(!failed.close());
}

#[test]
fn decoding_does_not_change_what_is_released() {
    let mut decoder = decoder_with(b"v", &[b"A=1"]);
    assert!(decoder.open_result(0).is_ok());
    decoder.read_finished(Ok(100));
    decoder.read_finished(Err(fault(std::io::ErrorKind::Other, "x")));
    decoder.next_packet(8, 0, vec![0; 8]);
    decoder.next_packet(-3, 0, vec![0; 8]);
    decoder.next_packet(0, 0, vec![0; 8]);
    decoder.next_packet(0, 0, vec![0; 8]);
    assert!(decoder.close());
    assert!(!decoder.close());
    assert_eq!(decoder.get_comment("A").unwrap(), vec!["1"]);
}

#[test]
fn only_an_interrupted_call_is_tried_again() {
    let kinds = [
        std::io::ErrorKind::NotFound,
        std::io::ErrorKind::PermissionDenied,
        std::io::ErrorKind::ConnectionReset,
        std::io::ErrorKind::WouldBlock,
        std::io::ErrorKind::InvalidData,
        std::io::ErrorKind::TimedOut,
        std::io::ErrorKind::UnexpectedEof,
        std::io::ErrorKind::Other,
    ];
    for kind in kinds {
        let mut decoder = Decoder::new();
        assert_eq!(decoder.read_finished(Err(fault(kind, "failed"))), ReadStep::Done(0));
        match decoder.next_packet(0, 0, Vec::new()) {
            Decoded::Failed(VorbisError::ReadError(inner)) => assert_eq!(inner.kind(), kind),
            other => panic!("{:?}", other),
        }
    }
    let mut decoder = Decoder::new();
    let interrupted = std::io::Error::from(std::io::ErrorKind::Interrupted);
    assert_eq!(decoder.read_finished(Err(interrupted)), ReadStep::Retry);
    assert!(matches!(decoder.next_packet(0, 0, Vec::new()), Decoded::Finished));
}
