use dotfiles::clipboard::{
    selection_text, Capability, LoadError, PipeReader, PipeWriter, PointerEventKind, ReadOutcome,
    SelectionTarget, State, WriteOutcome, WriteStep,
};
use dotfiles::listenbrainz::{
    artist_mbids, import_request, metadata_field, rating_decision, rating_score, read_recording_id,
    recording_id_from_ufid, MetadataField, RatingDecision, ScrobbleTimer, TrackInfo,
};
use dotfiles::polkit::{parse_line, Event, HelperReader};
use dotfiles::power::{power, split_at_spaces, PowerOption};

#[test]
fn import_single_and_batch() {
    assert_eq!(import_request(&Vec::new()), None);
    let one = import_request(&vec![b"{\"a\":1}".to_vec()]).unwrap();
    assert_eq!(one, b"{\"listen_type\":\"single\",\"payload\":[{\"a\":1}]}".to_vec());
    let two = import_request(&vec![b"1".to_vec(), b"2".to_vec()]).unwrap();
    assert_eq!(two, b"{\"listen_type\":\"import\",\"payload\":[1,2]}".to_vec());
}

#[test]
fn ufid_frames() {
    let mut data = b"http://musicbrainz.org".to_vec();
    data.push(0);
    data.extend_from_slice(b"0a1b2c3d-0000-1111-2222-333344445555");
    assert_eq!(recording_id_from_ufid(&data), Some("0a1b2c3d-0000-1111-2222-333344445555".to_owned()));
    let mut other = b"http://example.org".to_vec();
    other.push(0);
    other.extend_from_slice(b"x");
    assert_eq!(recording_id_from_ufid(&other), None);
    assert_eq!(recording_id_from_ufid(&b"no delimiter".to_vec()), None);
    let mut bad = b"http://musicbrainz.org".to_vec();
    bad.push(0);
    bad.push(0xff);
    assert_eq!(recording_id_from_ufid(&bad), None);
    let frames = vec![
        ("TIT2".to_owned(), Some(data.clone())),
        ("UFID".to_owned(), None),
        ("UFID".to_owned(), Some(other.clone())),
        ("UFID".to_owned(), Some(data.clone())),
    ];
    assert_eq!(read_recording_id(&frames), Some("0a1b2c3d-0000-1111-2222-333344445555".to_owned()));
    assert_eq!(read_recording_id(&frames[..3].to_vec()), None);
}

#[test]
fn ratings() {
    assert_eq!(rating_score("listenbrainz-love"), Some(1));
    assert_eq!(rating_score("listenbrainz-hate"), Some(-1));
    assert_eq!(rating_score("listenbrainz-unrate"), Some(0));
    assert_eq!(rating_score("other"), None);
}

#[test]
fn track_metadata_and_scrobbling() {
    assert_eq!(metadata_field("MusicBrainz Album Id"), MetadataField::ReleaseMbid);
    assert_eq!(metadata_field("title"), MetadataField::TrackName);
    assert_eq!(metadata_field("Title"), MetadataField::Ignored);
    let mut t = TrackInfo::new();
    assert!(!t.should_scrobble("song.flac"));
    t.read_entry("ARTIST", "Band");
    t.read_entry("TITLE", "Song");
    t.read_entry("ALBUM", "Album");
    assert!(!t.should_scrobble("song.flac"));
    t.read_entry("MUSICBRAINZ_ALBUMID", "aaaaaaaa-bbbb-cccc-dddd-eeeeeeeeeeee");
    assert!(t.should_scrobble("song.flac"));
    assert!(!t.should_scrobble("Song"));
    t.read_entry("MUSICBRAINZ_ARTISTID", "11111111-2222-3333-4444-555555555555; 66666666-7777-8888-9999-000000000000");
    assert_eq!(t.artist_mbids, vec!["11111111-2222-3333-4444-555555555555", "66666666-7777-8888-9999-000000000000"]);
    t.read_entry("MUSICBRAINZ_TRACKID", "rec");
    assert_eq!(t.recording_mbid, "rec");
    assert_eq!(artist_mbids("none here"), Some(Vec::new()));
}

#[test]
fn scrobble_timer_pauses() {
    let mut t = ScrobbleTimer { scrobble: true, timeout: true, deadline: 1000, pause_instant: 0 };
    assert_eq!(t.wait_until(500), Some(1000));
    t.on_pause(true, 500);
    assert!(!t.timeout);
    assert_eq!(t.wait_until(600), None);
    t.on_pause(false, 800);
    assert_eq!(t.deadline, 1300);
    assert_eq!(t.wait_until(1300), None);
    assert_eq!(t.on_deadline(1_700_000_000), Some(1_700_000_000));
    assert!(!t.scrobble);
    let mut off = ScrobbleTimer { scrobble: false, timeout: false, deadline: 5, pause_instant: 1 };
    off.on_pause(false, 100);
    assert_eq!(off.deadline, 5);
    assert_eq!(off.on_deadline(0), None);
}

#[test]
fn polkit_lines() {
    assert_eq!(parse_line("PAM_PROMPT_ECHO_OFF Password: \n"), Some(Event::Request("Password:".to_owned(), false)));
    assert_eq!(parse_line("PAM_PROMPT_ECHO_ON Name"), Some(Event::Request("Name".to_owned(), true)));
    assert_eq!(parse_line("PAM_ERROR_MSG bad thing"), Some(Event::ShowError("bad thing".to_owned())));
    assert_eq!(parse_line("PAM_TEXT_INFO info"), Some(Event::ShowDebug("info".to_owned())));
    assert_eq!(parse_line("SUCCESS\n"), Some(Event::Complete(true)));
    assert_eq!(parse_line("FAILURE"), Some(Event::Complete(false)));
    assert_eq!(parse_line("HELLO there"), None);
}

#[test]
fn polkit_reader_keeps_unknown_text() {
    let mut r = HelperReader::new();
    assert_eq!(r.feed("SUCCESS\n"), Some(Event::Complete(true)));
    let mut r = HelperReader::new();
    assert_eq!(r.feed("NOISE\n"), None);
    assert_eq!(r.feed("SUCCESS\n"), None);
    assert_eq!(r.finish(), Event::Failed);
}

#[test]
fn power_commands() {
    let c = power(PowerOption::Shutdown, None, false);
    assert_eq!((c.program.as_str(), c.args), ("shutdown", vec!["-h".to_owned(), "now".to_owned()]));
    let c = power(PowerOption::Reboot, None, true);
    assert_eq!(c.args, vec!["-r", "now"]);
    let c = power(PowerOption::Reboot, Some("loginctl reboot"), false);
    assert_eq!(c.program, "loginctl");
    assert_eq!(c.args, vec!["reboot"]);
    let c = power(PowerOption::Shutdown, Some("loginctl poweroff"), true);
    assert_eq!(c.program, "setsid");
    assert_eq!(c.args, vec!["loginctl", "poweroff"]);
    assert_eq!(split_at_spaces(""), vec![""]);
    assert_eq!(split_at_spaces("a  b"), vec!["a", "", "b"]);
}

#[test]
fn clipboard_focus_and_serials() {
    assert!(State::new(false, false).is_none());
    let mut s = State::new(true, false).unwrap();
    assert_eq!(s.store_selection(SelectionTarget::Clipboard, "x".to_owned()), None);
    assert_eq!(s.new_capability(Capability::Pointer), (false, false));
    assert_eq!(s.new_capability(Capability::Keyboard), (true, false));
    assert_eq!(s.new_capability(Capability::Keyboard), (false, false));
    s.keyboard_enter(5);
    assert!(s.has_focus);
    assert_eq!(s.latest_serial, 5);
    assert_eq!(s.store_selection(SelectionTarget::Clipboard, "héllo".to_owned()), Some(()));
    assert_eq!(s.selection_content(SelectionTarget::Clipboard), &"héllo".as_bytes().to_vec());
    assert_eq!(s.store_selection(SelectionTarget::Primary, "y".to_owned()), None);
    s.pointer_frame(&vec![
        PointerEventKind::Press { serial: 9 },
        PointerEventKind::Other,
        PointerEventKind::Release { serial: 11 },
        PointerEventKind::Other,
    ]);
    assert_eq!(s.latest_serial, 11);
    s.keyboard_key(12);
    assert_eq!(s.latest_serial, 12);
    s.keyboard_leave();
    assert!(!s.has_focus);
    assert_eq!(s.latest_serial, 0);
    s.remove_capability(Capability::Keyboard);
    assert!(!s.has_data_device);
}

#[test]
fn paste_pipe_writes_until_done() {
    let mut w = PipeWriter::new(10);
    assert_eq!(w.on_write(WriteOutcome::Wrote(4)), WriteStep::Again);
    assert_eq!(w.written(), 4);
    assert_eq!(w.on_write(WriteOutcome::WouldBlock), WriteStep::Wait);
    assert_eq!(w.written(), 4);
    assert_eq!(w.on_write(WriteOutcome::Wrote(6)), WriteStep::Finish);
    assert_eq!(w.written(), 10);
    let mut failing = PipeWriter::new(3);
    assert_eq!(failing.on_write(WriteOutcome::Failed), WriteStep::Finish);
    assert_eq!(failing.written(), 0);
    let mut empty = PipeWriter::new(0);
    assert_eq!(empty.on_write(WriteOutcome::Wrote(0)), WriteStep::Finish);
}

#[test]
fn selection_pipe_reads_until_end() {
    let mut r = PipeReader::new();
    assert_eq!(r.on_read(ReadOutcome::Data(b"hel".to_vec())), None);
    assert_eq!(r.on_read(ReadOutcome::WouldBlock), None);
    assert_eq!(r.on_read(ReadOutcome::Data(b"lo".to_vec())), None);
    assert_eq!(r.on_read(ReadOutcome::End), Some(b"hello".to_vec()));
    assert!(r.content.is_empty());
}

#[test]
fn loading_needs_focus_offer_and_type() {
    let mut s = State::new(true, false).unwrap();
    assert_eq!(s.check_load(SelectionTarget::Clipboard, true, true), Err(LoadError::NoFocus));
    s.keyboard_enter(7);
    assert_eq!(s.check_load(SelectionTarget::Clipboard, true, true), Err(LoadError::SelectionEmpty));
    s.new_capability(Capability::Keyboard);
    assert_eq!(s.check_load(SelectionTarget::Clipboard, false, true), Err(LoadError::SelectionEmpty));
    assert_eq!(s.check_load(SelectionTarget::Clipboard, true, false), Err(LoadError::NoSupportedMime));
    assert_eq!(s.check_load(SelectionTarget::Clipboard, true, true), Ok(()));
    assert_eq!(s.check_load(SelectionTarget::Primary, true, true), Err(LoadError::SelectionEmpty));
}

#[test]
fn selection_bytes_become_text() {
    assert_eq!(selection_text(&"héllo\r\n".as_bytes().to_vec()), "héllo\r\n");
    assert_eq!(selection_text(&vec![b'a', 0xff, b'b']), "a\u{fffd}b");
    assert_eq!(selection_text(&Vec::new()), "");
}

#[test]
fn storing_keeps_the_managers() {
    let mut s = State::new(true, true).unwrap();
    s.keyboard_enter(3);
    s.new_capability(Capability::Keyboard);
    assert_eq!(s.store_selection(SelectionTarget::Primary, "x".to_string()), Some(()));
    assert!(s.has_data_device_manager && s.has_primary_selection_manager && !s.exit);
    assert_eq!(s.primary_selection_content, b"x".to_vec());
}

#[test]
fn rating_needs_a_recording_id() {
    assert_eq!(rating_decision("cycle-pause", "id"), RatingDecision::NotARating);
    assert_eq!(rating_decision("listenbrainz-love", ""), RatingDecision::UnknownRecording);
    assert_eq!(
        rating_decision("listenbrainz-hate", "abc"),
        RatingDecision::Submit { recording_mbid: "abc".to_string(), score: -1 }
    );
    assert_eq!(
        rating_decision("listenbrainz-unrate", "abc"),
        RatingDecision::Submit { recording_mbid: "abc".to_string(), score: 0 }
    );
    let mut t = TrackInfo::new();
    assert!(t.needs_recording_id());
    t.read_entry("MUSICBRAINZ_TRACKID", "rec");
    assert!(!t.needs_recording_id());
}
