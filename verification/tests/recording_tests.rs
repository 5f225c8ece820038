use sada::recording::{home_relative_path, recorder_step, RecorderAction, RecorderEvent};
use sada::recording::writer::{build_wav_header, pcm16_le_bytes};

#[test]
fn wav_header_for_cd_stereo() {
    let h = build_wav_header(44100, 2, 16, 0);
    let expected: Vec<u8> = vec![
        b'R', b'I', b'F', b'F', 36, 0, 0, 0, b'W', b'A', b'V', b'E', b'f', b'm', b't', b' ', 16, 0, 0, 0, 1, 0, 2, 0,
        0x44, 0xAC, 0, 0, 0x10, 0xB1, 0x02, 0, 4, 0, 16, 0, b'd', b'a', b't', b'a', 0, 0, 0, 0,
    ];
    assert_eq!(h, expected);
}

#[test]
fn wav_header_records_data_size() {
    let h = build_wav_header(48000, 1, 16, 96000);
    assert_eq!(h.len(), 44);
    assert_eq!(&h[4..8], &(36u32 + 96000).to_le_bytes());
    assert_eq!(&h[24..28], &48000u32.to_le_bytes());
    assert_eq!(&h[28..32], &96000u32.to_le_bytes());
    assert_eq!(&h[32..34], &2u16.to_le_bytes());
    assert_eq!(&h[40..44], &96000u32.to_le_bytes());
}

#[test]
fn samples_are_little_endian() {
    assert_eq!(pcm16_le_bytes(&[0, 1, -1, 32767, -32768, 256]), vec![0, 0, 1, 0, 0xff, 0xff, 0xff, 0x7f, 0, 0x80, 0, 1]);
    assert!(pcm16_le_bytes(&[]).is_empty());
}

#[test]
fn home_paths() {
    assert_eq!(home_relative_path("~/Music/show.wav"), Some("Music/show.wav".to_string()));
    assert_eq!(home_relative_path("~rec.wav"), Some("rec.wav".to_string()));
    assert_eq!(home_relative_path("~"), Some(String::new()));
    assert_eq!(home_relative_path("~//x"), Some("/x".to_string()));
    assert_eq!(home_relative_path("/tmp/a.wav"), None);
    assert_eq!(home_relative_path(""), None);
}

#[test]
fn recorder_thread_decisions() {
    assert_eq!(recorder_step(RecorderEvent::Samples), RecorderAction::Write);
    assert_eq!(recorder_step(RecorderEvent::Written), RecorderAction::Receive);
    assert_eq!(recorder_step(RecorderEvent::WriteFailed), RecorderAction::Finish);
    assert_eq!(recorder_step(RecorderEvent::TimedOut { shutdown_requested: false }), RecorderAction::Receive);
    assert_eq!(recorder_step(RecorderEvent::TimedOut { shutdown_requested: true }), RecorderAction::Finish);
    assert_eq!(recorder_step(RecorderEvent::Disconnected), RecorderAction::Finish);
}
