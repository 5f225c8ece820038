use sada::audio::capture::{choose_input_config, find_device, requested_device, SupportedRange};
use sada::audio::encoder::{codec_content_type, split_channels, AacBitRate, AacChannels, AacEncoder, AacProfile, AacSettings, AacTransport};
use sada::audio::framing::SampleFramer;
use sada::audio::meter::{meter_step, MeterAction, MeterEvent, EMIT_INTERVAL_MS, SILENCE_TIMEOUT_MS};
use sada::audio::pump::{pump_step, send_tail, PumpAction, PumpEvent};
use sada::config::Codec;

fn to_pcm(samples: &[f32]) -> Vec<i16> {
    samples.iter().map(|&s| (s.clamp(-1.0, 1.0) * 32767.0) as i16).collect()
}

#[test]
fn content_types() {
    assert_eq!(codec_content_type(&Codec::MP3), "audio/mpeg");
    assert_eq!(codec_content_type(&Codec::Opus), "audio/opus");
    assert_eq!(codec_content_type(&Codec::OggVorbis), "audio/ogg");
    assert_eq!(codec_content_type(&Codec::AAC), "audio/aac");
    assert_eq!(codec_content_type(&Codec::AACPlus), "audio/aacp");
}

#[test]
fn framer_hands_out_whole_frames_in_order() {
    let mut f = SampleFramer::new(3);
    f.append(&[1, 2]);
    assert_eq!(f.take_frame(), None);
    f.append(&[3, 4, 5, 6, 7]);
    assert_eq!(f.take_frame(), Some(vec![1, 2, 3]));
    assert_eq!(f.take_frame(), Some(vec![4, 5, 6]));
    assert_eq!(f.take_frame(), None);
    assert_eq!(f.pending_len(), 1);
    assert_eq!(f.finish_frame(), Some(vec![7, 0, 0]));
    assert_eq!(f.finish_frame(), None);
}

#[test]
fn framer_blocks_and_truncation() {
    let mut f = SampleFramer::new(2);
    f.append(&[1, 2, 3, 4, 5]);
    assert_eq!(f.take_whole_frames(), vec![1, 2, 3, 4]);
    assert_eq!(f.pending, vec![5]);
    let mut g = SampleFramer::new(2);
    g.append(&[9, 8, 7]);
    assert_eq!(g.finish_frame(), Some(vec![9, 8]));
    assert_eq!(g.pending_len(), 0);
}

#[test]
fn test_vorbis_uneven_chunks() {
    // The Ogg Vorbis encoder passes whole stereo frames on and keeps the
    // rest; that buffering is the framer's take_whole_frames.
    let mut framer = SampleFramer::new(2);

    // Pass 3 samples (1.5 frames for stereo)
    let frame1 = to_pcm(&[0.1, -0.1, 0.2]);
    framer.append(&frame1);
    let _out1 = framer.take_whole_frames();
    // 2 samples processed, 1 sample kept in buffer
    assert_eq!(framer.pending.len(), 1);

    // Pass 1 sample (0.5 frames for stereo)
    let frame2 = to_pcm(&[-0.2]);
    framer.append(&frame2);
    let _out2 = framer.take_whole_frames();
    // The kept 1 sample + 1 sample = 2 samples processed, 0 kept in buffer
    assert_eq!(framer.pending.len(), 0);

    // Flush remaining
    let _out3 = framer.finish_frame();
}

#[test]
fn aac_encoder_frames_and_flushes() {
    let mut enc = AacEncoder::new(44100, 2, 128, false).unwrap();
    assert_eq!(enc.content_type(), "audio/aac");
    let out = enc.encode_samples(&vec![0i16; 100]).unwrap();
    assert!(out.is_empty());
    assert_eq!(enc.pending_len(), 100);
    let mut total = Vec::new();
    for _ in 0..10 {
        total.extend(enc.encode_samples(&vec![500i16; 2048]).unwrap());
    }
    assert!(enc.pending_len() < 2048);
    total.extend(enc.flush().unwrap());
    assert_eq!(enc.pending_len(), 0);
    assert!(!total.is_empty());
    // ADTS frames start with the 12-bit sync word 0xFFF.
    assert_eq!(total[0], 0xFF);
    assert_eq!(total[1] & 0xF0, 0xF0);
    let plus = AacEncoder::new(44100, 2, 64, true).unwrap();
    assert_eq!(plus.content_type(), "audio/aacp");
}

#[test]
fn aac_encoder_opens_fdk_with_the_requested_settings() {
    let lc = AacEncoder::new(44100, 2, 128, false).unwrap();
    assert_eq!(
        lc.settings(),
        AacSettings {
            sample_rate: 44100,
            bit_rate: AacBitRate::Constant(128000),
            transport: AacTransport::Adts,
            channels: AacChannels::Stereo,
            profile: AacProfile::LowComplexity,
        }
    );
    // AAC-LC frames hold 1024 samples per channel.
    assert_eq!(lc.frame_len(), 2048);
    let mono = AacEncoder::new(48000, 1, 96, false).unwrap();
    assert_eq!(mono.settings().channels, AacChannels::Mono);
    assert_eq!(mono.settings().bit_rate, AacBitRate::Constant(96000));
    assert_eq!(mono.frame_len(), 1024);
    let plus = AacEncoder::new(44100, 2, 64, true).unwrap();
    assert_eq!(plus.settings().profile, AacProfile::HighEfficiency);
    assert_eq!(plus.settings().bit_rate, AacBitRate::Constant(64000));
    assert_eq!(plus.settings().transport, AacTransport::Adts);
    assert_eq!(plus.frame_len() % 2, 0);
}

#[test]
fn aac_encoder_with_no_channels_opens_with_empty_frames() {
    let mut enc = AacEncoder::new(44100, 0, 128, false).unwrap();
    assert_eq!(enc.frame_len(), 0);
    assert_eq!(enc.flush().unwrap(), Vec::<u8>::new());
}

#[test]
fn aac_flush_without_waiting_samples_is_empty() {
    let mut enc = AacEncoder::new(44100, 2, 128, false).unwrap();
    assert_eq!(enc.flush().unwrap(), Vec::<u8>::new());
    enc.encode_samples(&vec![1i16; 10]).unwrap();
    assert_eq!(enc.pending_len(), 10);
    enc.flush().unwrap();
    assert_eq!(enc.pending_len(), 0);
}

#[test]
fn input_config_selection() {
    let ranges = vec![
        SupportedRange { channels: 1, min_rate: 8000, max_rate: 48000 },
        SupportedRange { channels: 2, min_rate: 44100, max_rate: 44100 },
        SupportedRange { channels: 2, min_rate: 8000, max_rate: 96000 },
    ];
    assert_eq!(choose_input_config(&ranges, 44100, 2), Some(1));
    assert_eq!(choose_input_config(&ranges, 48000, 2), Some(2));
    assert_eq!(choose_input_config(&ranges, 48000, 1), Some(0));
    assert_eq!(choose_input_config(&ranges, 192000, 2), None);
    assert_eq!(choose_input_config(&[], 44100, 2), None);
}

#[test]
fn device_requests() {
    assert_eq!(requested_device(Some("USB Mic")), Some("USB Mic"));
    assert_eq!(requested_device(Some("")), None);
    assert_eq!(requested_device(None), None);
}

#[test]
fn mp3_channel_split() {
    let (l, r) = split_channels(&[1, 2, 3, 4, 5, 6], 2);
    assert_eq!(l, vec![1, 3, 5]);
    assert_eq!(r, vec![2, 4, 6]);
    let (l, r) = split_channels(&[7, 8, 9], 1);
    assert_eq!(l, vec![7, 8, 9]);
    assert_eq!(r, vec![7, 8, 9]);
}

#[test]
fn device_lookup_by_name() {
    let names = vec!["Built-in".to_string(), "USB Mic".to_string(), "USB Mic".to_string()];
    assert_eq!(find_device(&names, "USB Mic"), Ok(1));
    assert_eq!(find_device(&names, "Built-in"), Ok(0));
    assert_eq!(find_device(&names, "usb mic"), Err("Device 'usb mic' not found".to_string()));
    assert_eq!(find_device(&[], "X"), Err("Device 'X' not found".to_string()));
}

#[test]
fn encoder_thread_decisions() {
    assert_eq!(pump_step(PumpEvent::ShutdownRequested), PumpAction::Flush);
    assert_eq!(pump_step(PumpEvent::Read { samples: 0, network_closed: false }), PumpAction::Wait);
    assert_eq!(pump_step(PumpEvent::Read { samples: 4096, network_closed: false }), PumpAction::Encode);
    assert_eq!(pump_step(PumpEvent::Read { samples: 0, network_closed: true }), PumpAction::Flush);
    assert_eq!(pump_step(PumpEvent::Read { samples: 4096, network_closed: true }), PumpAction::Flush);
    assert_eq!(pump_step(PumpEvent::Encoded { bytes: 0 }), PumpAction::ReadNext);
    assert_eq!(pump_step(PumpEvent::Encoded { bytes: 417 }), PumpAction::Send);
    assert_eq!(pump_step(PumpEvent::EncodeFailed), PumpAction::Flush);
    assert_eq!(pump_step(PumpEvent::Sent), PumpAction::ReadNext);
    assert_eq!(pump_step(PumpEvent::SendFailed), PumpAction::Flush);
    assert!(send_tail(12));
    assert!(!send_tail(0));
}

#[test]
fn level_meter_decisions() {
    assert_eq!(meter_step(MeterEvent::Level { since_emit_ms: 10 }), MeterAction::Skip);
    assert_eq!(meter_step(MeterEvent::Level { since_emit_ms: 32 }), MeterAction::Skip);
    assert_eq!(meter_step(MeterEvent::Level { since_emit_ms: 33 }), MeterAction::Emit);
    assert_eq!(meter_step(MeterEvent::TimedOut), MeterAction::EmitSilence);
    assert_eq!(meter_step(MeterEvent::Closed), MeterAction::Stop);
    assert_eq!(EMIT_INTERVAL_MS, 33);
    assert_eq!(SILENCE_TIMEOUT_MS, 100);
}
