use audio_mixer::backend::{AudioConfig, Backend, BackendError, DecoderFlags, InitOutcome};
use audio_mixer::mixer::{ChannelState, DecodeOutcome, Mixer, MusicSlot, PlaybackError};

fn all_decoders() -> DecoderFlags {
    DecoderFlags { mp3: true, flac: true, tracker: true, ogg: true, midi: true }
}

fn good_outcome() -> InitOutcome {
    InitOutcome {
        core_ok: true,
        audio_ok: true,
        device_ok: true,
        decoders: all_decoders(),
        negotiated: AudioConfig { frequency: 44100, format: 0x8010, channels: 2 },
    }
}

fn fresh_session() -> Mixer {
    Mixer::new(&good_outcome()).expect("initialization with a clean outcome must succeed")
}

#[test]
fn init_succeeds_without_fatal_failure() {
    let m = fresh_session();
    assert!(m.backend.initialized);
    assert!(m.backend.device_opened);
    assert_eq!(m.backend.channel_count, 16);
    assert_eq!(m.backend.negotiated.frequency, 44100);
    assert_eq!(m.channels.len(), 16);
    for slot in &m.channels {
        assert_eq!(slot.state, ChannelState::Idle);
        assert_eq!(slot.volume, 128);
    }
    assert_eq!(m.music, MusicSlot::Idle);
    assert_eq!(m.music_volume, 128);
    assert_eq!(m.next_id, 0);
}

#[test]
fn init_fatal_failures_name_the_stage() {
    let mut o = good_outcome();
    o.device_ok = false;
    assert_eq!(Mixer::new(&o).unwrap_err(), BackendError::DeviceOpen);

    o.audio_ok = false;
    assert_eq!(Mixer::new(&o).unwrap_err(), BackendError::AudioInit);

    o.core_ok = false;
    assert_eq!(Mixer::new(&o).unwrap_err(), BackendError::CoreInit);
}

#[test]
fn init_decoder_failures_are_not_fatal() {
    let mut o = good_outcome();
    o.decoders = DecoderFlags { mp3: false, flac: true, tracker: false, ogg: true, midi: false };
    let m = Mixer::new(&o).expect("decoder-family failures must not block initialization");
    assert!(!m.backend.decoders.mp3);
    assert!(m.backend.decoders.ogg);
}

#[test]
fn ensure_initialized_is_idempotent() {
    let mut b = Backend::uninitialized();
    assert!(!b.initialized);
    assert!(b.ensure_initialized(&good_outcome()).is_ok());
    assert!(b.initialized);
    let first = b.decoders;

    // A later attempt succeeds and changes nothing, even if the native layer
    // would have reported a fatal failure this time.
    let mut second = good_outcome();
    second.device_ok = false;
    second.decoders = DecoderFlags {
        mp3: false,
        flac: false,
        tracker: false,
        ogg: false,
        midi: false,
    };
    assert!(b.ensure_initialized(&second).is_ok());
    assert!(b.initialized);
    assert!(b.device_opened);
    assert_eq!(b.decoders, first);
    assert_eq!(b.channel_count, 16);
}

#[test]
fn load_wav_success_grants_fresh_handles() {
    let mut m = fresh_session();
    let a = m.load_wav("click.wav".to_string(), DecodeOutcome::Decoded).unwrap();
    let b = m.load_wav("clack.wav".to_string(), DecodeOutcome::Decoded).unwrap();
    assert_eq!(a.id, 0);
    assert_eq!(a.path, "click.wav");
    assert_eq!(b.id, 1);
    assert_ne!(a.id, b.id);
    assert_eq!(m.next_id, 2);
}

#[test]
fn load_wav_missing_path_fails_with_decode_error() {
    let mut m = fresh_session();
    let e = m
        .load_wav(
            "missing.wav".to_string(),
            DecodeOutcome::Failed { reason: "Couldn't open file".to_string() },
        )
        .unwrap_err();
    assert_eq!(e.path, "missing.wav");
    assert_eq!(e.reason, "Couldn't open file");
    assert_eq!(m.next_id, 0);
    assert_eq!(m.music, MusicSlot::Idle);
}

#[test]
fn load_music_success_and_failure() {
    let mut m = fresh_session();
    let t = m.load_music("song.ogg".to_string(), DecodeOutcome::Decoded).unwrap();
    assert_eq!(t.id, 0);
    assert_eq!(t.path, "song.ogg");
    let e = m
        .load_music(
            "gone.mp3".to_string(),
            DecodeOutcome::Failed { reason: "not found".to_string() },
        )
        .unwrap_err();
    assert_eq!(e.path, "gone.mp3");
    assert_eq!(e.reason, "not found");
    assert_eq!(m.next_id, 1);
}

#[test]
fn loaded_sound_plays_on_any_allocated_channel() {
    let mut m = fresh_session();
    let chunk = m.load_wav("click.wav".to_string(), DecodeOutcome::Decoded).unwrap();
    assert!(m.play_channel(&chunk, 0, 0).is_ok());
    assert!(m.play_channel(&chunk, 15, 0).is_ok());
    assert_eq!(m.channels[0].state, ChannelState::Playing { sound: chunk.id, loops: 0 });
    assert_eq!(m.channels[15].state, ChannelState::Playing { sound: chunk.id, loops: 0 });
}

#[test]
fn play_channel_out_of_range_is_rejected() {
    let mut m = fresh_session();
    let chunk = m.load_wav("click.wav".to_string(), DecodeOutcome::Decoded).unwrap();
    assert_eq!(m.play_channel(&chunk, 16, 0).unwrap_err(), PlaybackError::ChannelOutOfRange);
    assert_eq!(m.play_channel(&chunk, -1, 0).unwrap_err(), PlaybackError::ChannelOutOfRange);
    for slot in &m.channels {
        assert_eq!(slot.state, ChannelState::Idle);
    }
}

#[test]
fn play_channel_replaces_what_was_playing() {
    let mut m = fresh_session();
    let a = m.load_wav("a.wav".to_string(), DecodeOutcome::Decoded).unwrap();
    let b = m.load_wav("b.wav".to_string(), DecodeOutcome::Decoded).unwrap();
    assert!(m.play_channel(&a, 3, -1).is_ok());
    assert!(m.play_channel(&b, 3, 2).is_ok());
    assert_eq!(m.channels[3].state, ChannelState::Playing { sound: b.id, loops: 2 });
}

#[test]
fn indefinite_loop_plays_until_halted() {
    let mut m = fresh_session();
    let chunk = m.load_wav("loop.wav".to_string(), DecodeOutcome::Decoded).unwrap();
    assert!(m.play_channel(&chunk, 2, -1).is_ok());

    // Natural completion never ends an indefinite loop.
    m.channel_finished(2);
    assert_eq!(m.channels[2].state, ChannelState::Playing { sound: chunk.id, loops: -1 });

    // Commands on other channels leave it alone.
    m.halt_channel(3);
    m.channel_finished(5);
    assert_eq!(m.channels[2].state, ChannelState::Playing { sound: chunk.id, loops: -1 });

    // Only an explicit halt stops it.
    m.halt_channel(2);
    assert_eq!(m.channels[2].state, ChannelState::Idle);
}

#[test]
fn finite_loops_finish_naturally() {
    let mut m = fresh_session();
    let chunk = m.load_wav("once.wav".to_string(), DecodeOutcome::Decoded).unwrap();
    assert!(m.play_channel(&chunk, 1, 0).is_ok());
    m.channel_finished(1);
    assert_eq!(m.channels[1].state, ChannelState::Idle);
}

#[test]
fn music_playback_is_exclusive() {
    let mut m = fresh_session();
    let first = m.load_music("first.ogg".to_string(), DecodeOutcome::Decoded).unwrap();
    let second = m.load_music("second.ogg".to_string(), DecodeOutcome::Decoded).unwrap();
    assert!(m.play_music(&first, 0).is_ok());
    assert_eq!(m.music, MusicSlot::Playing { track: first.id, loops: 0 });
    assert!(m.play_music(&second, 0).is_ok());
    assert_eq!(m.music, MusicSlot::Playing { track: second.id, loops: 0 });
    assert_ne!(first.id, second.id);
}

#[test]
fn music_finishes_only_with_finite_loops() {
    let mut m = fresh_session();
    let track = m.load_music("song.ogg".to_string(), DecodeOutcome::Decoded).unwrap();
    assert!(m.play_music(&track, 0).is_ok());
    m.music_finished();
    assert_eq!(m.music, MusicSlot::Idle);

    assert!(m.play_music(&track, -1).is_ok());
    m.music_finished();
    assert_eq!(m.music, MusicSlot::Playing { track: track.id, loops: -1 });
    m.halt_music();
    assert_eq!(m.music, MusicSlot::Idle);
}

#[test]
fn music_volume_returns_previous_value() {
    let mut m = fresh_session();
    assert_eq!(m.volume_music(50), 128);
    assert_eq!(m.volume_music(80), 50);
    assert_eq!(m.volume_music(0), 80);
}

#[test]
fn music_volume_clamps_out_of_range_requests() {
    let mut m = fresh_session();
    assert_eq!(m.volume_music(500), 128);
    assert_eq!(m.music_volume, 128);
    assert_eq!(m.volume_music(-3), 128);
    assert_eq!(m.music_volume, 0);
    assert_eq!(m.volume_music(64), 0);
    assert_eq!(m.music_volume, 64);
}

#[test]
fn channel_volume_round_trip_and_clamp() {
    let mut m = fresh_session();
    assert_eq!(m.volume_chunk(2, 40), 128);
    assert_eq!(m.volume_chunk(2, 200), 40);
    assert_eq!(m.channels[2].volume, 128);
    assert_eq!(m.volume_chunk(2, -7), 128);
    assert_eq!(m.channels[2].volume, 0);
    // Other channels keep their volume.
    assert_eq!(m.channels[3].volume, 128);
}

#[test]
fn channel_volume_keeps_playback_state() {
    let mut m = fresh_session();
    let chunk = m.load_wav("click.wav".to_string(), DecodeOutcome::Decoded).unwrap();
    assert!(m.play_channel(&chunk, 4, -1).is_ok());
    assert_eq!(m.volume_chunk(4, 30), 128);
    assert_eq!(m.channels[4].state, ChannelState::Playing { sound: chunk.id, loops: -1 });
    // The channel's volume persists across a replacing playback.
    assert!(m.play_channel(&chunk, 4, 0).is_ok());
    assert_eq!(m.channels[4].volume, 30);
}

#[test]
fn halt_idle_channel_is_a_noop() {
    let mut m = fresh_session();
    m.halt_channel(5);
    assert_eq!(m.channels[5].state, ChannelState::Idle);
    assert_eq!(m.channels[5].volume, 128);
    // A channel outside the allocated range is left alone, without failure.
    m.halt_channel(99);
    m.halt_channel(-1);
    assert_eq!(m.channels.len(), 16);
    assert_eq!(m.music, MusicSlot::Idle);
}

#[test]
fn halt_music_with_none_playing_is_a_noop() {
    let mut m = fresh_session();
    assert_eq!(m.music, MusicSlot::Idle);
    m.halt_music();
    assert_eq!(m.music, MusicSlot::Idle);
    assert_eq!(m.music_volume, 128);
}

#[test]
fn end_to_end_click() {
    let mut m = fresh_session();
    let chunk = m.load_wav("click.wav".to_string(), DecodeOutcome::Decoded).unwrap();
    assert!(m.play_channel(&chunk, 0, 0).is_ok());
    m.halt_channel(0);
    assert_eq!(m.channels[0].state, ChannelState::Idle);
}
