//! The laws the session model obeys, stated once and proved against the
//! relations that the operations' own contracts use.

use vstd::prelude::*;

use crate::MAX_VOLUME;
use crate::backend::{Backend, InitOutcome, init_ok, init_result};
use crate::mixer::{
    ChannelSlot, ChannelState, Chunk, DecodeError, DecodeOutcome, Mixer, MusicSlot, PlaybackError,
    channels_after_finished, channels_after_halt, channels_after_play, halts_music, loads_sound,
    plays_channel, sets_music_volume, starts_music,
};

verus! {

/// Backend initialization is idempotent: after one successful attempt,
/// every later attempt succeeds and leaves the backend exactly as the first
/// one did, whatever the native layer would have reported the second time.
pub proof fn lemma_ensure_initialized_idempotent(b: Backend, first: InitOutcome, later: InitOutcome)
    requires
        init_ok(b, first),
    ensures
        init_result(init_result(b, first), later) == init_result(b, first),
        init_ok(init_result(b, first), later),
{
}

/// A sample that was just loaded successfully can be started on any channel
/// inside the allocated range: the load yields a handle, the play command on
/// that handle is accepted, and the channel is playing that very sample.
pub proof fn lemma_loaded_sound_plays(
    m0: Mixer,
    m1: Mixer,
    m2: Mixer,
    path: Seq<char>,
    loaded: Result<Chunk, DecodeError>,
    c: int,
    loops: i32,
    played: Result<(), PlaybackError>,
)
    requires
        loads_sound(m0, m1, path, DecodeOutcome::Decoded, loaded),
        0 <= c < m1.channels@.len(),
        (loaded matches Ok(chunk) ==> plays_channel(m1, m2, chunk.id, c, loops, played)),
    ensures
        loaded is Ok,
        played is Ok,
        (m2.channels@[c].state matches ChannelState::Playing { sound, .. } && sound
            == loaded->Ok_0.id),
{
}

/// A load whose decode attempt failed always surfaces a `DecodeError`
/// naming the requested path, and leaves the session exactly as it was.
pub proof fn lemma_failed_load_rejected(
    m0: Mixer,
    m1: Mixer,
    path: Seq<char>,
    reason: String,
    loaded: Result<Chunk, DecodeError>,
)
    requires
        loads_sound(m0, m1, path, DecodeOutcome::Failed { reason }, loaded),
    ensures
        (loaded matches Err(e) && e.path@ == path && e.reason@ == reason@),
        m1 == m0,
{
}

/// A channel looping indefinitely stays in the playing state until it is
/// explicitly halted or replaced: natural completion never takes it out,
/// commands aimed at other channels leave it untouched, and halting it is
/// what makes it idle.
pub proof fn lemma_looping_channel_persists(
    s: Seq<ChannelSlot>,
    c: int,
    other: int,
    sound: u64,
    loops: i32,
)
    requires
        0 <= c < s.len(),
        s[c].state is Playing,
        s[c].state->loops == -1,
    ensures
        channels_after_finished(s, c) == s,
        other != c ==> channels_after_finished(s, other)[c] == s[c],
        other != c && 0 <= other < s.len() ==> channels_after_play(s, other, sound, loops)[c]
            == s[c],
        other != c ==> channels_after_halt(s, other)[c] == s[c],
        channels_after_halt(s, c)[c].state is Idle,
{
}

/// Music playback is exclusive: starting a second track while a first one
/// plays leaves exactly the second playing — the first is stopped, never
/// both at once.
pub proof fn lemma_music_exclusive(
    m0: Mixer,
    m1: Mixer,
    m2: Mixer,
    first_track: u64,
    first_loops: i32,
    second_track: u64,
    second_loops: i32,
)
    requires
        starts_music(m0, m1, first_track, first_loops),
        starts_music(m1, m2, second_track, second_loops),
    ensures
        (m2.music matches MusicSlot::Playing { track, .. } && track == second_track),
        first_track != second_track ==> !(m2.music matches MusicSlot::Playing { track, .. }
            && track == first_track),
{
}

/// Setting the music volume reports the previous value: after a call that
/// set the volume to a value inside the valid range, the next call returns
/// exactly that value, whatever new volume it requests.
pub proof fn lemma_music_volume_round_trip(
    m0: Mixer,
    m1: Mixer,
    m2: Mixer,
    first: int,
    later: int,
    first_returned: int,
    later_returned: int,
)
    requires
        0 <= first <= MAX_VOLUME,
        sets_music_volume(m0, m1, first, first_returned),
        sets_music_volume(m1, m2, later, later_returned),
    ensures
        later_returned == first,
{
}

/// Halting an idle channel is a no-op: the channel table comes back
/// unchanged. Halting never fails, whatever the channel's state.
pub proof fn lemma_halt_idle_channel_noop(s: Seq<ChannelSlot>, c: int)
    requires
        0 <= c < s.len() ==> s[c].state is Idle,
    ensures
        channels_after_halt(s, c) == s,
{
    if 0 <= c < s.len() {
        assert(channels_after_halt(s, c) =~= s);
    }
}

/// Halting music when none is playing changes nothing: every part of the
/// session, the music slot included, is exactly as it was.
pub proof fn lemma_halt_music_noop(m0: Mixer, m1: Mixer)
    requires
        m0.music is Idle,
        halts_music(m0, m1),
    ensures
        m1.music == m0.music,
        m1.backend == m0.backend,
        m1.channels@ == m0.channels@,
        m1.music_volume == m0.music_volume,
        m1.next_id == m0.next_id,
{
}

} // verus!
