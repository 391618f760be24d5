//! The mixer session: loading sample and music resources and driving
//! channel-based playback against the model of the native mixer's state.
//!
//! The native layer decodes files and moves audio to the device; what it
//! reported is handed in as plain outcome values. Everything the session
//! decides — which loads yield handles, which commands are accepted, how the
//! channel table, the single music slot and the volumes change — is verified
//! here.

use vstd::prelude::*;

use crate::ALLOCATED_CHANNELS;
use crate::MAX_VOLUME;
use crate::backend::{
    Backend, BackendError, InitOutcome, fatal_failure, init_error, init_result,
    uninitialized_backend,
};

verus! {

/// Shared handle to a fully decoded short sample. The decoded bytes live in
/// the native layer; the handle carries the identity the session tracks and
/// the source path for provenance.
#[derive(Clone, Debug)]
pub struct Chunk {
    pub id: u64,
    pub path: String,
}

/// Shared handle to a streamable music track. At most one track is playing
/// at any time; starting another stops it.
#[derive(Clone, Debug)]
pub struct Music {
    pub id: u64,
    pub path: String,
}

/// What the native decoder reported for one load request.
#[derive(Clone, Debug)]
pub enum DecodeOutcome {
    Decoded,
    Failed { reason: String },
}

/// A requested file could not be opened or decoded. Local to the one load
/// call; the caller may retry with another path.
#[derive(Clone, Debug)]
pub struct DecodeError {
    pub path: String,
    pub reason: String,
}

/// The mixer rejected a playback command.
#[derive(Clone, Copy, PartialEq, Eq, Structural, Debug)]
pub enum PlaybackError {
    ChannelOutOfRange,
}

/// What one mixing channel is doing. `loops` keeps the repeat count the
/// playback was started with: 0 plays once, a positive count plays that many
/// extra times, and -1 loops until halted.
#[derive(Clone, Copy, PartialEq, Eq, Structural, Debug)]
pub enum ChannelState {
    Idle,
    Playing { sound: u64, loops: i32 },
}

/// One mixing channel: its playback state and its volume, which persists
/// across playbacks on that channel.
#[derive(Clone, Copy, PartialEq, Eq, Structural, Debug)]
pub struct ChannelSlot {
    pub state: ChannelState,
    pub volume: i32,
}

/// The single process-wide music slot.
#[derive(Clone, Copy, PartialEq, Eq, Structural, Debug)]
pub enum MusicSlot {
    Idle,
    Playing { track: u64, loops: i32 },
}

/// A mixer session: the backend state it was constructed against, the table
/// of allocated mixing channels, the single music slot, the music volume and
/// the counter that mints resource identities.
#[derive(Debug)]
pub struct Mixer {
    pub backend: Backend,
    pub channels: Vec<ChannelSlot>,
    pub music: MusicSlot,
    pub music_volume: i32,
    pub next_id: u64,
}

/// Volume requests outside the valid range are clamped, not rejected.
pub open spec fn clamp_volume(v: int) -> int {
    if v < 0 {
        0
    } else if v > MAX_VOLUME {
        MAX_VOLUME as int
    } else {
        v
    }
}

/// A freshly allocated channel: idle, at full volume.
pub open spec fn idle_slot() -> ChannelSlot {
    ChannelSlot { state: ChannelState::Idle, volume: MAX_VOLUME }
}

impl ChannelSlot {
    /// A channel's repeat count is meaningful: -1 for indefinite looping or
    /// a non-negative count; its volume sits in the valid range.
    pub open spec fn wf(self) -> bool {
        &&& 0 <= self.volume <= MAX_VOLUME
        &&& (self.state matches ChannelState::Playing { loops, .. } ==> loops >= -1)
    }
}

impl MusicSlot {
    /// Same well-formedness for the music slot's repeat count.
    pub open spec fn wf(self) -> bool {
        self matches MusicSlot::Playing { loops, .. } ==> loops >= -1
    }
}

impl Mixer {
    /// A usable session: its backend is initialized with an open device, the
    /// channel table matches the allocated channel count, and every volume
    /// and repeat count is in range.
    pub open spec fn wf(self) -> bool {
        &&& self.backend.initialized
        &&& self.backend.device_opened
        &&& self.backend.channel_count == ALLOCATED_CHANNELS
        &&& self.channels@.len() == ALLOCATED_CHANNELS
        &&& forall|i: int| 0 <= i < self.channels@.len() ==> (#[trigger] self.channels@[i]).wf()
        &&& self.music.wf()
        &&& 0 <= self.music_volume <= MAX_VOLUME
    }
}

/// The parts of the session a command on the channel table never touches.
pub open spec fn frame_outside_channels(pre: Mixer, post: Mixer) -> bool {
    &&& post.backend == pre.backend
    &&& post.music == pre.music
    &&& post.music_volume == pre.music_volume
    &&& post.next_id == pre.next_id
}

/// The channel table after starting `sound` on channel `c`: whatever played
/// there before is replaced; the channel's volume persists.
pub open spec fn channels_after_play(s: Seq<ChannelSlot>, c: int, sound: u64, loops: i32) -> Seq<
    ChannelSlot,
> {
    s.update(
        c,
        ChannelSlot { state: ChannelState::Playing { sound, loops }, volume: s[c].volume },
    )
}

/// The channel table after halting channel `c`: the channel goes idle and
/// keeps its volume; a channel outside the table is left alone, and halting
/// an idle channel changes nothing.
pub open spec fn channels_after_halt(s: Seq<ChannelSlot>, c: int) -> Seq<ChannelSlot> {
    if 0 <= c < s.len() {
        s.update(c, ChannelSlot { state: ChannelState::Idle, volume: s[c].volume })
    } else {
        s
    }
}

/// The channel table after the native mixer reports natural completion on
/// channel `c`: a finite repeat count was exhausted, so the channel goes
/// idle. A channel looping indefinitely never completes naturally, and an
/// idle channel has nothing to complete; both are left unchanged.
pub open spec fn channels_after_finished(s: Seq<ChannelSlot>, c: int) -> Seq<ChannelSlot> {
    if 0 <= c < s.len() && (s[c].state matches ChannelState::Playing { loops, .. } && loops != -1) {
        s.update(c, ChannelSlot { state: ChannelState::Idle, volume: s[c].volume })
    } else {
        s
    }
}

/// The channel table after setting channel `c`'s volume: the request is
/// clamped into range; the channel's playback state is untouched.
pub open spec fn channels_after_volume(s: Seq<ChannelSlot>, c: int, requested: int) -> Seq<
    ChannelSlot,
> {
    s.update(c, ChannelSlot { state: s[c].state, volume: clamp_volume(requested) as i32 })
}

/// How one `load_wav` call relates the session before and after to its
/// result: a decoded sample yields a fresh handle carrying the path and the
/// next identity, and only the identity counter moves; a failed decode
/// yields a `DecodeError` naming the path and the native reason, and the
/// session is unchanged.
pub open spec fn loads_sound(
    pre: Mixer,
    post: Mixer,
    path: Seq<char>,
    outcome: DecodeOutcome,
    r: Result<Chunk, DecodeError>,
) -> bool {
    match outcome {
        DecodeOutcome::Decoded => {
            &&& r matches Ok(chunk) && chunk.id == pre.next_id && chunk.path@ == path
            &&& post.next_id == pre.next_id + 1
            &&& post.backend == pre.backend
            &&& post.channels@ == pre.channels@
            &&& post.music == pre.music
            &&& post.music_volume == pre.music_volume
        },
        DecodeOutcome::Failed { reason } => {
            &&& r matches Err(e) && e.path@ == path && e.reason@ == reason@
            &&& post == pre
        },
    }
}

/// The same relation for `load_music`.
pub open spec fn loads_music(
    pre: Mixer,
    post: Mixer,
    path: Seq<char>,
    outcome: DecodeOutcome,
    r: Result<Music, DecodeError>,
) -> bool {
    match outcome {
        DecodeOutcome::Decoded => {
            &&& r matches Ok(track) && track.id == pre.next_id && track.path@ == path
            &&& post.next_id == pre.next_id + 1
            &&& post.backend == pre.backend
            &&& post.channels@ == pre.channels@
            &&& post.music == pre.music
            &&& post.music_volume == pre.music_volume
        },
        DecodeOutcome::Failed { reason } => {
            &&& r matches Err(e) && e.path@ == path && e.reason@ == reason@
            &&& post == pre
        },
    }
}

/// How one `play_channel` call relates the session before and after to its
/// result: a channel inside the allocated range accepts the command and
/// replaces whatever played there; any other channel index is rejected and
/// the session is unchanged.
pub open spec fn plays_channel(
    pre: Mixer,
    post: Mixer,
    sound: u64,
    c: int,
    loops: i32,
    r: Result<(), PlaybackError>,
) -> bool {
    if 0 <= c < pre.channels@.len() {
        &&& r is Ok
        &&& post.channels@ == channels_after_play(pre.channels@, c, sound, loops)
        &&& frame_outside_channels(pre, post)
    } else {
        &&& r == Err::<(), PlaybackError>(PlaybackError::ChannelOutOfRange)
        &&& post == pre
    }
}

/// How one `play_music` call changes the session: the music slot now plays
/// `track` — stopping whatever played there before — and nothing else moves.
pub open spec fn starts_music(pre: Mixer, post: Mixer, track: u64, loops: i32) -> bool {
    &&& post.music == (MusicSlot::Playing { track, loops })
    &&& post.backend == pre.backend
    &&& post.channels@ == pre.channels@
    &&& post.music_volume == pre.music_volume
    &&& post.next_id == pre.next_id
}

/// How one `halt_music` call changes the session: the music slot is idle
/// afterwards — whether or not anything was playing — and nothing else moves.
pub open spec fn halts_music(pre: Mixer, post: Mixer) -> bool {
    &&& post.music is Idle
    &&& post.backend == pre.backend
    &&& post.channels@ == pre.channels@
    &&& post.music_volume == pre.music_volume
    &&& post.next_id == pre.next_id
}

/// The music slot after the native mixer reports that the track finished:
/// a finite repeat count was exhausted. Indefinitely looping music never
/// finishes naturally, and an idle slot has nothing to finish.
pub open spec fn music_after_finished(m: MusicSlot) -> MusicSlot {
    if m matches MusicSlot::Playing { loops, .. } && loops != -1 {
        MusicSlot::Idle
    } else {
        m
    }
}

/// How one `volume_music` call relates the session before and after to the
/// value it returns: the previous volume comes back, the clamped request is
/// recorded, and nothing else moves.
pub open spec fn sets_music_volume(pre: Mixer, post: Mixer, requested: int, returned: int) -> bool {
    &&& returned == pre.music_volume
    &&& post.music_volume == clamp_volume(requested)
    &&& post.backend == pre.backend
    &&& post.channels@ == pre.channels@
    &&& post.music == pre.music
    &&& post.next_id == pre.next_id
}

/// The same relation for `volume_chunk` on channel `c`.
pub open spec fn sets_channel_volume(
    pre: Mixer,
    post: Mixer,
    c: int,
    requested: int,
    returned: int,
) -> bool {
    &&& returned == pre.channels@[c].volume
    &&& post.channels@ == channels_after_volume(pre.channels@, c, requested)
    &&& frame_outside_channels(pre, post)
}

/// A session as `new` hands it out: constructed against the backend state
/// the initialization outcome produced, every channel idle at full volume,
/// no music playing, and no resource identity minted yet.
pub open spec fn fresh_mixer(m: Mixer, o: InitOutcome) -> bool {
    &&& m.backend == init_result(uninitialized_backend(), o)
    &&& m.channels@.len() == ALLOCATED_CHANNELS
    &&& forall|i: int| 0 <= i < m.channels@.len() ==> #[trigger] m.channels@[i] == idle_slot()
    &&& m.music is Idle
    &&& m.music_volume == MAX_VOLUME
    &&& m.next_id == 0
}

impl Mixer {
    /// Constructs a session from what one backend initialization attempt
    /// reported. A fatal failure — core subsystem, audio subsystem or device
    /// — aborts construction with the stage that failed; decoder-family
    /// failures do not block it. On success every channel starts idle at
    /// full volume and the music slot is empty.
    pub fn new(outcome: &InitOutcome) -> (r: Result<Mixer, BackendError>)
        ensures
            r is Ok <==> !fatal_failure(*outcome),
            (r matches Ok(m) ==> m.wf() && fresh_mixer(m, *outcome)),
            (r matches Err(e) ==> e == init_error(*outcome)),
    {
        let mut backend = Backend::uninitialized();
        match backend.ensure_initialized(outcome) {
            Err(e) => Err(e),
            Ok(()) => {
                let n: usize = ALLOCATED_CHANNELS as usize;
                let mut channels: Vec<ChannelSlot> = Vec::new();
                let mut i: usize = 0;
                while i < n
                    invariant
                        i <= n,
                        n == ALLOCATED_CHANNELS as usize,
                        channels@.len() == i,
                        forall|j: int| 0 <= j < i ==> #[trigger] channels@[j] == idle_slot(),
                    decreases n - i,
                {
                    channels.push(ChannelSlot { state: ChannelState::Idle, volume: MAX_VOLUME });
                    i = i + 1;
                }
                Ok(
                    Mixer {
                        backend,
                        channels,
                        music: MusicSlot::Idle,
                        music_volume: MAX_VOLUME,
                        next_id: 0,
                    },
                )
            },
        }
    }

    /// Decodes the file at `path` fully into memory as a short sample; the
    /// native decoder's verdict arrives as `outcome`. Success yields a fresh
    /// shared handle; failure yields a `DecodeError` naming the path and the
    /// native reason, and the session is unchanged.
    pub fn load_wav(&mut self, path: String, outcome: DecodeOutcome) -> (r: Result<
        Chunk,
        DecodeError,
    >)
        requires
            old(self).wf(),
            old(self).next_id < u64::MAX,
        ensures
            final(self).wf(),
            loads_sound(*old(self), *final(self), path@, outcome, r),
    {
        match outcome {
            DecodeOutcome::Decoded => {
                let id = self.next_id;
                self.next_id = id + 1;
                Ok(Chunk { id, path })
            },
            DecodeOutcome::Failed { reason } => Err(DecodeError { path, reason }),
        }
    }

    /// Opens the file at `path` as a streamable track; the native decoder's
    /// verdict arrives as `outcome`. Success yields a shared handle that
    /// owns its stream for as long as any holder keeps it; failure yields a
    /// `DecodeError` and the session is unchanged.
    pub fn load_music(&mut self, path: String, outcome: DecodeOutcome) -> (r: Result<
        Music,
        DecodeError,
    >)
        requires
            old(self).wf(),
            old(self).next_id < u64::MAX,
        ensures
            final(self).wf(),
            loads_music(*old(self), *final(self), path@, outcome, r),
    {
        match outcome {
            DecodeOutcome::Decoded => {
                let id = self.next_id;
                self.next_id = id + 1;
                Ok(Music { id, path })
            },
            DecodeOutcome::Failed { reason } => Err(DecodeError { path, reason }),
        }
    }

    /// Starts `chunk` on mixing channel `channel`. A repeat count of 0 plays
    /// once, a positive count plays that many extra times, and -1 loops
    /// until halted. Whatever already played on the channel is stopped and
    /// replaced; a channel outside the allocated range is rejected.
    pub fn play_channel(&mut self, chunk: &Chunk, channel: i32, loops: i32) -> (r: Result<
        (),
        PlaybackError,
    >)
        requires
            old(self).wf(),
            loops >= -1,
        ensures
            final(self).wf(),
            plays_channel(*old(self), *final(self), chunk.id, channel as int, loops, r),
    {
        if channel >= 0 && (channel as usize) < self.channels.len() {
            let idx: usize = channel as usize;
            let volume = self.channels[idx].volume;
            self.channels.set(
                idx,
                ChannelSlot { state: ChannelState::Playing { sound: chunk.id, loops }, volume },
            );
            Ok(())
        } else {
            Err(PlaybackError::ChannelOutOfRange)
        }
    }

    /// Starts `music` in the single music slot, with the same repeat-count
    /// meaning as `play_channel`. Any track already playing is stopped
    /// first: at most one track plays at any time.
    pub fn play_music(&mut self, music: &Music, loops: i32) -> (r: Result<(), PlaybackError>)
        requires
            old(self).wf(),
            loops >= -1,
        ensures
            final(self).wf(),
            r is Ok,
            starts_music(*old(self), *final(self), music.id, loops),
    {
        self.music = MusicSlot::Playing { track: music.id, loops };
        Ok(())
    }

    /// Stops playback on `channel` if any; halting an idle channel or a
    /// channel outside the allocated range does nothing. Never fails.
    pub fn halt_channel(&mut self, channel: i32)
        requires
            old(self).wf(),
        ensures
            final(self).wf(),
            final(self).channels@ == channels_after_halt(old(self).channels@, channel as int),
            frame_outside_channels(*old(self), *final(self)),
    {
        if channel >= 0 && (channel as usize) < self.channels.len() {
            let idx: usize = channel as usize;
            let volume = self.channels[idx].volume;
            self.channels.set(idx, ChannelSlot { state: ChannelState::Idle, volume });
        }
    }

    /// Stops the current music track if any; a no-op when none is playing.
    /// Never fails.
    pub fn halt_music(&mut self)
        requires
            old(self).wf(),
        ensures
            final(self).wf(),
            halts_music(*old(self), *final(self)),
    {
        self.music = MusicSlot::Idle;
    }

    /// Records that the native mixer reported natural completion on
    /// `channel`: its finite repeat count ran out. A channel looping
    /// indefinitely never completes naturally — only `halt_channel` or a
    /// replacing `play_channel` takes it out of the playing state.
    pub fn channel_finished(&mut self, channel: i32)
        requires
            old(self).wf(),
        ensures
            final(self).wf(),
            final(self).channels@ == channels_after_finished(old(self).channels@, channel as int),
            frame_outside_channels(*old(self), *final(self)),
    {
        if channel >= 0 && (channel as usize) < self.channels.len() {
            let idx: usize = channel as usize;
            match self.channels[idx].state {
                ChannelState::Playing { loops, .. } => {
                    if loops != -1 {
                        let volume = self.channels[idx].volume;
                        self.channels.set(idx, ChannelSlot { state: ChannelState::Idle, volume });
                    }
                },
                ChannelState::Idle => {},
            }
        }
    }

    /// Records that the native mixer reported the music track finished: its
    /// finite repeat count ran out. Indefinitely looping music only stops
    /// through `halt_music` or a replacing `play_music`.
    pub fn music_finished(&mut self)
        requires
            old(self).wf(),
        ensures
            final(self).wf(),
            final(self).music == music_after_finished(old(self).music),
            final(self).backend == old(self).backend,
            final(self).channels@ == old(self).channels@,
            final(self).music_volume == old(self).music_volume,
            final(self).next_id == old(self).next_id,
    {
        match self.music {
            MusicSlot::Playing { loops, .. } => {
                if loops != -1 {
                    self.music = MusicSlot::Idle;
                }
            },
            MusicSlot::Idle => {},
        }
    }

    /// Sets the music volume and returns the previous value. A request
    /// outside the valid range is clamped, not rejected. Never fails.
    pub fn volume_music(&mut self, volume: i32) -> (prev: i32)
        requires
            old(self).wf(),
        ensures
            final(self).wf(),
            sets_music_volume(*old(self), *final(self), volume as int, prev as int),
    {
        let prev = self.music_volume;
        self.music_volume = if volume < 0 {
            0
        } else if volume > MAX_VOLUME {
            MAX_VOLUME
        } else {
            volume
        };
        prev
    }

    /// Sets the volume of mixing channel `channel` — it applies to whatever
    /// sample is or will be assigned to that channel — and returns the
    /// previous value. A request outside the valid range is clamped. Never
    /// fails.
    pub fn volume_chunk(&mut self, channel: i32, volume: i32) -> (prev: i32)
        requires
            old(self).wf(),
            0 <= channel < old(self).channels@.len(),
        ensures
            final(self).wf(),
            sets_channel_volume(
                *old(self),
                *final(self),
                channel as int,
                volume as int,
                prev as int,
            ),
    {
        let idx: usize = channel as usize;
        let slot = self.channels[idx];
        let clamped: i32 = if volume < 0 {
            0
        } else if volume > MAX_VOLUME {
            MAX_VOLUME
        } else {
            volume
        };
        self.channels.set(idx, ChannelSlot { state: slot.state, volume: clamped });
        slot.volume
    }
}

} // verus!
