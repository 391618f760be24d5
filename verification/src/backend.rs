//! The audio backend: the process-wide native device and decoder subsystem.
//!
//! The backend is initialized at most once. The expensive native work (device
//! open, decoder registration, channel allocation) happens outside this
//! crate; what the native layer reported is handed in as an [`InitOutcome`],
//! and `ensure_initialized` decides what that outcome means for the backend
//! state: device or core failures are fatal, decoder-format failures are
//! recorded but do not block initialization, and a backend that is already
//! initialized ignores the outcome entirely.

use vstd::prelude::*;

use crate::ALLOCATED_CHANNELS;

verus! {

/// Which optional decoder families the native mixer managed to register.
/// `tracker` stands for the MOD tracker-module family.
#[derive(Clone, Copy, PartialEq, Eq, Structural, Debug)]
pub struct DecoderFlags {
    pub mp3: bool,
    pub flac: bool,
    pub tracker: bool,
    pub ogg: bool,
    pub midi: bool,
}

/// The device configuration the native layer negotiated: the frequency,
/// sample format code and channel layout actually granted, which may differ
/// from what was requested.
#[derive(Clone, Copy, PartialEq, Eq, Structural, Debug)]
pub struct AudioConfig {
    pub frequency: i32,
    pub format: u16,
    pub channels: i32,
}

/// Everything the native layer reported during one initialization attempt:
/// whether the core subsystem, the audio subsystem and the output device came
/// up, which decoder families registered, and the negotiated device
/// configuration.
#[derive(Clone, Copy, PartialEq, Eq, Structural, Debug)]
pub struct InitOutcome {
    pub core_ok: bool,
    pub audio_ok: bool,
    pub device_ok: bool,
    pub decoders: DecoderFlags,
    pub negotiated: AudioConfig,
}

/// A fatal initialization failure: without the core subsystem, the audio
/// subsystem and an open output device there is no mixer to speak to.
#[derive(Clone, Copy, PartialEq, Eq, Structural, Debug)]
pub enum BackendError {
    CoreInit,
    AudioInit,
    DeviceOpen,
}

/// The state of the process-wide audio backend.
#[derive(Clone, Copy, PartialEq, Eq, Structural, Debug)]
pub struct Backend {
    pub initialized: bool,
    pub device_opened: bool,
    pub decoders: DecoderFlags,
    pub channel_count: i32,
    pub negotiated: AudioConfig,
}

/// No decoder family registered.
pub open spec fn no_decoders() -> DecoderFlags {
    DecoderFlags { mp3: false, flac: false, tracker: false, ogg: false, midi: false }
}

/// The state of a backend before any initialization attempt.
pub open spec fn uninitialized_backend() -> Backend {
    Backend {
        initialized: false,
        device_opened: false,
        decoders: no_decoders(),
        channel_count: 0,
        negotiated: AudioConfig { frequency: 0, format: 0, channels: 0 },
    }
}

/// An initialization attempt fails fatally exactly when the core subsystem,
/// the audio subsystem or the output device did not come up. Decoder-family
/// failures are never fatal.
pub open spec fn fatal_failure(o: InitOutcome) -> bool {
    !(o.core_ok && o.audio_ok && o.device_ok)
}

/// Whether applying `o` to backend `b` counts as a success: an initialized
/// backend reports success whatever the outcome says, and a first attempt
/// succeeds exactly when it is free of fatal failures.
pub open spec fn init_ok(b: Backend, o: InitOutcome) -> bool {
    b.initialized || !fatal_failure(o)
}

/// The backend state after applying outcome `o` to backend `b`: an
/// initialized backend is left untouched, a fatally failed attempt changes
/// nothing, and a successful first attempt records the negotiated
/// configuration, the registered decoder families and the allocated channels.
pub open spec fn init_result(b: Backend, o: InitOutcome) -> Backend {
    if b.initialized || fatal_failure(o) {
        b
    } else {
        Backend {
            initialized: true,
            device_opened: true,
            decoders: o.decoders,
            channel_count: ALLOCATED_CHANNELS,
            negotiated: o.negotiated,
        }
    }
}

/// Which fatal failure a fatally failed outcome surfaces, checked in the
/// order the native work runs: core subsystem, audio subsystem, device.
pub open spec fn init_error(o: InitOutcome) -> BackendError {
    if !o.core_ok {
        BackendError::CoreInit
    } else if !o.audio_ok {
        BackendError::AudioInit
    } else {
        BackendError::DeviceOpen
    }
}

impl Backend {
    /// A backend on which no initialization attempt has run yet.
    pub fn uninitialized() -> (b: Backend)
        ensures
            b == uninitialized_backend(),
    {
        Backend {
            initialized: false,
            device_opened: false,
            decoders: DecoderFlags {
                mp3: false,
                flac: false,
                tracker: false,
                ogg: false,
                midi: false,
            },
            channel_count: 0,
            negotiated: AudioConfig { frequency: 0, format: 0, channels: 0 },
        }
    }

    /// Applies one initialization attempt. The first successful attempt
    /// records the outcome; every later call performs no work and succeeds
    /// immediately, whatever its outcome argument says. A fatal failure
    /// leaves the backend uninitialized and names the failed stage.
    pub fn ensure_initialized(&mut self, outcome: &InitOutcome) -> (r: Result<(), BackendError>)
        ensures
            *final(self) == init_result(*old(self), *outcome),
            r is Ok <==> init_ok(*old(self), *outcome),
            r matches Err(e) ==> e == init_error(*outcome),
    {
        if self.initialized {
            Ok(())
        } else if !outcome.core_ok {
            Err(BackendError::CoreInit)
        } else if !outcome.audio_ok {
            Err(BackendError::AudioInit)
        } else if !outcome.device_ok {
            Err(BackendError::DeviceOpen)
        } else {
            self.initialized = true;
            self.device_opened = true;
            self.decoders = outcome.decoders;
            self.channel_count = ALLOCATED_CHANNELS;
            self.negotiated = outcome.negotiated;
            Ok(())
        }
    }
}

} // verus!
