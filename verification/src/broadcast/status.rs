//! The broadcast status shown to the UI and the microphone state of a running
//! worker.
use vstd::prelude::*;
use vstd::string::StringExecFns;

use crate::broadcast::profile::{opt_view, BroadcastProfile};
use crate::broadcast::queue::{copy_opt_string, BroadcastQueueEntry, QueueEntryView};
use crate::text::lit;

verus! {

/// The microphone part of the broadcast status.
#[derive(Debug, Clone)]
pub struct BroadcastMicrophoneStatus {
    pub configured: bool,
    pub ready: bool,
    pub live: bool,
    pub device: Option<String>,
    pub gain_percent: u16,
    pub message: String,
}

pub struct MicrophoneStatusView {
    pub configured: bool,
    pub ready: bool,
    pub live: bool,
    pub device: Option<Seq<char>>,
    pub gain_percent: u16,
    pub message: Seq<char>,
}

impl View for BroadcastMicrophoneStatus {
    type V = MicrophoneStatusView;

    open spec fn view(&self) -> MicrophoneStatusView {
        MicrophoneStatusView {
            configured: self.configured,
            ready: self.ready,
            live: self.live,
            device: opt_view(self.device),
            gain_percent: self.gain_percent,
            message: self.message@,
        }
    }
}

impl Default for BroadcastMicrophoneStatus {
    /// A microphone that is not configured, not prepared and muted, at 100% gain.
    fn default() -> (r: Self)
        ensures
            !r.configured && !r.ready && !r.live,
            r.device is None,
            r.gain_percent == 100,
            r.message@ == "Micrófono desactivado."@,
    {
        BroadcastMicrophoneStatus {
            configured: false,
            ready: false,
            live: false,
            device: None,
            gain_percent: 100,
            message: lit("Micrófono desactivado."),
        }
    }
}

impl BroadcastMicrophoneStatus {
    /// A copy holding the same values.
    pub fn duplicate(&self) -> (r: Self)
        ensures
            r@ == self@,
    {
        BroadcastMicrophoneStatus {
            configured: self.configured,
            ready: self.ready,
            live: self.live,
            device: copy_opt_string(&self.device),
            gain_percent: self.gain_percent,
            message: self.message.clone(),
        }
    }
}

/// The whole broadcast status: state word, message, current track and
/// microphone.
#[derive(Debug, Clone)]
pub struct BroadcastStatus {
    pub status: String,
    pub message: String,
    pub now_playing: Option<BroadcastQueueEntry>,
    pub started_at: Option<String>,
    pub microphone: BroadcastMicrophoneStatus,
    pub updated_at: String,
}

pub struct StatusView {
    pub status: Seq<char>,
    pub message: Seq<char>,
    pub now_playing: Option<QueueEntryView>,
    pub started_at: Option<Seq<char>>,
    pub microphone: MicrophoneStatusView,
    pub updated_at: Seq<char>,
}

pub open spec fn entry_opt_view(o: Option<BroadcastQueueEntry>) -> Option<QueueEntryView> {
    match o {
        Some(e) => Some(e@),
        None => None,
    }
}

impl View for BroadcastStatus {
    type V = StatusView;

    open spec fn view(&self) -> StatusView {
        StatusView {
            status: self.status@,
            message: self.message@,
            now_playing: entry_opt_view(self.now_playing),
            started_at: opt_view(self.started_at),
            microphone: self.microphone@,
            updated_at: self.updated_at@,
        }
    }
}

/// An idle, stopped radio with the default microphone status, stamped `now`.
pub open spec fn idle_status(s: StatusView, now: Seq<char>) -> bool {
    &&& s.status == "idle"@
    &&& s.message == "Radio detenida."@
    &&& s.now_playing is None
    &&& s.started_at is None
    &&& s.microphone == (MicrophoneStatusView {
        configured: false,
        ready: false,
        live: false,
        device: None,
        gain_percent: 100,
        message: "Micrófono desactivado."@,
    })
    &&& s.updated_at == now
}

impl BroadcastStatus {
    /// An idle, stopped radio with the default microphone status, stamped `now`.
    pub fn idle(now: String) -> (r: Self)
        ensures
            idle_status(r@, now@),
    {
        BroadcastStatus {
            status: lit("idle"),
            message: lit("Radio detenida."),
            now_playing: None,
            started_at: None,
            microphone: BroadcastMicrophoneStatus::default(),
            updated_at: now,
        }
    }
}

pub fn copy_opt_entry(o: &Option<BroadcastQueueEntry>) -> (r: Option<BroadcastQueueEntry>)
    ensures
        entry_opt_view(r) == entry_opt_view(*o),
{
    match o {
        Some(e) => Some(e.duplicate()),
        None => None,
    }
}

impl BroadcastStatus {
    /// A copy holding the same values.
    pub fn duplicate(&self) -> (r: Self)
        ensures
            r@ == self@,
    {
        BroadcastStatus {
            status: self.status.clone(),
            message: self.message.clone(),
            now_playing: copy_opt_entry(&self.now_playing),
            started_at: copy_opt_string(&self.started_at),
            microphone: self.microphone.duplicate(),
            updated_at: self.updated_at.clone(),
        }
    }
}

/// The status the broadcast engine publishes, kept between events.
pub struct RuntimeState {
    pub snapshot: BroadcastStatus,
}

impl RuntimeState {
    /// The status before any broadcast: idle, stamped `now`.
    pub fn new(now: String) -> (r: Self)
        ensures
            idle_status(r.snapshot@, now@),
    {
        RuntimeState { snapshot: BroadcastStatus::idle(now) }
    }

    /// The current status.
    pub fn snapshot(&self) -> (r: BroadcastStatus)
        ensures
            r@ == self.snapshot@,
    {
        self.snapshot.duplicate()
    }

    /// Records a new playback state, stamped `now`, and returns it; the
    /// microphone part is kept.
    pub fn update(
        &mut self,
        status: &str,
        message: String,
        now_playing: Option<BroadcastQueueEntry>,
        started_at: Option<String>,
        now: String,
    ) -> (r: BroadcastStatus)
        ensures
            final(self).snapshot@.status == status@,
            final(self).snapshot@.message == message@,
            final(self).snapshot@.now_playing == entry_opt_view(now_playing),
            final(self).snapshot@.started_at == opt_view(started_at),
            final(self).snapshot@.microphone == old(self).snapshot@.microphone,
            final(self).snapshot@.updated_at == now@,
            r@ == final(self).snapshot@,
    {
        let microphone = self.snapshot.microphone.duplicate();
        self.snapshot = BroadcastStatus {
            status: lit(status),
            message,
            now_playing,
            started_at,
            microphone,
            updated_at: now,
        };
        self.snapshot.duplicate()
    }

    /// Records a new microphone state, stamped `now`, and returns the status;
    /// playback is kept.
    pub fn update_microphone(&mut self, microphone: BroadcastMicrophoneStatus, now: String) -> (r:
        BroadcastStatus)
        ensures
            final(self).snapshot@.microphone == microphone@,
            final(self).snapshot@.status == old(self).snapshot@.status,
            final(self).snapshot@.message == old(self).snapshot@.message,
            final(self).snapshot@.now_playing == old(self).snapshot@.now_playing,
            final(self).snapshot@.started_at == old(self).snapshot@.started_at,
            final(self).snapshot@.updated_at == now@,
            r@ == final(self).snapshot@,
    {
        self.snapshot.microphone = microphone;
        self.snapshot.updated_at = now;
        self.snapshot.duplicate()
    }

    /// Marks the radio as stopping at `now`, keeping the current track and start
    /// time.
    pub fn mark_stopping(&mut self, now: String) -> (r: BroadcastStatus)
        ensures
            final(self).snapshot@.status == "stopping"@,
            final(self).snapshot@.message == "Deteniendo radio..."@,
            final(self).snapshot@.now_playing == old(self).snapshot@.now_playing,
            final(self).snapshot@.started_at == old(self).snapshot@.started_at,
            final(self).snapshot@.microphone == old(self).snapshot@.microphone,
            final(self).snapshot@.updated_at == now@,
            r@ == final(self).snapshot@,
    {
        let current = self.snapshot();
        self.update(
            "stopping",
            lit("Deteniendo radio..."),
            current.now_playing,
            current.started_at,
            now,
        )
    }
}

/// The microphone side of a running broadcast worker. The capture process
/// itself is held by the caller; `ready` says whether one is running.
pub struct WorkerAudio {
    pub configured: bool,
    pub device: Option<String>,
    pub gain_percent: u16,
    pub ready: bool,
    pub live: bool,
}

/// What a worker does with a chunk of PCM before it is published.
#[derive(Debug, Clone, Copy, PartialEq, Eq)]
pub enum ChunkAction {
    /// No microphone is running; the chunk passes unchanged.
    PassThrough,
    /// The microphone is muted; its buffered audio is discarded.
    DiscardMicrophone,
    /// The microphone is live; its audio is mixed into the chunk.
    Mix,
}

impl WorkerAudio {
    /// The microphone state at the start of a broadcast: muted and not yet
    /// prepared; the device is kept only when the microphone is enabled.
    pub fn from_profile(profile: &BroadcastProfile) -> (r: Self)
        ensures
            r.configured == profile.microphone_enabled,
            profile.microphone_enabled ==> opt_view(r.device) == Some(profile@.microphone_device),
            !profile.microphone_enabled ==> r.device is None,
            r.gain_percent == profile.microphone_gain_percent,
            !r.ready && !r.live,
    {
        WorkerAudio {
            configured: profile.microphone_enabled,
            device: if profile.microphone_enabled {
                Some(profile.microphone_device.clone())
            } else {
                None
            },
            gain_percent: profile.microphone_gain_percent,
            ready: false,
            live: false,
        }
    }

    /// The microphone status with the given message.
    pub fn status(&self, message: String) -> (r: BroadcastMicrophoneStatus)
        ensures
            r.configured == self.configured,
            r.ready == self.ready,
            r.live == self.live,
            opt_view(r.device) == opt_view(self.device),
            r.gain_percent == self.gain_percent,
            r.message@ == message@,
    {
        BroadcastMicrophoneStatus {
            configured: self.configured,
            ready: self.ready,
            live: self.live,
            device: copy_opt_string(&self.device),
            gain_percent: self.gain_percent,
            message,
        }
    }

    /// Puts the microphone on air or mutes it. Going live needs a prepared
    /// microphone; muting always succeeds.
    pub fn set_live(&mut self, live: bool) -> (r: Result<BroadcastMicrophoneStatus, String>)
        ensures
            (live && !old(self).ready) <==> r is Err,
            r matches Err(e) ==> e@
                == "El micrófono no está preparado. Detén la radio y revisa su configuración."@
                && final(self).live == old(self).live,
            r matches Ok(s) ==> final(self).live == live && s.live == live && s.ready == old(
                self,
            ).ready && s.message@ == (if live {
                "Micrófono al aire."@
            } else {
                "Micrófono silenciado."@
            }),
            final(self).ready == old(self).ready,
            final(self).configured == old(self).configured,
            final(self).gain_percent == old(self).gain_percent,
    {
        if live && !self.ready {
            return Err(
                lit("El micrófono no está preparado. Detén la radio y revisa su configuración."),
            );
        }
        self.live = live;
        let message = if live {
            lit("Micrófono al aire.")
        } else {
            lit("Micrófono silenciado.")
        };
        Ok(self.status(message))
    }

    /// What to do with the next chunk of PCM.
    pub fn chunk_action(&self) -> (r: ChunkAction)
        ensures
            !self.ready ==> r == ChunkAction::PassThrough,
            self.ready && !self.live ==> r == ChunkAction::DiscardMicrophone,
            self.ready && self.live ==> r == ChunkAction::Mix,
    {
        if !self.ready {
            ChunkAction::PassThrough
        } else if !self.live {
            ChunkAction::DiscardMicrophone
        } else {
            ChunkAction::Mix
        }
    }

    /// The microphone capture started: it is prepared and muted.
    pub fn prepared(&mut self) -> (r: BroadcastMicrophoneStatus)
        ensures
            final(self).ready && !final(self).live,
            r.ready && !r.live,
            r.message@ == "Micrófono preparado y silenciado."@,
    {
        self.ready = true;
        self.live = false;
        self.status(lit("Micrófono preparado y silenciado."))
    }

    /// The microphone failed while live: it is taken off air and released.
    pub fn failed(&mut self, error: &str) -> (r: BroadcastMicrophoneStatus)
        ensures
            !final(self).ready && !final(self).live,
            !r.ready && !r.live,
            r.message@ == "Micrófono no disponible: "@ + error@,
    {
        self.live = false;
        self.ready = false;
        self.status(lit("Micrófono no disponible: ").concat(error))
    }

    /// The worker stops: the microphone is released and muted.
    pub fn terminate(&mut self) -> (r: BroadcastMicrophoneStatus)
        ensures
            !final(self).ready && !final(self).live,
            r.message@ == (if old(self).configured {
                "Micrófono detenido."@
            } else {
                "Micrófono desactivado."@
            }),
    {
        self.live = false;
        self.ready = false;
        let message = if self.configured {
            lit("Micrófono detenido.")
        } else {
            lit("Micrófono desactivado.")
        };
        self.status(message)
    }
}

} // verus!
