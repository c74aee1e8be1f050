//! What the local FFmpeg build can do, read from its `-encoders`, `-protocols`,
//! `-devices` and `-list_devices` listings.
use vstd::prelude::*;

use crate::text::{
    any_line_contains, chars_of, contains_str, has_infix, lines, lines_spec, lit, some_line_contains,
    trim, trim_spec, trim_start, trim_start_spec, views,
};

verus! {

/// Whether the local FFmpeg can run the broadcast.
#[derive(Debug, Clone)]
pub struct BroadcastPreflight {
    pub ffmpeg_available: bool,
    pub mp3_encoder_available: bool,
    pub icecast_protocol_available: bool,
    pub tls_protocol_available: bool,
    pub microphone_input_available: bool,
    pub ready: bool,
    pub message: String,
}

/// Some line of a protocol listing is exactly `protocol` once trimmed.
pub open spec fn protocol_listed(output: Seq<char>, protocol: Seq<char>) -> bool {
    exists|i: int|
        0 <= i < lines_spec(output).len() && trim_spec(#[trigger] lines_spec(output)[i])
            == protocol
}

/// Whether `protocol` appears, alone on its line, in FFmpeg's `-protocols` listing.
pub fn protocol_list_contains(output: &str, protocol: &str) -> (r: bool)
    ensures
        r == protocol_listed(output@, protocol@),
{
    let ls = lines(output);
    let mut i: usize = 0;
    while i < ls.len()
        invariant
            i <= ls.len(),
            views(ls@) == lines_spec(output@),
            forall|j: int|
                0 <= j < i ==> trim_spec(#[trigger] lines_spec(output@)[j]) != protocol@,
        decreases ls.len() - i,
    {
        assert(views(ls@)[i as int] == ls@[i as int]@);
        if lit(trim(ls[i].as_str())) == lit(protocol) {
            return true;
        }
        i = i + 1;
    }
    false
}

/// A device listing line names AVFoundation and is flagged as a demuxer (`D`).
pub open spec fn avfoundation_input_line(line: Seq<char>) -> bool {
    has_infix(line, "avfoundation"@) && trim_start_spec(line).len() > 0 && trim_start_spec(line)[0]
        == 'D'
}

pub open spec fn avfoundation_listed(devices: Seq<char>) -> bool {
    exists|i: int|
        0 <= i < lines_spec(devices).len() && avfoundation_input_line(
            #[trigger] lines_spec(devices)[i],
        )
}

fn any_avfoundation_input(devices: &str) -> (r: bool)
    ensures
        r == avfoundation_listed(devices@),
{
    let ls = lines(devices);
    let mut i: usize = 0;
    while i < ls.len()
        invariant
            i <= ls.len(),
            views(ls@) == lines_spec(devices@),
            forall|j: int|
                0 <= j < i ==> !avfoundation_input_line(#[trigger] lines_spec(devices@)[j]),
        decreases ls.len() - i,
    {
        assert(views(ls@)[i as int] == ls@[i as int]@);
        let line = ls[i].as_str();
        if contains_str(line, "avfoundation") {
            let start = chars_of(trim_start(line));
            if start.len() > 0 && start[0] == 'D' {
                return true;
            }
        }
        i = i + 1;
    }
    false
}

/// The message shown for a preflight outcome.
pub open spec fn preflight_message(
    ready: bool,
    ffmpeg_available: bool,
    mp3: bool,
    icecast: bool,
) -> Seq<char> {
    if ready {
        "FFmpeg esta listo para transmitir MP3 a Icecast."@
    } else if !ffmpeg_available {
        "FFmpeg no esta disponible."@
    } else if !mp3 {
        "FFmpeg no incluye el encoder libmp3lame requerido para MP3."@
    } else if !icecast {
        "FFmpeg no incluye el protocolo de salida icecast."@
    } else {
        "FFmpeg no incluye TLS, pero el perfil Icecast exige conexión segura."@
    }
}

pub open spec fn text_or_empty(o: Option<String>) -> Seq<char> {
    match o {
        Some(s) => s@,
        None => Seq::empty(),
    }
}

/// Reads the preflight from FFmpeg's listings; `None` stands for a listing
/// command that could not be run. FFmpeg counts as available when the encoder and
/// protocol listings ran; the station is ready when MP3 (`libmp3lame`) and the
/// `icecast` protocol are there, and `tls` too when the profile requires it.
pub fn preflight_from_listings(
    encoders: Option<String>,
    protocols: Option<String>,
    devices: Option<String>,
    tls_required: bool,
) -> (r: BroadcastPreflight)
    ensures
        r.ffmpeg_available == (encoders is Some && protocols is Some),
        r.mp3_encoder_available == some_line_contains(text_or_empty(encoders), "libmp3lame"@),
        r.icecast_protocol_available == protocol_listed(text_or_empty(protocols), "icecast"@),
        r.tls_protocol_available == protocol_listed(text_or_empty(protocols), "tls"@),
        r.microphone_input_available == avfoundation_listed(text_or_empty(devices)),
        r.ready == (r.ffmpeg_available && r.mp3_encoder_available && r.icecast_protocol_available
            && (!tls_required || r.tls_protocol_available)),
        r.message@ == preflight_message(
            r.ready,
            r.ffmpeg_available,
            r.mp3_encoder_available,
            r.icecast_protocol_available,
        ),
{
    let ffmpeg_available = encoders.is_some() && protocols.is_some();
    let encoder_text = match encoders {
        Some(s) => s,
        None => String::new(),
    };
    let protocol_text = match protocols {
        Some(s) => s,
        None => String::new(),
    };
    let device_text = match devices {
        Some(s) => s,
        None => String::new(),
    };
    let mp3_encoder_available = any_line_contains(encoder_text.as_str(), "libmp3lame");
    let icecast_protocol_available = protocol_list_contains(protocol_text.as_str(), "icecast");
    let tls_protocol_available = protocol_list_contains(protocol_text.as_str(), "tls");
    let microphone_input_available = any_avfoundation_input(device_text.as_str());
    let ready = ffmpeg_available && mp3_encoder_available && icecast_protocol_available && (
    !tls_required || tls_protocol_available);
    let message = if ready {
        lit("FFmpeg esta listo para transmitir MP3 a Icecast.")
    } else if !ffmpeg_available {
        lit("FFmpeg no esta disponible.")
    } else if !mp3_encoder_available {
        lit("FFmpeg no incluye el encoder libmp3lame requerido para MP3.")
    } else if !icecast_protocol_available {
        lit("FFmpeg no incluye el protocolo de salida icecast.")
    } else {
        lit("FFmpeg no incluye TLS, pero el perfil Icecast exige conexión segura.")
    };
    BroadcastPreflight {
        ffmpeg_available,
        mp3_encoder_available,
        icecast_protocol_available,
        tls_protocol_available,
        microphone_input_available,
        ready,
        message,
    }
}

} // verus!
