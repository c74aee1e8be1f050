//! The FFmpeg command lines of the broadcast: the persistent MP3 publisher, the
//! per-track decoder and the microphone capture, all on stereo 44.1 kHz
//! signed 16-bit little-endian PCM.
use vstd::prelude::*;
use vstd::string::StringExecFns;

use crate::broadcast::profile::BroadcastProfile;
use crate::text::{decimal, decimal_string, lit, push_string, views};

verus! {

/// PCM sample rate of every pipe between the FFmpeg processes.
pub const PCM_SAMPLE_RATE: usize = 44_100;

/// PCM channel count of every pipe between the FFmpeg processes.
pub const PCM_CHANNELS: usize = 2;

/// Bytes per PCM sample (signed 16-bit).
pub const PCM_BYTES_PER_SAMPLE: usize = 2;

/// `icecast://{user}@{host}:{port}{mount}`.
pub open spec fn icecast_destination(
    username: Seq<char>,
    host: Seq<char>,
    port: u16,
    mount: Seq<char>,
) -> Seq<char> {
    "icecast://"@ + username + "@"@ + host + ":"@ + decimal(port as nat) + mount
}

/// The publisher's arguments: PCM from stdin, MP3 at the profile bitrate, the
/// Icecast metadata and credentials, `-tls 1` when TLS is on, and the Icecast
/// destination last.
pub open spec fn publisher_args_spec(
    station_name: Seq<char>,
    description: Seq<char>,
    bitrate_kbps: u16,
    public: bool,
    tls: bool,
    password: Seq<char>,
    destination: Seq<char>,
) -> Seq<Seq<char>> {
    seq![
        "-hide_banner"@,
        "-loglevel"@,
        "warning"@,
        "-nostdin"@,
        "-re"@,
        "-f"@,
        "s16le"@,
        "-ar"@,
        decimal(44100),
        "-ac"@,
        decimal(2),
        "-i"@,
        "pipe:0"@,
        "-map"@,
        "0:a:0"@,
        "-c:a"@,
        "libmp3lame"@,
        "-b:a"@,
        decimal(bitrate_kbps as nat) + "k"@,
        "-content_type"@,
        "audio/mpeg"@,
        "-ice_name"@,
        station_name,
        "-ice_description"@,
        description,
        "-ice_public"@,
        if public {
            "1"@
        } else {
            "0"@
        },
        "-password"@,
        password,
    ] + (if tls {
        seq!["-tls"@, "1"@]
    } else {
        Seq::<Seq<char>>::empty()
    }) + seq!["-flush_packets"@, "1"@, "-f"@, "mp3"@, destination]
}

/// Where each setting goes in the publisher's command line: the bitrate after
/// `-b:a`, the station name after `-ice_name`, the description after
/// `-ice_description`, the public flag after `-ice_public`, the password after
/// `-password`, `-tls 1` only with TLS, and the destination last.
pub proof fn lemma_publisher_args_layout(
    station_name: Seq<char>,
    description: Seq<char>,
    bitrate_kbps: u16,
    public: bool,
    tls: bool,
    password: Seq<char>,
    destination: Seq<char>,
)
    ensures
        ({
            let a = publisher_args_spec(
                station_name,
                description,
                bitrate_kbps,
                public,
                tls,
                password,
                destination,
            );
            &&& a.len() == if tls {
                36int
            } else {
                34int
            }
            &&& a[17] == "-b:a"@ && a[18] == decimal(bitrate_kbps as nat) + "k"@
            &&& a[21] == "-ice_name"@ && a[22] == station_name
            &&& a[23] == "-ice_description"@ && a[24] == description
            &&& a[25] == "-ice_public"@ && a[26] == (if public {
                "1"@
            } else {
                "0"@
            })
            &&& a[27] == "-password"@ && a[28] == password
            &&& tls ==> a[29] == "-tls"@ && a[30] == "1"@
            &&& !tls ==> a[29] == "-flush_packets"@
            &&& a[a.len() - 1] == destination
        }),
{
}

/// The command line of the persistent Icecast publisher.
pub fn publisher_args(profile: &BroadcastProfile, password: &str) -> (args: Vec<String>)
    ensures
        views(args@) == publisher_args_spec(
            profile@.station_name,
            profile@.description,
            profile.bitrate_kbps,
            profile.public,
            profile.tls,
            password@,
            icecast_destination(profile@.username, profile@.host, profile.port, profile@.mount),
        ),
        args@[21]@ == "-ice_name"@ && args@[22]@ == profile@.station_name,
        args@[23]@ == "-ice_description"@ && args@[24]@ == profile@.description,
        args@[27]@ == "-password"@ && args@[28]@ == password@,
        args@[args@.len() - 1]@ == icecast_destination(
            profile@.username,
            profile@.host,
            profile.port,
            profile@.mount,
        ),
{
    proof {
        lemma_publisher_args_layout(
            profile@.station_name,
            profile@.description,
            profile.bitrate_kbps,
            profile.public,
            profile.tls,
            password@,
            icecast_destination(profile@.username, profile@.host, profile.port, profile@.mount),
        );
    }
    let destination = lit("icecast://").concat(profile.username.as_str()).concat("@").concat(
        profile.host.as_str(),
    ).concat(":").concat(decimal_string(profile.port as u64).as_str()).concat(
        profile.mount.as_str(),
    );
    let mut args: Vec<String> = Vec::new();
    push_string(&mut args, lit("-hide_banner"));
    push_string(&mut args, lit("-loglevel"));
    push_string(&mut args, lit("warning"));
    push_string(&mut args, lit("-nostdin"));
    push_string(&mut args, lit("-re"));
    push_string(&mut args, lit("-f"));
    push_string(&mut args, lit("s16le"));
    push_string(&mut args, lit("-ar"));
    push_string(&mut args, decimal_string(PCM_SAMPLE_RATE as u64));
    push_string(&mut args, lit("-ac"));
    push_string(&mut args, decimal_string(PCM_CHANNELS as u64));
    push_string(&mut args, lit("-i"));
    push_string(&mut args, lit("pipe:0"));
    push_string(&mut args, lit("-map"));
    push_string(&mut args, lit("0:a:0"));
    push_string(&mut args, lit("-c:a"));
    push_string(&mut args, lit("libmp3lame"));
    push_string(&mut args, lit("-b:a"));
    push_string(&mut args, decimal_string(profile.bitrate_kbps as u64).concat("k"));
    push_string(&mut args, lit("-content_type"));
    push_string(&mut args, lit("audio/mpeg"));
    push_string(&mut args, lit("-ice_name"));
    push_string(&mut args, lit(profile.station_name.as_str()));
    push_string(&mut args, lit("-ice_description"));
    push_string(&mut args, lit(profile.description.as_str()));
    push_string(&mut args, lit("-ice_public"));
    push_string(
        &mut args,
        if profile.public {
            lit("1")
        } else {
            lit("0")
        },
    );
    push_string(&mut args, lit("-password"));
    push_string(&mut args, lit(password));
    let ghost head = views(args@);
    if profile.tls {
        push_string(&mut args, lit("-tls"));
        push_string(&mut args, lit("1"));
    }
    let ghost middle = views(args@);
    push_string(&mut args, lit("-flush_packets"));
    push_string(&mut args, lit("1"));
    push_string(&mut args, lit("-f"));
    push_string(&mut args, lit("mp3"));
    push_string(&mut args, destination);
    assert(views(args@) =~= publisher_args_spec(
        profile@.station_name,
        profile@.description,
        profile.bitrate_kbps,
        profile.public,
        profile.tls,
        password@,
        icecast_destination(profile@.username, profile@.host, profile.port, profile@.mount),
    ));
    args
}

/// The decoder's arguments: the first audio stream of `path` as PCM on stdout.
pub open spec fn decoder_args_spec(path: Seq<char>) -> Seq<Seq<char>> {
    seq![
        "-hide_banner"@,
        "-loglevel"@,
        "error"@,
        "-nostdin"@,
        "-i"@,
        path,
        "-map"@,
        "0:a:0"@,
        "-vn"@,
        "-sn"@,
        "-dn"@,
        "-c:a"@,
        "pcm_s16le"@,
        "-ar"@,
        decimal(44100),
        "-ac"@,
        decimal(2),
        "-f"@,
        "s16le"@,
        "pipe:1"@,
    ]
}

/// The command line that decodes one queued track to PCM.
pub fn decoder_args(path: &str) -> (args: Vec<String>)
    ensures
        views(args@) == decoder_args_spec(path@),
        args@.len() == 20,
        args@[4]@ == "-i"@ && args@[5]@ == path@,
        args@[19]@ == "pipe:1"@,
{
    let mut args: Vec<String> = Vec::new();
    push_string(&mut args, lit("-hide_banner"));
    push_string(&mut args, lit("-loglevel"));
    push_string(&mut args, lit("error"));
    push_string(&mut args, lit("-nostdin"));
    push_string(&mut args, lit("-i"));
    push_string(&mut args, lit(path));
    push_string(&mut args, lit("-map"));
    push_string(&mut args, lit("0:a:0"));
    push_string(&mut args, lit("-vn"));
    push_string(&mut args, lit("-sn"));
    push_string(&mut args, lit("-dn"));
    push_string(&mut args, lit("-c:a"));
    push_string(&mut args, lit("pcm_s16le"));
    push_string(&mut args, lit("-ar"));
    push_string(&mut args, decimal_string(PCM_SAMPLE_RATE as u64));
    push_string(&mut args, lit("-ac"));
    push_string(&mut args, decimal_string(PCM_CHANNELS as u64));
    push_string(&mut args, lit("-f"));
    push_string(&mut args, lit("s16le"));
    push_string(&mut args, lit("pipe:1"));
    assert(views(args@) =~= decoder_args_spec(path@));
    args
}

/// The microphone capture's arguments: AVFoundation audio device `:{device}` as
/// PCM on stdout.
pub open spec fn microphone_capture_args_spec(device: Seq<char>) -> Seq<Seq<char>> {
    seq![
        "-hide_banner"@,
        "-loglevel"@,
        "warning"@,
        "-nostdin"@,
        "-thread_queue_size"@,
        "512"@,
        "-fflags"@,
        "+nobuffer"@,
        "-f"@,
        "avfoundation"@,
        "-i"@,
        ":"@ + device,
        "-map"@,
        "0:a:0"@,
        "-vn"@,
        "-c:a"@,
        "pcm_s16le"@,
        "-ar"@,
        decimal(44100),
        "-ac"@,
        decimal(2),
        "-f"@,
        "s16le"@,
        "pipe:1"@,
    ]
}

/// The command line that captures the microphone as PCM.
pub fn microphone_capture_args(device: &str) -> (args: Vec<String>)
    ensures
        views(args@) == microphone_capture_args_spec(device@),
        args@.len() == 24,
        args@[8]@ == "-f"@ && args@[9]@ == "avfoundation"@,
        args@[10]@ == "-i"@ && args@[11]@ == ":"@ + device@,
        args@[23]@ == "pipe:1"@,
{
    let mut args: Vec<String> = Vec::new();
    push_string(&mut args, lit("-hide_banner"));
    push_string(&mut args, lit("-loglevel"));
    push_string(&mut args, lit("warning"));
    push_string(&mut args, lit("-nostdin"));
    push_string(&mut args, lit("-thread_queue_size"));
    push_string(&mut args, lit("512"));
    push_string(&mut args, lit("-fflags"));
    push_string(&mut args, lit("+nobuffer"));
    push_string(&mut args, lit("-f"));
    push_string(&mut args, lit("avfoundation"));
    push_string(&mut args, lit("-i"));
    push_string(&mut args, lit(":").concat(device));
    push_string(&mut args, lit("-map"));
    push_string(&mut args, lit("0:a:0"));
    push_string(&mut args, lit("-vn"));
    push_string(&mut args, lit("-c:a"));
    push_string(&mut args, lit("pcm_s16le"));
    push_string(&mut args, lit("-ar"));
    push_string(&mut args, decimal_string(PCM_SAMPLE_RATE as u64));
    push_string(&mut args, lit("-ac"));
    push_string(&mut args, decimal_string(PCM_CHANNELS as u64));
    push_string(&mut args, lit("-f"));
    push_string(&mut args, lit("s16le"));
    push_string(&mut args, lit("pipe:1"));
    assert(views(args@) =~= microphone_capture_args_spec(device@));
    args
}

} // verus!
