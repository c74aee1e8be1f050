use aifficator::broadcast::audio::{
    mix_microphone_into, mix_pcm_sample, receive_capture_chunk, silence_chunk,
};
use aifficator::broadcast::devices::{collect_microphone_devices, DeviceLineCapture};
use aifficator::broadcast::ffmpeg::{decoder_args, microphone_capture_args, publisher_args};
use aifficator::broadcast::preflight::{preflight_from_listings, protocol_list_contains};
use aifficator::broadcast::profile::{
    listener_url, metadata_query, metadata_url, password_change, profile_from_row, PasswordChange, validate_profile, BroadcastProfile, BroadcastProfileInput,
};
use aifficator::broadcast::queue::{
    display_title, plan_queue_append, playlist_selection, queue_removal_result,
    BroadcastQueueEntry, IndexedTrack,
};
use aifficator::broadcast::status::{
    BroadcastMicrophoneStatus, BroadcastStatus, ChunkAction, RuntimeState, WorkerAudio,
};
use aifficator::broadcast::worker::{
    check_start_requirements, ensure_no_worker, entry_status_after, playback_step, poll_step,
    reconnect_delay_seconds, require_worker, serve_outcome, LoopAction, LoopEvent, LoopPhase,
    PlayEnd, PlaybackAction, PlaybackEvent, PlaybackPhase, PollStep, ReceivedCommand,
    ServeOutcome, WorkerAction, WorkerCommand, WorkerLoop,
};
use std::collections::VecDeque;

fn profile_input() -> BroadcastProfileInput {
    BroadcastProfileInput {
        host: "radio.example.com".to_string(),
        port: 8443,
        mount: "/live.mp3".to_string(),
        username: "source".to_string(),
        station_name: "Test Radio".to_string(),
        description: "Test".to_string(),
        bitrate_kbps: 128,
        tls: true,
        public: false,
        microphone_enabled: true,
        microphone_device: "default".to_string(),
        microphone_gain_percent: 100,
        password: Some("secret".to_string()),
        clear_password: false,
    }
}

fn profile() -> BroadcastProfile {
    BroadcastProfile {
        id: "default".to_string(),
        host: "radio.example.com".to_string(),
        port: 8443,
        mount: "/live.mp3".to_string(),
        username: "source".to_string(),
        station_name: "Test Radio".to_string(),
        description: "Test".to_string(),
        bitrate_kbps: 128,
        tls: true,
        public: false,
        microphone_enabled: true,
        microphone_device: "default".to_string(),
        microphone_gain_percent: 100,
        password_configured: true,
        listener_url: "https://radio.example.com:8443/live.mp3".to_string(),
        updated_at: chrono::Utc::now().to_rfc3339(),
    }
}

fn entry(title: &str, artist: Option<&str>) -> BroadcastQueueEntry {
    BroadcastQueueEntry {
        id: "e1".to_string(),
        library_id: "lib".to_string(),
        track_id: "1".to_string(),
        playlist_path: "/set".to_string(),
        playlist_name: "Set".to_string(),
        source_path: "/music/one.wav".to_string(),
        title: title.to_string(),
        artist: artist.map(|a| a.to_string()),
        duration_seconds: Some(10),
        position: 1,
        status: "queued".to_string(),
        error: None,
        inserted_at: "t".to_string(),
        updated_at: "t".to_string(),
    }
}

#[test]
fn validates_icecast_profile_boundaries() {
    assert!(validate_profile(profile_input()).is_ok());
    let mut invalid = profile_input();
    invalid.mount = "live.mp3".to_string();
    assert!(validate_profile(invalid).is_err());
    let mut invalid = profile_input();
    invalid.bitrate_kbps = 32;
    assert!(validate_profile(invalid).is_err());
}

#[test]
fn publisher_uses_persistent_pcm_input_and_mp3_icecast_output() {
    let args = publisher_args(&profile(), "secret");
    assert!(args.windows(2).any(|pair| pair == ["-c:a", "libmp3lame"]));
    assert!(args
        .windows(2)
        .any(|pair| pair == ["-content_type", "audio/mpeg"]));
    assert!(args.windows(2).any(|pair| pair == ["-tls", "1"]));
    assert_eq!(
        args.last().unwrap(),
        "icecast://source@radio.example.com:8443/live.mp3"
    );
}

#[test]
fn silence_chunk_is_exactly_a_quarter_second_of_pcm() {
    assert_eq!(silence_chunk().len(), 44_100);
}

#[test]
fn microphone_capture_uses_avfoundation_and_normalized_pcm() {
    let args = microphone_capture_args("2");
    assert!(args.windows(2).any(|pair| pair == ["-f", "avfoundation"]));
    assert!(args.windows(2).any(|pair| pair == ["-i", ":2"]));
    assert!(args.windows(2).any(|pair| pair == ["-ar", "44100"]));
    assert!(args.windows(2).any(|pair| pair == ["-ac", "2"]));
}

#[test]
fn microphone_mix_applies_gain_and_clamps() {
    assert_eq!(mix_pcm_sample(1_000, 2_000, 50), 2_000);
    assert_eq!(mix_pcm_sample(30_000, 30_000, 100), i16::MAX);
    assert_eq!(mix_pcm_sample(-30_000, -30_000, 100), i16::MIN);
}

#[test]
fn validation_trims_fields_and_drops_blank_password() {
    let mut input = profile_input();
    input.host = "  radio.example.com ".to_string();
    input.station_name = " Test Radio\n".to_string();
    input.password = Some("   ".to_string());
    let validated = validate_profile(input).unwrap();
    assert_eq!(validated.host, "radio.example.com");
    assert_eq!(validated.station_name, "Test Radio");
    assert!(validated.password.is_none());
    let again = validate_profile(validated.clone()).unwrap();
    assert_eq!(again.host, validated.host);
}

#[test]
fn validation_reports_each_rule_in_order() {
    let mut input = profile_input();
    input.host = "user@host".to_string();
    input.port = 0;
    assert_eq!(validate_profile(input).unwrap_err(), "Host Icecast invalido.");
    let mut input = profile_input();
    input.port = 0;
    assert_eq!(validate_profile(input).unwrap_err(), "Puerto Icecast invalido.");
    let mut input = profile_input();
    input.mount = "/".to_string();
    assert_eq!(
        validate_profile(input).unwrap_err(),
        "Mountpoint invalido. Usa un valor como /live.mp3."
    );
    let mut input = profile_input();
    input.username = "so:urce".to_string();
    assert_eq!(
        validate_profile(input).unwrap_err(),
        "Usuario source de Icecast invalido."
    );
    let mut input = profile_input();
    input.station_name = "x".repeat(121);
    assert_eq!(validate_profile(input).unwrap_err(), "Nombre de estación invalido.");
    let mut input = profile_input();
    input.bitrate_kbps = 321;
    assert_eq!(
        validate_profile(input).unwrap_err(),
        "El bitrate MP3 debe estar entre 96 y 320 kbps."
    );
    let mut input = profile_input();
    input.microphone_device = "mic1".to_string();
    assert_eq!(
        validate_profile(input).unwrap_err(),
        "Dispositivo de micrófono invalido."
    );
    let mut input = profile_input();
    input.microphone_device = "3".to_string();
    input.microphone_gain_percent = 201;
    assert_eq!(
        validate_profile(input).unwrap_err(),
        "La ganancia del micrófono debe estar entre 0% y 200%."
    );
}

#[test]
fn listener_url_and_default_profile() {
    assert_eq!(
        listener_url(true, "radio.example.com", 8443, "/live.mp3"),
        "https://radio.example.com:8443/live.mp3"
    );
    let profile = profile_from_row(None, false, "2026-01-01T00:00:00+00:00".to_string());
    assert_eq!(profile.listener_url, "http://127.0.0.1:8000/live.mp3");
    assert_eq!(profile.updated_at, "2026-01-01T00:00:00+00:00");
    assert_eq!(profile.bitrate_kbps, 128);
    assert!(!profile.password_configured);
}

#[test]
fn metadata_update_request() {
    assert_eq!(
        metadata_url(false, "127.0.0.1", 8000),
        "http://127.0.0.1:8000/admin/metadata"
    );
    assert_eq!(metadata_url(true, "r.example", 443), "https://r.example:443/admin/metadata");
    let query = metadata_query("/live.mp3", "Artist - Song");
    assert_eq!(
        query,
        vec![
            ("mount".to_string(), "/live.mp3".to_string()),
            ("mode".to_string(), "updinfo".to_string()),
            ("song".to_string(), "Artist - Song".to_string()),
        ]
    );
}

#[test]
fn publisher_without_tls_and_decoder_args() {
    let mut p = profile();
    p.tls = false;
    p.public = true;
    let args = publisher_args(&p, "pw");
    assert!(!args.iter().any(|a| a == "-tls"));
    assert!(args.windows(2).any(|pair| pair == ["-ice_public", "1"]));
    assert!(args.windows(2).any(|pair| pair == ["-b:a", "128k"]));
    let decoder = decoder_args("/music/a.flac");
    assert!(decoder.windows(2).any(|pair| pair == ["-i", "/music/a.flac"]));
    assert_eq!(decoder.last().unwrap(), "pipe:1");
}

#[test]
fn microphone_mixing_consumes_buffer_and_drops_stale_frames() {
    let mut mic: VecDeque<u8> = VecDeque::new();
    for b in [0u8, 1, 2, 3, 0xE8, 0x03, 0xE8, 0x03] {
        mic.push_back(b);
    }
    let mut output = vec![0xE8u8, 0x03, 0xE8, 0x03];
    mix_microphone_into(&mut mic, &mut output, 100);
    assert_eq!(output, vec![0xD0, 0x07, 0xD0, 0x07]);
    assert!(mic.is_empty());
    let mut mic: VecDeque<u8> = VecDeque::new();
    mic.push_back(0x10);
    mic.push_back(0x00);
    let mut output = vec![1u8, 0, 2, 0];
    mix_microphone_into(&mut mic, &mut output, 0);
    assert_eq!(output, vec![1, 0, 2, 0]);
    assert!(mic.is_empty());
}

#[test]
fn capture_buffer_keeps_whole_frames_within_limit() {
    let mut buffer: VecDeque<u8> = VecDeque::new();
    receive_capture_chunk(&mut buffer, &[1, 2, 3, 4, 5, 6], 4);
    assert_eq!(buffer.iter().copied().collect::<Vec<u8>>(), vec![5, 6]);
    receive_capture_chunk(&mut buffer, &[7, 8], 8);
    assert_eq!(buffer.len(), 4);
}

#[test]
fn preflight_reads_ffmpeg_listings() {
    let encoders = " A..... libmp3lame   MP3 (MPEG audio layer 3)\n".to_string();
    let protocols = "Input:\n  file\n  icecast\n  tls\n".to_string();
    let devices = " D  avfoundation    AVFoundation input device\n".to_string();
    let ready = preflight_from_listings(
        Some(encoders.clone()),
        Some(protocols),
        Some(devices),
        true,
    );
    assert!(ready.ready);
    assert!(ready.microphone_input_available);
    assert_eq!(ready.message, "FFmpeg esta listo para transmitir MP3 a Icecast.");
    let no_tls = preflight_from_listings(Some(encoders), Some("  icecast\n".to_string()), None, true);
    assert!(!no_tls.ready);
    assert_eq!(
        no_tls.message,
        "FFmpeg no incluye TLS, pero el perfil Icecast exige conexión segura."
    );
    let missing = preflight_from_listings(None, None, None, false);
    assert_eq!(missing.message, "FFmpeg no esta disponible.");
    assert!(protocol_list_contains("a\n  tls \r\n", "tls"));
    assert!(!protocol_list_contains("tlsx\n", "tls"));
}

#[test]
fn microphone_devices_follow_the_audio_section() {
    let lines: Vec<String> = vec![
        "[AVFoundation indev @ 0x1] AVFoundation video devices:".to_string(),
        "[AVFoundation indev @ 0x1] [0] FaceTime HD Camera".to_string(),
        "[AVFoundation indev @ 0x1] AVFoundation audio devices:".to_string(),
        "[AVFoundation indev @ 0x1] [0] MacBook Microphone".to_string(),
        "[AVFoundation indev @ 0x1] [1]    ".to_string(),
        "Error opening input file .".to_string(),
        "[AVFoundation indev @ 0x1] [2] After".to_string(),
    ];
    let capture = |id: &str, label: &str| {
        Some(DeviceLineCapture {
            id: Some(id.to_string()),
            label: Some(label.to_string()),
        })
    };
    let captures = vec![
        None,
        capture("0", "FaceTime HD Camera"),
        None,
        capture("0", "MacBook Microphone "),
        capture("1", "   "),
        None,
        capture("2", "After"),
    ];
    let devices = collect_microphone_devices(&lines, &captures);
    assert_eq!(devices.len(), 2);
    assert!(devices[0].is_default);
    assert_eq!(devices[0].id, "default");
    assert_eq!(devices[1].id, "0");
    assert_eq!(devices[1].label, "MacBook Microphone");
}

#[test]
fn microphone_devices_from_real_listing() {
    let stderr = "[AVFoundation indev @ 0x1] AVFoundation audio devices:\n[AVFoundation indev @ 0x1] [0] USB Mic\n";
    let devices = aifficator::broadcast::devices::microphone_devices_from_listing(stderr).unwrap();
    assert_eq!(devices.len(), 2);
    assert_eq!(devices[1].id, "0");
    assert_eq!(devices[1].label, "USB Mic");
}

#[test]
fn display_title_uses_artist_when_present() {
    assert_eq!(display_title(&entry("One", Some("Artist"))), "Artist — One");
    assert_eq!(display_title(&entry("One", Some("  "))), "One");
    assert_eq!(display_title(&entry("One", None)), "One");
}

#[test]
fn queue_plan_skips_missing_tracks_and_numbers_in_order() {
    let tracks = vec![
        IndexedTrack {
            track_id: "1".to_string(),
            source_path: Some("/music/one.wav".to_string()),
            title: Some("One".to_string()),
            artist: Some("Artist".to_string()),
            duration_seconds: Some(10),
            source_exists: true,
        },
        IndexedTrack {
            track_id: "2".to_string(),
            source_path: None,
            title: Some("Missing".to_string()),
            artist: None,
            duration_seconds: Some(20),
            source_exists: false,
        },
        IndexedTrack {
            track_id: "3".to_string(),
            source_path: Some("/music/three.wav".to_string()),
            title: None,
            artist: None,
            duration_seconds: None,
            source_exists: true,
        },
    ];
    let plan = plan_queue_append(&tracks, 0).unwrap();
    assert_eq!(plan.appended_total, 2);
    assert_eq!(plan.skipped_missing_total, 1);
    assert_eq!(plan.entries[0].title, "One");
    assert_eq!(plan.entries[0].position, 1);
    assert_eq!(plan.entries[1].title, "Sin título");
    assert_eq!(plan.entries[1].position, 2);
    assert!(plan_queue_append(&Vec::new(), 0).is_err());
    assert!(playlist_selection(" ", "/set").is_err());
    assert_eq!(playlist_selection(" lib ", "/set").unwrap().0, "lib");
    assert!(queue_removal_result(0).is_err());
    assert_eq!(queue_removal_result(1).unwrap(), "Pista quitada de la cola.");
}

#[test]
fn append_playlist_snapshots_available_tracks_in_order() {
    let (library, playlist) = playlist_selection("lib", "/set").unwrap();
    assert_eq!(library, "lib");
    assert_eq!(playlist, "/set");
    let tracks = vec![
        IndexedTrack {
            track_id: "1".to_string(),
            source_path: Some("/music/one.wav".to_string()),
            title: Some("One".to_string()),
            artist: Some("Artist".to_string()),
            duration_seconds: Some(10),
            source_exists: true,
        },
        IndexedTrack {
            track_id: "2".to_string(),
            source_path: None,
            title: Some("Missing".to_string()),
            artist: None,
            duration_seconds: Some(20),
            source_exists: false,
        },
    ];
    let plan = plan_queue_append(&tracks, 0).unwrap();
    assert_eq!(plan.appended_total, 1);
    assert_eq!(plan.skipped_missing_total, 1);
    assert_eq!(plan.entries[0].title, "One");
    assert_eq!(plan.entries[0].position, 1);
}

#[test]
fn status_defaults_and_runtime_updates() {
    let mic = BroadcastMicrophoneStatus::default();
    assert_eq!(mic.gain_percent, 100);
    assert_eq!(mic.message, "Micrófono desactivado.");
    let status = BroadcastStatus::idle("t-idle".to_string());
    assert_eq!(status.status, "idle");
    assert_eq!(status.message, "Radio detenida.");
    assert_eq!(status.updated_at, "t-idle");
    let mut runtime = RuntimeState::new("t-start".to_string());
    assert_eq!(runtime.snapshot().updated_at, "t-start");
    let live = runtime.update(
        "live",
        "En vivo".to_string(),
        Some(entry("One", None)),
        Some("t0".to_string()),
        "t1".to_string(),
    );
    assert_eq!(live.status, "live");
    assert_eq!(live.updated_at, "t1");
    let mut mic = BroadcastMicrophoneStatus::default();
    mic.live = true;
    let with_mic = runtime.update_microphone(mic, "t2".to_string());
    assert_eq!(with_mic.status, "live");
    assert_eq!(with_mic.updated_at, "t2");
    assert!(with_mic.microphone.live);
    let stopping = runtime.mark_stopping("t3".to_string());
    assert_eq!(stopping.status, "stopping");
    assert_eq!(stopping.started_at.as_deref(), Some("t0"));
    assert_eq!(stopping.updated_at, "t3");
    assert!(stopping.microphone.live);
    let first = runtime.snapshot();
    let second = runtime.snapshot();
    assert_eq!(first.updated_at, second.updated_at);
    assert_eq!(first.status, second.status);
    assert_eq!(runtime.snapshot().message, "Deteniendo radio...");
}

#[test]
fn worker_microphone_starts_muted_and_needs_preparation() {
    let mut audio = WorkerAudio::from_profile(&profile());
    assert!(!audio.live && !audio.ready);
    assert_eq!(audio.device.as_deref(), Some("default"));
    assert_eq!(audio.chunk_action(), ChunkAction::PassThrough);
    assert!(audio.set_live(true).is_err());
    let prepared = audio.prepared();
    assert!(!prepared.live);
    assert_eq!(audio.chunk_action(), ChunkAction::DiscardMicrophone);
    assert_eq!(audio.set_live(true).unwrap().message, "Micrófono al aire.");
    assert_eq!(audio.chunk_action(), ChunkAction::Mix);
    let failed = audio.failed("boom");
    assert_eq!(failed.message, "Micrófono no disponible: boom");
    assert!(!audio.live);
    assert_eq!(audio.terminate().message, "Micrófono detenido.");
}

#[test]
fn worker_commands_and_reconnect_backoff() {
    assert_eq!(
        poll_step(WorkerAction::Skip, ReceivedCommand::Command(WorkerCommand::Stop)),
        PollStep::Finish(WorkerAction::Stop)
    );
    assert_eq!(
        poll_step(WorkerAction::Proceed, ReceivedCommand::Disconnected),
        PollStep::Finish(WorkerAction::Stop)
    );
    assert_eq!(
        poll_step(WorkerAction::Proceed, ReceivedCommand::Command(WorkerCommand::Skip)),
        PollStep::Continue(WorkerAction::Skip, None)
    );
    assert_eq!(
        poll_step(WorkerAction::Skip, ReceivedCommand::Command(WorkerCommand::SetMicrophoneLive(true))),
        PollStep::Continue(WorkerAction::Skip, Some(true))
    );
    assert_eq!(
        poll_step(WorkerAction::Skip, ReceivedCommand::Empty),
        PollStep::Finish(WorkerAction::Skip)
    );
    let delays: Vec<u64> = (0..6).map(reconnect_delay_seconds).collect();
    assert_eq!(delays, vec![1, 2, 4, 8, 8, 8]);
    assert_eq!(entry_status_after(PlayEnd::PublisherFailed), "queued");
    assert_eq!(entry_status_after(PlayEnd::Played), "played");
    assert_eq!(entry_status_after(PlayEnd::Skipped), "skipped");
}

#[test]
fn manager_refuses_requests_in_the_wrong_state() {
    assert!(ensure_no_worker(true).is_err());
    assert!(ensure_no_worker(false).is_ok());
    assert_eq!(require_worker(false).unwrap_err(), "La radio no esta transmitiendo.");
    let ready = preflight_from_listings(
        Some("libmp3lame\n".to_string()),
        Some("icecast\n".to_string()),
        Some(String::new()),
        false,
    );
    assert_eq!(
        check_start_requirements(Some("  ".to_string()), &ready, false).unwrap_err(),
        "Configura la contraseña source de Icecast."
    );
    assert_eq!(
        check_start_requirements(Some("pw".to_string()), &ready, true).unwrap_err(),
        "FFmpeg no incluye la entrada AVFoundation requerida para el micrófono."
    );
    assert_eq!(
        check_start_requirements(Some("pw".to_string()), &ready, false).unwrap(),
        "pw"
    );
}

#[test]
fn worker_loop_connects_serves_and_backs_off() {
    let (s, a) = WorkerLoop::start();
    assert_eq!(a, LoopAction::PollCommands);
    let (s, a) = s.step(LoopEvent::Polled(WorkerAction::Proceed));
    assert_eq!(a, LoopAction::SpawnPublisher);
    let (s, a) = s.step(LoopEvent::ConnectFailed);
    assert_eq!(a, LoopAction::Reconnect { seconds: 2, polls: 8, drop_publisher: false });
    assert_eq!(s.reconnect_attempt, 1);
    let (s, a) = s.step(LoopEvent::WaitEnded(true));
    assert_eq!(a, LoopAction::PollCommands);
    let (s, _) = s.step(LoopEvent::Polled(WorkerAction::Proceed));
    let (s, a) = s.step(LoopEvent::ConnectFailed);
    assert_eq!(a, LoopAction::Reconnect { seconds: 4, polls: 16, drop_publisher: false });
    let (s, _) = s.step(LoopEvent::WaitEnded(true));
    let (s, _) = s.step(LoopEvent::Polled(WorkerAction::Skip));
    let (s, a) = s.step(LoopEvent::Connected);
    assert_eq!(a, LoopAction::Serve { announce_live: true });
    assert_eq!(s.reconnect_attempt, 0);
    assert!(s.connected);
    let (s, a) = s.step(LoopEvent::Served(ServeOutcome::Continue));
    assert_eq!(a, LoopAction::PollCommands);
    let (s, a) = s.step(LoopEvent::Polled(WorkerAction::Proceed));
    assert_eq!(a, LoopAction::Serve { announce_live: false });
    let (s, a) = s.step(LoopEvent::Served(ServeOutcome::QueueError));
    assert_eq!(a, LoopAction::PauseThenPoll);
    let (s, _) = s.step(LoopEvent::Polled(WorkerAction::Proceed));
    let (s, a) = s.step(LoopEvent::Served(ServeOutcome::PublisherFailed));
    assert_eq!(a, LoopAction::Reconnect { seconds: 2, polls: 8, drop_publisher: true });
    assert!(!s.connected);
    let (s, a) = s.step(LoopEvent::Connected);
    assert_eq!(s.phase, LoopPhase::Waiting);
    assert_eq!(a, LoopAction::Reconnect { seconds: 2, polls: 8, drop_publisher: false });
    let (s, a) = s.step(LoopEvent::WaitEnded(false));
    assert_eq!(a, LoopAction::Shutdown);
    assert_eq!(s.phase, LoopPhase::Finished);
    let (s, a) = s.step(LoopEvent::Connected);
    assert_eq!((s.phase, a), (LoopPhase::Finished, LoopAction::Shutdown));
}

#[test]
fn playback_forwards_chunks_until_the_end() {
    let (p, a) = playback_step(PlaybackPhase::Polling, PlaybackEvent::Polled(WorkerAction::Proceed));
    assert_eq!(a, PlaybackAction::Read);
    let (p, a) = playback_step(p, PlaybackEvent::Read(4096));
    assert_eq!(a, PlaybackAction::Forward(4096));
    let (p, a) = playback_step(p, PlaybackEvent::Written(true));
    assert_eq!(a, PlaybackAction::Poll);
    let (p, _) = playback_step(p, PlaybackEvent::Polled(WorkerAction::Proceed));
    let (p, a) = playback_step(p, PlaybackEvent::Read(0));
    assert_eq!(a, PlaybackAction::Wait);
    let (_, a) = playback_step(p, PlaybackEvent::Exited(true));
    assert_eq!(a, PlaybackAction::Finish(PlayEnd::Played));
    let (_, a) = playback_step(PlaybackPhase::Exiting, PlaybackEvent::Exited(false));
    assert_eq!(a, PlaybackAction::Finish(PlayEnd::DecoderFailed));
    let (_, a) = playback_step(PlaybackPhase::Polling, PlaybackEvent::Polled(WorkerAction::Stop));
    assert_eq!(a, PlaybackAction::Finish(PlayEnd::Stopped));
    let (_, a) = playback_step(PlaybackPhase::Polling, PlaybackEvent::Polled(WorkerAction::Skip));
    assert_eq!(a, PlaybackAction::Finish(PlayEnd::Skipped));
    let (_, a) = playback_step(PlaybackPhase::Writing(10), PlaybackEvent::Written(false));
    assert_eq!(a, PlaybackAction::Finish(PlayEnd::PublisherFailed));
    let (_, a) = playback_step(PlaybackPhase::Reading, PlaybackEvent::ReadFailed);
    assert_eq!(a, PlaybackAction::Finish(PlayEnd::DecoderFailed));
    assert_eq!(serve_outcome(PlayEnd::Stopped), ServeOutcome::Stop);
    assert_eq!(serve_outcome(PlayEnd::PublisherFailed), ServeOutcome::PublisherFailed);
    assert_eq!(serve_outcome(PlayEnd::Skipped), ServeOutcome::Continue);
    assert_eq!(entry_status_after(PlayEnd::PublisherFailed), "queued");
}

#[test]
fn saving_a_profile_keeps_clears_or_stores_the_password() {
    assert_eq!(password_change(true, Some("secret".to_string())), PasswordChange::Clear);
    assert_eq!(
        password_change(false, Some("secret".to_string())),
        PasswordChange::Save("secret".to_string())
    );
    assert_eq!(password_change(false, None), PasswordChange::Keep);
}

#[test]
fn mp3_bitrate_ranges_from_96_to_320() {
    for (bitrate, ok) in [(64u16, false), (95, false), (96, true), (320, true), (321, false)] {
        let mut input = profile_input();
        input.bitrate_kbps = bitrate;
        assert_eq!(validate_profile(input).is_ok(), ok, "bitrate {bitrate}");
    }
    let mut input = profile_input();
    input.bitrate_kbps = 64;
    assert_eq!(
        validate_profile(input).unwrap_err(),
        "El bitrate MP3 debe estar entre 96 y 320 kbps."
    );
}

#[test]
fn microphone_list_stops_at_the_next_section() {
    let stderr = "[i @ 1] AVFoundation video devices:\n[i @ 1] [0] FaceTime HD Camera\n[i @ 1] AVFoundation audio devices:\n[i @ 1] [0] MacBook Pro Microphone\n[i @ 1] [2] USB Mic  \n[in#0 @ 2] Error opening input: x\n[i @ 1] [3] Ghost";
    let devices = aifficator::broadcast::devices::microphone_devices_from_listing(stderr).unwrap();
    let listed: Vec<(&str, &str, bool)> =
        devices.iter().map(|d| (d.id.as_str(), d.label.as_str(), d.is_default)).collect();
    assert_eq!(
        listed,
        vec![
            ("default", "Micrófono predeterminado de macOS", true),
            ("0", "MacBook Pro Microphone", false),
            ("2", "USB Mic", false),
        ]
    );
}
