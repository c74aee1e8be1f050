use aifficator::application_audio::{
    capture_target, check_sample_format, interleaved_frames, is_listable_application,
    keep_latest_frames, offered_applications, planar_frames, CaptureTarget, sort_applications, ApplicationAudioDevice,
    SYSTEM_AUDIO_LABEL, SYSTEM_AUDIO_TARGET_ID,
};
use aifficator::system::{
    binary_candidates, binary_status_from, binary_version, VersionRun, bundled_binary_candidates, create_dir_error_texts,
    is_executable_candidate, is_external_volume_path, push_binary_candidate, select_binary,
    BinarySource, CandidateFacts, ResolvedBinary,
};

#[test]
fn configured_path_remains_a_strict_override_when_missing() {
    let configured = "/definitely/missing/ffmpeg".to_string();
    let selected = select_binary(
        vec![ResolvedBinary {
            path: configured.clone(),
            source: BinarySource::Configured,
        }],
        &vec![None],
    )
    .expect("configured candidates are selected so the UI can report their error");

    assert_eq!(selected.path, configured);
    assert_eq!(selected.source, BinarySource::Configured);
}

#[test]
fn missing_automatic_candidates_are_skipped() {
    let selected = select_binary(
        vec![ResolvedBinary {
            path: "/definitely/missing/bundled-ffmpeg".to_string(),
            source: BinarySource::Bundled,
        }],
        &vec![None],
    );

    assert!(selected.is_none());
}

#[test]
fn system_audio_target_has_a_stable_persisted_id() {
    assert_eq!(SYSTEM_AUDIO_TARGET_ID, "__system_audio__");
    assert_eq!(SYSTEM_AUDIO_LABEL, "Salida completa del Mac");
}

#[test]
fn executable_candidates_need_a_file_with_an_execute_bit() {
    assert!(is_executable_candidate(Some(CandidateFacts { is_file: true, mode: 0o755 })));
    assert!(!is_executable_candidate(Some(CandidateFacts { is_file: true, mode: 0o644 })));
    assert!(!is_executable_candidate(Some(CandidateFacts { is_file: false, mode: 0o755 })));
    assert!(!is_executable_candidate(None));
    let selected = select_binary(
        vec![
            ResolvedBinary { path: "/a/ffmpeg".to_string(), source: BinarySource::Bundled },
            ResolvedBinary { path: "/b/ffmpeg".to_string(), source: BinarySource::System },
        ],
        &vec![None, Some(CandidateFacts { is_file: true, mode: 0o700 })],
    )
    .unwrap();
    assert_eq!(selected.path, "/b/ffmpeg");
}

#[test]
fn candidates_are_joined_paths() {
    let mut candidates = Vec::new();
    push_binary_candidate(&mut candidates, "/usr/local/bin", "ffmpeg", BinarySource::System);
    assert_eq!(candidates[0].path, "/usr/local/bin/ffmpeg");
    let bundled = bundled_binary_candidates(
        "ffmpeg",
        Some("/Applications/Rau.app/Contents/MacOS".to_string()),
        "aarch64",
        None,
    );
    assert_eq!(
        bundled,
        vec![
            "/Applications/Rau.app/Contents/MacOS/ffmpeg".to_string(),
            "/Applications/Rau.app/Contents/MacOS/ffmpeg-aarch64-apple-darwin".to_string(),
        ]
    );
    assert!(is_external_volume_path("/Volumes/Music/set"));
    assert!(!is_external_volume_path("/VolumesX/set"));
}

#[test]
fn applications_offered_for_capture() {
    assert!(is_listable_application("com.app", "App", 10, 1));
    assert!(!is_listable_application(" ", "App", 10, 1));
    assert!(!is_listable_application("com.app", "App", 1, 1));
}

#[test]
fn version_is_the_first_trimmed_line() {
    assert_eq!(
        binary_version("  ffmpeg version 7.1 \nbuilt with clang\n"),
        Some("ffmpeg version 7.1".to_string())
    );
    assert_eq!(binary_version(""), None);
    assert_eq!(binary_version("   \nsecond"), None);
}

#[test]
fn candidate_list_follows_preference_order() {
    let configured = binary_candidates(
        Some("/opt/ffmpeg".to_string()),
        &vec!["/b/ffmpeg".to_string()],
        &vec!["/usr/bin".to_string()],
        &vec!["/opt/homebrew/bin/ffmpeg".to_string()],
        "ffmpeg",
    );
    assert_eq!(configured.len(), 1);
    assert_eq!(configured[0].path, "/opt/ffmpeg");
    assert_eq!(configured[0].source, BinarySource::Configured);

    let all = binary_candidates(
        None,
        &vec!["/b/ffmpeg".to_string()],
        &vec!["/usr/bin".to_string(), "/bin".to_string()],
        &vec!["/opt/homebrew/bin/ffmpeg".to_string(), "ffmpeg".to_string()],
        "ffmpeg",
    );
    let paths: Vec<&str> = all.iter().map(|c| c.path.as_str()).collect();
    assert_eq!(
        paths,
        vec!["/b/ffmpeg", "/usr/bin/ffmpeg", "/bin/ffmpeg", "/opt/homebrew/bin/ffmpeg"]
    );
    assert_eq!(all[0].source, BinarySource::Bundled);
    assert_eq!(all[1].source, BinarySource::System);
    assert_eq!(all[3].source, BinarySource::System);
}

#[test]
fn folder_errors_explain_permissions() {
    let (es, en) = create_dir_error_texts("/tmp/x", "boom", false);
    assert_eq!(es, "No se pudo crear la carpeta /tmp/x: boom");
    assert_eq!(en, "Could not create folder /tmp/x: boom");
    let (es, en) = create_dir_error_texts("/Volumes/Disk/x", "denied", true);
    assert!(es.starts_with("No se pudo crear la carpeta /Volumes/Disk/x: denied. macOS bloqueo el acceso al disco externo."));
    assert!(en.starts_with("Could not create folder /Volumes/Disk/x: denied. macOS blocked access to the external drive."));
    let (es, en) = create_dir_error_texts("/Users/me/x", "denied", true);
    assert!(es.ends_with("agrega Rau Studio a Acceso total al disco en Ajustes del Sistema > Privacidad y seguridad."));
    assert!(en.starts_with("Could not create folder /Users/me/x: denied. macOS blocked access to that folder."));
}

fn app(id: &str, label: &str, process_id: i32) -> ApplicationAudioDevice {
    ApplicationAudioDevice { id: id.to_string(), label: label.to_string(), process_id }
}

#[test]
fn applications_are_sorted_by_name_then_process_and_deduplicated() {
    let offered = offered_applications(
        vec![
            app("com.b", "beta", 5),
            app("com.a", "Alpha", 7),
            app("com.own", "Own", 1),
            app("com.a", "alpha", 3),
            app(" ", "X", 9),
            app("com.c", "alpha", 4),
            app("com.a", "ALPHA", 2),
        ],
        1,
    );
    let listed: Vec<(&str, i32)> =
        offered.iter().map(|a| (a.id.as_str(), a.process_id)).collect();
    assert_eq!(listed, vec![("com.a", 2), ("com.c", 4), ("com.a", 7), ("com.b", 5)]);

    let sorted = sort_applications(vec![
        app("x", "Zed", 1),
        app("y", "able", 9),
        app("z", "Able", 9),
        app("w", "ábaco", 1),
    ]);
    let ids: Vec<&str> = sorted.iter().map(|a| a.id.as_str()).collect();
    assert_eq!(ids, vec!["y", "z", "x", "w"]);
    let same = offered_applications(vec![app("com.a", "A", 3), app("com.a", "a", 3)], 0);
    assert_eq!(same.len(), 1);
    assert_eq!(same[0].label, "A");
}

#[test]
fn binary_status_reports_the_version_run() {
    let found = ResolvedBinary { path: "/opt/bin/ffmpeg".to_string(), source: BinarySource::System };
    let ok = binary_status_from(
        "ffmpeg",
        Some(found.clone()),
        None,
        VersionRun::Succeeded { stdout: "ffmpeg version 7.1\nmore".to_string() },
    );
    assert!(ok.installed);
    assert_eq!(ok.version.as_deref(), Some("ffmpeg version 7.1"));
    assert_eq!(ok.path.as_deref(), Some("/opt/bin/ffmpeg"));
    assert_eq!(ok.source, Some(BinarySource::System));
    assert_eq!(ok.message.as_deref(), Some("ffmpeg esta disponible."));

    let unresolved = binary_status_from(
        "ffprobe",
        None,
        Some("/x".to_string()),
        VersionRun::Succeeded { stdout: String::new() },
    );
    assert_eq!(unresolved.path.as_deref(), Some("ffprobe"));
    assert_eq!(unresolved.version, None);
    assert_eq!(unresolved.configured_path.as_deref(), Some("/x"));

    let failed = binary_status_from(
        "ffmpeg",
        Some(found),
        None,
        VersionRun::Failed { status: "exit status: 1".to_string(), stderr: " bad \n".to_string() },
    );
    assert!(!failed.installed);
    assert_eq!(failed.message.as_deref(), Some("ffmpeg respondio con estado exit status: 1. bad"));

    let missing = binary_status_from(
        "ffmpeg",
        None,
        None,
        VersionRun::NotRun { error: "No such file".to_string() },
    );
    assert_eq!(missing.path, None);
    assert_eq!(missing.message.as_deref(), Some("No se pudo ejecutar ffmpeg: No such file"));
}

#[test]
fn capture_buffer_keeps_the_latest_frames() {
    let mut buffer: std::collections::VecDeque<[i16; 2]> =
        (0..5).map(|i| [i as i16, -(i as i16)]).collect();
    keep_latest_frames(&mut buffer, 3);
    assert_eq!(buffer.into_iter().collect::<Vec<_>>(), vec![[2, -2], [3, -3], [4, -4]]);
    let mut small: std::collections::VecDeque<[i16; 2]> = vec![[1, 1]].into_iter().collect();
    keep_latest_frames(&mut small, 3);
    assert_eq!(small.len(), 1);
}

#[test]
fn capture_targets_and_sample_layout() {
    let running = vec!["com.a".to_string(), "com.b".to_string(), "com.b".to_string()];
    assert_eq!(capture_target("__system_audio__", &running), Ok(CaptureTarget::SystemOutput));
    assert_eq!(capture_target("com.b", &running), Ok(CaptureTarget::Application(1)));
    assert_eq!(
        capture_target("com.z", &running),
        Err("La aplicación seleccionada ya no está abierta o disponible.".to_string())
    );
    assert!(check_sample_format(true, Some(32)).is_ok());
    assert!(check_sample_format(true, Some(16)).is_err());
    assert!(check_sample_format(false, Some(32)).is_err());
    assert!(check_sample_format(true, None).is_err());

    assert_eq!(planar_frames(&vec![1, 2, 3], &vec![-1, -2]), vec![[1, -1], [2, -2]]);
    assert_eq!(interleaved_frames(&vec![1, 2, 3, 4, 5], 2), vec![[1, 2], [3, 4]]);
    assert_eq!(interleaved_frames(&vec![7, 8], 1), vec![[7, 7], [8, 8]]);
    assert_eq!(interleaved_frames(&vec![1, 2, 3, 4, 5, 6, 7], 3), vec![[1, 2], [4, 5]]);
}
