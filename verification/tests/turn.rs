use aifficator::turn::{
    bounded_error_message, check_delete, check_retry, classify_progress_line, ffmpeg_color,
    file_name, is_hex_color, job_ready, mask_header, mask_row, normalize_color, output_file_name,
    progress_message, safe_file_stem, stderr_tail, turn_ffmpeg_args, turn_filter_text, ProgressLine, RenderProgress, MASK_SIZE,
};

#[test]
fn colors_are_normalized_for_ffmpeg() {
    assert!(is_hex_color("#a1B2c3"));
    assert!(!is_hex_color("#a1B2c"));
    assert!(!is_hex_color("#a1B2cg"));
    assert_eq!(normalize_color(" #a1b2c3 "), "#a1b2c3");
    assert_eq!(normalize_color("dark-red"), "dark-red");
    assert_eq!(normalize_color("red; drop"), "#faafc8");
    assert_eq!(normalize_color(""), "#faafc8");
    assert_eq!(normalize_color(&normalize_color(" blue ")), "blue");
    assert_eq!(ffmpeg_color("#a1b2c3"), "0xa1b2c3");
    assert_eq!(ffmpeg_color("white"), "white");
}

#[test]
fn file_names_and_stems() {
    assert_eq!(file_name("/covers/art.png", "cover"), "art.png");
    assert_eq!(file_name("/", "cover"), "cover");
    assert_eq!(safe_file_stem("__My Cover (v2)__"), "My_Cover__v2");
    assert_eq!(safe_file_stem(&"a".repeat(100)).len(), 80);
    assert_eq!(safe_file_stem("***"), "");
    assert_eq!(output_file_name("/covers/My Cover.png"), "turn-My_Cover.mp4");
    assert_eq!(output_file_name("/covers/***.png"), "turn-turn.mp4");
}

#[test]
fn job_states_and_log_tail() {
    assert!(check_retry("pending").is_err());
    assert!(check_delete("running").is_err());
    assert!(check_retry("failed").is_ok());
    assert!(job_ready("completed", true));
    assert!(!job_ready("completed", false));
    let log = "a\n\nb\nc\nd\ne\nf\ng\n  \n";
    assert_eq!(stderr_tail(log), "b\nc\nd\ne\nf\ng");
    assert_eq!(stderr_tail(""), "");
}

#[test]
fn mask_is_a_centered_disc() {
    assert_eq!(mask_header(), "P5\n1080 1080\n255\n");
    let top = mask_row(0);
    assert_eq!(top.len(), MASK_SIZE);
    assert!(top.iter().all(|v| *v == 0));
    let middle = mask_row(540);
    assert_eq!(middle[0], 0);
    assert_eq!(middle[1], 255);
    assert_eq!(middle[1078], 255);
    assert_eq!(middle.iter().filter(|v| **v == 255).count(), 1078);
    let upper = mask_row(100);
    assert_eq!(upper.iter().filter(|v| **v == 255).count(), 626);
    assert_eq!(upper.iter().position(|v| *v == 255), Some(227));
    let corner = mask_row(1079);
    assert_eq!(corner[1079], 0);
}

#[test]
fn failure_messages_are_bounded() {
    assert_eq!(bounded_error_message("short"), "short");
    let long = "é".repeat(1500);
    let bounded = bounded_error_message(&long);
    assert_eq!(bounded.chars().count(), 1200);
    assert_eq!(bounded, "é".repeat(1200));
}

#[test]
fn progress_lines_are_read_by_key() {
    assert_eq!(
        classify_progress_line("out_time_us=1500000"),
        ProgressLine::Elapsed("1500000".to_string())
    );
    assert_eq!(
        classify_progress_line("out_time_ms=20"),
        ProgressLine::Elapsed("20".to_string())
    );
    assert_eq!(classify_progress_line("speed=1.5x"), ProgressLine::Speed("1.5x".to_string()));
    assert_eq!(classify_progress_line("progress=end"), ProgressLine::Progress(true));
    assert_eq!(classify_progress_line("progress=continue"), ProgressLine::Progress(false));
    assert_eq!(classify_progress_line("frame=12"), ProgressLine::Other);
    assert_eq!(classify_progress_line("no separator"), ProgressLine::Other);
    assert_eq!(classify_progress_line("speed=a=b"), ProgressLine::Speed("a=b".to_string()));
}

#[test]
fn filter_graph_uses_sizes_and_speed() {
    let filter = turn_filter_text(851, 810, "33.5");
    assert_eq!(
        filter,
        "[0:v]scale=1296:1296,crop=1080:1080:((in_w-out_w)/2):((in_h-out_h)/2)[bg];\
         [1:v]scale=851:851,pad=1080:1080:(ow-iw)/2:(oh-ih)/2,format=rgba[scaled];\
         [scaled]rotate=2*PI*33.5*t/60:c=none:ow=rotw(1080):oh=roth(1080),scale=1080:1080[rotated];\
         [2:v]scale=810:810,pad=1080:1080:(ow-iw)/2:(oh-ih)/2,format=gray[mask];\
         [rotated][mask]alphamerge[masked];\
         [bg][masked]overlay=0:0:format=auto,format=yuv420p[vout]"
    );
}

#[test]
fn render_arguments_trim_audio_when_asked() {
    let args = turn_ffmpeg_args(
        "15",
        "0xfaafc8",
        "/c.png",
        "/m.pgm",
        Some("1.5".to_string()),
        None,
        "/a.mp3",
        "F",
        "/out.mp4",
    );
    let expected: Vec<&str> = vec![
        "-hide_banner", "-f", "lavfi", "-t", "15", "-i", "color=c=0xfaafc8:s=1080x1080", "-loop",
        "1", "-t", "15", "-i", "/c.png", "-i", "/m.pgm", "-ss", "1.5", "-i", "/a.mp3",
        "-filter_complex", "F", "-map", "[vout]", "-map", "3:a:0", "-t", "15", "-c:v", "libx264",
        "-c:a", "aac", "-b:a", "192k", "-pix_fmt", "yuv420p", "-movflags", "+faststart",
        "-progress", "pipe:1", "-nostats", "-y", "/out.mp4",
    ];
    assert_eq!(args, expected);
    let both = turn_ffmpeg_args(
        "2", "white", "c", "m", Some("1".to_string()), Some("3".to_string()), "a", "f", "o",
    );
    assert_eq!(&both[15..19], &["-ss", "1", "-to", "3"]);
    let none = turn_ffmpeg_args("2", "white", "c", "m", None, None, "a", "f", "o");
    assert_eq!(none.len(), 40);
    assert_eq!(none[15], "-i");
}

#[test]
fn render_progress_keeps_the_last_values() {
    let mut progress = RenderProgress::new();
    assert_eq!(progress.apply("frame=1"), None);
    assert_eq!(progress.apply("out_time_us=1000000"), None);
    assert_eq!(progress.apply("speed=2x"), None);
    assert_eq!(progress.apply("out_time_ms=2500000"), None);
    assert_eq!(progress.elapsed.as_deref(), Some("2500000"));
    assert_eq!(progress.speed.as_deref(), Some("2x"));
    assert_eq!(progress.apply("progress=continue"), Some(false));
    assert_eq!(progress.apply("progress=end"), Some(true));
    assert_eq!(progress_message(true), "Finalizando render.");
    assert_eq!(progress_message(false), "Renderizando video.");
}
