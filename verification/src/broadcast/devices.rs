//! The microphone list, read from FFmpeg's AVFoundation `-list_devices` output
//! with a `regex` pattern per line.
use vstd::prelude::*;
use vstd::string::StringExecFns;

use crate::text::{contains_str, has_infix, lines, lines_spec, lit, trim, trim_spec, views};

verus! {

#[verifier::external_type_specification]
#[verifier::external_body]
pub struct ExRegex(regex::Regex);

/// One input device the broadcast can capture.
#[derive(Debug, Clone)]
pub struct BroadcastMicrophoneDevice {
    pub id: String,
    pub label: String,
    pub is_default: bool,
}

/// The mathematical content of a [`BroadcastMicrophoneDevice`].
pub struct DeviceView {
    pub id: Seq<char>,
    pub label: Seq<char>,
    pub is_default: bool,
}

impl View for BroadcastMicrophoneDevice {
    type V = DeviceView;

    open spec fn view(&self) -> DeviceView {
        DeviceView { id: self.id@, label: self.label@, is_default: self.is_default }
    }
}

pub open spec fn device_views(v: Seq<BroadcastMicrophoneDevice>) -> Seq<DeviceView> {
    v.map_values(|d: BroadcastMicrophoneDevice| d@)
}

/// The two groups a device line pattern captures: the numeric device index and
/// the device label.
#[derive(Debug, Clone)]
pub struct DeviceLineCapture {
    pub id: Option<String>,
    pub label: Option<String>,
}

pub struct CaptureView {
    pub id: Option<Seq<char>>,
    pub label: Option<Seq<char>>,
}

pub open spec fn capture_view(c: Option<DeviceLineCapture>) -> Option<CaptureView> {
    match c {
        Some(c) => Some(
            CaptureView {
                id: crate::broadcast::profile::opt_view(c.id),
                label: crate::broadcast::profile::opt_view(c.label),
            },
        ),
        None => None,
    }
}

pub open spec fn capture_views(v: Seq<Option<DeviceLineCapture>>) -> Seq<Option<CaptureView>> {
    v.map_values(|c: Option<DeviceLineCapture>| capture_view(c))
}

/// The entry every list starts with: the system default input.
pub open spec fn default_device() -> DeviceView {
    DeviceView { id: "default"@, label: "Micrófono predeterminado de macOS"@, is_default: true }
}

/// The devices listed after the `AVFoundation audio devices:` header, up to the
/// next device section or input error; a line contributes a device when the
/// pattern captured an index and a label that is not blank once trimmed.
pub open spec fn devices_from(
    lines: Seq<Seq<char>>,
    captures: Seq<Option<CaptureView>>,
    reading: bool,
) -> Seq<DeviceView>
    decreases lines.len(),
{
    if lines.len() == 0 {
        Seq::empty()
    } else {
        let line = lines[0];
        let rest = devices_from(lines.drop_first(), captures.drop_first(), reading);
        if has_infix(line, "AVFoundation audio devices:"@) {
            devices_from(lines.drop_first(), captures.drop_first(), true)
        } else if !reading {
            rest
        } else if has_infix(line, " devices:"@) || has_infix(line, "Error opening input"@) {
            Seq::empty()
        } else {
            match captures[0] {
                Some(c) => match (c.id, c.label) {
                    (Some(id), Some(label)) => if trim_spec(label).len() > 0 {
                        seq![DeviceView { id, label: trim_spec(label), is_default: false }] + rest
                    } else {
                        rest
                    },
                    _ => rest,
                },
                None => rest,
            }
        }
    }
}

/// The pattern of an AVFoundation device line: `] [index] label`.
pub const DEVICE_LINE_PATTERN: &'static str = r"\]\s+\[(\d+)\]\s+(.+)$";

/// Whether `regex::Regex::new` accepts a pattern.
pub uninterp spec fn regex_accepted(pattern: Seq<char>) -> bool;

/// What `regex::Regex::captures` yields, as groups 1 and 2, for the regex
/// compiled from `pattern` on `line`.
pub uninterp spec fn device_line_capture(pattern: Seq<char>, line: Seq<char>) -> Option<CaptureView>;

/// A compiled regex together with the pattern text it was compiled from. Its
/// fields are private: the only value is the one `compile_regex` builds.
pub struct CompiledPattern {
    regex: regex::Regex,
    source: Ghost<Seq<char>>,
}

impl CompiledPattern {
    /// The pattern text the regex was compiled from.
    pub closed spec fn source(&self) -> Seq<char> {
        self.source@
    }
}

/// Calls `regex::Regex::new`; it fails exactly on patterns the crate rejects, and
/// the error is handed back as its text. The compiled regex is kept with its
/// pattern text.
#[verifier::external_body]
fn compile_regex(pattern: &str) -> (r: Result<CompiledPattern, String>)
    ensures
        r is Ok <==> regex_accepted(pattern@),
        r matches Ok(c) ==> c.source() == pattern@,
{
    match regex::Regex::new(pattern) {
        Ok(regex) => Ok(CompiledPattern { regex, source: Ghost(pattern@) }),
        Err(error) => Err(error.to_string()),
    }
}

/// Calls `regex::Regex::captures` on one line and hands back groups 1 and 2:
/// the result is the named capture of the regex's pattern on that line.
#[verifier::external_body]
fn capture_device_line(pattern: &CompiledPattern, line: &str) -> (r: Option<DeviceLineCapture>)
    ensures
        capture_view(r) == device_line_capture(pattern.source(), line@),
{
    pattern.regex.captures(line).map(
        |groups| DeviceLineCapture {
            id: groups.get(1).map(|m| m.as_str().to_string()),
            label: groups.get(2).map(|m| m.as_str().to_string()),
        },
    )
}

/// The pattern's capture on each line.
pub open spec fn line_captures(pattern: Seq<char>, lines: Seq<Seq<char>>) -> Seq<Option<CaptureView>> {
    lines.map_values(|l: Seq<char>| device_line_capture(pattern, l))
}

/// The device list for the given lines and the pattern's capture on each line:
/// the default device first, then the devices of the AVFoundation audio section.
pub fn collect_microphone_devices(
    lines: &Vec<String>,
    captures: &Vec<Option<DeviceLineCapture>>,
) -> (r: Vec<BroadcastMicrophoneDevice>)
    requires
        captures.len() == lines.len(),
    ensures
        device_views(r@) == seq![default_device()] + devices_from(
            views(lines@),
            capture_views(captures@),
            false,
        ),
{
    let mut out: Vec<BroadcastMicrophoneDevice> = Vec::new();
    out.push(
        BroadcastMicrophoneDevice {
            id: lit("default"),
            label: lit("Micrófono predeterminado de macOS"),
            is_default: true,
        },
    );
    let ghost all_lines = views(lines@);
    let ghost all_caps = capture_views(captures@);
    let mut reading = false;
    let mut i: usize = 0;
    assert(all_lines.skip(0) =~= all_lines);
    assert(all_caps.skip(0) =~= all_caps);
    assert(device_views(out@) =~= seq![default_device()]);
    while i < lines.len()
        invariant
            i <= lines.len(),
            captures.len() == lines.len(),
            all_lines == views(lines@),
            all_caps == capture_views(captures@),
            device_views(out@) + devices_from(all_lines.skip(i as int), all_caps.skip(i as int), reading)
                == seq![default_device()] + devices_from(all_lines, all_caps, false),
        decreases lines.len() - i,
    {
        let ghost ls = all_lines.skip(i as int);
        let ghost cs = all_caps.skip(i as int);
        assert(ls.drop_first() =~= all_lines.skip(i + 1));
        assert(cs.drop_first() =~= all_caps.skip(i + 1));
        assert(ls[0] == lines@[i as int]@);
        assert(cs[0] == capture_view(captures@[i as int]));
        let line = lines[i].as_str();
        if contains_str(line, "AVFoundation audio devices:") {
            reading = true;
        } else if reading {
            if contains_str(line, " devices:") || contains_str(line, "Error opening input") {
                assert(devices_from(ls, cs, reading) =~= Seq::<DeviceView>::empty());
                assert(device_views(out@) =~= device_views(out@) + Seq::<DeviceView>::empty());
                return out;
            }
            match &captures[i] {
                Some(c) => match (&c.id, &c.label) {
                    (Some(id), Some(label)) => {
                        let label = lit(trim(label.as_str()));
                        if !label.as_str().is_empty() {
                            let ghost before = device_views(out@);
                            let device = BroadcastMicrophoneDevice {
                                id: id.clone(),
                                label,
                                is_default: false,
                            };
                            out.push(device);
                            assert(device_views(out@) =~= before.push(device@));
                            assert(before.push(device@) + devices_from(
                                all_lines.skip(i + 1),
                                all_caps.skip(i + 1),
                                reading,
                            ) =~= before + (seq![device@] + devices_from(
                                ls.drop_first(),
                                cs.drop_first(),
                                reading,
                            )));
                        }
                    },
                    _ => {},
                },
                None => {},
            }
        }
        i = i + 1;
    }
    assert(all_lines.skip(lines.len() as int) =~= Seq::<Seq<char>>::empty());
    assert(device_views(out@) =~= device_views(out@) + Seq::<DeviceView>::empty());
    out
}

/// Reads the microphone list from the stderr of `ffmpeg -f avfoundation
/// -list_devices true -i ""`. When the pattern compiles, the list is the default
/// device followed by what [`collect_microphone_devices`] keeps for the pattern's
/// capture on each line; otherwise the error names the parser.
pub fn microphone_devices_from_listing(stderr: &str) -> (r: Result<
    Vec<BroadcastMicrophoneDevice>,
    String,
>)
    ensures
        r is Ok <==> regex_accepted(DEVICE_LINE_PATTERN@),
        r matches Ok(devices) ==> device_views(devices@) == seq![default_device()] + devices_from(
            lines_spec(stderr@),
            line_captures(DEVICE_LINE_PATTERN@, lines_spec(stderr@)),
            false,
        ),
{
    let pattern = match compile_regex(DEVICE_LINE_PATTERN) {
        Ok(pattern) => pattern,
        Err(error) => {
            return Err(lit("No se pudo preparar parser de micrófonos: ").concat(error.as_str()));
        },
    };
    let ls = lines(stderr);
    let ghost expected = line_captures(DEVICE_LINE_PATTERN@, lines_spec(stderr@));
    let mut captures: Vec<Option<DeviceLineCapture>> = Vec::new();
    let mut i: usize = 0;
    while i < ls.len()
        invariant
            i <= ls.len(),
            views(ls@) == lines_spec(stderr@),
            pattern.source() == DEVICE_LINE_PATTERN@,
            expected == line_captures(DEVICE_LINE_PATTERN@, lines_spec(stderr@)),
            captures.len() == i,
            capture_views(captures@) == expected.take(i as int),
        decreases ls.len() - i,
    {
        let c = capture_device_line(&pattern, ls[i].as_str());
        let ghost before = captures@;
        captures.push(c);
        assert(views(ls@)[i as int] == ls@[i as int]@);
        assert(capture_views(captures@) =~= capture_views(before).push(capture_view(c)));
        assert(expected.take(i + 1) =~= expected.take(i as int).push(expected[i as int]));
        i = i + 1;
    }
    assert(expected.take(ls.len() as int) =~= expected);
    let devices = collect_microphone_devices(&ls, &captures);
    Ok(devices)
}

} // verus!
