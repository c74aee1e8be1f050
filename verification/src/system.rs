//! Locating the FFmpeg binaries: the candidates in order of preference and the
//! rule that picks one.
use vstd::prelude::*;
use vstd::string::StringExecFns;

use crate::text::{lines, lines_spec, lit, trim_spec, trimmed, views};

verus! {

/// Where a binary candidate comes from.
#[derive(Debug, Clone, Copy, PartialEq, Eq, Structural)]
pub enum BinarySource {
    /// The path the user chose in the settings.
    Configured,
    /// A binary shipped next to the app.
    Bundled,
    /// A binary found on `PATH` or in a usual location.
    System,
}

/// A candidate path for a binary.
#[derive(Debug, Clone)]
pub struct ResolvedBinary {
    pub path: String,
    pub source: BinarySource,
}

/// What the file system says of a candidate path: whether it is a regular file,
/// and its Unix permission bits.
#[derive(Debug, Clone, Copy)]
pub struct CandidateFacts {
    pub is_file: bool,
    pub mode: u32,
}

/// A regular file with some execute bit set.
pub open spec fn executable(facts: Option<CandidateFacts>) -> bool {
    match facts {
        Some(f) => f.is_file && (f.mode & 0o111u32) != 0,
        None => false,
    }
}

/// Whether a candidate can be run, from what the file system reported of it
/// (`None` when its metadata could not be read).
pub fn is_executable_candidate(facts: Option<CandidateFacts>) -> (r: bool)
    ensures
        r == executable(facts),
{
    match facts {
        Some(f) => f.is_file && (f.mode & 0o111u32) != 0,
        None => false,
    }
}

/// A candidate is acceptable when the user configured it (even if it is
/// missing, so that its error can be reported) or when it is executable.
pub open spec fn acceptable(c: ResolvedBinary, facts: Option<CandidateFacts>) -> bool {
    c.source == BinarySource::Configured || executable(facts)
}

/// `r` is the first acceptable candidate, or `None` when there is none.
pub open spec fn first_acceptable(
    candidates: Seq<ResolvedBinary>,
    facts: Seq<Option<CandidateFacts>>,
    r: Option<ResolvedBinary>,
) -> bool {
    &&& r is None <==> forall|i: int|
        0 <= i < candidates.len() ==> !acceptable(#[trigger] candidates[i], facts[i])
    &&& r matches Some(c) ==> exists|i: int|
        0 <= i < candidates.len() && candidates[i] == c && acceptable(c, facts[i]) && forall|j: int|
            0 <= j < i ==> !acceptable(#[trigger] candidates[j], facts[j])
}

/// Picks the first acceptable candidate; `facts[i]` describes `candidates[i]`.
pub fn select_binary(candidates: Vec<ResolvedBinary>, facts: &Vec<Option<CandidateFacts>>) -> (r:
    Option<ResolvedBinary>)
    requires
        facts.len() == candidates.len(),
    ensures
        first_acceptable(candidates@, facts@, r),
{
    let ghost all = candidates@;
    let mut remaining = candidates;
    let mut i: usize = 0;
    while i < remaining.len()
        invariant
            i <= remaining.len(),
            remaining@ == all,
            all == candidates@,
            facts.len() == all.len(),
            forall|j: int| 0 <= j < i ==> !acceptable(#[trigger] all[j], facts@[j]),
        decreases remaining.len() - i,
    {
        let accepted = match remaining[i].source {
            BinarySource::Configured => true,
            _ => is_executable_candidate(facts[i]),
        };
        if accepted {
            let c = remaining.remove(i);
            assert(c == all[i as int]);
            assert(acceptable(all[i as int], facts@[i as int]));
            return Some(c);
        }
        i = i + 1;
    }
    None
}

/// A configured path is a strict override: when the first candidate is the
/// configured one, it is selected whatever the file system says of it.
pub proof fn lemma_configured_path_overrides(
    candidates: Seq<ResolvedBinary>,
    facts: Seq<Option<CandidateFacts>>,
    r: Option<ResolvedBinary>,
)
    requires
        candidates.len() > 0,
        facts.len() == candidates.len(),
        candidates[0].source == BinarySource::Configured,
        first_acceptable(candidates, facts, r),
    ensures
        r == Some(candidates[0]),
{
    assert(acceptable(candidates[0], facts[0]));
    let c = r.unwrap();
    let i = choose|i: int|
        0 <= i < candidates.len() && candidates[i] == c && acceptable(c, facts[i]) && forall|j: int|
            0 <= j < i ==> !acceptable(#[trigger] candidates[j], facts[j]);
    if i > 0 {
        assert(!acceptable(candidates[0], facts[0]));
    }
}

/// Only a configured path, or a regular file with an execute bit, is ever
/// selected: a missing automatic candidate, or one that cannot run, is skipped.
pub proof fn lemma_selected_binary_can_run(
    candidates: Seq<ResolvedBinary>,
    facts: Seq<Option<CandidateFacts>>,
    r: Option<ResolvedBinary>,
)
    requires
        facts.len() == candidates.len(),
        first_acceptable(candidates, facts, r),
    ensures
        r matches Some(c) ==> exists|i: int|
            0 <= i < candidates.len() && candidates[i] == c && (c.source == BinarySource::Configured
                || (facts[i] matches Some(f) && f.is_file && (f.mode & 0o111u32) != 0)),
        (forall|i: int|
            0 <= i < candidates.len() ==> candidates[i].source != BinarySource::Configured
                && #[trigger] facts[i] is None) ==> r is None,
{
    if r is Some {
        let c = r.unwrap();
        let i = choose|i: int|
            0 <= i < candidates.len() && candidates[i] == c && acceptable(c, facts[i]) && forall|j: int|
                0 <= j < i ==> !acceptable(#[trigger] candidates[j], facts[j]);
        assert(candidates[i] == c);
    }
    if forall|i: int|
        0 <= i < candidates.len() ==> candidates[i].source != BinarySource::Configured
            && #[trigger] facts[i] is None {
        assert forall|i: int| 0 <= i < candidates.len() implies !acceptable(
            #[trigger] candidates[i],
            facts[i],
        ) by {
            assert(facts[i] is None);
        }
    }
}

/// The joined path `Path::join` gives, as text.
pub uninterp spec fn path_join(directory: Seq<char>, name: Seq<char>) -> Seq<char>;

/// Calls `Path::join` on paths given as text; joining UTF-8 paths gives a UTF-8
/// path, so the lossy conversion keeps it.
#[verifier::external_body]
fn join_path(directory: &str, name: &str) -> (r: String)
    ensures
        r@ == path_join(directory@, name@),
{
    std::path::Path::new(directory).join(name).to_string_lossy().into_owned()
}

/// Whether `Path::starts_with` holds: `base` is a prefix of `path` component by
/// component.
pub uninterp spec fn path_has_prefix(path: Seq<char>, base: Seq<char>) -> bool;

/// Calls `Path::starts_with` on paths given as text.
#[verifier::external_body]
fn path_starts_with(path: &str, base: &str) -> (r: bool)
    ensures
        r == path_has_prefix(path@, base@),
{
    std::path::Path::new(path).starts_with(base)
}

/// Whether a folder is on an external volume mounted under `/Volumes`.
pub fn is_external_volume_path(path: &str) -> (r: bool)
    ensures
        r == path_has_prefix(path@, "/Volumes"@),
{
    path_starts_with(path, "/Volumes")
}

pub open spec fn candidate_views(v: Seq<ResolvedBinary>) -> Seq<(Seq<char>, BinarySource)> {
    v.map_values(|c: ResolvedBinary| (c.path@, c.source))
}

/// Adds the candidate `{directory}/{name}` with the given source.
pub fn push_binary_candidate(
    candidates: &mut Vec<ResolvedBinary>,
    directory: &str,
    name: &str,
    source: BinarySource,
)
    ensures
        candidate_views(final(candidates)@) == candidate_views(old(candidates)@).push(
            (path_join(directory@, name@), source),
        ),
{
    let ghost before = candidates@;
    let candidate = ResolvedBinary { path: join_path(directory, name), source };
    candidates.push(candidate);
    assert(candidate_views(candidates@) =~= candidate_views(before).push(
        (path_join(directory@, name@), source),
    ));
}

/// The name of a binary built for this Mac: `{name}-{arch}-apple-darwin`.
pub open spec fn suffixed_binary_name(name: Seq<char>, arch: Seq<char>) -> Seq<char> {
    name + "-"@ + arch + "-apple-darwin"@
}

/// The bundled binaries, in order: next to the executable, plain and
/// architecture-suffixed, then in the development `binaries` folder when one is
/// given.
pub open spec fn bundled_candidates_spec(
    name: Seq<char>,
    executable_dir: Option<Seq<char>>,
    arch: Seq<char>,
    development_dir: Option<Seq<char>>,
) -> Seq<Seq<char>> {
    (match executable_dir {
        Some(d) => seq![path_join(d, name), path_join(d, suffixed_binary_name(name, arch))],
        None => Seq::empty(),
    }) + (match development_dir {
        Some(d) => seq![path_join(d, suffixed_binary_name(name, arch))],
        None => Seq::empty(),
    })
}

/// The bundled candidates of a binary, from the executable's folder, the
/// machine architecture and, in development builds, the `binaries` folder.
pub fn bundled_binary_candidates(
    name: &str,
    executable_dir: Option<String>,
    arch: &str,
    development_dir: Option<String>,
) -> (r: Vec<String>)
    ensures
        views(r@) == bundled_candidates_spec(
            name@,
            crate::broadcast::profile::opt_view(executable_dir),
            arch@,
            crate::broadcast::profile::opt_view(development_dir),
        ),
{
    let suffixed = lit(name).concat("-").concat(arch).concat("-apple-darwin");
    let mut out: Vec<String> = Vec::new();
    match &executable_dir {
        Some(d) => {
            crate::text::push_string(&mut out, join_path(d.as_str(), name));
            crate::text::push_string(&mut out, join_path(d.as_str(), suffixed.as_str()));
        },
        None => {},
    }
    let ghost first = views(out@);
    match &development_dir {
        Some(d) => {
            crate::text::push_string(&mut out, join_path(d.as_str(), suffixed.as_str()));
        },
        None => {},
    }
    assert(views(out@) =~= bundled_candidates_spec(
        name@,
        crate::broadcast::profile::opt_view(executable_dir),
        arch@,
        crate::broadcast::profile::opt_view(development_dir),
    ));
    out
}

/// The version line of `{binary} -version`: the first line, trimmed, if it is
/// not blank.
pub open spec fn version_line(stdout: Seq<char>) -> Option<Seq<char>> {
    let ls = lines_spec(stdout);
    if ls.len() > 0 && trim_spec(ls[0]).len() > 0 {
        Some(trim_spec(ls[0]))
    } else {
        None
    }
}

/// Reads the version a binary reports.
pub fn binary_version(stdout: &str) -> (r: Option<String>)
    ensures
        crate::broadcast::profile::opt_view(r) == version_line(stdout@),
{
    let ls = lines(stdout);
    if ls.len() == 0 {
        return None;
    }
    assert(views(ls@)[0] == ls@[0]@);
    let first = trimmed(ls[0].as_str());
    if first.as_str().is_empty() {
        None
    } else {
        Some(first)
    }
}

/// What `{binary} -version` came to.
#[derive(Debug, Clone)]
pub enum VersionRun {
    /// The binary exited successfully with this standard output.
    Succeeded { stdout: String },
    /// The binary exited with this status, written out, and standard error.
    Failed { status: String, stderr: String },
    /// The binary could not be run; the error, written out.
    NotRun { error: String },
}

/// What the settings show of a binary.
#[derive(Debug, Clone)]
pub struct BinaryStatus {
    pub installed: bool,
    pub version: Option<String>,
    pub path: Option<String>,
    pub configured_path: Option<String>,
    pub source: Option<BinarySource>,
    pub message: Option<String>,
}

/// The status of binary `name`: installed when `-version` succeeded, with the
/// first line of its output as version; the chosen candidate's path and source;
/// and a message saying what happened.
pub fn binary_status_from(
    name: &str,
    resolved: Option<ResolvedBinary>,
    configured_path: Option<String>,
    run: VersionRun,
) -> (r: BinaryStatus)
    ensures
        crate::broadcast::profile::opt_view(r.configured_path) == crate::broadcast::profile::opt_view(
            configured_path,
        ),
        r.source == (match resolved {
            Some(b) => Some(b.source),
            None => None,
        }),
        r.installed == (run is Succeeded),
        run matches VersionRun::Succeeded { stdout } ==> crate::broadcast::profile::opt_view(r.version)
            == version_line(stdout@) && crate::broadcast::profile::opt_view(r.path) == Some(
            match resolved {
                Some(b) => b.path@,
                None => name@,
            },
        ) && crate::broadcast::profile::opt_view(r.message) == Some(name@ + " esta disponible."@),
        !(run is Succeeded) ==> r.version is None && crate::broadcast::profile::opt_view(r.path) == (
        match resolved {
            Some(b) => Some(b.path@),
            None => None,
        }),
        run matches VersionRun::Failed { status, stderr } ==> crate::broadcast::profile::opt_view(
            r.message,
        ) == Some(name@ + " respondio con estado "@ + status@ + ". "@ + trim_spec(stderr@)),
        run matches VersionRun::NotRun { error } ==> crate::broadcast::profile::opt_view(r.message)
            == Some("No se pudo ejecutar "@ + name@ + ": "@ + error@),
{
    let (path, source) = match resolved {
        Some(b) => (Some(b.path), Some(b.source)),
        None => (None, None),
    };
    match run {
        VersionRun::Succeeded { stdout } => {
            let path = match path {
                Some(p) => p,
                None => lit(name),
            };
            BinaryStatus {
                installed: true,
                version: binary_version(stdout.as_str()),
                path: Some(path),
                configured_path,
                source,
                message: Some(lit(name).concat(" esta disponible.")),
            }
        },
        VersionRun::Failed { status, stderr } => BinaryStatus {
            installed: false,
            version: None,
            path,
            configured_path,
            source,
            message: Some(
                lit(name).concat(" respondio con estado ").concat(status.as_str()).concat(". ").concat(
                    trimmed(stderr.as_str()).as_str(),
                ),
            ),
        },
        VersionRun::NotRun { error } => BinaryStatus {
            installed: false,
            version: None,
            path,
            configured_path,
            source,
            message: Some(lit("No se pudo ejecutar ").concat(name).concat(": ").concat(error.as_str())),
        },
    }
}

/// The number of components `Path::components` yields for a path.
pub uninterp spec fn path_component_count(path: Seq<char>) -> nat;

/// Calls `Path::components` on a path given as text and counts them.
#[verifier::external_body]
fn component_count(path: &str) -> (r: usize)
    ensures
        r == path_component_count(path@),
{
    std::path::Path::new(path).components().count()
}

/// A list of paths as candidates from one source.
pub open spec fn sourced(paths: Seq<Seq<char>>, source: BinarySource) -> Seq<(Seq<char>, BinarySource)> {
    paths.map_values(|p: Seq<char>| (p, source))
}

/// The `{dir}/{name}` candidates of the `PATH` folders.
pub open spec fn path_candidates(dirs: Seq<Seq<char>>, name: Seq<char>) -> Seq<Seq<char>> {
    dirs.map_values(|d: Seq<char>| path_join(d, name))
}

/// The usual install locations that are real paths (more than one component).
pub open spec fn default_candidates(paths: Seq<Seq<char>>) -> Seq<Seq<char>>
    decreases paths.len(),
{
    if paths.len() == 0 {
        Seq::empty()
    } else {
        let rest = default_candidates(paths.drop_last());
        if path_component_count(paths.last()) > 1 {
            rest.push(paths.last())
        } else {
            rest
        }
    }
}

/// Every candidate for a binary, in order of preference: only the configured
/// path when there is one; otherwise the bundled binaries, then `{dir}/{name}` for
/// each `PATH` folder, then the usual install locations.
pub open spec fn binary_candidates_spec(
    configured: Option<Seq<char>>,
    bundled: Seq<Seq<char>>,
    path_dirs: Seq<Seq<char>>,
    defaults: Seq<Seq<char>>,
    name: Seq<char>,
) -> Seq<(Seq<char>, BinarySource)> {
    match configured {
        Some(p) => seq![(p, BinarySource::Configured)],
        None => sourced(bundled, BinarySource::Bundled) + sourced(
            path_candidates(path_dirs, name),
            BinarySource::System,
        ) + sourced(default_candidates(defaults), BinarySource::System),
    }
}

/// Lists the candidates of a binary from the configured path, the bundled
/// binaries, the `PATH` folders and the usual install locations.
pub fn binary_candidates(
    configured: Option<String>,
    bundled: &Vec<String>,
    path_dirs: &Vec<String>,
    defaults: &Vec<String>,
    name: &str,
) -> (r: Vec<ResolvedBinary>)
    ensures
        candidate_views(r@) == binary_candidates_spec(
            crate::broadcast::profile::opt_view(configured),
            views(bundled@),
            views(path_dirs@),
            views(defaults@),
            name@,
        ),
{
    let mut out: Vec<ResolvedBinary> = Vec::new();
    match configured {
        Some(p) => {
            out.push(ResolvedBinary { path: p, source: BinarySource::Configured });
            assert(candidate_views(out@) =~= seq![(p@, BinarySource::Configured)]);
            return out;
        },
        None => {},
    }
    let mut i: usize = 0;
    while i < bundled.len()
        invariant
            i <= bundled.len(),
            candidate_views(out@) == sourced(views(bundled@).take(i as int), BinarySource::Bundled),
        decreases bundled.len() - i,
    {
        let ghost before = candidate_views(out@);
        out.push(ResolvedBinary { path: bundled[i].clone(), source: BinarySource::Bundled });
        assert(candidate_views(out@) =~= before.push((bundled@[i as int]@, BinarySource::Bundled)));
        assert(views(bundled@).take(i + 1) =~= views(bundled@).take(i as int).push(bundled@[i as int]@));
        i = i + 1;
        assert(candidate_views(out@) =~= sourced(views(bundled@).take(i as int), BinarySource::Bundled));
    }
    assert(views(bundled@).take(bundled.len() as int) =~= views(bundled@));
    let ghost first = candidate_views(out@);
    let mut j: usize = 0;
    while j < path_dirs.len()
        invariant
            j <= path_dirs.len(),
            first == sourced(views(bundled@), BinarySource::Bundled),
            candidate_views(out@) == first + sourced(
                path_candidates(views(path_dirs@).take(j as int), name@),
                BinarySource::System,
            ),
        decreases path_dirs.len() - j,
    {
        push_binary_candidate(&mut out, path_dirs[j].as_str(), name, BinarySource::System);
        j = j + 1;
        assert(first + sourced(path_candidates(views(path_dirs@).take(j as int), name@), BinarySource::System)
            =~= (first + sourced(
            path_candidates(views(path_dirs@).take(j - 1), name@),
            BinarySource::System,
        )).push((path_join(path_dirs@[j - 1]@, name@), BinarySource::System)));
    }
    assert(views(path_dirs@).take(path_dirs.len() as int) =~= views(path_dirs@));
    let ghost second = candidate_views(out@);
    let mut k: usize = 0;
    while k < defaults.len()
        invariant
            k <= defaults.len(),
            candidate_views(out@) == second + sourced(
                default_candidates(views(defaults@).take(k as int)),
                BinarySource::System,
            ),
        decreases defaults.len() - k,
    {
        let ghost prefix = views(defaults@).take(k + 1);
        assert(prefix.drop_last() =~= views(defaults@).take(k as int));
        assert(prefix.last() == defaults@[k as int]@);
        if component_count(defaults[k].as_str()) > 1 {
            let ghost before = candidate_views(out@);
            out.push(ResolvedBinary { path: defaults[k].clone(), source: BinarySource::System });
            assert(candidate_views(out@) =~= before.push((defaults@[k as int]@, BinarySource::System)));
            assert(default_candidates(prefix) == default_candidates(prefix.drop_last()).push(prefix.last()));
            assert(candidate_views(out@) =~= second + sourced(
                default_candidates(prefix),
                BinarySource::System,
            ));
        }
        k = k + 1;
    }
    assert(views(defaults@).take(defaults.len() as int) =~= views(defaults@));
    out
}

/// The folder creation error in Spanish and English. A permission error gets
/// a hint, worded for external volumes under `/Volumes` or for other folders.
pub fn create_dir_error_texts(path: &str, error: &str, permission_denied: bool) -> (r: (
    String,
    String,
))
    ensures
        !permission_denied ==> r.0@ == "No se pudo crear la carpeta "@ + path@ + ": "@ + error@
            && r.1@ == "Could not create folder "@ + path@ + ": "@ + error@,
        permission_denied && path_has_prefix(path@, "/Volumes"@) ==> r.0@ == "No se pudo crear la carpeta "@ + path@ + ": "@
            + error@ + ". "@
            + "macOS bloqueo el acceso al disco externo. En Ajustes del Sistema > Privacidad y seguridad, permite a Rau Studio acceder a Volumenes extraibles o agrega Rau Studio a Acceso total al disco. Tambien verifica en Finder que el disco no este en solo lectura y que puedas crear carpetas ahi."@
            && r.1@ == "Could not create folder "@ + path@ + ": "@ + error@ + ". "@
            + "macOS blocked access to the external drive. In System Settings > Privacy & Security, allow Rau Studio to access Removable Volumes or add Rau Studio to Full Disk Access. Also verify in Finder that the drive is not read-only and that you can create folders there."@,
        permission_denied && !path_has_prefix(path@, "/Volumes"@) ==> r.0@ == "No se pudo crear la carpeta "@ + path@ + ": "@
            + error@ + ". "@
            + "macOS bloqueo el acceso a esa carpeta. Revisa permisos de la carpeta o agrega Rau Studio a Acceso total al disco en Ajustes del Sistema > Privacidad y seguridad."@
            && r.1@ == "Could not create folder "@ + path@ + ": "@ + error@ + ". "@
            + "macOS blocked access to that folder. Check the folder permissions or add Rau Studio to Full Disk Access in System Settings > Privacy & Security."@,
{
    let base_es = lit("No se pudo crear la carpeta ").concat(path).concat(": ").concat(error);
    let base_en = lit("Could not create folder ").concat(path).concat(": ").concat(error);
    if !permission_denied {
        return (base_es, base_en);
    }
    let external = is_external_volume_path(path);
    let hint_es = if external {
        "macOS bloqueo el acceso al disco externo. En Ajustes del Sistema > Privacidad y seguridad, permite a Rau Studio acceder a Volumenes extraibles o agrega Rau Studio a Acceso total al disco. Tambien verifica en Finder que el disco no este en solo lectura y que puedas crear carpetas ahi."
    } else {
        "macOS bloqueo el acceso a esa carpeta. Revisa permisos de la carpeta o agrega Rau Studio a Acceso total al disco en Ajustes del Sistema > Privacidad y seguridad."
    };
    let hint_en = if external {
        "macOS blocked access to the external drive. In System Settings > Privacy & Security, allow Rau Studio to access Removable Volumes or add Rau Studio to Full Disk Access. Also verify in Finder that the drive is not read-only and that you can create folders there."
    } else {
        "macOS blocked access to that folder. Check the folder permissions or add Rau Studio to Full Disk Access in System Settings > Privacy & Security."
    };
    (base_es.concat(". ").concat(hint_es), base_en.concat(". ").concat(hint_en))
}

} // verus!
