//! The Icecast destination profile: what the user enters, how it is checked,
//! and the stored profile with its listener URL.
use vstd::prelude::*;
use vstd::string::StringExecFns;
use vstd::utf8::encode_utf8;

use crate::text::{decimal, decimal_string, any_whitespace, char_is_whitespace, chars_of, contains_char, lemma_trim_idempotent, str_eq, trim_spec, trimmed};

verus! {

/// The profile as the settings form submits it.
#[derive(Debug, Clone)]
pub struct BroadcastProfileInput {
    pub host: String,
    pub port: u16,
    pub mount: String,
    pub username: String,
    pub station_name: String,
    pub description: String,
    pub bitrate_kbps: u16,
    pub tls: bool,
    pub public: bool,
    pub microphone_enabled: bool,
    pub microphone_device: String,
    pub microphone_gain_percent: u16,
    pub password: Option<String>,
    pub clear_password: bool,
}

/// The mathematical content of a [`BroadcastProfileInput`].
pub struct ProfileInputView {
    pub host: Seq<char>,
    pub port: u16,
    pub mount: Seq<char>,
    pub username: Seq<char>,
    pub station_name: Seq<char>,
    pub description: Seq<char>,
    pub bitrate_kbps: u16,
    pub tls: bool,
    pub public: bool,
    pub microphone_enabled: bool,
    pub microphone_device: Seq<char>,
    pub microphone_gain_percent: u16,
    pub password: Option<Seq<char>>,
    pub clear_password: bool,
}

pub open spec fn opt_view(o: Option<String>) -> Option<Seq<char>> {
    match o {
        Some(s) => Some(s@),
        None => None,
    }
}

impl View for BroadcastProfileInput {
    type V = ProfileInputView;

    open spec fn view(&self) -> ProfileInputView {
        ProfileInputView {
            host: self.host@,
            port: self.port,
            mount: self.mount@,
            username: self.username@,
            station_name: self.station_name@,
            description: self.description@,
            bitrate_kbps: self.bitrate_kbps,
            tls: self.tls,
            public: self.public,
            microphone_enabled: self.microphone_enabled,
            microphone_device: self.microphone_device@,
            microphone_gain_percent: self.microphone_gain_percent,
            password: opt_view(self.password),
            clear_password: self.clear_password,
        }
    }
}

/// A password after trimming; a blank one counts as absent.
pub open spec fn normalized_password(p: Option<Seq<char>>) -> Option<Seq<char>> {
    match p {
        Some(s) => if trim_spec(s).len() == 0 {
            None
        } else {
            Some(trim_spec(s))
        },
        None => None,
    }
}

/// The input with every text field trimmed.
pub open spec fn normalized_input(v: ProfileInputView) -> ProfileInputView {
    ProfileInputView {
        host: trim_spec(v.host),
        mount: trim_spec(v.mount),
        username: trim_spec(v.username),
        station_name: trim_spec(v.station_name),
        description: trim_spec(v.description),
        microphone_device: trim_spec(v.microphone_device),
        password: normalized_password(v.password),
        ..v
    }
}

/// Length in UTF-8 bytes, as `str::len` counts it.
pub open spec fn byte_len(s: Seq<char>) -> usize {
    encode_utf8(s).len() as usize
}

pub open spec fn has_whitespace(s: Seq<char>) -> bool {
    exists|i: int| 0 <= i < s.len() && char_is_whitespace(#[trigger] s[i])
}

pub open spec fn is_ascii_digit(c: char) -> bool {
    '0' <= c && c <= '9'
}

pub open spec fn host_valid(h: Seq<char>) -> bool {
    h.len() > 0 && !has_whitespace(h) && !h.contains('/') && !h.contains('@')
}

pub open spec fn mount_valid(m: Seq<char>) -> bool {
    m.len() > 0 && m[0] == '/' && byte_len(m) >= 2 && !has_whitespace(m) && !m.contains('?')
        && !m.contains('#')
}

pub open spec fn username_valid(u: Seq<char>) -> bool {
    u.len() > 0 && !has_whitespace(u) && !u.contains('@') && !u.contains(':') && !u.contains('/')
        && !u.contains('\\')
}

pub open spec fn station_name_valid(s: Seq<char>) -> bool {
    s.len() > 0 && byte_len(s) <= 120
}

pub open spec fn microphone_device_valid(d: Seq<char>) -> bool {
    d == "default"@ || forall|i: int| 0 <= i < d.len() ==> is_ascii_digit(#[trigger] d[i])
}

/// The first rule that a trimmed profile breaks, as the message shown for it.
pub open spec fn profile_error(v: ProfileInputView) -> Option<Seq<char>> {
    if !host_valid(v.host) {
        Some("Host Icecast invalido."@)
    } else if v.port == 0 {
        Some("Puerto Icecast invalido."@)
    } else if !mount_valid(v.mount) {
        Some("Mountpoint invalido. Usa un valor como /live.mp3."@)
    } else if !username_valid(v.username) {
        Some("Usuario source de Icecast invalido."@)
    } else if !station_name_valid(v.station_name) {
        Some("Nombre de estación invalido."@)
    } else if !(96 <= v.bitrate_kbps <= 320) {
        Some("El bitrate MP3 debe estar entre 96 y 320 kbps."@)
    } else if !microphone_device_valid(v.microphone_device) {
        Some("Dispositivo de micrófono invalido."@)
    } else if v.microphone_gain_percent > 200 {
        Some("La ganancia del micrófono debe estar entre 0% y 200%."@)
    } else {
        None
    }
}

fn starts_with_char(s: &str, c: char) -> (r: bool)
    ensures
        r == (s@.len() > 0 && s@[0] == c),
{
    let v = chars_of(s);
    v.len() > 0 && v[0] == c
}

fn all_ascii_digits(s: &str) -> (r: bool)
    ensures
        r == (forall|i: int| 0 <= i < s@.len() ==> is_ascii_digit(#[trigger] s@[i])),
{
    let v = chars_of(s);
    let mut i: usize = 0;
    while i < v.len()
        invariant
            i <= v.len(),
            v@ == s@,
            forall|j: int| 0 <= j < i ==> is_ascii_digit(#[trigger] s@[j]),
        decreases v.len() - i,
    {
        if !(v[i] >= '0' && v[i] <= '9') {
            assert(!is_ascii_digit(s@[i as int]));
            return false;
        }
        i = i + 1;
    }
    true
}

fn message(text: &str) -> (r: Option<String>)
    ensures
        r matches Some(m) && m@ == text@,
{
    Some(String::from_str(text))
}

/// The first broken rule of an already trimmed profile, if any.
fn first_profile_error(v: &BroadcastProfileInput) -> (r: Option<String>)
    ensures
        opt_view(r) == profile_error(v@),
{
    let host = v.host.as_str();
    if host.is_empty() || any_whitespace(host) || contains_char(host, '/') || contains_char(
        host,
        '@',
    ) {
        return message("Host Icecast invalido.");
    }
    if v.port == 0 {
        return message("Puerto Icecast invalido.");
    }
    let mount = v.mount.as_str();
    if !starts_with_char(mount, '/') || mount.len() < 2 || any_whitespace(mount) || contains_char(
        mount,
        '?',
    ) || contains_char(mount, '#') {
        return message("Mountpoint invalido. Usa un valor como /live.mp3.");
    }
    let username = v.username.as_str();
    if username.is_empty() || any_whitespace(username) || contains_char(username, '@')
        || contains_char(username, ':') || contains_char(username, '/') || contains_char(
        username,
        '\\',
    ) {
        return message("Usuario source de Icecast invalido.");
    }
    let station = v.station_name.as_str();
    if station.is_empty() || station.len() > 120 {
        return message("Nombre de estación invalido.");
    }
    if !(96 <= v.bitrate_kbps && v.bitrate_kbps <= 320) {
        return message("El bitrate MP3 debe estar entre 96 y 320 kbps.");
    }
    let device = v.microphone_device.as_str();
    if !str_eq(device, "default") && !all_ascii_digits(device) {
        return message("Dispositivo de micrófono invalido.");
    }
    if v.microphone_gain_percent > 200 {
        return message("La ganancia del micrófono debe estar entre 0% y 200%.");
    }
    None
}

fn normalize_password(p: &Option<String>) -> (r: Option<String>)
    ensures
        opt_view(r) == normalized_password(opt_view(*p)),
{
    match p {
        Some(s) => {
            let t = trimmed(s.as_str());
            if t.as_str().is_empty() {
                None
            } else {
                Some(t)
            }
        },
        None => None,
    }
}

/// What validation demands of a profile, whatever else it holds: a trimmed host
/// that is empty, holds a space, a `/` or an `@` is refused with the host message
/// before anything else is looked at; and a profile that passes has such a host,
/// a port, a bitrate of 96 to 320 kbps and a microphone gain of at most 200%.
pub proof fn lemma_profile_rules(v: ProfileInputView)
    ensures
        ({
            let h = trim_spec(v.host);
            (h.len() == 0 || h.contains('/') || h.contains('@') || exists|i: int|
                0 <= i < h.len() && char_is_whitespace(#[trigger] h[i])) ==> profile_error(
                normalized_input(v),
            ) == Some("Host Icecast invalido."@)
        }),
        profile_error(normalized_input(v)) is None ==> {
            let h = trim_spec(v.host);
            &&& h.len() > 0
            &&& !h.contains('/')
            &&& !h.contains('@')
            &&& forall|i: int| 0 <= i < h.len() ==> !char_is_whitespace(#[trigger] h[i])
            &&& v.port != 0
            &&& 96 <= v.bitrate_kbps <= 320
            &&& v.microphone_gain_percent <= 200
        },
{
}

/// Trims the text fields of a submitted profile and checks them, in this order:
/// host, port, mountpoint, source user, station name, bitrate, microphone device
/// and microphone gain. The first rule broken is the error; otherwise the trimmed
/// profile is returned.
pub fn validate_profile(input: BroadcastProfileInput) -> (r: Result<BroadcastProfileInput, String>)
    ensures
        r matches Ok(o) ==> o@ == normalized_input(input@) && profile_error(
            normalized_input(input@),
        ) is None,
        r matches Err(e) ==> profile_error(normalized_input(input@)) == Some(e@),
        trim_spec(input@.host).contains('/') || trim_spec(input@.host).contains('@')
            || trim_spec(input@.host).len() == 0 ==> (r matches Err(e) && e@
            == "Host Icecast invalido."@),
        r matches Ok(o) ==> {
            &&& o@.host.len() > 0
            &&& !o@.host.contains('/')
            &&& !o@.host.contains('@')
            &&& o.port != 0
            &&& 96 <= o.bitrate_kbps <= 320
            &&& o.microphone_gain_percent <= 200
        },
{
    proof {
        lemma_profile_rules(input@);
    }
    let normalized = BroadcastProfileInput {
        host: trimmed(input.host.as_str()),
        port: input.port,
        mount: trimmed(input.mount.as_str()),
        username: trimmed(input.username.as_str()),
        station_name: trimmed(input.station_name.as_str()),
        description: trimmed(input.description.as_str()),
        bitrate_kbps: input.bitrate_kbps,
        tls: input.tls,
        public: input.public,
        microphone_enabled: input.microphone_enabled,
        microphone_device: trimmed(input.microphone_device.as_str()),
        microphone_gain_percent: input.microphone_gain_percent,
        password: normalize_password(&input.password),
        clear_password: input.clear_password,
    };
    assert(normalized@ == normalized_input(input@));
    match first_profile_error(&normalized) {
        Some(e) => Err(e),
        None => Ok(normalized),
    }
}

/// What saving a profile does to the stored source password.
#[derive(Debug, Clone, PartialEq, Eq)]
pub enum PasswordChange {
    /// Leave the stored password as it is.
    Keep,
    /// Remove the stored password.
    Clear,
    /// Store this password.
    Save(String),
}

/// A request to clear the password wins; otherwise a submitted password is
/// stored; otherwise the stored one is kept.
pub fn password_change(clear_password: bool, password: Option<String>) -> (r: PasswordChange)
    ensures
        clear_password ==> r == PasswordChange::Clear,
        !clear_password && password is None ==> r == PasswordChange::Keep,
        !clear_password && password is Some ==> (r matches PasswordChange::Save(p) && p@
            == password.unwrap()@),
{
    if clear_password {
        PasswordChange::Clear
    } else {
        match password {
            Some(p) => PasswordChange::Save(p),
            None => PasswordChange::Keep,
        }
    }
}

/// A profile that passed validation passes it again unchanged: validation is
/// idempotent.
pub proof fn lemma_validation_is_stable(v: ProfileInputView)
    requires
        profile_error(normalized_input(v)) is None,
    ensures
        normalized_input(normalized_input(v)) == normalized_input(v),
        profile_error(normalized_input(normalized_input(v))) is None,
{
    lemma_trim_idempotent(v.host);
    lemma_trim_idempotent(v.mount);
    lemma_trim_idempotent(v.username);
    lemma_trim_idempotent(v.station_name);
    lemma_trim_idempotent(v.description);
    lemma_trim_idempotent(v.microphone_device);
    match v.password {
        Some(p) => {
            lemma_trim_idempotent(p);
        },
        None => {},
    }
    assert(normalized_input(normalized_input(v)) == normalized_input(v));
}

/// The stored profile as the UI shows it; the password itself never leaves the
/// settings store, only whether one is configured.
#[derive(Debug, Clone)]
pub struct BroadcastProfile {
    pub id: String,
    pub host: String,
    pub port: u16,
    pub mount: String,
    pub username: String,
    pub station_name: String,
    pub description: String,
    pub bitrate_kbps: u16,
    pub tls: bool,
    pub public: bool,
    pub microphone_enabled: bool,
    pub microphone_device: String,
    pub microphone_gain_percent: u16,
    pub password_configured: bool,
    pub listener_url: String,
    pub updated_at: String,
}

/// The columns of a stored profile row.
#[derive(Debug, Clone)]
pub struct BroadcastProfileRow {
    pub id: String,
    pub host: String,
    pub port: u16,
    pub mount: String,
    pub username: String,
    pub station_name: String,
    pub description: String,
    pub bitrate_kbps: u16,
    pub tls: bool,
    pub public: bool,
    pub microphone_enabled: bool,
    pub microphone_device: String,
    pub microphone_gain_percent: u16,
    pub updated_at: String,
}

/// The mathematical content of a [`BroadcastProfile`].
pub struct ProfileView {
    pub id: Seq<char>,
    pub host: Seq<char>,
    pub port: u16,
    pub mount: Seq<char>,
    pub username: Seq<char>,
    pub station_name: Seq<char>,
    pub description: Seq<char>,
    pub bitrate_kbps: u16,
    pub tls: bool,
    pub public: bool,
    pub microphone_enabled: bool,
    pub microphone_device: Seq<char>,
    pub microphone_gain_percent: u16,
    pub password_configured: bool,
    pub listener_url: Seq<char>,
    pub updated_at: Seq<char>,
}

impl View for BroadcastProfile {
    type V = ProfileView;

    open spec fn view(&self) -> ProfileView {
        ProfileView {
            id: self.id@,
            host: self.host@,
            port: self.port,
            mount: self.mount@,
            username: self.username@,
            station_name: self.station_name@,
            description: self.description@,
            bitrate_kbps: self.bitrate_kbps,
            tls: self.tls,
            public: self.public,
            microphone_enabled: self.microphone_enabled,
            microphone_device: self.microphone_device@,
            microphone_gain_percent: self.microphone_gain_percent,
            password_configured: self.password_configured,
            listener_url: self.listener_url@,
            updated_at: self.updated_at@,
        }
    }
}

/// `{scheme}://{host}:{port}{mount}`, with `https` when TLS is on.
pub open spec fn listener_url_spec(tls: bool, host: Seq<char>, port: u16, mount: Seq<char>) -> Seq<
    char,
> {
    (if tls {
        "https"@
    } else {
        "http"@
    }) + "://"@ + host + ":"@ + decimal(port as nat) + mount
}

/// The public URL listeners open for a profile.
pub fn listener_url(tls: bool, host: &str, port: u16, mount: &str) -> (r: String)
    ensures
        r@ == listener_url_spec(tls, host@, port, mount@),
{
    let scheme = if tls {
        String::from_str("https")
    } else {
        String::from_str("http")
    };
    scheme.concat("://").concat(host).concat(":").concat(decimal_string(port as u64).as_str()).concat(
        mount,
    )
}

/// `{scheme}://{host}:{port}/admin/metadata`, the Icecast admin endpoint that
/// updates the song title of a mount.
pub fn metadata_url(tls: bool, host: &str, port: u16) -> (r: String)
    ensures
        r@ == (if tls {
            "https"@
        } else {
            "http"@
        }) + "://"@ + host@ + ":"@ + decimal(port as nat) + "/admin/metadata"@,
{
    let scheme = if tls {
        String::from_str("https")
    } else {
        String::from_str("http")
    };
    scheme.concat("://").concat(host).concat(":").concat(decimal_string(port as u64).as_str()).concat(
        "/admin/metadata",
    )
}

/// The query of a metadata update: the mount, `mode=updinfo` and the song.
pub fn metadata_query(mount: &str, song: &str) -> (r: Vec<(String, String)>)
    ensures
        r@.len() == 3,
        r@[0].0@ == "mount"@ && r@[0].1@ == mount@,
        r@[1].0@ == "mode"@ && r@[1].1@ == "updinfo"@,
        r@[2].0@ == "song"@ && r@[2].1@ == song@,
{
    let mut q: Vec<(String, String)> = Vec::new();
    q.push((String::from_str("mount"), String::from_str(mount)));
    q.push((String::from_str("mode"), String::from_str("updinfo")));
    q.push((String::from_str("song"), String::from_str(song)));
    q
}

/// Builds the profile from its stored row, or from the built-in defaults
/// (`127.0.0.1:8000/live.mp3`, user `source`, 128 kbps, no TLS, microphone off
/// on the default device at 100%, stamped `now`) when nothing is stored yet.
pub fn profile_from_row(
    row: Option<BroadcastProfileRow>,
    password_configured: bool,
    now: String,
) -> (r: BroadcastProfile)
    ensures
        r.password_configured == password_configured,
        r@.listener_url == listener_url_spec(r.tls, r@.host, r.port, r@.mount),
        row matches Some(s) ==> {
            &&& r@.id == s.id@
            &&& r@.host == s.host@
            &&& r.port == s.port
            &&& r@.mount == s.mount@
            &&& r@.username == s.username@
            &&& r@.station_name == s.station_name@
            &&& r@.description == s.description@
            &&& r.bitrate_kbps == s.bitrate_kbps
            &&& r.tls == s.tls
            &&& r.public == s.public
            &&& r.microphone_enabled == s.microphone_enabled
            &&& r@.microphone_device == s.microphone_device@
            &&& r.microphone_gain_percent == s.microphone_gain_percent
            &&& r@.updated_at == s.updated_at@
        },
        row is None ==> {
            &&& r@.id == "default"@
            &&& r@.host == "127.0.0.1"@
            &&& r.port == 8000
            &&& r@.mount == "/live.mp3"@
            &&& r@.username == "source"@
            &&& r@.station_name == "Rau Studio Radio"@
            &&& r@.description == "Broadcast local desde Rau Studio"@
            &&& r.bitrate_kbps == 128
            &&& !r.tls
            &&& !r.public
            &&& !r.microphone_enabled
            &&& r@.microphone_device == "default"@
            &&& r.microphone_gain_percent == 100
            &&& r@.updated_at == now@
        },
{
    let s = match row {
        Some(s) => s,
        None => BroadcastProfileRow {
            id: String::from_str("default"),
            host: String::from_str("127.0.0.1"),
            port: 8000,
            mount: String::from_str("/live.mp3"),
            username: String::from_str("source"),
            station_name: String::from_str("Rau Studio Radio"),
            description: String::from_str("Broadcast local desde Rau Studio"),
            bitrate_kbps: 128,
            tls: false,
            public: false,
            microphone_enabled: false,
            microphone_device: String::from_str("default"),
            microphone_gain_percent: 100,
            updated_at: now,
        },
    };
    let url = listener_url(s.tls, s.host.as_str(), s.port, s.mount.as_str());
    BroadcastProfile {
        id: s.id,
        host: s.host,
        port: s.port,
        mount: s.mount,
        username: s.username,
        station_name: s.station_name,
        description: s.description,
        bitrate_kbps: s.bitrate_kbps,
        tls: s.tls,
        public: s.public,
        microphone_enabled: s.microphone_enabled,
        microphone_device: s.microphone_device,
        microphone_gain_percent: s.microphone_gain_percent,
        password_configured,
        listener_url: url,
        updated_at: s.updated_at,
    }
}

} // verus!
