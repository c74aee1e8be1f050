//! Turn, the spinning-record video renderer: the text rules of a job (names,
//! colors, output file name), its state rules, and the tail of FFmpeg's log.
use vstd::prelude::*;
use vstd::string::StringExecFns;

use crate::broadcast::profile::byte_len;
use crate::text::{
    chars_of, lemma_trim_idempotent, lines, lines_spec, lit, push_string, str_eq, string_of, trim, trim_spec,
    trimmed, views,
};

verus! {

/// The background used when the requested color is not usable.
pub const DEFAULT_BACKGROUND_COLOR: &'static str = "#faafc8";

pub open spec fn is_ascii_alphanumeric(c: char) -> bool {
    ('a' <= c && c <= 'z') || ('A' <= c && c <= 'Z') || ('0' <= c && c <= '9')
}

pub open spec fn is_ascii_hexdigit(c: char) -> bool {
    ('a' <= c && c <= 'f') || ('A' <= c && c <= 'F') || ('0' <= c && c <= '9')
}

/// A character kept as is in file stems and color names.
pub open spec fn is_name_char(c: char) -> bool {
    is_ascii_alphanumeric(c) || c == '_' || c == '-'
}

fn name_char(c: char) -> (r: bool)
    ensures
        r == is_name_char(c),
{
    ('a' <= c && c <= 'z') || ('A' <= c && c <= 'Z') || ('0' <= c && c <= '9') || c == '_' || c
        == '-'
}

/// The last component of a path, as `Path::file_name` returns it.
pub uninterp spec fn path_file_name(path: Seq<char>) -> Option<Seq<char>>;

/// The file name of a path without its extension, as `Path::file_stem` returns it.
pub uninterp spec fn path_file_stem(path: Seq<char>) -> Option<Seq<char>>;

/// Calls `Path::file_name` on a path given as text; the component of a UTF-8
/// path is UTF-8, so `to_str` keeps it.
#[verifier::external_body]
pub(crate) fn file_name_of(path: &str) -> (r: Option<String>)
    ensures
        crate::broadcast::profile::opt_view(r) == path_file_name(path@),
{
    std::path::Path::new(path).file_name().and_then(|value| value.to_str()).map(
        |value| value.to_string(),
    )
}

/// Calls `Path::file_stem` on a path given as text.
#[verifier::external_body]
fn file_stem_of(path: &str) -> (r: Option<String>)
    ensures
        crate::broadcast::profile::opt_view(r) == path_file_stem(path@),
{
    std::path::Path::new(path).file_stem().and_then(|value| value.to_str()).map(
        |value| value.to_string(),
    )
}

/// The file name of `path`, or `fallback` when it has none or it is blank.
pub fn file_name(path: &str, fallback: &str) -> (r: String)
    ensures
        r@ == (match path_file_name(path@) {
            Some(name) => if trim_spec(name).len() > 0 {
                name
            } else {
                fallback@
            },
            None => fallback@,
        }),
{
    match file_name_of(path) {
        Some(name) => {
            if trim(name.as_str()).is_empty() {
                lit(fallback)
            } else {
                name
            }
        },
        None => lit(fallback),
    }
}

/// Replaces every character other than ASCII letters, digits, `-` and `_` by `_`.
pub open spec fn sanitized(s: Seq<char>) -> Seq<char> {
    s.map_values(|c: char| if is_name_char(c) { c } else { '_' })
}

/// Drops leading `_` characters.
pub open spec fn trim_underscores_start(s: Seq<char>) -> Seq<char>
    decreases s.len(),
{
    if s.len() > 0 && s[0] == '_' {
        trim_underscores_start(s.drop_first())
    } else {
        s
    }
}

/// Drops trailing `_` characters.
pub open spec fn trim_underscores_end(s: Seq<char>) -> Seq<char>
    decreases s.len(),
{
    if s.len() > 0 && s.last() == '_' {
        trim_underscores_end(s.drop_last())
    } else {
        s
    }
}

/// The safe stem: sanitized, without `_` at either end, at most 80 characters.
pub open spec fn safe_file_stem_spec(s: Seq<char>) -> Seq<char> {
    let t = trim_underscores_end(trim_underscores_start(sanitized(s)));
    if t.len() <= 80 {
        t
    } else {
        t.take(80)
    }
}

proof fn lemma_trim_underscores_start_skip(s: Seq<char>, k: int)
    requires
        0 <= k <= s.len(),
        forall|j: int| 0 <= j < k ==> s[j] == '_',
        k == s.len() || s[k] != '_',
    ensures
        trim_underscores_start(s) == s.skip(k),
    decreases k,
{
    if k > 0 {
        lemma_trim_underscores_start_skip(s.drop_first(), k - 1);
        assert(s.drop_first().skip(k - 1) =~= s.skip(k));
    } else {
        assert(s.skip(0) =~= s);
    }
}

proof fn lemma_trim_underscores_end_take(s: Seq<char>, k: int)
    requires
        0 <= k <= s.len(),
        forall|j: int| k <= j < s.len() ==> s[j] == '_',
        k == 0 || s[k - 1] != '_',
    ensures
        trim_underscores_end(s) == s.take(k),
    decreases s.len() - k,
{
    if k < s.len() {
        lemma_trim_underscores_end_take(s.drop_last(), k);
        assert(s.drop_last().take(k) =~= s.take(k));
    } else {
        assert(s.take(k) =~= s);
    }
}

proof fn lemma_trim_underscores_start_shape(s: Seq<char>)
    ensures
        trim_underscores_start(s) == s.skip(s.len() - trim_underscores_start(s).len()),
        trim_underscores_start(s).len() <= s.len(),
        trim_underscores_start(s).len() > 0 ==> trim_underscores_start(s)[0] != '_',
        s.len() > 0 && s[0] != '_' ==> trim_underscores_start(s) == s,
    decreases s.len(),
{
    if s.len() > 0 && s[0] == '_' {
        lemma_trim_underscores_start_shape(s.drop_first());
        let t = trim_underscores_start(s);
        assert(s.drop_first().skip(s.drop_first().len() - t.len()) =~= s.skip(s.len() - t.len()));
    } else {
        assert(s.skip(0) =~= s);
    }
}

proof fn lemma_trim_underscores_end_shape(s: Seq<char>)
    ensures
        trim_underscores_end(s) == s.take(trim_underscores_end(s).len() as int),
        trim_underscores_end(s).len() <= s.len(),
        trim_underscores_end(s).len() > 0 ==> trim_underscores_end(s).last() != '_',
        s.len() > 0 && s.last() != '_' ==> trim_underscores_end(s) == s,
    decreases s.len(),
{
    if s.len() > 0 && s.last() == '_' {
        lemma_trim_underscores_end_shape(s.drop_last());
        let t = trim_underscores_end(s);
        assert(s.drop_last().take(t.len() as int) =~= s.take(t.len() as int));
    } else {
        assert(s.take(s.len() as int) =~= s);
    }
}

/// What a safe stem looks like, whatever the input: at most 80 characters, all
/// ASCII letters, digits, `-` or `_`, never starting with `_`, and not ending
/// with `_` unless it was cut at 80 characters. A stem that already looks like
/// that, with no `_` at either end, is kept as it is.
pub proof fn lemma_safe_file_stem_shape(s: Seq<char>)
    ensures
        ({
            let r = safe_file_stem_spec(s);
            &&& r.len() <= 80
            &&& forall|i: int| 0 <= i < r.len() ==> is_name_char(#[trigger] r[i])
            &&& r.len() > 0 ==> r[0] != '_'
            &&& r.len() < 80 && r.len() > 0 ==> r.last() != '_'
        }),
        s.len() <= 80 && (forall|i: int| 0 <= i < s.len() ==> is_name_char(#[trigger] s[i])) && (
        s.len() > 0 ==> s[0] != '_' && s.last() != '_') ==> safe_file_stem_spec(s) == s,
{
    let m = sanitized(s);
    let u = trim_underscores_start(m);
    let t = trim_underscores_end(u);
    lemma_trim_underscores_start_shape(m);
    lemma_trim_underscores_end_shape(u);
    assert(forall|i: int| 0 <= i < m.len() ==> is_name_char(#[trigger] m[i]));
    assert forall|i: int| 0 <= i < t.len() implies is_name_char(#[trigger] t[i]) by {
        assert(t[i] == u[i]);
        assert(u[i] == m[i + (m.len() - u.len())]);
    }
    if t.len() > 0 {
        assert(t[0] == u[0]);
    }
    let r = safe_file_stem_spec(s);
    if t.len() > 80 {
        assert(r == t.take(80));
        assert forall|i: int| 0 <= i < r.len() implies is_name_char(#[trigger] r[i]) by {
            assert(r[i] == t[i]);
        }
    }
    if s.len() <= 80 && (forall|i: int| 0 <= i < s.len() ==> is_name_char(#[trigger] s[i])) && (
    s.len() > 0 ==> s[0] != '_' && s.last() != '_') {
        assert(m =~= s);
        if s.len() > 0 {
            assert(u == m);
            assert(t == u);
        } else {
            assert(u =~= m);
            assert(t =~= u);
        }
    }
}

/// A file stem safe to use in an output name.
pub fn safe_file_stem(value: &str) -> (r: String)
    ensures
        r@ == safe_file_stem_spec(value@),
        r@.len() <= 80,
        forall|i: int| 0 <= i < r@.len() ==> is_name_char(#[trigger] r@[i]),
        r@.len() > 0 ==> r@[0] != '_',
{
    proof {
        lemma_safe_file_stem_shape(value@);
    }
    let src = chars_of(value);
    let mut mapped: Vec<char> = Vec::new();
    let mut i: usize = 0;
    while i < src.len()
        invariant
            i <= src.len(),
            src@ == value@,
            mapped@ == sanitized(value@).take(i as int),
        decreases src.len() - i,
    {
        let c = src[i];
        mapped.push(
            if name_char(c) {
                c
            } else {
                '_'
            },
        );
        i = i + 1;
        assert(mapped@ =~= sanitized(value@).take(i as int));
    }
    assert(mapped@ =~= sanitized(value@));
    let ghost m = mapped@;
    let mut start: usize = 0;
    while start < mapped.len() && mapped[start] == '_'
        invariant
            start <= mapped.len(),
            mapped@ == m,
            forall|j: int| 0 <= j < start ==> m[j] == '_',
        decreases mapped.len() - start,
    {
        start = start + 1;
    }
    proof {
        lemma_trim_underscores_start_skip(m, start as int);
    }
    let ghost u = m.skip(start as int);
    let mut end: usize = mapped.len();
    while end > start && mapped[end - 1] == '_'
        invariant
            start <= end <= mapped.len(),
            mapped@ == m,
            forall|j: int| end <= j < m.len() ==> m[j] == '_',
        decreases end - start,
    {
        end = end - 1;
    }
    proof {
        assert forall|j: int| end - start <= j < u.len() implies u[j] == '_' by {
            assert(u[j] == m[j + start]);
        }
        if end > start {
            assert(u[end - start - 1] == m[end - 1]);
        }
        lemma_trim_underscores_end_take(u, end - start);
    }
    let ghost t = u.take(end - start);
    let limit = if end - start <= 80 {
        end
    } else {
        start + 80
    };
    let mut out: Vec<char> = Vec::new();
    let mut k: usize = start;
    while k < limit
        invariant
            start <= k <= limit <= end <= mapped.len(),
            mapped@ == m,
            out@ == m.subrange(start as int, k as int),
        decreases limit - k,
    {
        out.push(mapped[k]);
        k = k + 1;
        assert(out@ =~= m.subrange(start as int, k as int));
    }
    assert(t =~= m.subrange(start as int, end as int));
    if end - start <= 80 {
        assert(out@ =~= t);
    } else {
        assert(out@ =~= t.take(80));
    }
    string_of(&out)
}

/// A color FFmpeg reads as `#rrggbb`: seven bytes, `#` and six hex digits.
pub open spec fn hex_color(v: Seq<char>) -> bool {
    byte_len(v) == 7 && v.len() > 0 && v[0] == '#' && forall|i: int|
        1 <= i < v.len() ==> is_ascii_hexdigit(#[trigger] v[i])
}

/// Whether `value` is a `#rrggbb` color.
pub fn is_hex_color(value: &str) -> (r: bool)
    ensures
        r == hex_color(value@),
{
    if value.len() != 7 {
        return false;
    }
    let v = chars_of(value);
    if v.len() == 0 || v[0] != '#' {
        return false;
    }
    let mut i: usize = 1;
    while i < v.len()
        invariant
            1 <= i <= v.len(),
            v@ == value@,
            forall|j: int| 1 <= j < i ==> is_ascii_hexdigit(#[trigger] value@[j]),
        decreases v.len() - i,
    {
        let c = v[i];
        if !(('a' <= c && c <= 'f') || ('A' <= c && c <= 'F') || ('0' <= c && c <= '9')) {
            assert(!is_ascii_hexdigit(value@[i as int]));
            return false;
        }
        i = i + 1;
    }
    true
}

fn all_name_chars(value: &str) -> (r: bool)
    ensures
        r == (forall|i: int| 0 <= i < value@.len() ==> is_name_char(#[trigger] value@[i])),
{
    let v = chars_of(value);
    let mut i: usize = 0;
    while i < v.len()
        invariant
            i <= v.len(),
            v@ == value@,
            forall|j: int| 0 <= j < i ==> is_name_char(#[trigger] value@[j]),
        decreases v.len() - i,
    {
        if !name_char(v[i]) {
            return false;
        }
        i = i + 1;
    }
    true
}

/// The background color kept for a job: a trimmed `#rrggbb` color, a trimmed
/// color name made of letters, digits, `_` and `-`, or the default otherwise.
pub open spec fn normalized_color(value: Seq<char>) -> Seq<char> {
    let t = trim_spec(value);
    if hex_color(t) {
        t
    } else if t.len() > 0 && forall|i: int| 0 <= i < t.len() ==> is_name_char(#[trigger] t[i]) {
        t
    } else {
        DEFAULT_BACKGROUND_COLOR@
    }
}

/// Normalizes a requested background color.
pub fn normalize_color(value: &str) -> (r: String)
    ensures
        r@ == normalized_color(value@),
{
    let t = trimmed(value);
    if is_hex_color(t.as_str()) {
        return t;
    }
    if !t.as_str().is_empty() && all_name_chars(t.as_str()) {
        return t;
    }
    lit(DEFAULT_BACKGROUND_COLOR)
}

/// Normalizing a normalized color changes nothing.
pub proof fn lemma_normalize_color_idempotent(value: Seq<char>)
    ensures
        normalized_color(normalized_color(value)) == normalized_color(value),
{
    reveal_strlit("#faafc8");
    lemma_trim_idempotent(value);
    let d = DEFAULT_BACKGROUND_COLOR@;
    assert(trim_spec(d) == d) by {
        assert(crate::text::trim_start_spec(d) == d);
        assert(crate::text::trim_end_spec(d) == d);
    }
    assert(hex_color(d)) by {
        vstd::utf8::is_ascii_chars_encode_utf8(d);
        assert(vstd::utf8::is_ascii_chars(d));
    }
}

/// FFmpeg's spelling of a color: `0xrrggbb` for `#rrggbb`, names unchanged.
pub open spec fn ffmpeg_color_spec(value: Seq<char>) -> Seq<char> {
    if hex_color(value) {
        "0x"@ + value.drop_first()
    } else {
        value
    }
}

/// The color argument FFmpeg's `color` source takes.
pub fn ffmpeg_color(value: &str) -> (r: String)
    ensures
        r@ == ffmpeg_color_spec(value@),
{
    if is_hex_color(value) {
        let v = chars_of(value);
        let mut rest: Vec<char> = Vec::new();
        let mut i: usize = 1;
        while i < v.len()
            invariant
                1 <= i <= v.len(),
                v@ == value@,
                rest@ == value@.subrange(1, i as int),
            decreases v.len() - i,
        {
            rest.push(v[i]);
            i = i + 1;
            assert(rest@ =~= value@.subrange(1, i as int));
        }
        assert(rest@ =~= value@.drop_first());
        lit("0x").concat(string_of(&rest).as_str())
    } else {
        lit(value)
    }
}

/// The output file name of a job, from the stem of its cover image:
/// `turn-{stem}.mp4`, with `turn` when no safe stem remains.
pub open spec fn output_file_name_spec(cover_path: Seq<char>) -> Seq<char> {
    let stem = match path_file_stem(cover_path) {
        Some(s) => safe_file_stem_spec(s),
        None => Seq::empty(),
    };
    "turn-"@ + (if stem.len() > 0 {
        stem
    } else {
        "turn"@
    }) + ".mp4"@
}

/// The name of the MP4 a job writes in its folder.
pub fn output_file_name(cover_path: &str) -> (r: String)
    ensures
        r@ == output_file_name_spec(cover_path@),
{
    let stem = match file_stem_of(cover_path) {
        Some(s) => safe_file_stem(s.as_str()),
        None => String::new(),
    };
    let stem = if stem.as_str().is_empty() {
        lit("turn")
    } else {
        stem
    };
    lit("turn-").concat(stem.as_str()).concat(".mp4")
}

/// A job is in progress while pending or running.
pub open spec fn job_in_progress_spec(state: Seq<char>) -> bool {
    state == "pending"@ || state == "running"@
}

/// Pending and running jobs are in progress; failed and completed ones are not.
pub proof fn lemma_job_states(state: Seq<char>)
    ensures
        state == "pending"@ || state == "running"@ ==> job_in_progress_spec(state),
        state == "failed"@ || state == "completed"@ ==> !job_in_progress_spec(state),
{
    reveal_strlit("pending");
    reveal_strlit("running");
    reveal_strlit("failed");
    reveal_strlit("completed");
    assert("failed"@[0] != "pending"@[0] && "failed"@[0] != "running"@[0]);
    assert("completed"@[0] != "pending"@[0] && "completed"@[0] != "running"@[0]);
}

/// Whether a job is still being processed.
pub fn job_in_progress(state: &str) -> (r: bool)
    ensures
        r == job_in_progress_spec(state@),
{
    str_eq(state, "pending") || str_eq(state, "running")
}

/// A job can be retried only when it is not in progress.
pub fn check_retry(state: &str) -> (r: Result<(), String>)
    ensures
        r is Err <==> job_in_progress_spec(state@),
        r matches Err(e) ==> e@ == "El video ya esta en proceso."@,
        state@ == "pending"@ || state@ == "running"@ ==> r is Err,
        state@ == "failed"@ || state@ == "completed"@ ==> r is Ok,
{
    proof {
        lemma_job_states(state@);
    }
    if job_in_progress(state) {
        return Err(lit("El video ya esta en proceso."));
    }
    Ok(())
}

/// A job can be deleted only when it is not in progress.
pub fn check_delete(state: &str) -> (r: Result<(), String>)
    ensures
        r is Err <==> job_in_progress_spec(state@),
        r matches Err(e) ==> e@ == "No se puede eliminar un video en proceso."@,
        state@ == "pending"@ || state@ == "running"@ ==> r is Err,
        state@ == "failed"@ || state@ == "completed"@ ==> r is Ok,
{
    proof {
        lemma_job_states(state@);
    }
    if job_in_progress(state) {
        return Err(lit("No se puede eliminar un video en proceso."));
    }
    Ok(())
}

/// A job's video is ready when it completed and its output path is recorded.
pub fn job_ready(state: &str, has_output: bool) -> (r: bool)
    ensures
        r == (state@ == "completed"@ && has_output),
{
    str_eq(state, "completed") && has_output
}

/// The lines that are not blank, in order.
pub open spec fn nonblank_lines(ls: Seq<Seq<char>>) -> Seq<Seq<char>>
    decreases ls.len(),
{
    if ls.len() == 0 {
        Seq::empty()
    } else if trim_spec(ls.last()).len() > 0 {
        nonblank_lines(ls.drop_last()).push(ls.last())
    } else {
        nonblank_lines(ls.drop_last())
    }
}

/// Lines joined with `\n` between them.
pub open spec fn join_lines(ls: Seq<Seq<char>>) -> Seq<char>
    decreases ls.len(),
{
    if ls.len() == 0 {
        Seq::empty()
    } else if ls.len() == 1 {
        ls[0]
    } else {
        join_lines(ls.drop_last()) + "\n"@ + ls.last()
    }
}

/// The last six non-blank lines of FFmpeg's stderr, joined by newlines.
pub open spec fn stderr_tail_spec(stderr: Seq<char>) -> Seq<char> {
    let kept = nonblank_lines(lines_spec(stderr));
    join_lines(
        if kept.len() <= 6 {
            kept
        } else {
            kept.skip(kept.len() - 6)
        },
    )
}

/// The end of FFmpeg's log, reported with a failed render.
pub fn stderr_tail(stderr: &str) -> (r: String)
    ensures
        r@ == stderr_tail_spec(stderr@),
{
    let ls = lines(stderr);
    let mut kept: Vec<String> = Vec::new();
    let mut i: usize = 0;
    while i < ls.len()
        invariant
            i <= ls.len(),
            views(ls@) == lines_spec(stderr@),
            views(kept@) == nonblank_lines(lines_spec(stderr@).take(i as int)),
        decreases ls.len() - i,
    {
        let ghost prefix = lines_spec(stderr@).take(i + 1);
        assert(prefix.drop_last() =~= lines_spec(stderr@).take(i as int));
        assert(prefix.last() == ls@[i as int]@);
        if !trim(ls[i].as_str()).is_empty() {
            let ghost before = views(kept@);
            kept.push(ls[i].clone());
            assert(views(kept@) =~= before.push(ls@[i as int]@));
        }
        i = i + 1;
    }
    assert(lines_spec(stderr@).take(ls.len() as int) =~= lines_spec(stderr@));
    let ghost all = views(kept@);
    let start = if kept.len() <= 6 {
        0
    } else {
        kept.len() - 6
    };
    let ghost tail = all.skip(start as int);
    assert(all.skip(0) =~= all);
    let mut out = String::new();
    let mut k: usize = start;
    while k < kept.len()
        invariant
            start <= k <= kept.len(),
            all == views(kept@),
            tail == all.skip(start as int),
            out@ == join_lines(tail.take(k - start)),
        decreases kept.len() - k,
    {
        let ghost taken = tail.take(k + 1 - start);
        assert(taken.drop_last() =~= tail.take(k - start));
        assert(taken.last() == kept@[k as int]@);
        if k == start {
            assert(tail.take(0) =~= Seq::<Seq<char>>::empty());
            out = kept[k].clone();
        } else {
            out = out.concat("\n").concat(kept[k].as_str());
        }
        k = k + 1;
    }
    assert(tail.take(kept.len() - start) =~= tail);
    out
}

/// The tail never holds more than six lines.
pub proof fn lemma_stderr_tail_bounded(kept: Seq<Seq<char>>)
    ensures
        (if kept.len() <= 6 {
            kept
        } else {
            kept.skip(kept.len() - 6)
        }).len() <= 6,
{
}

/// Side of the square circular mask, in pixels.
pub const MASK_SIZE: usize = 1080;

/// A pixel of the mask is opaque when it lies in the disc inscribed in the
/// square: its distance to the center `(539.5, 539.5)` is at most the radius
/// 539.5. Doubling every length keeps the test in integers.
pub open spec fn mask_pixel_opaque(x: int, y: int) -> bool {
    (2 * x - 1079) * (2 * x - 1079) + (2 * y - 1079) * (2 * y - 1079) <= 1079 * 1079
}

/// One row of the 8-bit grayscale mask: 255 inside the disc, 0 outside.
pub fn mask_row(y: usize) -> (r: Vec<u8>)
    requires
        y < MASK_SIZE,
    ensures
        r@.len() == MASK_SIZE,
        forall|x: int|
            0 <= x < MASK_SIZE ==> #[trigger] r@[x] == if mask_pixel_opaque(x, y as int) {
                255u8
            } else {
                0u8
            },
{
    let mut row: Vec<u8> = Vec::new();
    let dy: i64 = 2 * (y as i64) - 1079;
    let mut x: usize = 0;
    while x < MASK_SIZE
        invariant
            x <= MASK_SIZE,
            y < MASK_SIZE,
            dy == 2 * y - 1079,
            row@.len() == x,
            forall|k: int|
                0 <= k < x ==> #[trigger] row@[k] == if mask_pixel_opaque(k, y as int) {
                    255u8
                } else {
                    0u8
                },
        decreases MASK_SIZE - x,
    {
        let dx: i64 = 2 * (x as i64) - 1079;
        assert(0 <= dx * dx <= 1079 * 1079) by (nonlinear_arith)
            requires
                -1079 <= dx <= 1079,
        ;
        assert(0 <= dy * dy <= 1079 * 1079) by (nonlinear_arith)
            requires
                -1079 <= dy <= 1079,
        ;
        row.push(
            if dx * dx + dy * dy <= 1079 * 1079 {
                255
            } else {
                0
            },
        );
        x = x + 1;
    }
    row
}

/// The header of the binary PGM mask: `P5`, the size and the maximum value.
pub fn mask_header() -> (r: String)
    ensures
        r@ == "P5\n"@ + crate::text::decimal(1080) + " "@ + crate::text::decimal(1080) + "\n255\n"@,
{
    let size = crate::text::decimal_string(MASK_SIZE as u64);
    lit("P5\n").concat(size.as_str()).concat(" ").concat(size.as_str()).concat("\n255\n")
}

/// At most the first 1200 characters of a failure message are stored.
pub fn bounded_error_message(message: &str) -> (r: String)
    ensures
        r@ == (if message@.len() <= 1200 {
            message@
        } else {
            message@.take(1200)
        }),
{
    let v = chars_of(message);
    if v.len() <= 1200 {
        return lit(message);
    }
    let mut out: Vec<char> = Vec::new();
    let mut i: usize = 0;
    while i < 1200
        invariant
            i <= 1200 <= v.len(),
            v@ == message@,
            out@ == message@.take(i as int),
        decreases 1200 - i,
    {
        out.push(v[i]);
        i = i + 1;
        assert(out@ =~= message@.take(i as int));
    }
    string_of(&out)
}

/// One line of FFmpeg's `-progress` output, by its key.
#[derive(Debug, Clone, PartialEq, Eq)]
pub enum ProgressLine {
    /// `out_time_us` or `out_time_ms`: microseconds rendered so far.
    Elapsed(String),
    /// `speed`: the render speed as FFmpeg prints it.
    Speed(String),
    /// `progress`: a progress block ended; `true` for the final `end`.
    Progress(bool),
    /// Any other key, or a line without `=`.
    Other,
}

/// The key and value of a `key=value` line, split at the first `=`.
pub open spec fn split_at_first_eq(line: Seq<char>) -> Option<(Seq<char>, Seq<char>)> {
    if exists|i: int| 0 <= i < line.len() && line[i] == '=' {
        let i = choose|i: int|
            0 <= i < line.len() && line[i] == '=' && forall|j: int| 0 <= j < i ==> line[j] != '=';
        Some((line.take(i), line.skip(i + 1)))
    } else {
        None
    }
}

proof fn lemma_first_eq(line: Seq<char>, i: int)
    requires
        0 <= i < line.len(),
        line[i] == '=',
        forall|j: int| 0 <= j < i ==> line[j] != '=',
    ensures
        split_at_first_eq(line) == Some((line.take(i), line.skip(i + 1))),
{
    let k = choose|k: int|
        0 <= k < line.len() && line[k] == '=' && forall|j: int| 0 <= j < k ==> line[j] != '=';
    if k < i {
        assert(line[k] != '=');
    }
    if i < k {
        assert(line[i] != '=');
    }
}

/// How a progress line is read.
pub open spec fn progress_line_spec(line: Seq<char>) -> (int, Seq<char>) {
    match split_at_first_eq(line) {
        Some((key, value)) => if key == "out_time_us"@ || key == "out_time_ms"@ {
            (0, value)
        } else if key == "speed"@ {
            (1, value)
        } else if key == "progress"@ {
            (2, value)
        } else {
            (3, Seq::empty())
        },
        None => (3, Seq::empty()),
    }
}

/// Reads one line of FFmpeg's `-progress pipe:1` output.
pub fn classify_progress_line(line: &str) -> (r: ProgressLine)
    ensures
        ({
            let (kind, value) = progress_line_spec(line@);
            &&& kind == 0 ==> (r matches ProgressLine::Elapsed(v) && v@ == value)
            &&& kind == 1 ==> (r matches ProgressLine::Speed(v) && v@ == value)
            &&& kind == 2 ==> r == ProgressLine::Progress(value == "end"@)
            &&& kind == 3 ==> r == ProgressLine::Other
        }),
{
    let v = chars_of(line);
    let mut i: usize = 0;
    while i < v.len() && v[i] != '='
        invariant
            i <= v.len(),
            v@ == line@,
            forall|j: int| 0 <= j < i ==> line@[j] != '=',
        decreases v.len() - i,
    {
        i = i + 1;
    }
    if i == v.len() {
        return ProgressLine::Other;
    }
    proof {
        lemma_first_eq(line@, i as int);
    }
    let mut key: Vec<char> = Vec::new();
    let mut k: usize = 0;
    while k < i
        invariant
            k <= i < v.len(),
            v@ == line@,
            key@ == line@.take(k as int),
        decreases i - k,
    {
        key.push(v[k]);
        k = k + 1;
        assert(key@ =~= line@.take(k as int));
    }
    let mut value: Vec<char> = Vec::new();
    let mut k: usize = i + 1;
    while k < v.len()
        invariant
            i < k <= v.len(),
            v@ == line@,
            value@ == line@.subrange(i + 1, k as int),
        decreases v.len() - k,
    {
        value.push(v[k]);
        k = k + 1;
        assert(value@ =~= line@.subrange(i + 1, k as int));
    }
    assert(value@ =~= line@.skip(i + 1));
    let key = string_of(&key);
    let value = string_of(&value);
    if str_eq(key.as_str(), "out_time_us") || str_eq(key.as_str(), "out_time_ms") {
        ProgressLine::Elapsed(value)
    } else if str_eq(key.as_str(), "speed") {
        ProgressLine::Speed(value)
    } else if str_eq(key.as_str(), "progress") {
        ProgressLine::Progress(str_eq(value.as_str(), "end"))
    } else {
        ProgressLine::Other
    }
}

/// What a render has reported so far: the last `out_time` value and the last
/// speed, as FFmpeg printed them.
#[derive(Debug, Clone)]
pub struct RenderProgress {
    pub elapsed: Option<String>,
    pub speed: Option<String>,
}

/// The reported values of a render, as text.
pub struct RenderProgressView {
    pub elapsed: Option<Seq<char>>,
    pub speed: Option<Seq<char>>,
}

impl View for RenderProgress {
    type V = RenderProgressView;

    open spec fn view(&self) -> RenderProgressView {
        RenderProgressView {
            elapsed: crate::broadcast::profile::opt_view(self.elapsed),
            speed: crate::broadcast::profile::opt_view(self.speed),
        }
    }
}

/// What reading one progress line does to the reported values, and whether a
/// progress event is due (`Some(true)` when it is the final one).
pub open spec fn progress_apply_spec(p: RenderProgressView, line: Seq<char>) -> (
    RenderProgressView,
    Option<bool>,
) {
    let (kind, value) = progress_line_spec(line);
    if kind == 0 {
        (RenderProgressView { elapsed: Some(value), ..p }, None)
    } else if kind == 1 {
        (RenderProgressView { speed: Some(value), ..p }, None)
    } else if kind == 2 {
        (p, Some(value == "end"@))
    } else {
        (p, None)
    }
}

impl RenderProgress {
    /// Nothing reported yet.
    pub fn new() -> (r: Self)
        ensures
            r@.elapsed is None,
            r@.speed is None,
    {
        RenderProgress { elapsed: None, speed: None }
    }

    /// Reads one line of FFmpeg's progress output: an `out_time` or `speed`
    /// line updates the values, a `progress` line asks for an event.
    pub fn apply(&mut self, line: &str) -> (r: Option<bool>)
        ensures
            (final(self)@, r) == progress_apply_spec(old(self)@, line@),
    {
        match classify_progress_line(line) {
            ProgressLine::Elapsed(v) => {
                self.elapsed = Some(v);
                None
            },
            ProgressLine::Speed(v) => {
                self.speed = Some(v);
                None
            },
            ProgressLine::Progress(end) => Some(end),
            ProgressLine::Other => None,
        }
    }
}

/// The message of a progress event.
pub fn progress_message(end: bool) -> (r: String)
    ensures
        r@ == (if end {
            "Finalizando render."@
        } else {
            "Renderizando video."@
        }),
{
    if end {
        lit("Finalizando render.")
    } else {
        lit("Renderizando video.")
    }
}

/// The filter graph of a render: background crop, cover scaled to `cover_px`
/// and rotated at `loop_speed` turns per minute, the disc mask scaled to
/// `mask_px`, all overlaid on a 1080x1080 frame.
pub open spec fn turn_filter_spec(cover_px: nat, mask_px: nat, loop_speed: Seq<char>) -> Seq<char> {
    "[0:v]scale=1296:1296,crop=1080:1080:((in_w-out_w)/2):((in_h-out_h)/2)[bg];[1:v]scale="@
        + crate::text::decimal(cover_px) + ":"@ + crate::text::decimal(cover_px)
        + ",pad=1080:1080:(ow-iw)/2:(oh-ih)/2,format=rgba[scaled];[scaled]rotate=2*PI*"@
        + loop_speed
        + "*t/60:c=none:ow=rotw(1080):oh=roth(1080),scale=1080:1080[rotated];[2:v]scale="@
        + crate::text::decimal(mask_px) + ":"@ + crate::text::decimal(mask_px)
        + ",pad=1080:1080:(ow-iw)/2:(oh-ih)/2,format=gray[mask];[rotated][mask]alphamerge[masked];[bg][masked]overlay=0:0:format=auto,format=yuv420p[vout]"@
}

/// The FFmpeg filter graph for given pixel sizes and formatted speed.
pub fn turn_filter_text(cover_px: u64, mask_px: u64, loop_speed: &str) -> (r: String)
    ensures
        r@ == turn_filter_spec(cover_px as nat, mask_px as nat, loop_speed@),
{
    let cover = crate::text::decimal_string(cover_px);
    let mask = crate::text::decimal_string(mask_px);
    lit("[0:v]scale=1296:1296,crop=1080:1080:((in_w-out_w)/2):((in_h-out_h)/2)[bg];[1:v]scale=")
        .concat(cover.as_str()).concat(":").concat(cover.as_str()).concat(
        ",pad=1080:1080:(ow-iw)/2:(oh-ih)/2,format=rgba[scaled];[scaled]rotate=2*PI*",
    ).concat(loop_speed).concat(
        "*t/60:c=none:ow=rotw(1080):oh=roth(1080),scale=1080:1080[rotated];[2:v]scale=",
    ).concat(mask.as_str()).concat(":").concat(mask.as_str()).concat(
        ",pad=1080:1080:(ow-iw)/2:(oh-ih)/2,format=gray[mask];[rotated][mask]alphamerge[masked];[bg][masked]overlay=0:0:format=auto,format=yuv420p[vout]",
    )
}

/// The arguments of a render: a color background of `duration`, the looped
/// cover, the mask, the audio trimmed to `start`..`end` when given, the filter
/// graph, H.264/AAC output with progress on stdout, overwriting `output`.
pub open spec fn turn_args_spec(
    duration: Seq<char>,
    background: Seq<char>,
    cover: Seq<char>,
    mask: Seq<char>,
    start: Option<Seq<char>>,
    end: Option<Seq<char>>,
    audio: Seq<char>,
    filter: Seq<char>,
    output: Seq<char>,
) -> Seq<Seq<char>> {
    seq![
        "-hide_banner"@,
        "-f"@,
        "lavfi"@,
        "-t"@,
        duration,
        "-i"@,
        "color=c="@ + background + ":s=1080x1080"@,
        "-loop"@,
        "1"@,
        "-t"@,
        duration,
        "-i"@,
        cover,
        "-i"@,
        mask,
    ] + (match start {
        Some(s) => seq!["-ss"@, s],
        None => Seq::empty(),
    }) + (match end {
        Some(e) => seq!["-to"@, e],
        None => Seq::empty(),
    }) + seq![
        "-i"@,
        audio,
        "-filter_complex"@,
        filter,
        "-map"@,
        "[vout]"@,
        "-map"@,
        "3:a:0"@,
        "-t"@,
        duration,
        "-c:v"@,
        "libx264"@,
        "-c:a"@,
        "aac"@,
        "-b:a"@,
        "192k"@,
        "-pix_fmt"@,
        "yuv420p"@,
        "-movflags"@,
        "+faststart"@,
        "-progress"@,
        "pipe:1"@,
        "-nostats"@,
        "-y"@,
        output,
    ]
}

/// The FFmpeg command line of a render, from already formatted values.
pub fn turn_ffmpeg_args(
    duration: &str,
    background: &str,
    cover: &str,
    mask: &str,
    start: Option<String>,
    end: Option<String>,
    audio: &str,
    filter: &str,
    output: &str,
) -> (args: Vec<String>)
    ensures
        views(args@) == turn_args_spec(
            duration@,
            background@,
            cover@,
            mask@,
            crate::broadcast::profile::opt_view(start),
            crate::broadcast::profile::opt_view(end),
            audio@,
            filter@,
            output@,
        ),
{
    let mut args: Vec<String> = Vec::new();
    push_string(&mut args, lit("-hide_banner"));
    push_string(&mut args, lit("-f"));
    push_string(&mut args, lit("lavfi"));
    push_string(&mut args, lit("-t"));
    push_string(&mut args, lit(duration));
    push_string(&mut args, lit("-i"));
    push_string(&mut args, lit("color=c=").concat(background).concat(":s=1080x1080"));
    push_string(&mut args, lit("-loop"));
    push_string(&mut args, lit("1"));
    push_string(&mut args, lit("-t"));
    push_string(&mut args, lit(duration));
    push_string(&mut args, lit("-i"));
    push_string(&mut args, lit(cover));
    push_string(&mut args, lit("-i"));
    push_string(&mut args, lit(mask));
    let ghost head = views(args@);
    match start {
        Some(s) => {
            push_string(&mut args, lit("-ss"));
            push_string(&mut args, s);
        },
        None => {},
    }
    let ghost with_start = views(args@);
    match end {
        Some(e) => {
            push_string(&mut args, lit("-to"));
            push_string(&mut args, e);
        },
        None => {},
    }
    let ghost with_end = views(args@);
    push_string(&mut args, lit("-i"));
    push_string(&mut args, lit(audio));
    push_string(&mut args, lit("-filter_complex"));
    push_string(&mut args, lit(filter));
    push_string(&mut args, lit("-map"));
    push_string(&mut args, lit("[vout]"));
    push_string(&mut args, lit("-map"));
    push_string(&mut args, lit("3:a:0"));
    push_string(&mut args, lit("-t"));
    push_string(&mut args, lit(duration));
    push_string(&mut args, lit("-c:v"));
    push_string(&mut args, lit("libx264"));
    push_string(&mut args, lit("-c:a"));
    push_string(&mut args, lit("aac"));
    push_string(&mut args, lit("-b:a"));
    push_string(&mut args, lit("192k"));
    push_string(&mut args, lit("-pix_fmt"));
    push_string(&mut args, lit("yuv420p"));
    push_string(&mut args, lit("-movflags"));
    push_string(&mut args, lit("+faststart"));
    push_string(&mut args, lit("-progress"));
    push_string(&mut args, lit("pipe:1"));
    push_string(&mut args, lit("-nostats"));
    push_string(&mut args, lit("-y"));
    push_string(&mut args, lit(output));
    assert(views(args@) =~= turn_args_spec(
        duration@,
        background@,
        cover@,
        mask@,
        crate::broadcast::profile::opt_view(start),
        crate::broadcast::profile::opt_view(end),
        audio@,
        filter@,
        output@,
    ));
    args
}

} // verus!
