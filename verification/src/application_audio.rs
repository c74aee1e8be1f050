//! Capturing the Mac's audio output, whole or of one application: the stable
//! identifiers of the targets, which running applications are offered, and in
//! what order.
use vstd::prelude::*;
use std::collections::VecDeque;

use crate::text::{chars_of, lit, str_eq, trim, trim_spec};

verus! {

/// Sample rate of the captured system audio.
pub const APPLICATION_AUDIO_SAMPLE_RATE: u32 = 48000;

/// The persisted identifier of the "whole Mac output" target.
pub const SYSTEM_AUDIO_TARGET_ID: &'static str = "__system_audio__";

/// The label of the "whole Mac output" target.
pub const SYSTEM_AUDIO_LABEL: &'static str = "Salida completa del Mac";

/// How many seconds of captured stereo frames are kept at most.
pub const APPLICATION_AUDIO_BUFFER_SECONDS: usize = 2;

/// Drops the oldest captured frames beyond `maximum_frames`, so that the
/// capture buffer holds at most that many of the latest frames.
pub fn keep_latest_frames(buffer: &mut VecDeque<[i16; 2]>, maximum_frames: usize)
    ensures
        old(buffer)@.len() <= maximum_frames ==> final(buffer)@ == old(buffer)@,
        old(buffer)@.len() > maximum_frames ==> final(buffer)@ == old(buffer)@.skip(
            old(buffer)@.len() - maximum_frames,
        ),
{
    let ghost b0 = buffer@;
    if buffer.len() <= maximum_frames {
        return;
    }
    let excess = buffer.len() - maximum_frames;
    let mut k: usize = 0;
    while k < excess
        invariant
            k <= excess,
            excess == b0.len() - maximum_frames,
            buffer@ == b0.skip(k as int),
        decreases excess - k,
    {
        buffer.pop_front();
        k = k + 1;
        assert(b0.skip(k - 1).drop_first() =~= b0.skip(k as int));
    }
}

/// What a capture is restricted to.
#[derive(Debug, Clone, Copy, PartialEq, Eq)]
pub enum CaptureTarget {
    /// The whole output of the Mac.
    SystemOutput,
    /// The running application at this index of the listing.
    Application(usize),
}

/// The capture target for a persisted target id: the whole output for
/// [`SYSTEM_AUDIO_TARGET_ID`], otherwise the first running application with that
/// bundle identifier, which must be open.
pub fn capture_target(target_id: &str, bundle_ids: &Vec<String>) -> (r: Result<CaptureTarget, String>)
    ensures
        target_id@ == SYSTEM_AUDIO_TARGET_ID@ ==> r == Ok::<CaptureTarget, String>(
            CaptureTarget::SystemOutput,
        ),
        target_id@ != SYSTEM_AUDIO_TARGET_ID@ ==> match r {
            Ok(CaptureTarget::Application(i)) => i < bundle_ids@.len() && bundle_ids@[i as int]@
                == target_id@ && forall|j: int| 0 <= j < i ==> #[trigger] bundle_ids@[j]@ != target_id@,
            Ok(CaptureTarget::SystemOutput) => false,
            Err(e) => e@ == "La aplicación seleccionada ya no está abierta o disponible."@ && forall|
                j: int,
            |
                0 <= j < bundle_ids@.len() ==> #[trigger] bundle_ids@[j]@ != target_id@,
        },
{
    if str_eq(target_id, SYSTEM_AUDIO_TARGET_ID) {
        return Ok(CaptureTarget::SystemOutput);
    }
    let mut i: usize = 0;
    while i < bundle_ids.len()
        invariant
            i <= bundle_ids.len(),
            target_id@ != SYSTEM_AUDIO_TARGET_ID@,
            forall|j: int| 0 <= j < i ==> #[trigger] bundle_ids@[j]@ != target_id@,
        decreases bundle_ids.len() - i,
    {
        if str_eq(bundle_ids[i].as_str(), target_id) {
            return Ok(CaptureTarget::Application(i));
        }
        i = i + 1;
    }
    Err(lit("La aplicación seleccionada ya no está abierta o disponible."))
}

/// Captured audio must be 32-bit floating-point PCM.
pub fn check_sample_format(is_float: bool, bits_per_channel: Option<u32>) -> (r: Result<(), String>)
    ensures
        r is Ok <==> (is_float && bits_per_channel == Some(32u32)),
        r matches Err(e) ==> e@
            == "La aplicación entregó un formato de audio no soportado; se esperaba PCM Float32."@,
{
    if is_float && bits_per_channel == Some(32u32) {
        Ok(())
    } else {
        Err(lit("La aplicación entregó un formato de audio no soportado; se esperaba PCM Float32."))
    }
}

/// The stereo frames of two planar channels: one frame per pair of samples,
/// as many as the shorter channel has.
pub fn planar_frames(left: &Vec<i16>, right: &Vec<i16>) -> (r: Vec<[i16; 2]>)
    ensures
        r@.len() == if left@.len() <= right@.len() {
            left@.len()
        } else {
            right@.len()
        },
        forall|k: int| 0 <= k < r@.len() ==> #[trigger] r@[k] == [left@[k], right@[k]],
{
    let n = if left.len() <= right.len() {
        left.len()
    } else {
        right.len()
    };
    let mut out: Vec<[i16; 2]> = Vec::new();
    let mut k: usize = 0;
    while k < n
        invariant
            k <= n,
            n <= left.len(),
            n <= right.len(),
            out@.len() == k,
            forall|m: int| 0 <= m < k ==> #[trigger] out@[m] == [left@[m], right@[m]],
        decreases n - k,
    {
        out.push([left[k], right[k]]);
        k = k + 1;
    }
    out
}

/// The stereo frames of interleaved samples with `channels` channels: one frame
/// per whole group, left from the first channel and right from the second, or
/// from the first again when the audio is mono; a trailing partial group is
/// dropped.
pub fn interleaved_frames(samples: &Vec<i16>, channels: usize) -> (r: Vec<[i16; 2]>)
    requires
        channels > 0,
    ensures
        r@.len() == samples@.len() / (channels as nat),
        forall|k: int|
            0 <= k < r@.len() ==> #[trigger] r@[k] == [
                samples@[k * channels],
                if channels > 1 {
                    samples@[k * channels + 1]
                } else {
                    samples@[k * channels]
                },
            ],
{
    let frames = samples.len() / channels;
    let mut out: Vec<[i16; 2]> = Vec::new();
    let mut k: usize = 0;
    while k < frames
        invariant
            k <= frames,
            frames == samples.len() / channels,
            channels > 0,
            out@.len() == k,
            forall|m: int|
                0 <= m < k ==> #[trigger] out@[m] == [
                    samples@[m * channels],
                    if channels > 1 {
                        samples@[m * channels + 1]
                    } else {
                        samples@[m * channels]
                    },
                ],
        decreases frames - k,
    {
        assert((k + 1) * channels <= samples.len()) by (nonlinear_arith)
            requires
                k < frames,
                frames == samples.len() / channels,
                channels > 0,
        ;
        assert(k * channels + channels == (k + 1) * channels) by (nonlinear_arith);
        let base = k * channels;
        let left = samples[base];
        let right = if channels > 1 {
            samples[base + 1]
        } else {
            left
        };
        out.push([left, right]);
        k = k + 1;
    }
    out
}

/// A running application whose audio can be captured.
#[derive(Debug, Clone)]
pub struct ApplicationAudioDevice {
    pub id: String,
    pub label: String,
    pub process_id: i32,
}

/// An application as text and number.
pub struct DeviceView {
    pub id: Seq<char>,
    pub label: Seq<char>,
    pub process_id: i32,
}

impl View for ApplicationAudioDevice {
    type V = DeviceView;

    open spec fn view(&self) -> DeviceView {
        DeviceView { id: self.id@, label: self.label@, process_id: self.process_id }
    }
}

pub open spec fn device_views(s: Seq<ApplicationAudioDevice>) -> Seq<DeviceView> {
    s.map_values(|d: ApplicationAudioDevice| d@)
}

/// An application is offered when it has a bundle identifier and a name that are
/// not blank, and it is not this app itself.
pub fn is_listable_application(id: &str, label: &str, process_id: i32, own_process_id: i32) -> (r:
    bool)
    ensures
        r == (trim_spec(id@).len() > 0 && trim_spec(label@).len() > 0 && process_id
            != own_process_id),
{
    !trim(id).is_empty() && !trim(label).is_empty() && process_id != own_process_id
}

/// Whether an application is offered, on its view.
pub open spec fn listable(d: DeviceView, own_process_id: i32) -> bool {
    trim_spec(d.id).len() > 0 && trim_spec(d.label).len() > 0 && d.process_id != own_process_id
}

/// The offered applications among `s`, in their order.
pub open spec fn listable_only(s: Seq<DeviceView>, own_process_id: i32) -> Seq<DeviceView>
    decreases s.len(),
{
    if s.len() == 0 {
        s
    } else if listable(s.last(), own_process_id) {
        listable_only(s.drop_last(), own_process_id).push(s.last())
    } else {
        listable_only(s.drop_last(), own_process_id)
    }
}

/// What `str::to_lowercase` makes of a text.
pub uninterp spec fn lowercase_of(text: Seq<char>) -> Seq<char>;

/// Calls `str::to_lowercase`.
#[verifier::external_body]
fn lowercase(text: &str) -> (r: String)
    ensures
        r@ == lowercase_of(text@),
{
    text.to_lowercase()
}

/// The order of `str`: by the first character that differs, a proper prefix
/// first.
pub open spec fn text_lt(a: Seq<char>, b: Seq<char>) -> bool
    decreases a.len(),
{
    if a.len() == 0 {
        b.len() > 0
    } else if b.len() == 0 {
        false
    } else if a[0] != b[0] {
        a[0] < b[0]
    } else {
        text_lt(a.drop_first(), b.drop_first())
    }
}

/// Compares two texts in the order of `str`.
fn text_less(a: &Vec<char>, b: &Vec<char>) -> (r: bool)
    ensures
        r == text_lt(a@, b@),
{
    let mut i: usize = 0;
    assert(a@.skip(0) =~= a@);
    assert(b@.skip(0) =~= b@);
    while i < a.len() && i < b.len() && a[i] == b[i]
        invariant
            i <= a.len(),
            i <= b.len(),
            text_lt(a@, b@) == text_lt(a@.skip(i as int), b@.skip(i as int)),
        decreases a.len() - i,
    {
        assert(a@.skip(i as int).drop_first() =~= a@.skip(i + 1));
        assert(b@.skip(i as int).drop_first() =~= b@.skip(i + 1));
        i = i + 1;
    }
    if i == a.len() {
        i < b.len()
    } else if i == b.len() {
        false
    } else {
        a[i] < b[i]
    }
}

/// Applications are listed by name, ignoring case, then by process.
pub open spec fn listed_before_or_with(a: DeviceView, b: DeviceView) -> bool {
    let la = lowercase_of(a.label);
    let lb = lowercase_of(b.label);
    text_lt(la, lb) || (la == lb && a.process_id <= b.process_id)
}

fn listed_before_or_with_exec(a: &ApplicationAudioDevice, b: &ApplicationAudioDevice) -> (r: bool)
    ensures
        r == listed_before_or_with(a@, b@),
{
    let la = lowercase(a.label.as_str());
    let lb = lowercase(b.label.as_str());
    if text_less(&chars_of(la.as_str()), &chars_of(lb.as_str())) {
        true
    } else if str_eq(la.as_str(), lb.as_str()) {
        a.process_id <= b.process_id
    } else {
        false
    }
}

/// Inserts `x` into a listing after every entry that comes before it or with it.
pub open spec fn insert_listed(s: Seq<DeviceView>, x: DeviceView) -> Seq<DeviceView>
    decreases s.len(),
{
    if s.len() == 0 {
        seq![x]
    } else if listed_before_or_with(s.last(), x) {
        s.push(x)
    } else {
        insert_listed(s.drop_last(), x).push(s.last())
    }
}

/// The stable sort of a listing: each entry in turn is inserted after the
/// entries it does not come before.
pub open spec fn sort_listed(s: Seq<DeviceView>) -> Seq<DeviceView>
    decreases s.len(),
{
    if s.len() == 0 {
        s
    } else {
        insert_listed(sort_listed(s.drop_last()), s.last())
    }
}

proof fn lemma_insert_listed_at(s: Seq<DeviceView>, x: DeviceView, j: int)
    requires
        0 <= j <= s.len(),
        forall|k: int| j <= k < s.len() ==> !listed_before_or_with(#[trigger] s[k], x),
        j == 0 || listed_before_or_with(s[j - 1], x),
    ensures
        insert_listed(s, x) == s.insert(j, x),
    decreases s.len(),
{
    if s.len() == 0 {
        assert(s.insert(j, x) =~= seq![x]);
    } else if j == s.len() {
        assert(s.insert(j, x) =~= s.push(x));
    } else {
        assert(!listed_before_or_with(s[s.len() - 1], x));
        lemma_insert_listed_at(s.drop_last(), x, j);
        assert(s.drop_last().insert(j, x).push(s.last()) =~= s.insert(j, x));
    }
}

proof fn lemma_views_after_remove_first(before: Seq<ApplicationAudioDevice>, after: Seq<ApplicationAudioDevice>)
    requires
        before.len() > 0,
        after == before.remove(0),
    ensures
        device_views(after) == device_views(before).drop_first(),
{
    assert(device_views(after) =~= device_views(before).drop_first());
}

fn insert_listed_exec(out: &mut Vec<ApplicationAudioDevice>, x: ApplicationAudioDevice)
    ensures
        device_views(final(out)@) == insert_listed(device_views(old(out)@), x@),
{
    let mut j: usize = out.len();
    while j > 0 && !listed_before_or_with_exec(&out[j - 1], &x)
        invariant
            j <= out.len(),
            forall|k: int| j <= k < out.len() ==> !listed_before_or_with(#[trigger] out@[k]@, x@),
        decreases j,
    {
        j = j - 1;
    }
    proof {
        let v = device_views(out@);
        assert forall|k: int| j <= k < v.len() implies !listed_before_or_with(#[trigger] v[k], x@) by {
            assert(v[k] == out@[k]@);
        }
        if j > 0 {
            assert(v[j - 1] == out@[j - 1]@);
        }
        lemma_insert_listed_at(v, x@, j as int);
    }
    let ghost before = out@;
    out.insert(j, x);
    assert(device_views(out@) =~= device_views(before).insert(j as int, x@));
}

/// Sorts applications by name, ignoring case, then by process; entries that
/// tie keep their order.
pub fn sort_applications(devices: Vec<ApplicationAudioDevice>) -> (r: Vec<ApplicationAudioDevice>)
    ensures
        device_views(r@) == sort_listed(device_views(devices@)),
{
    let ghost all = device_views(devices@);
    let mut out: Vec<ApplicationAudioDevice> = Vec::new();
    let mut rest = devices;
    let mut done: usize = 0;
    let total = rest.len();
    while rest.len() > 0
        invariant
            done + rest.len() == total,
            total == all.len(),
            device_views(rest@) == all.skip(done as int),
            device_views(out@) == sort_listed(all.take(done as int)),
        decreases rest.len(),
    {
        let ghost before = rest@;
        let x = rest.remove(0);
        assert(x@ == all[done as int]) by {
            assert(device_views(before)[0] == before[0]@);
        }
        proof {
            lemma_views_after_remove_first(before, rest@);
            assert(all.skip(done as int).drop_first() =~= all.skip(done + 1));
        }
        insert_listed_exec(&mut out, x);
        assert(all.take(done + 1).drop_last() =~= all.take(done as int));
        done = done + 1;
    }
    assert(all.take(done as int) =~= all);
    out
}

proof fn lemma_text_lt_irreflexive(a: Seq<char>)
    ensures
        !text_lt(a, a),
    decreases a.len(),
{
    if a.len() > 0 {
        lemma_text_lt_irreflexive(a.drop_first());
    }
}

proof fn lemma_text_lt_transitive(a: Seq<char>, b: Seq<char>, c: Seq<char>)
    requires
        text_lt(a, b),
        text_lt(b, c),
    ensures
        text_lt(a, c),
    decreases a.len(),
{
    if a.len() > 0 && b.len() > 0 && c.len() > 0 {
        if a[0] == b[0] && b[0] == c[0] {
            lemma_text_lt_transitive(a.drop_first(), b.drop_first(), c.drop_first());
        }
    }
}

proof fn lemma_text_lt_total(a: Seq<char>, b: Seq<char>)
    requires
        a != b,
    ensures
        text_lt(a, b) || text_lt(b, a),
    decreases a.len(),
{
    if a.len() > 0 && b.len() > 0 && a[0] == b[0] {
        if a.drop_first() == b.drop_first() {
            assert(a =~= seq![a[0]] + a.drop_first());
            assert(b =~= seq![b[0]] + b.drop_first());
        }
        lemma_text_lt_total(a.drop_first(), b.drop_first());
    } else if a.len() == 0 && b.len() == 0 {
        assert(a =~= b);
    }
}

proof fn lemma_listed_total(a: DeviceView, b: DeviceView)
    ensures
        listed_before_or_with(a, b) || listed_before_or_with(b, a),
{
    let la = lowercase_of(a.label);
    let lb = lowercase_of(b.label);
    if la != lb {
        lemma_text_lt_total(la, lb);
    }
}

proof fn lemma_listed_transitive(a: DeviceView, b: DeviceView, c: DeviceView)
    requires
        listed_before_or_with(a, b),
        listed_before_or_with(b, c),
    ensures
        listed_before_or_with(a, c),
{
    let la = lowercase_of(a.label);
    let lb = lowercase_of(b.label);
    let lc = lowercase_of(c.label);
    if text_lt(la, lb) && text_lt(lb, lc) {
        lemma_text_lt_transitive(la, lb, lc);
    }
}

/// Every entry comes before or with the ones after it.
pub open spec fn listed_in_order(s: Seq<DeviceView>) -> bool {
    forall|i: int, j: int|
        0 <= i < j < s.len() ==> #[trigger] listed_before_or_with(s[i], s[j])
}

proof fn lemma_insert_bounded(s: Seq<DeviceView>, x: DeviceView, b: DeviceView)
    requires
        forall|k: int| 0 <= k < s.len() ==> #[trigger] listed_before_or_with(s[k], b),
        listed_before_or_with(x, b),
    ensures
        forall|k: int|
            0 <= k < insert_listed(s, x).len() ==> #[trigger] listed_before_or_with(
                insert_listed(s, x)[k],
                b,
            ),
    decreases s.len(),
{
    if s.len() > 0 && !listed_before_or_with(s.last(), x) {
        let d = s.drop_last();
        assert(listed_before_or_with(s[s.len() - 1], b));
        assert forall|k: int| 0 <= k < d.len() implies #[trigger] listed_before_or_with(d[k], b) by {
            assert(listed_before_or_with(s[k], b));
        }
        lemma_insert_bounded(d, x, b);
        let inner = insert_listed(d, x);
        let r = insert_listed(s, x);
        assert forall|k: int| 0 <= k < r.len() implies #[trigger] listed_before_or_with(r[k], b) by {
            if k < inner.len() {
                assert(listed_before_or_with(inner[k], b));
            }
        }
    } else if s.len() > 0 {
        let r = insert_listed(s, x);
        assert forall|k: int| 0 <= k < r.len() implies #[trigger] listed_before_or_with(r[k], b) by {
            if k < s.len() {
                assert(listed_before_or_with(s[k], b));
            }
        }
    }
}

proof fn lemma_insert_len(s: Seq<DeviceView>, x: DeviceView)
    ensures
        insert_listed(s, x).len() == s.len() + 1,
    decreases s.len(),
{
    if s.len() > 0 && !listed_before_or_with(s.last(), x) {
        lemma_insert_len(s.drop_last(), x);
    }
}

proof fn lemma_insert_in_order(s: Seq<DeviceView>, x: DeviceView)
    requires
        listed_in_order(s),
    ensures
        listed_in_order(insert_listed(s, x)),
    decreases s.len(),
{
    let r = insert_listed(s, x);
    if s.len() == 0 {
    } else if listed_before_or_with(s.last(), x) {
        assert forall|i: int, j: int| 0 <= i < j < r.len() implies #[trigger] listed_before_or_with(
            r[i],
            r[j],
        ) by {
            if j == s.len() && i < s.len() - 1 {
                assert(listed_before_or_with(s[i], s[s.len() - 1]));
                lemma_listed_transitive(s[i], s[s.len() - 1], x);
            }
        }
    } else {
        let d = s.drop_last();
        let last = s.last();
        assert(listed_in_order(d)) by {
            assert forall|i: int, j: int| 0 <= i < j < d.len() implies #[trigger] listed_before_or_with(
                d[i],
                d[j],
            ) by {
                assert(listed_before_or_with(s[i], s[j]));
            }
        }
        lemma_insert_in_order(d, x);
        lemma_listed_total(last, x);
        assert forall|k: int| 0 <= k < d.len() implies #[trigger] listed_before_or_with(d[k], last) by {
            assert(listed_before_or_with(s[k], s[s.len() - 1]));
        }
        lemma_insert_bounded(d, x, last);
        lemma_insert_len(d, x);
        let inner = insert_listed(d, x);
        assert forall|i: int, j: int| 0 <= i < j < r.len() implies #[trigger] listed_before_or_with(
            r[i],
            r[j],
        ) by {
            if j < inner.len() {
                assert(listed_before_or_with(inner[i], inner[j]));
            } else {
                assert(listed_before_or_with(inner[i], last));
            }
        }
    }
}

/// Sorting leaves every entry before or with the ones after it.
pub proof fn lemma_sort_listed_in_order(s: Seq<DeviceView>)
    ensures
        listed_in_order(sort_listed(s)),
    decreases s.len(),
{
    if s.len() > 0 {
        lemma_sort_listed_in_order(s.drop_last());
        lemma_insert_in_order(sort_listed(s.drop_last()), s.last());
    }
}

proof fn lemma_insert_multiset(s: Seq<DeviceView>, x: DeviceView)
    ensures
        insert_listed(s, x).to_multiset() == s.to_multiset().insert(x),
    decreases s.len(),
{
    broadcast use vstd::seq_lib::group_to_multiset_ensures;

    if s.len() == 0 {
        assert(seq![x] =~= s.push(x));
    } else if !listed_before_or_with(s.last(), x) {
        lemma_insert_multiset(s.drop_last(), x);
        assert(s.drop_last().push(s.last()) =~= s);
        assert(s.to_multiset().insert(x) =~= s.drop_last().to_multiset().insert(x).insert(s.last()));
    }
}

/// Sorting neither drops nor adds an entry.
pub proof fn lemma_sort_listed_permutes(s: Seq<DeviceView>)
    ensures
        sort_listed(s).to_multiset() == s.to_multiset(),
    decreases s.len(),
{
    broadcast use vstd::seq_lib::group_to_multiset_ensures;

    if s.len() > 0 {
        lemma_sort_listed_permutes(s.drop_last());
        lemma_insert_multiset(sort_listed(s.drop_last()), s.last());
        assert(s.drop_last().push(s.last()) =~= s);
    }
}

/// Keeps the first of each run of entries with the same identifier.
pub open spec fn dedup_ids(s: Seq<DeviceView>) -> Seq<DeviceView>
    decreases s.len(),
{
    if s.len() <= 1 {
        s
    } else if s[s.len() - 2].id == s.last().id {
        dedup_ids(s.drop_last())
    } else {
        dedup_ids(s.drop_last()).push(s.last())
    }
}

/// The applications offered among `candidates`.
pub open spec fn offered_spec(candidates: Seq<DeviceView>, own_process_id: i32) -> Seq<DeviceView> {
    dedup_ids(sort_listed(listable_only(candidates, own_process_id)))
}

proof fn lemma_dedup_last(s: Seq<DeviceView>)
    requires
        s.len() > 0,
    ensures
        dedup_ids(s).len() > 0,
        dedup_ids(s).last().id == s.last().id,
    decreases s.len(),
{
    if s.len() > 1 {
        lemma_dedup_last(s.drop_last());
    }
}

proof fn lemma_dedup_from(s: Seq<DeviceView>)
    ensures
        forall|k: int| 0 <= k < dedup_ids(s).len() ==> s.contains(#[trigger] dedup_ids(s)[k]),
    decreases s.len(),
{
    if s.len() > 1 {
        let d = s.drop_last();
        lemma_dedup_from(d);
        let r = dedup_ids(s);
        let inner = dedup_ids(d);
        assert forall|k: int| 0 <= k < r.len() implies s.contains(#[trigger] r[k]) by {
            if k < inner.len() {
                assert(d.contains(inner[k]));
                let j = choose|j: int| 0 <= j < d.len() && d[j] == inner[k];
                assert(s[j] == r[k]);
            } else {
                assert(s[s.len() - 1] == r[k]);
            }
        }
    } else if s.len() == 1 {
        assert(s[0] == dedup_ids(s)[0]);
    }
}

proof fn lemma_dedup_neighbours(s: Seq<DeviceView>)
    ensures
        forall|i: int|
            0 <= i < dedup_ids(s).len() - 1 ==> #[trigger] dedup_ids(s)[i].id != dedup_ids(s)[i
                + 1].id,
    decreases s.len(),
{
    if s.len() > 1 {
        let d = s.drop_last();
        lemma_dedup_neighbours(d);
        lemma_dedup_last(d);
        let r = dedup_ids(s);
        let inner = dedup_ids(d);
        assert forall|i: int| 0 <= i < r.len() - 1 implies #[trigger] r[i].id != r[i + 1].id by {
            if i + 1 < inner.len() {
                assert(inner[i].id != inner[i + 1].id);
            }
        }
    }
}

proof fn lemma_dedup_keeps_ids(s: Seq<DeviceView>, k: int)
    requires
        0 <= k < s.len(),
    ensures
        exists|j: int| 0 <= j < dedup_ids(s).len() && #[trigger] dedup_ids(s)[j].id == s[k].id,
    decreases s.len(),
{
    let r = dedup_ids(s);
    if s.len() == 1 {
        assert(r[0].id == s[k].id);
    } else {
        let d = s.drop_last();
        let inner = dedup_ids(d);
        if k < s.len() - 1 {
            lemma_dedup_keeps_ids(d, k);
            let j = choose|j: int| 0 <= j < inner.len() && #[trigger] inner[j].id == d[k].id;
            assert(r[j].id == s[k].id);
        } else if s[s.len() - 2].id == s.last().id {
            lemma_dedup_keeps_ids(d, s.len() - 2);
            let j = choose|j: int| 0 <= j < inner.len() && #[trigger] inner[j].id == d[s.len() - 2].id;
            assert(r[j].id == s[k].id);
        } else {
            assert(r[r.len() - 1].id == s[k].id);
        }
    }
}

proof fn lemma_dedup_in_order(s: Seq<DeviceView>)
    requires
        listed_in_order(s),
    ensures
        listed_in_order(dedup_ids(s)),
    decreases s.len(),
{
    if s.len() > 1 {
        let d = s.drop_last();
        assert(listed_in_order(d)) by {
            assert forall|i: int, j: int| 0 <= i < j < d.len() implies #[trigger] listed_before_or_with(
                d[i],
                d[j],
            ) by {
                assert(listed_before_or_with(s[i], s[j]));
            }
        }
        lemma_dedup_in_order(d);
        lemma_dedup_from(d);
        let r = dedup_ids(s);
        let inner = dedup_ids(d);
        assert forall|i: int, j: int| 0 <= i < j < r.len() implies #[trigger] listed_before_or_with(
            r[i],
            r[j],
        ) by {
            if j < inner.len() {
                assert(listed_before_or_with(inner[i], inner[j]));
            } else {
                assert(d.contains(inner[i]));
                let m = choose|m: int| 0 <= m < d.len() && d[m] == inner[i];
                assert(listed_before_or_with(s[m], s[s.len() - 1]));
            }
        }
    }
}

proof fn lemma_listable_only(s: Seq<DeviceView>, own_process_id: i32)
    ensures
        forall|k: int|
            0 <= k < listable_only(s, own_process_id).len() ==> listable(
                #[trigger] listable_only(s, own_process_id)[k],
                own_process_id,
            ),
        forall|k: int|
            0 <= k < s.len() && listable(#[trigger] s[k], own_process_id) ==> listable_only(
                s,
                own_process_id,
            ).contains(s[k]),
    decreases s.len(),
{
    if s.len() > 0 {
        let d = s.drop_last();
        lemma_listable_only(d, own_process_id);
        let r = listable_only(s, own_process_id);
        let inner = listable_only(d, own_process_id);
        assert forall|k: int| 0 <= k < r.len() implies listable(#[trigger] r[k], own_process_id) by {
            if k < inner.len() {
                assert(listable(inner[k], own_process_id));
            }
        }
        assert forall|k: int| 0 <= k < s.len() && listable(#[trigger] s[k], own_process_id) implies r.contains(
            s[k],
        ) by {
            if k < s.len() - 1 {
                assert(d[k] == s[k]);
                assert(inner.contains(d[k]));
                let m = choose|m: int| 0 <= m < inner.len() && inner[m] == d[k];
                assert(r[m] == s[k]);
            } else {
                assert(r[r.len() - 1] == s[k]);
            }
        }
    }
}

/// The offered applications come sorted by name, ignoring case, then by
/// process.
pub proof fn lemma_offered_in_order(candidates: Seq<DeviceView>, own_process_id: i32)
    ensures
        listed_in_order(offered_spec(candidates, own_process_id)),
{
    let sorted = sort_listed(listable_only(candidates, own_process_id));
    lemma_sort_listed_in_order(listable_only(candidates, own_process_id));
    lemma_dedup_in_order(sorted);
}

/// Every offered application is listable, and no two neighbours share a bundle
/// identifier.
pub proof fn lemma_offered_listable_and_distinct(candidates: Seq<DeviceView>, own_process_id: i32)
    ensures
        forall|k: int|
            0 <= k < offered_spec(candidates, own_process_id).len() ==> listable(
                #[trigger] offered_spec(candidates, own_process_id)[k],
                own_process_id,
            ),
        forall|i: int|
            0 <= i < offered_spec(candidates, own_process_id).len() - 1 ==> #[trigger] offered_spec(
                candidates,
                own_process_id,
            )[i].id != offered_spec(candidates, own_process_id)[i + 1].id,
{
    broadcast use vstd::seq_lib::group_to_multiset_ensures;

    let kept = listable_only(candidates, own_process_id);
    let sorted = sort_listed(kept);
    let r = offered_spec(candidates, own_process_id);
    lemma_listable_only(candidates, own_process_id);
    lemma_sort_listed_permutes(kept);
    lemma_dedup_from(sorted);
    lemma_dedup_neighbours(sorted);
    assert forall|k: int| 0 <= k < r.len() implies listable(#[trigger] r[k], own_process_id) by {
        assert(sorted.contains(r[k]));
        assert(kept.to_multiset().count(r[k]) > 0);
        let m = choose|m: int| 0 <= m < kept.len() && kept[m] == r[k];
        assert(listable(kept[m], own_process_id));
    }
}

/// No listable application is lost: its bundle identifier is offered.
pub proof fn lemma_listable_ids_are_offered(candidates: Seq<DeviceView>, own_process_id: i32, k: int)
    requires
        0 <= k < candidates.len(),
        listable(candidates[k], own_process_id),
    ensures
        exists|j: int|
            0 <= j < offered_spec(candidates, own_process_id).len() && #[trigger] offered_spec(
                candidates,
                own_process_id,
            )[j].id == candidates[k].id,
{
    broadcast use vstd::seq_lib::group_to_multiset_ensures;

    let kept = listable_only(candidates, own_process_id);
    let sorted = sort_listed(kept);
    lemma_listable_only(candidates, own_process_id);
    assert(kept.contains(candidates[k]));
    lemma_sort_listed_permutes(kept);
    assert(sorted.to_multiset().count(candidates[k]) > 0);
    assert(sorted.contains(candidates[k]));
    let m = choose|m: int| 0 <= m < sorted.len() && sorted[m] == candidates[k];
    lemma_dedup_keeps_ids(sorted, m);
    let r = dedup_ids(sorted);
    assert(r == offered_spec(candidates, own_process_id));
    let j = choose|j: int| 0 <= j < r.len() && #[trigger] r[j].id == sorted[m].id;
    assert(offered_spec(candidates, own_process_id)[j].id == candidates[k].id);
}

/// The applications offered for capture: the listable ones, sorted by name
/// ignoring case then by process, keeping one of each run with the same
/// bundle identifier.
pub fn offered_applications(candidates: Vec<ApplicationAudioDevice>, own_process_id: i32) -> (r: Vec<
    ApplicationAudioDevice,
>)
    ensures
        device_views(r@) == offered_spec(device_views(candidates@), own_process_id),
{
    let ghost all = device_views(candidates@);
    let mut kept: Vec<ApplicationAudioDevice> = Vec::new();
    let mut rest = candidates;
    let mut done: usize = 0;
    let total = rest.len();
    while rest.len() > 0
        invariant
            done + rest.len() == total,
            total == all.len(),
            device_views(rest@) == all.skip(done as int),
            device_views(kept@) == listable_only(all.take(done as int), own_process_id),
        decreases rest.len(),
    {
        let ghost before = rest@;
        let x = rest.remove(0);
        assert(x@ == all[done as int]) by {
            assert(device_views(before)[0] == before[0]@);
        }
        proof {
            lemma_views_after_remove_first(before, rest@);
            assert(all.skip(done as int).drop_first() =~= all.skip(done + 1));
        }
        assert(all.take(done + 1).drop_last() =~= all.take(done as int));
        if is_listable_application(x.id.as_str(), x.label.as_str(), x.process_id, own_process_id) {
            let ghost k = kept@;
            kept.push(x);
            assert(device_views(kept@) =~= device_views(k).push(x@));
        }
        done = done + 1;
    }
    assert(all.take(done as int) =~= all);
    let sorted = sort_applications(kept);
    let ghost sv = device_views(sorted@);
    let mut out: Vec<ApplicationAudioDevice> = Vec::new();
    let mut rest = sorted;
    let mut prev: Option<String> = None;
    let mut done: usize = 0;
    let total = rest.len();
    while rest.len() > 0
        invariant
            done + rest.len() == total,
            total == sv.len(),
            device_views(rest@) == sv.skip(done as int),
            device_views(out@) == dedup_ids(sv.take(done as int)),
            done == 0 <==> prev is None,
            prev matches Some(p) ==> done > 0 && p@ == sv[done - 1].id,
        decreases rest.len(),
    {
        let ghost before = rest@;
        let x = rest.remove(0);
        assert(x@ == sv[done as int]) by {
            assert(device_views(before)[0] == before[0]@);
        }
        proof {
            lemma_views_after_remove_first(before, rest@);
            assert(sv.skip(done as int).drop_first() =~= sv.skip(done + 1));
        }
        let ghost t = sv.take(done + 1);
        assert(t.drop_last() =~= sv.take(done as int));
        let same = match &prev {
            Some(p) => str_eq(p.as_str(), x.id.as_str()),
            None => false,
        };
        let id = x.id.clone();
        if !same {
            let ghost o = out@;
            out.push(x);
            assert(device_views(out@) =~= device_views(o).push(x@));
        }
        if done > 0 {
            assert(t[t.len() - 2] == sv[done - 1]);
        }
        prev = Some(id);
        done = done + 1;
    }
    assert(sv.take(done as int) =~= sv);
    out
}

} // verus!
