//! The durable broadcast queue: its entries, how a playlist snapshot is
//! appended, and how an entry is titled.
use vstd::prelude::*;
use vstd::string::StringExecFns;

use crate::broadcast::profile::opt_view;
use crate::text::{lit, trim, trim_spec, trimmed};

verus! {

/// One row of the broadcast queue.
#[derive(Debug, Clone)]
pub struct BroadcastQueueEntry {
    pub id: String,
    pub library_id: String,
    pub track_id: String,
    pub playlist_path: String,
    pub playlist_name: String,
    pub source_path: String,
    pub title: String,
    pub artist: Option<String>,
    pub duration_seconds: Option<u64>,
    pub position: i64,
    pub status: String,
    pub error: Option<String>,
    pub inserted_at: String,
    pub updated_at: String,
}

/// The mathematical content of a [`BroadcastQueueEntry`].
pub struct QueueEntryView {
    pub id: Seq<char>,
    pub library_id: Seq<char>,
    pub track_id: Seq<char>,
    pub playlist_path: Seq<char>,
    pub playlist_name: Seq<char>,
    pub source_path: Seq<char>,
    pub title: Seq<char>,
    pub artist: Option<Seq<char>>,
    pub duration_seconds: Option<u64>,
    pub position: i64,
    pub status: Seq<char>,
    pub error: Option<Seq<char>>,
    pub inserted_at: Seq<char>,
    pub updated_at: Seq<char>,
}

impl View for BroadcastQueueEntry {
    type V = QueueEntryView;

    open spec fn view(&self) -> QueueEntryView {
        QueueEntryView {
            id: self.id@,
            library_id: self.library_id@,
            track_id: self.track_id@,
            playlist_path: self.playlist_path@,
            playlist_name: self.playlist_name@,
            source_path: self.source_path@,
            title: self.title@,
            artist: opt_view(self.artist),
            duration_seconds: self.duration_seconds,
            position: self.position,
            status: self.status@,
            error: opt_view(self.error),
            inserted_at: self.inserted_at@,
            updated_at: self.updated_at@,
        }
    }
}

/// A copy of an optional string holding the same characters.
pub fn copy_opt_string(o: &Option<String>) -> (r: Option<String>)
    ensures
        opt_view(r) == opt_view(*o),
{
    match o {
        Some(s) => Some(s.clone()),
        None => None,
    }
}

impl BroadcastQueueEntry {
    /// A copy holding the same values.
    pub fn duplicate(&self) -> (r: Self)
        ensures
            r@ == self@,
    {
        BroadcastQueueEntry {
            id: self.id.clone(),
            library_id: self.library_id.clone(),
            track_id: self.track_id.clone(),
            playlist_path: self.playlist_path.clone(),
            playlist_name: self.playlist_name.clone(),
            source_path: self.source_path.clone(),
            title: self.title.clone(),
            artist: copy_opt_string(&self.artist),
            duration_seconds: self.duration_seconds,
            position: self.position,
            status: self.status.clone(),
            error: copy_opt_string(&self.error),
            inserted_at: self.inserted_at.clone(),
            updated_at: self.updated_at.clone(),
        }
    }
}

/// `{artist} — {title}` when the artist is not blank, otherwise the title.
pub open spec fn display_title_spec(artist: Option<Seq<char>>, title: Seq<char>) -> Seq<char> {
    match artist {
        Some(a) => if trim_spec(a).len() > 0 {
            a + " — "@ + title
        } else {
            title
        },
        None => title,
    }
}

/// The title shown and sent as stream metadata for an entry.
pub fn display_title(entry: &BroadcastQueueEntry) -> (r: String)
    ensures
        r@ == display_title_spec(entry@.artist, entry@.title),
{
    match &entry.artist {
        Some(artist) => {
            if !trim(artist.as_str()).is_empty() {
                return artist.clone().concat(" — ").concat(entry.title.as_str());
            }
            entry.title.clone()
        },
        None => entry.title.clone(),
    }
}

/// One track of an indexed playlist, in playlist order.
#[derive(Debug, Clone)]
pub struct IndexedTrack {
    pub track_id: String,
    pub source_path: Option<String>,
    pub title: Option<String>,
    pub artist: Option<String>,
    pub duration_seconds: Option<u64>,
    pub source_exists: bool,
}

pub struct IndexedTrackView {
    pub track_id: Seq<char>,
    pub source_path: Option<Seq<char>>,
    pub title: Option<Seq<char>>,
    pub artist: Option<Seq<char>>,
    pub duration_seconds: Option<u64>,
    pub source_exists: bool,
}

impl View for IndexedTrack {
    type V = IndexedTrackView;

    open spec fn view(&self) -> IndexedTrackView {
        IndexedTrackView {
            track_id: self.track_id@,
            source_path: opt_view(self.source_path),
            title: opt_view(self.title),
            artist: opt_view(self.artist),
            duration_seconds: self.duration_seconds,
            source_exists: self.source_exists,
        }
    }
}

pub open spec fn track_views(v: Seq<IndexedTrack>) -> Seq<IndexedTrackView> {
    v.map_values(|t: IndexedTrack| t@)
}

/// A queue entry to insert for a playlist track.
#[derive(Debug, Clone)]
pub struct PlannedQueueEntry {
    pub track_id: String,
    pub source_path: String,
    pub title: String,
    pub artist: Option<String>,
    pub duration_seconds: Option<u64>,
    pub position: i64,
}

pub struct PlannedView {
    pub track_id: Seq<char>,
    pub source_path: Seq<char>,
    pub title: Seq<char>,
    pub artist: Option<Seq<char>>,
    pub duration_seconds: Option<u64>,
    pub position: int,
}

impl View for PlannedQueueEntry {
    type V = PlannedView;

    open spec fn view(&self) -> PlannedView {
        PlannedView {
            track_id: self.track_id@,
            source_path: self.source_path@,
            title: self.title@,
            artist: opt_view(self.artist),
            duration_seconds: self.duration_seconds,
            position: self.position as int,
        }
    }
}

pub open spec fn planned_views(v: Seq<PlannedQueueEntry>) -> Seq<PlannedView> {
    v.map_values(|e: PlannedQueueEntry| e@)
}

/// A track can be queued when its source path is set, not blank, and the file
/// still existed when the library was indexed.
pub open spec fn track_available(t: IndexedTrackView) -> bool {
    match t.source_path {
        Some(p) => trim_spec(p).len() > 0 && t.source_exists,
        None => false,
    }
}

/// The entry planned for an available track at `position`; an untitled track is
/// queued as "Sin título".
pub open spec fn planned_entry(t: IndexedTrackView, position: int) -> PlannedView {
    PlannedView {
        track_id: t.track_id,
        source_path: t.source_path.unwrap(),
        title: match t.title {
            Some(title) => title,
            None => "Sin título"@,
        },
        artist: t.artist,
        duration_seconds: t.duration_seconds,
        position,
    }
}

/// The available tracks, in order, numbered from `next`.
pub open spec fn planned_entries(tracks: Seq<IndexedTrackView>, next: int) -> Seq<PlannedView>
    decreases tracks.len(),
{
    if tracks.len() == 0 {
        Seq::empty()
    } else if track_available(tracks[0]) {
        seq![planned_entry(tracks[0], next)] + planned_entries(tracks.drop_first(), next + 1)
    } else {
        planned_entries(tracks.drop_first(), next)
    }
}

/// The entries to append for one playlist and the count of tracks skipped.
#[derive(Debug, Clone)]
pub struct QueueAppendPlan {
    pub entries: Vec<PlannedQueueEntry>,
    pub appended_total: usize,
    pub skipped_missing_total: usize,
}

/// The outcome of appending a playlist to the queue, with the queue after it.
#[derive(Debug, Clone)]
pub struct BroadcastQueueAppendResult {
    pub appended_total: usize,
    pub skipped_missing_total: usize,
    pub queue: Vec<BroadcastQueueEntry>,
}

/// Trims the playlist selection; both the library and the playlist path must be
/// given.
pub fn playlist_selection(library_id: &str, playlist_path: &str) -> (r: Result<
    (String, String),
    String,
>)
    ensures
        r matches Ok((l, p)) ==> l@ == trim_spec(library_id@) && p@ == trim_spec(playlist_path@)
            && l@.len() > 0 && p@.len() > 0,
        r matches Err(e) ==> e@ == "Selecciona una playlist indexada."@ && (trim_spec(
            library_id@,
        ).len() == 0 || trim_spec(playlist_path@).len() == 0),
{
    let library = trimmed(library_id);
    let playlist = trimmed(playlist_path);
    if library.as_str().is_empty() || playlist.as_str().is_empty() {
        return Err(lit("Selecciona una playlist indexada."));
    }
    Ok((library, playlist))
}

/// Plans a playlist snapshot at the end of the queue, whose last position is
/// `last_position`: the available tracks keep their playlist order and take the
/// following positions; the others are counted as skipped. An empty playlist is
/// refused.
pub fn plan_queue_append(tracks: &Vec<IndexedTrack>, last_position: i64) -> (r: Result<
    QueueAppendPlan,
    String,
>)
    requires
        last_position + tracks.len() <= i64::MAX,
    ensures
        r is Err <==> tracks.len() == 0,
        r matches Err(e) ==> e@ == "La playlist no contiene pistas indexadas."@,
        r matches Ok(plan) ==> {
            &&& planned_views(plan.entries@) == planned_entries(
                track_views(tracks@),
                last_position + 1,
            )
            &&& plan.appended_total == plan.entries@.len()
            &&& plan.appended_total + plan.skipped_missing_total == tracks.len()
            &&& plan.skipped_missing_total == unplayable_count(track_views(tracks@))
            &&& forall|k: int|
                0 <= k < plan.entries@.len() ==> planned_from(
                    track_views(tracks@),
                    #[trigger] planned_views(plan.entries@)[k],
                )
        },
{
    proof {
        lemma_planned_plus_unplayable(track_views(tracks@), last_position + 1);
        lemma_planned_entries_available(track_views(tracks@), last_position + 1);
    }
    if tracks.len() == 0 {
        return Err(lit("La playlist no contiene pistas indexadas."));
    }
    let ghost all = track_views(tracks@);
    let mut entries: Vec<PlannedQueueEntry> = Vec::new();
    let mut position = last_position;
    let mut skipped: usize = 0;
    let mut i: usize = 0;
    assert(all.skip(0) =~= all);
    assert(planned_views(entries@) =~= Seq::<PlannedView>::empty());
    while i < tracks.len()
        invariant
            i <= tracks.len(),
            all == track_views(tracks@),
            last_position + tracks.len() <= i64::MAX,
            position == last_position + entries@.len(),
            entries@.len() + skipped == i,
            planned_views(entries@) + planned_entries(all.skip(i as int), position + 1)
                == planned_entries(all, last_position + 1),
        decreases tracks.len() - i,
    {
        let ghost rest = all.skip(i as int);
        assert(rest.drop_first() =~= all.skip(i + 1));
        assert(rest[0] == tracks@[i as int]@);
        let track = &tracks[i];
        let available = match &track.source_path {
            Some(path) => !trim(path.as_str()).is_empty() && track.source_exists,
            None => false,
        };
        if available {
            position = position + 1;
            let source_path = match &track.source_path {
                Some(path) => path.clone(),
                None => String::new(),
            };
            let title = match &track.title {
                Some(title) => title.clone(),
                None => lit("Sin título"),
            };
            let entry = PlannedQueueEntry {
                track_id: track.track_id.clone(),
                source_path,
                title,
                artist: copy_opt_string(&track.artist),
                duration_seconds: track.duration_seconds,
                position,
            };
            let ghost before = planned_views(entries@);
            entries.push(entry);
            assert(planned_views(entries@) =~= before.push(entry@));
            assert(entry@ == planned_entry(rest[0], position as int));
            assert(before.push(entry@) + planned_entries(all.skip(i + 1), position + 1) =~= before
                + (seq![entry@] + planned_entries(rest.drop_first(), position + 1)));
        } else {
            skipped = skipped + 1;
        }
        i = i + 1;
    }
    assert(all.skip(tracks.len() as int) =~= Seq::<IndexedTrackView>::empty());
    assert(planned_views(entries@) =~= planned_views(entries@) + Seq::<PlannedView>::empty());
    let appended = entries.len();
    Ok(QueueAppendPlan { entries, appended_total: appended, skipped_missing_total: skipped })
}

/// The planned entries take consecutive positions from `next`, so a snapshot is
/// appended after everything already queued and keeps playlist order.
pub proof fn lemma_planned_positions_consecutive(tracks: Seq<IndexedTrackView>, next: int)
    ensures
        planned_entries(tracks, next).len() <= tracks.len(),
        forall|k: int|
            0 <= k < planned_entries(tracks, next).len() ==> #[trigger] planned_entries(
                tracks,
                next,
            )[k].position == next + k,
    decreases tracks.len(),
{
    if tracks.len() > 0 {
        if track_available(tracks[0]) {
            lemma_planned_positions_consecutive(tracks.drop_first(), next + 1);
            let rest = planned_entries(tracks.drop_first(), next + 1);
            assert forall|k: int|
                0 <= k < planned_entries(tracks, next).len() implies #[trigger] planned_entries(
                tracks,
                next,
            )[k].position == next + k by {
                if k > 0 {
                    assert(planned_entries(tracks, next)[k] == rest[k - 1]);
                }
            }
        } else {
            lemma_planned_positions_consecutive(tracks.drop_first(), next);
        }
    }
}

/// The tracks that cannot be queued: their file was missing when the library
/// was indexed, or they have no source path, or a blank one.
pub open spec fn unplayable_count(tracks: Seq<IndexedTrackView>) -> nat
    decreases tracks.len(),
{
    if tracks.len() == 0 {
        0
    } else {
        let t = tracks[0];
        let unplayable: nat = if !t.source_exists || t.source_path is None || trim_spec(
            t.source_path.unwrap(),
        ).len() == 0 {
            1
        } else {
            0
        };
        unplayable + unplayable_count(tracks.drop_first())
    }
}

/// Every track is either planned or counted as unplayable: a track whose file
/// is missing, or whose path is absent or blank, is never planned.
pub proof fn lemma_planned_plus_unplayable(tracks: Seq<IndexedTrackView>, next: int)
    ensures
        planned_entries(tracks, next).len() + unplayable_count(tracks) == tracks.len(),
    decreases tracks.len(),
{
    if tracks.len() > 0 {
        if track_available(tracks[0]) {
            lemma_planned_plus_unplayable(tracks.drop_first(), next + 1);
        } else {
            lemma_planned_plus_unplayable(tracks.drop_first(), next);
        }
    }
}

/// `e` was planned from some available track of `tracks`.
pub open spec fn planned_from(tracks: Seq<IndexedTrackView>, e: PlannedView) -> bool {
    exists|j: int|
        0 <= j < tracks.len() && tracks[j].source_exists && tracks[j].source_path == Some(
            e.source_path,
        ) && trim_spec(e.source_path).len() > 0 && e.track_id == #[trigger] tracks[j].track_id
}

/// Every planned entry comes from an available track: nothing whose source is
/// missing is queued.
pub proof fn lemma_planned_entries_available(tracks: Seq<IndexedTrackView>, next: int)
    ensures
        forall|k: int|
            0 <= k < planned_entries(tracks, next).len() ==> planned_from(
                tracks,
                #[trigger] planned_entries(tracks, next)[k],
            ),
    decreases tracks.len(),
{
    if tracks.len() > 0 {
        let tail = tracks.drop_first();
        let rest_next = if track_available(tracks[0]) {
            next + 1
        } else {
            next
        };
        lemma_planned_entries_available(tail, rest_next);
        let rest = planned_entries(tail, rest_next);
        assert forall|k: int| 0 <= k < planned_entries(tracks, next).len() implies planned_from(
            tracks,
            #[trigger] planned_entries(tracks, next)[k],
        ) by {
            let e = planned_entries(tracks, next)[k];
            if track_available(tracks[0]) && k == 0 {
                assert(e.track_id == tracks[0].track_id);
            } else {
                let r = if track_available(tracks[0]) {
                    k - 1
                } else {
                    k
                };
                assert(e == rest[r]);
                assert(planned_from(tail, rest[r]));
                let j = choose|j: int|
                    0 <= j < tail.len() && tail[j].source_exists && tail[j].source_path == Some(
                        rest[r].source_path,
                    ) && trim_spec(rest[r].source_path).len() > 0 && rest[r].track_id
                        == #[trigger] tail[j].track_id;
                assert(tracks[j + 1] == tail[j]);
                assert(e.track_id == tracks[j + 1].track_id);
            }
        }
    }
}

/// The message for deleting one queue row; nothing deleted means the row is the
/// one playing (or already gone).
pub fn queue_removal_result(deleted: usize) -> (r: Result<String, String>)
    ensures
        deleted == 0 ==> (r matches Err(e) && e@ == "No se puede quitar la pista que esta sonando."@),
        deleted != 0 ==> (r matches Ok(m) && m@ == "Pista quitada de la cola."@),
{
    if deleted == 0 {
        return Err(lit("No se puede quitar la pista que esta sonando."));
    }
    Ok(lit("Pista quitada de la cola."))
}

} // verus!
