//! The monthly rotation: which archives move, and where to.

use crate::clock::{utc_now, Instant};
use crate::config::Config;
use crate::retention::{is_archive, paths_of, ArchiveFile, ARCHIVE_EXTENSION};
use crate::text::{name_has_extension, same_text, texts};
use crate::validation::{join, joined};
use vstd::prelude::*;

verus! {

/// The directory, below the month's, that holds the monthly archives.
pub const MONTHLY_FOLDER: &'static str = "ASA";

/// The archives that a monthly rotation would move.
#[derive(Debug)]
pub struct MonthlyArchivePreview {
    pub files: Vec<String>,
}

/// What a monthly rotation did.
#[derive(Debug)]
pub struct MonthlyArchiveResult {
    pub archived: usize,
    pub destination: String,
}

/// One archive to move: copy `source` to `target`, then delete `source`.
#[derive(Debug)]
pub struct ArchiveMove {
    pub source: String,
    pub target: String,
}

/// What a monthly rotation is to do.
#[derive(Debug)]
pub struct MonthlyArchivePlan {
    /// The root of the monthly archives.
    pub destination: String,
    /// The directory of this month's archives, which is made before the first move.
    pub archive_dir: String,
    /// The archives to move, the oldest first.
    pub moves: Vec<ArchiveMove>,
}

/// Whether a file is an archive that was last changed in the month of `now`.
pub open spec fn dated_in_month(file: ArchiveFile, now: Instant) -> bool {
    is_archive(file) && match file.modified {
        Some(at) => at.in_calendar() && at.month_label() == now.month_label(),
        None => false,
    }
}

/// The test that a file is an archive of the month of `now`.
pub open spec fn is_of_month(now: Instant) -> spec_fn(ArchiveFile) -> bool {
    |file: ArchiveFile| dated_in_month(file, now)
}

/// Whether `a` was last changed strictly before `b`.
pub open spec fn older(a: ArchiveFile, b: ArchiveFile) -> bool {
    match (a.modified, b.modified) {
        (Some(x), Some(y)) => x.precedes(y),
        _ => false,
    }
}

/// The place of the oldest file; of several that are equally old, the first.
pub open spec fn first_oldest(files: Seq<ArchiveFile>) -> int
    decreases files.len(),
{
    if files.len() <= 1 {
        0
    } else {
        let best = first_oldest(files.drop_last());
        if older(files.last(), files[best]) {
            files.len() - 1
        } else {
            best
        }
    }
}

/// The two oldest files, the older first; of files that are equally old, those that come
/// first. Fewer than two where there are fewer.
pub open spec fn two_oldest(files: Seq<ArchiveFile>) -> Seq<ArchiveFile> {
    if files.len() == 0 {
        Seq::empty()
    } else {
        let first = first_oldest(files);
        let rest = files.remove(first);
        if rest.len() == 0 {
            seq![files[first]]
        } else {
            seq![files[first], rest[first_oldest(rest)]]
        }
    }
}

/// Whether a file of the sequence lies at the path.
pub open spec fn has_path(files: Seq<ArchiveFile>, path: Seq<char>) -> bool {
    exists|k: int| 0 <= k < files.len() && (#[trigger] files[k]).path@ == path
}

/// Whether no two files of the sequence lie at one path.
pub open spec fn distinct_paths(files: Seq<ArchiveFile>) -> bool {
    forall|a: int, b: int|
        0 <= a < b < files.len() ==> (#[trigger] files[a]).path@ != (#[trigger] files[b]).path@
}

/// The files of a listing, each path once: where a path is listed again, as it is when two
/// jobs share a destination directory, the first listing of it stands.
pub open spec fn first_by_path(files: Seq<ArchiveFile>) -> Seq<ArchiveFile>
    decreases files.len(),
{
    if files.len() == 0 {
        Seq::empty()
    } else {
        let earlier = first_by_path(files.drop_last());
        if has_path(earlier, files.last().path@) {
            earlier
        } else {
            earlier.push(files.last())
        }
    }
}

/// The archives that a monthly rotation at `now` moves: the two oldest of the month, each
/// archive counted once however often it is listed.
pub open spec fn monthly_candidates(files: Seq<ArchiveFile>, now: Instant) -> Seq<ArchiveFile> {
    two_oldest(first_by_path(files).filter(is_of_month(now)))
}

/// The directory of the monthly archives of the month of `now`, below `destination`.
pub open spec fn monthly_dir(destination: Seq<char>, now: Instant) -> Seq<char> {
    joined(joined(destination, now.month_label()), MONTHLY_FOLDER@)
}

/// The oldest file is a file, and none is older.
pub proof fn lemma_first_oldest(files: Seq<ArchiveFile>)
    requires
        files.len() > 0,
    ensures
        0 <= first_oldest(files) < files.len(),
        forall|k: int| 0 <= k < files.len() ==> !older(#[trigger] files[k], files[first_oldest(files)]),
    decreases files.len(),
{
    if files.len() > 1 {
        let front = files.drop_last();
        lemma_first_oldest(front);
        let best = first_oldest(front);
        assert(front[best] == files[best]);
        assert forall|k: int| 0 <= k < files.len() implies !older(
            #[trigger] files[k],
            files[first_oldest(files)],
        ) by {
            if k < files.len() - 1 {
                assert(front[k] == files[k]);
            }
        }
    }
}

/// Where the time of every file is known, the oldest file is older than all that stand
/// before it: of files that are equally old, the first is taken.
pub proof fn lemma_first_oldest_comes_first(files: Seq<ArchiveFile>)
    requires
        files.len() > 0,
        forall|k: int| 0 <= k < files.len() ==> (#[trigger] files[k]).modified is Some,
    ensures
        forall|k: int|
            0 <= k < first_oldest(files) ==> older(files[first_oldest(files)], #[trigger] files[k]),
    decreases files.len(),
{
    if files.len() > 1 {
        let front = files.drop_last();
        assert forall|k: int| 0 <= k < front.len() implies (#[trigger] front[k]).modified is Some by {
            assert(front[k] == files[k]);
        }
        lemma_first_oldest(front);
        lemma_first_oldest_comes_first(front);
        let best = first_oldest(front);
        assert(front[best] == files[best]);
        assert forall|k: int| 0 <= k < first_oldest(files) implies older(
            files[first_oldest(files)],
            #[trigger] files[k],
        ) by {
            assert(front[k] == files[k]);
            assert(!older(front[k], front[best]));
        }
    }
}

/// The candidates of a rotation are at most two files, the older first, and no file that
/// stays behind is older than one that is moved.
pub proof fn lemma_two_oldest(files: Seq<ArchiveFile>)
    ensures
        two_oldest(files).len() <= 2,
        two_oldest(files).len() == if files.len() < 2 {
            files.len()
        } else {
            2
        },
        forall|c: int|
            0 <= c < two_oldest(files).len() ==> files.contains(#[trigger] two_oldest(files)[c]),
        two_oldest(files).len() == 2 ==> !older(two_oldest(files)[1], two_oldest(files)[0]),
        forall|k: int|
            0 <= k < files.len() && two_oldest(files).len() > 0 ==> !older(
                #[trigger] files[k],
                two_oldest(files)[0],
            ),
        forall|k: int|
            0 <= k < files.len() && two_oldest(files).len() == 2 && k != first_oldest(files)
                ==> !older(#[trigger] files[k], two_oldest(files)[1]),
{
    if files.len() > 0 {
        lemma_first_oldest(files);
        let first = first_oldest(files);
        let rest = files.remove(first);
        assert(files.contains(files[first]));
        if rest.len() > 0 {
            lemma_first_oldest(rest);
            let second = first_oldest(rest);
            let at = if second < first {
                second
            } else {
                second + 1
            };
            assert(rest[second] == files[at]);
            assert(files.contains(files[at]));
            assert forall|k: int|
                0 <= k < files.len() && k != first implies !older(
                #[trigger] files[k],
                two_oldest(files)[1],
            ) by {
                if k < first {
                    assert(rest[k] == files[k]);
                } else {
                    assert(rest[k - 1] == files[k]);
                }
            }
        }
    }
}

/// A listing with each path once holds only files of the listing, holds no path twice, and
/// holds every path of the listing.
pub proof fn lemma_first_by_path(files: Seq<ArchiveFile>)
    ensures
        forall|k: int|
            0 <= k < first_by_path(files).len() ==> files.contains(
                #[trigger] first_by_path(files)[k],
            ),
        distinct_paths(first_by_path(files)),
        forall|k: int|
            0 <= k < files.len() ==> has_path(first_by_path(files), (#[trigger] files[k]).path@),
    decreases files.len(),
{
    if files.len() > 0 {
        let front = files.drop_last();
        let earlier = first_by_path(front);
        let all = first_by_path(files);
        lemma_first_by_path(front);
        assert forall|k: int| 0 <= k < all.len() implies files.contains(#[trigger] all[k]) by {
            if k < earlier.len() {
                assert(all[k] == earlier[k]);
                let at = choose|at: int| 0 <= at < front.len() && front[at] == earlier[k];
                assert(files[at] == earlier[k]);
            } else {
                assert(files[files.len() - 1] == all[k]);
            }
        }
        assert forall|k: int| 0 <= k < files.len() implies has_path(
            all,
            (#[trigger] files[k]).path@,
        ) by {
            if k < front.len() {
                assert(front[k] == files[k]);
                let at = choose|at: int|
                    0 <= at < earlier.len() && (#[trigger] earlier[at]).path@ == front[k].path@;
                assert(all[at] == earlier[at]);
            } else if has_path(earlier, files.last().path@) {
            } else {
                assert(all[all.len() - 1] == files.last());
            }
        }
        assert forall|a: int, b: int| 0 <= a < b < all.len() implies (#[trigger] all[a]).path@ != (
        #[trigger] all[b]).path@ by {
            assert(all[a] == earlier[a]);
            if b < earlier.len() {
                assert(all[b] == earlier[b]);
            }
        }
    }
}

/// Taking files out of a listing that holds no path twice leaves one that holds no path
/// twice.
pub proof fn lemma_filter_keeps_distinct(files: Seq<ArchiveFile>, test: spec_fn(ArchiveFile) -> bool)
    requires
        distinct_paths(files),
    ensures
        distinct_paths(files.filter(test)),
    decreases files.len(),
{
    reveal(Seq::filter);
    if files.len() > 0 {
        let front = files.drop_last();
        assert forall|a: int, b: int| 0 <= a < b < front.len() implies (#[trigger] front[a]).path@
            != (#[trigger] front[b]).path@ by {
            assert(front[a] == files[a] && front[b] == files[b]);
        }
        lemma_filter_keeps_distinct(front, test);
        let kept = front.filter(test);
        let all = files.filter(test);
        assert forall|a: int, b: int| 0 <= a < b < all.len() implies (#[trigger] all[a]).path@ != (
        #[trigger] all[b]).path@ by {
            assert(all[a] == kept[a]);
            if b < kept.len() {
                assert(all[b] == kept[b]);
            } else {
                assert(all[b] == files.last());
                assert(kept.contains(kept[a]));
                front.lemma_filter_contains_rev(test, kept[a]);
                let at = choose|at: int| 0 <= at < front.len() && front[at] == kept[a];
                assert(files[at] == kept[a]);
                assert(files[files.len() - 1] == files.last());
            }
        }
    }
}

/// The candidates of a monthly rotation are at most two archives of the month of `now`,
/// the older first, and they lie at different paths: an archive is a candidate once,
/// however often it is listed. No archive of that month that stays behind is older than
/// one that is moved.
pub proof fn lemma_monthly_candidates(files: Seq<ArchiveFile>, now: Instant)
    ensures
        monthly_candidates(files, now).len() <= 2,
        forall|c: int|
            0 <= c < monthly_candidates(files, now).len() ==> {
                let chosen = #[trigger] monthly_candidates(files, now)[c];
                files.contains(chosen) && dated_in_month(chosen, now)
            },
        distinct_paths(monthly_candidates(files, now)),
        monthly_candidates(files, now).len() == 2 ==> !older(
            monthly_candidates(files, now)[1],
            monthly_candidates(files, now)[0],
        ),
        forall|k: int|
            0 <= k < first_by_path(files).len() && dated_in_month(
                #[trigger] first_by_path(files)[k],
                now,
            ) ==> {
                &&& monthly_candidates(files, now).len() > 0
                &&& !older(first_by_path(files)[k], monthly_candidates(files, now)[0])
                &&& monthly_candidates(files, now).len() == 2 ==> first_by_path(files)[k]
                    == monthly_candidates(files, now)[0] || !older(
                    first_by_path(files)[k],
                    monthly_candidates(files, now)[1],
                )
            },
{
    let test = is_of_month(now);
    let listed = first_by_path(files);
    let current = listed.filter(test);
    let chosen = monthly_candidates(files, now);
    lemma_first_by_path(files);
    lemma_filter_keeps_distinct(listed, test);
    lemma_two_oldest(current);
    assert forall|c: int| 0 <= c < chosen.len() implies {
        let file = #[trigger] chosen[c];
        files.contains(file) && dated_in_month(file, now)
    } by {
        assert(current.contains(chosen[c]));
        let at = choose|at: int| 0 <= at < current.len() && current[at] == chosen[c];
        listed.lemma_filter_pred(test, at);
        listed.lemma_filter_contains_rev(test, chosen[c]);
        let place = choose|place: int| 0 <= place < listed.len() && listed[place] == chosen[c];
        assert(files.contains(listed[place]));
    }
    if chosen.len() == 2 {
        lemma_first_oldest(current);
        let first = first_oldest(current);
        let rest = current.remove(first);
        lemma_first_oldest(rest);
        let second = first_oldest(rest);
        let at = if second < first {
            second
        } else {
            second + 1
        };
        assert(rest[second] == current[at]);
        assert(chosen[0] == current[first] && chosen[1] == current[at]);
    }
    assert forall|k: int| 0 <= k < listed.len() && dated_in_month(#[trigger] listed[k], now) implies {
        &&& chosen.len() > 0
        &&& !older(listed[k], chosen[0])
        &&& chosen.len() == 2 ==> listed[k] == chosen[0] || !older(listed[k], chosen[1])
    } by {
        listed.lemma_filter_contains(test, k);
        let at = choose|at: int| 0 <= at < current.len() && current[at] == listed[k];
        assert(!older(current[at], chosen[0]));
        if chosen.len() == 2 && at != first_oldest(current) {
            assert(!older(current[at], chosen[1]));
        }
    }
}

/// Whether a file of the listing lies at the path.
fn lists_path(files: &Vec<ArchiveFile>, path: &str) -> (r: bool)
    ensures
        r == has_path(files@, path@),
{
    let mut i: usize = 0;
    while i < files.len()
        invariant
            i <= files.len(),
            forall|k: int| 0 <= k < i ==> (#[trigger] files@[k]).path@ != path@,
        decreases files.len() - i,
    {
        if same_text(files[i].path.as_str(), path) {
            return true;
        }
        i += 1;
    }
    false
}

/// The files of a listing, each path once.
pub fn once_each(files: &Vec<ArchiveFile>) -> (r: Vec<ArchiveFile>)
    ensures
        r@ == first_by_path(files@),
{
    let mut out: Vec<ArchiveFile> = Vec::new();
    let mut i: usize = 0;
    while i < files.len()
        invariant
            i <= files.len(),
            out@ == first_by_path(files@.take(i as int)),
        decreases files.len() - i,
    {
        proof {
            assert(files@.take(i + 1).drop_last() =~= files@.take(i as int));
            assert(files@.take(i + 1).last() == files@[i as int]);
        }
        if !lists_path(&out, files[i].path.as_str()) {
            out.push(files[i].clone());
        }
        i += 1;
    }
    proof {
        assert(files@.take(i as int) =~= files@);
    }
    out
}

/// Whether a file is an archive that was last changed in the month with the given label.
fn is_dated_in_month(file: &ArchiveFile, now: Instant, month: &str) -> (r: bool)
    requires
        month@ == now.month_label(),
    ensures
        r == dated_in_month(*file, now),
{
    if !name_has_extension(file.file_name.as_str(), ARCHIVE_EXTENSION) {
        return false;
    }
    match file.modified {
        Some(at) => {
            if at.is_in_calendar() {
                let label = at.to_month_label();
                same_text(label.as_str(), month)
            } else {
                false
            }
        },
        None => false,
    }
}

/// Whether `a` was last changed strictly before `b`.
fn is_older(a: &ArchiveFile, b: &ArchiveFile) -> (r: bool)
    ensures
        r == older(*a, *b),
{
    match (a.modified, b.modified) {
        (Some(x), Some(y)) => x.is_before(&y),
        _ => false,
    }
}

/// The place of the oldest file; of several that are equally old, the first.
fn oldest_position(files: &Vec<ArchiveFile>) -> (r: usize)
    requires
        files.len() > 0,
    ensures
        r == first_oldest(files@),
        r < files.len(),
{
    let mut best: usize = 0;
    let mut i: usize = 1;
    while i < files.len()
        invariant
            1 <= i <= files.len(),
            best < i,
            best == first_oldest(files@.take(i as int)),
        decreases files.len() - i,
    {
        proof {
            assert(files@.take(i + 1).drop_last() =~= files@.take(i as int));
        }
        if is_older(&files[i], &files[best]) {
            best = i;
        }
        i += 1;
    }
    proof {
        assert(files@.take(i as int) =~= files@);
    }
    best
}

/// The archives that a monthly rotation at `now` moves, among the files of all the jobs'
/// destination directories: the two oldest archives of the month, the older first. An
/// archive that is listed more than once, because jobs share its directory, counts once.
pub fn select_monthly_candidates(files: &Vec<ArchiveFile>, now: Instant) -> (r: Vec<ArchiveFile>)
    requires
        now.in_calendar(),
    ensures
        r@ == monthly_candidates(files@, now),
        r@.len() <= 2,
{
    let month = now.to_month_label();
    let listed = once_each(files);
    let mut current: Vec<ArchiveFile> = Vec::new();
    let mut i: usize = 0;
    while i < listed.len()
        invariant
            i <= listed.len(),
            month@ == now.month_label(),
            current@ == listed@.take(i as int).filter(is_of_month(now)),
        decreases listed.len() - i,
    {
        proof {
            let file = listed@[i as int];
            assert(listed@.take(i + 1) =~= listed@.take(i as int).push(file));
            listed@.take(i as int).lemma_filter_push(file, is_of_month(now));
        }
        if is_dated_in_month(&listed[i], now, month.as_str()) {
            current.push(listed[i].clone());
        }
        i += 1;
    }
    proof {
        assert(listed@.take(i as int) =~= listed@);
        lemma_two_oldest(current@);
    }
    let mut out: Vec<ArchiveFile> = Vec::new();
    if current.len() == 0 {
        return out;
    }
    let first = oldest_position(&current);
    let oldest = current.remove(first);
    out.push(oldest);
    if current.len() > 0 {
        let second = oldest_position(&current);
        out.push(current[second].clone());
    }
    out
}

/// The paths of the archives that a monthly rotation at `now` would move: at most two, the
/// oldest archives of the month, the older first.
pub fn preview_monthly_archive_at(files: &Vec<ArchiveFile>, now: Instant) -> (r:
    MonthlyArchivePreview)
    requires
        now.in_calendar(),
    ensures
        texts(r.files@) == paths_of(monthly_candidates(files@, now)),
        r.files@.len() <= 2,
{
    let candidates = select_monthly_candidates(files, now);
    let mut paths: Vec<String> = Vec::new();
    let mut i: usize = 0;
    while i < candidates.len()
        invariant
            i <= candidates.len(),
            texts(paths@) == paths_of(candidates@.take(i as int)),
        decreases candidates.len() - i,
    {
        paths.push(candidates[i].path.clone());
        proof {
            assert(candidates@.take(i + 1) =~= candidates@.take(i as int).push(
                candidates@[i as int],
            ));
            assert(paths_of(candidates@.take(i as int).push(candidates@[i as int])) =~= paths_of(
                candidates@.take(i as int),
            ).push(candidates@[i as int].path@));
        }
        i += 1;
    }
    MonthlyArchivePreview { files: paths }
}

/// The preview of a monthly rotation now, by the system clock: what
/// `preview_monthly_archive_at` gives at the clock's time. `None` exactly where the clock's
/// time lies outside the calendar, so that its month has no label.
pub fn preview_monthly_archive(files: &Vec<ArchiveFile>) -> (r: Option<MonthlyArchivePreview>)
    ensures
        exists|now: Instant|
            {
                &&& now.since_epoch()
                &&& r is Some <==> #[trigger] now.in_calendar()
                &&& r matches Some(preview) ==> texts(preview.files@) == paths_of(
                    monthly_candidates(files@, now),
                )
            },
        r matches Some(preview) ==> preview.files@.len() <= 2,
{
    let now = utc_now();
    if now.is_in_calendar() {
        Some(preview_monthly_archive_at(files, now))
    } else {
        None
    }
}

/// What a monthly rotation at `now` is to do: move the candidates of the preview, the older
/// first, into the month's directory below the configured root, each under its own name.
/// Where there is no candidate there is nothing to move.
pub fn run_monthly_archive_at(config: &Config, files: &Vec<ArchiveFile>, now: Instant) -> (plan:
    MonthlyArchivePlan)
    requires
        now.in_calendar(),
    ensures
        plan.is_for(*config, files@, now),
        plan.moves@.len() <= 2,
{
    let destination = config.monthly_destination();
    let month = now.to_month_label();
    let month_dir = join(destination.as_str(), month.as_str());
    let archive_dir = join(month_dir.as_str(), MONTHLY_FOLDER);
    let candidates = select_monthly_candidates(files, now);
    let mut moves: Vec<ArchiveMove> = Vec::new();
    let mut i: usize = 0;
    while i < candidates.len()
        invariant
            i <= candidates.len(),
            moves@.len() == i,
            forall|k: int|
                0 <= k < i ==> {
                    &&& (#[trigger] moves@[k]).source@ == candidates@[k].path@
                    &&& moves@[k].target@ == joined(archive_dir@, candidates@[k].file_name@)
                },
        decreases candidates.len() - i,
    {
        let target = join(archive_dir.as_str(), candidates[i].file_name.as_str());
        moves.push(ArchiveMove { source: candidates[i].path.clone(), target });
        i += 1;
    }
    MonthlyArchivePlan { destination, archive_dir, moves }
}

/// What a monthly rotation is to do now, by the system clock: what
/// `run_monthly_archive_at` gives at the clock's time. `None` exactly where the clock's time
/// lies outside the calendar, so that its month has no label.
pub fn run_monthly_archive(config: &Config, files: &Vec<ArchiveFile>) -> (r: Option<
    MonthlyArchivePlan,
>)
    ensures
        exists|now: Instant|
            {
                &&& now.since_epoch()
                &&& r is Some <==> #[trigger] now.in_calendar()
                &&& r matches Some(plan) ==> plan.is_for(*config, files@, now)
            },
        r matches Some(plan) ==> plan.moves@.len() <= 2 && plan.destination@
            == config.spec_monthly_destination(),
{
    let now = utc_now();
    if now.is_in_calendar() {
        Some(run_monthly_archive_at(config, files, now))
    } else {
        None
    }
}

impl MonthlyArchivePlan {
    /// Whether this is what a rotation at `now` is to do: the root is the configured one,
    /// the month's directory lies below it, and the moves are those of the candidates, the
    /// older first, each from where the archive lies into the month's directory under the
    /// archive's own name.
    pub open spec fn is_for(self, config: Config, files: Seq<ArchiveFile>, now: Instant) -> bool {
        &&& self.destination@ == config.spec_monthly_destination()
        &&& self.archive_dir@ == monthly_dir(config.spec_monthly_destination(), now)
        &&& self.moves@.len() == monthly_candidates(files, now).len()
        &&& forall|k: int|
            0 <= k < self.moves@.len() ==> {
                &&& (#[trigger] self.moves@[k]).source@ == monthly_candidates(files, now)[k].path@
                &&& self.moves@[k].target@ == joined(
                    self.archive_dir@,
                    monthly_candidates(files, now)[k].file_name@,
                )
            }
    }

    /// The report of a rotation that moved `archived` archives.
    pub fn finished(&self, archived: usize) -> (r: MonthlyArchiveResult)
        ensures
            r.archived == archived,
            r.destination@ == self.destination@,
    {
        MonthlyArchiveResult { archived, destination: self.destination.clone() }
    }
}

} // verus!
