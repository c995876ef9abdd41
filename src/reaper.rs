use vstd::prelude::*;

use crate::scan::{listed_pids, pids_in_listing, ScanFormat};

verus! {

/// Seconds that earlier instances get to exit after the cooperative signal.
pub const REAPER_GRACE_SECS: u64 = 2;

/// The process model of the host.
#[derive(Clone, Copy, PartialEq, Eq, Structural, Debug)]
pub enum Platform {
    /// `pgrep` to scan, `kill` to signal, `pkill -P` for child processes.
    Unix,
    /// `wmic`, falling back to `tasklist`, to scan; `taskkill /T` to signal.
    Windows,
}

/// What the reaper waits for the outcome of.
#[derive(Clone, Copy, PartialEq, Eq, Structural, Debug)]
pub enum ReaperPhase {
    /// The first scan for earlier instances, with the platform's first scanner.
    Scanning,
    /// The same scan with the fallback scanner, when the first found nothing.
    Fallback,
    /// The cooperative termination signals.
    Terminating,
    /// The grace period after those signals.
    Grace,
    /// The scan for survivors of the grace period, with the first scanner.
    Rescanning,
    /// The same scan with the fallback scanner, when the first found nothing.
    RescanFallback,
    /// The forced kills.
    Escalating,
    /// The removal of stale artifacts.
    Cleaning,
    /// Nothing: the reaper is finished.
    Done,
}

/// An action that the reaper asks its host to perform.
pub enum ReaperAction {
    /// Run the listing tool of this format and report its output.
    Scan(ScanFormat),
    /// Send the cooperative termination signal to each process.
    Terminate(Vec<u32>),
    /// Kill each process by force, and by force each process whose parent it
    /// is.
    ForceKill(Vec<u32>),
    /// Wait this many seconds.
    Sleep(u64),
    /// Remove the lock file and stale staging directories.
    RemoveStaleArtifacts,
    /// Stop: the reaper is finished.
    Finish,
}

/// The mathematical content of a [`ReaperAction`].
pub enum ReaperActionView {
    Scan(ScanFormat),
    Terminate(Seq<u32>),
    ForceKill(Seq<u32>),
    Sleep(u64),
    RemoveStaleArtifacts,
    Finish,
}

impl View for ReaperAction {
    type V = ReaperActionView;

    open spec fn view(&self) -> ReaperActionView {
        match self {
            ReaperAction::Scan(f) => ReaperActionView::Scan(*f),
            ReaperAction::Terminate(p) => ReaperActionView::Terminate(p@),
            ReaperAction::ForceKill(p) => ReaperActionView::ForceKill(p@),
            ReaperAction::Sleep(s) => ReaperActionView::Sleep(*s),
            ReaperAction::RemoveStaleArtifacts => ReaperActionView::RemoveStaleArtifacts,
            ReaperAction::Finish => ReaperActionView::Finish,
        }
    }
}

/// What the host reports after performing an action.
pub enum ReaperEvent {
    /// The listing tool ran; its exit status and standard output.
    Listing { success: bool, stdout: Vec<u8> },
    /// The listing tool could not be run.
    Unavailable,
    /// Any other action was performed, successfully or not.
    Completed,
}

/// The platform's first scanner.
pub open spec fn first_format(platform: Platform) -> ScanFormat {
    if platform == Platform::Windows {
        ScanFormat::KeyValue
    } else {
        ScanFormat::PidLines
    }
}

/// The listing format of the scan awaited in `phase`.
pub open spec fn pending_format(platform: Platform, phase: ReaperPhase) -> ScanFormat {
    match phase {
        ReaperPhase::Fallback | ReaperPhase::RescanFallback => ScanFormat::Csv,
        _ => first_format(platform),
    }
}

/// The earlier instances that an event reports: none unless it is a listing.
pub open spec fn reported_pids(format: ScanFormat, event: ReaperEvent, own: u32) -> Seq<u32> {
    match event {
        ReaperEvent::Listing { success, stdout } => listed_pids(format, success, stdout@, own),
        _ => seq![],
    }
}

/// The next phase and action, given the processes that the awaited scan found.
/// Both platforms follow the same course: signal what the first scan finds,
/// wait once, then kill by force what the second scan finds. Only Windows has
/// a fallback scanner, tried when its first scanner finds nothing.
pub open spec fn reaper_next(platform: Platform, phase: ReaperPhase, found: Seq<u32>) -> (
    ReaperPhase,
    ReaperActionView,
) {
    match phase {
        ReaperPhase::Scanning | ReaperPhase::Fallback => if found.len() > 0 {
            (ReaperPhase::Terminating, ReaperActionView::Terminate(found))
        } else if phase == ReaperPhase::Scanning && platform == Platform::Windows {
            (ReaperPhase::Fallback, ReaperActionView::Scan(ScanFormat::Csv))
        } else {
            (ReaperPhase::Cleaning, ReaperActionView::RemoveStaleArtifacts)
        },
        ReaperPhase::Terminating => (
            ReaperPhase::Grace,
            ReaperActionView::Sleep(REAPER_GRACE_SECS),
        ),
        ReaperPhase::Grace => (
            ReaperPhase::Rescanning,
            ReaperActionView::Scan(first_format(platform)),
        ),
        ReaperPhase::Rescanning | ReaperPhase::RescanFallback => if found.len() > 0 {
            (ReaperPhase::Escalating, ReaperActionView::ForceKill(found))
        } else if phase == ReaperPhase::Rescanning && platform == Platform::Windows {
            (ReaperPhase::RescanFallback, ReaperActionView::Scan(ScanFormat::Csv))
        } else {
            (ReaperPhase::Cleaning, ReaperActionView::RemoveStaleArtifacts)
        },
        ReaperPhase::Escalating => (ReaperPhase::Cleaning, ReaperActionView::RemoveStaleArtifacts),
        ReaperPhase::Cleaning | ReaperPhase::Done => (ReaperPhase::Done, ReaperActionView::Finish),
    }
}

/// How many steps at most separate a phase from the end.
pub open spec fn steps_left(phase: ReaperPhase) -> nat {
    match phase {
        ReaperPhase::Scanning => 8,
        ReaperPhase::Fallback => 7,
        ReaperPhase::Terminating => 6,
        ReaperPhase::Grace => 5,
        ReaperPhase::Rescanning => 4,
        ReaperPhase::RescanFallback => 3,
        ReaperPhase::Escalating => 2,
        ReaperPhase::Cleaning => 1,
        ReaperPhase::Done => 0,
    }
}

/// Reclaims the processes and files that earlier runs of the backend left
/// behind, one action at a time.
pub struct Reaper {
    pub platform: Platform,
    pub own_pid: u32,
    pub phase: ReaperPhase,
}

impl Reaper {
    /// A reaper for this host, which never touches the process `own_pid`,
    /// and its first action: the first scan.
    pub fn start(platform: Platform, own_pid: u32) -> (r: (Reaper, ReaperAction))
        ensures
            r.0.platform == platform,
            r.0.own_pid == own_pid,
            r.0.phase == ReaperPhase::Scanning,
            r.1@ == ReaperActionView::Scan(first_format(platform)),
    {
        let reaper = Reaper { platform, own_pid, phase: ReaperPhase::Scanning };
        let format = reaper.first_scanner();
        (reaper, ReaperAction::Scan(format))
    }

    fn first_scanner(&self) -> (r: ScanFormat)
        ensures
            r == first_format(self.platform),
    {
        match self.platform {
            Platform::Windows => ScanFormat::KeyValue,
            Platform::Unix => ScanFormat::PidLines,
        }
    }

    pub fn is_done(&self) -> (r: bool)
        ensures
            r == (self.phase == ReaperPhase::Done),
    {
        self.phase == ReaperPhase::Done
    }

    /// Takes the outcome of the last action and returns the next one.
    pub fn step(&mut self, event: ReaperEvent) -> (r: ReaperAction)
        ensures
            final(self).platform == old(self).platform,
            final(self).own_pid == old(self).own_pid,
            (final(self).phase, r@) == reaper_next(
                old(self).platform,
                old(self).phase,
                reported_pids(
                    pending_format(old(self).platform, old(self).phase),
                    event,
                    old(self).own_pid,
                ),
            ),
    {
        let windows = self.platform == Platform::Windows;
        match self.phase {
            ReaperPhase::Scanning | ReaperPhase::Fallback | ReaperPhase::Rescanning
            | ReaperPhase::RescanFallback => {
                let first = self.phase == ReaperPhase::Scanning || self.phase
                    == ReaperPhase::Rescanning;
                let before_grace = self.phase == ReaperPhase::Scanning || self.phase
                    == ReaperPhase::Fallback;
                let format = if first {
                    self.first_scanner()
                } else {
                    ScanFormat::Csv
                };
                let found = match event {
                    ReaperEvent::Listing { success, stdout } => pids_in_listing(
                        format,
                        success,
                        stdout.as_slice(),
                        self.own_pid,
                    ),
                    _ => Vec::new(),
                };
                if found.len() > 0 {
                    if before_grace {
                        self.phase = ReaperPhase::Terminating;
                        ReaperAction::Terminate(found)
                    } else {
                        self.phase = ReaperPhase::Escalating;
                        ReaperAction::ForceKill(found)
                    }
                } else if first && windows {
                    self.phase = if before_grace {
                        ReaperPhase::Fallback
                    } else {
                        ReaperPhase::RescanFallback
                    };
                    ReaperAction::Scan(ScanFormat::Csv)
                } else {
                    self.phase = ReaperPhase::Cleaning;
                    ReaperAction::RemoveStaleArtifacts
                }
            },
            ReaperPhase::Terminating => {
                self.phase = ReaperPhase::Grace;
                ReaperAction::Sleep(REAPER_GRACE_SECS)
            },
            ReaperPhase::Grace => {
                self.phase = ReaperPhase::Rescanning;
                ReaperAction::Scan(self.first_scanner())
            },
            ReaperPhase::Escalating => {
                self.phase = ReaperPhase::Cleaning;
                ReaperAction::RemoveStaleArtifacts
            },
            ReaperPhase::Cleaning | ReaperPhase::Done => {
                self.phase = ReaperPhase::Done;
                ReaperAction::Finish
            },
        }
    }
}

/// A scan never reports the process that runs it: `own` is left out of
/// every listing.
pub proof fn lemma_listing_excludes_own(format: ScanFormat, success: bool, out: Seq<u8>, own: u32)
    ensures
        !listed_pids(format, success, out, own).contains(own),
{
    if !(format == ScanFormat::KeyValue && !success) {
        lemma_lines_exclude_own(format, crate::scan::split_on(out, crate::scan::NEWLINE), own);
    }
}

proof fn lemma_lines_exclude_own(format: ScanFormat, lines: Seq<Seq<u8>>, own: u32)
    ensures
        !crate::scan::pids_in_lines(format, lines, own).contains(own),
    decreases lines.len(),
{
    if lines.len() > 0 {
        lemma_lines_exclude_own(format, lines.drop_last(), own);
        let earlier = crate::scan::pids_in_lines(format, lines.drop_last(), own);
        let all = crate::scan::pids_in_lines(format, lines, own);
        assert forall|i: int| 0 <= i < all.len() implies all[i] != own by {
            if i < earlier.len() {
                assert(all[i] == earlier[i]);
            }
        }
    }
}

/// Every process that a scan finds is acted on, on either platform: the
/// matches of the first scan (with either scanner) all get the cooperative
/// signal, and the survivors that the scan after the grace period finds are
/// all killed by force, with the processes whose parent they are. The reaper's
/// own process is never among them.
pub proof fn lemma_reaper_acts_on_every_match(platform: Platform, event: ReaperEvent, own: u32)
    ensures
        forall|phase: ReaperPhase|
            (phase == ReaperPhase::Scanning || phase == ReaperPhase::Fallback) ==> {
                let found = #[trigger] reported_pids(pending_format(platform, phase), event, own);
                &&& found.len() > 0 ==> reaper_next(platform, phase, found).1
                    == ReaperActionView::Terminate(found)
                &&& !found.contains(own)
            },
        forall|phase: ReaperPhase|
            (phase == ReaperPhase::Rescanning || phase == ReaperPhase::RescanFallback) ==> {
                let survivors = #[trigger] reported_pids(
                    pending_format(platform, phase),
                    event,
                    own,
                );
                &&& survivors.len() > 0 ==> reaper_next(platform, phase, survivors).1
                    == ReaperActionView::ForceKill(survivors)
                &&& !survivors.contains(own)
            },
{
    if let ReaperEvent::Listing { success, stdout } = event {
        lemma_listing_excludes_own(first_format(platform), success, stdout@, own);
        lemma_listing_excludes_own(ScanFormat::Csv, success, stdout@, own);
    }
}

/// A scan that finds nothing leads to no signal and no kill, in any phase.
pub proof fn lemma_reaper_spares_when_nothing_found(platform: Platform, phase: ReaperPhase)
    ensures
        !(reaper_next(platform, phase, seq![]).1 is Terminate),
        !(reaper_next(platform, phase, seq![]).1 is ForceKill),
{
}

/// The reaper never holds up startup: whatever the host reports, each step
/// brings it closer to the end, and once finished it stays finished. From
/// the start it finishes within eight steps.
pub proof fn lemma_reaper_always_finishes(platform: Platform, phase: ReaperPhase, found: Seq<u32>)
    ensures
        phase != ReaperPhase::Done ==> steps_left(reaper_next(platform, phase, found).0)
            < steps_left(phase),
        phase == ReaperPhase::Done ==> reaper_next(platform, phase, found).0 == ReaperPhase::Done,
        steps_left(phase) == 0 <==> phase == ReaperPhase::Done,
        steps_left(ReaperPhase::Scanning) == 8,
{
}

/// The actions issued from `phase` when the awaited scans find `found`, in
/// order (an entry is ignored where no scan is awaited), and the phase
/// reached.
pub open spec fn reaper_run(platform: Platform, phase: ReaperPhase, found: Seq<Seq<u32>>) -> (
    ReaperPhase,
    Seq<ReaperActionView>,
)
    decreases found.len(),
{
    if found.len() == 0 {
        (phase, seq![])
    } else {
        let (next, action) = reaper_next(platform, phase, found[0]);
        let (last, rest) = reaper_run(platform, next, found.drop_first());
        (last, seq![action] + rest)
    }
}

/// The seconds that a list of actions spends sleeping.
pub open spec fn sleep_secs(actions: Seq<ReaperActionView>) -> nat
    decreases actions.len(),
{
    if actions.len() == 0 {
        0
    } else {
        (match actions[0] {
            ReaperActionView::Sleep(s) => s as nat,
            _ => 0,
        }) + sleep_secs(actions.drop_first())
    }
}

/// Whether a phase comes before the grace period.
pub open spec fn before_grace(phase: ReaperPhase) -> bool {
    phase == ReaperPhase::Scanning || phase == ReaperPhase::Fallback || phase
        == ReaperPhase::Terminating
}

/// The reaper waits at most once: whatever the scans find, a run sleeps for
/// no more than the grace period in all, and not at all after the grace
/// period has begun. It sleeps only after it has sent the cooperative signal
/// to some earlier instance.
pub proof fn lemma_reaper_waits_at_most_once(
    platform: Platform,
    phase: ReaperPhase,
    found: Seq<Seq<u32>>,
)
    ensures
        ({
            let actions = reaper_run(platform, phase, found).1;
            &&& sleep_secs(actions) <= if before_grace(phase) {
                REAPER_GRACE_SECS as nat
            } else {
                0
            }
            &&& sleep_secs(actions) > 0 && phase != ReaperPhase::Terminating ==> exists|i: int|
                0 <= i < actions.len() && (#[trigger] actions[i]) is Terminate
                    && actions[i]->Terminate_0.len() > 0
        }),
    decreases found.len(),
{
    if found.len() > 0 {
        let (next, action) = reaper_next(platform, phase, found[0]);
        lemma_reaper_waits_at_most_once(platform, next, found.drop_first());
        let rest = reaper_run(platform, next, found.drop_first()).1;
        let actions = seq![action] + rest;
        assert(actions.drop_first() =~= rest);
        assert(actions[0] == action);
        if sleep_secs(actions) > 0 && phase != ReaperPhase::Terminating {
            if action is Terminate {
                assert(actions[0] is Terminate);
            } else {
                assert(sleep_secs(rest) > 0);
                assert(next != ReaperPhase::Terminating);
                let i = choose|i: int|
                    0 <= i < rest.len() && (#[trigger] rest[i]) is Terminate
                        && rest[i]->Terminate_0.len() > 0;
                assert(actions[i + 1] == rest[i]);
            }
        }
    }
}

/// Name prefix of the staging directories that the backend's self-extracting
/// launcher creates.
pub open spec fn staging_prefix() -> Seq<char> {
    seq!['_', 'M', 'E', 'I']
}

/// An entry of the backend's runtime directory.
pub struct RuntimeEntry {
    pub name: String,
    pub is_dir: bool,
}

/// A staging directory that an interrupted extraction left behind.
pub open spec fn is_stale_staging(name: Seq<char>, is_dir: bool) -> bool {
    is_dir && name.len() >= 4 && name.subrange(0, 4) == staging_prefix()
}

/// The positions of the stale staging directories among `entries`, in order.
pub open spec fn stale_positions(entries: Seq<RuntimeEntry>) -> Seq<usize>
    decreases entries.len(),
{
    if entries.len() == 0 {
        seq![]
    } else {
        let earlier = stale_positions(entries.drop_last());
        if is_stale_staging(entries.last().name@, entries.last().is_dir) {
            earlier.push((entries.len() - 1) as usize)
        } else {
            earlier
        }
    }
}

/// The stale artifacts to delete.
pub struct CleanupPlan {
    /// Whether to delete the database lock file.
    pub remove_lock: bool,
    /// Positions of the runtime entries to delete, with their contents.
    pub remove_dirs: Vec<usize>,
}

fn starts_with_staging_prefix(name: &str) -> (r: bool)
    ensures
        r == (name@.len() >= 4 && name@.subrange(0, 4) == staging_prefix()),
{
    if name.unicode_len() < 4 {
        return false;
    }
    let a = name.get_char(0);
    let b = name.get_char(1);
    let c = name.get_char(2);
    let d = name.get_char(3);
    let r = a == '_' && b == 'M' && c == 'E' && d == 'I';
    assert(r ==> name@.subrange(0, 4) =~= staging_prefix());
    assert(name@.subrange(0, 4) == staging_prefix() ==> name@.subrange(0, 4)[1] == 'M');
    r
}

/// Decides which stale artifacts to delete: the lock file when it exists, and
/// each directory of the runtime area whose name starts with the staging
/// prefix.
pub fn plan_cleanup(lock_exists: bool, entries: &Vec<RuntimeEntry>) -> (r: CleanupPlan)
    ensures
        r.remove_lock == lock_exists,
        r.remove_dirs@ == stale_positions(entries@),
{
    let mut dirs: Vec<usize> = Vec::new();
    let mut i: usize = 0;
    assert(entries@.subrange(0, 0) =~= Seq::<RuntimeEntry>::empty());
    while i < entries.len()
        invariant
            i <= entries@.len(),
            dirs@ == stale_positions(entries@.subrange(0, i as int)),
        decreases entries.len() - i,
    {
        let ghost upto = entries@.subrange(0, i + 1);
        assert(upto.drop_last() =~= entries@.subrange(0, i as int));
        let entry = &entries[i];
        if entry.is_dir && starts_with_staging_prefix(entry.name.as_str()) {
            dirs.push(i);
        }
        i = i + 1;
    }
    assert(entries@.subrange(0, entries@.len() as int) =~= entries@);
    CleanupPlan { remove_lock: lock_exists, remove_dirs: dirs }
}

/// Cleaning up is a no-op when there is nothing stale: with no lock file and
/// no staging directory, nothing is to be deleted.
pub proof fn lemma_cleanup_noop_when_clean(entries: Seq<RuntimeEntry>)
    requires
        forall|i: int|
            0 <= i < entries.len() ==> !is_stale_staging(
                #[trigger] entries[i].name@,
                entries[i].is_dir,
            ),
    ensures
        stale_positions(entries) == Seq::<usize>::empty(),
    decreases entries.len(),
{
    if entries.len() > 0 {
        let rest = entries.drop_last();
        assert forall|i: int| 0 <= i < rest.len() implies !is_stale_staging(
            #[trigger] rest[i].name@,
            rest[i].is_dir,
        ) by {
            assert(rest[i] == entries[i]);
        }
        lemma_cleanup_noop_when_clean(rest);
        assert(entries.last() == entries[entries.len() - 1]);
    }
}

} // verus!
