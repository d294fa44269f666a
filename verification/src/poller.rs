//! The polling engine and its fluent configuration builder.
//!
//! A [`DirectoryPoller`] owns an immutable configuration and a
//! [`ContentHandler`]. Its one operation, [`DirectoryPoller::poll_directory`],
//! validates the target once, then repeatedly scans the entries, hands each
//! regular file's content to the handler, applies the deletion policy, and
//! decides from the configuration and the elapsed cycle count whether to
//! continue.

use vstd::prelude::*;

use crate::fs_model::{FsEntry, PathState};
use crate::handler::{ContentHandler, HandlerError, NoOpHandler};

verus! {

/// Why a poll operation failed.
///
/// Directory validation fails once, before any cycle; a read or handler
/// failure aborts the whole operation. A deletion failure is never an error:
/// the file simply remains and is eligible again on the next cycle.
#[derive(Debug, PartialEq, Eq)]
pub enum PollError {
    /// The target path does not exist.
    NotFound,
    /// The target path exists but is not a directory.
    NotADirectory,
    /// The named file's content could not be read.
    ReadFailed { name: String },
    /// The handler reported a failure.
    Handler(HandlerError),
}

/// Validation of the target path: `NotFound` when it does not exist,
/// `NotADirectory` when it exists but is not a directory.
pub open spec fn spec_verify_directory(target: PathState) -> Result<(), PollError> {
    match target {
        PathState::Missing => Err(PollError::NotFound),
        PathState::NonDirectory => Err(PollError::NotADirectory),
        PathState::Directory(_) => Ok(()),
    }
}

/// Whether a successfully processed entry is removed: only when the deletion
/// policy is enabled and the filesystem lets the removal succeed. A failed
/// removal is not an error; the file stays and may be processed again on the
/// next cycle.
pub open spec fn spec_delete_file(delete_files: bool, entry: FsEntry) -> Option<FsEntry> {
    if delete_files && (entry matches FsEntry::RegularFile { removable: true, .. }) {
        None
    } else {
        Some(entry)
    }
}

/// Processing of one entry: a non-regular entry is skipped silently; an
/// unreadable file aborts with `ReadFailed`; otherwise the handler is invoked
/// on the content, a failure aborts, and on success the deletion policy is
/// applied. The triple is (what remains of the entry, the handler afterwards,
/// the fatal error if any).
pub open spec fn spec_process_file<H: ContentHandler>(
    delete_files: bool,
    entry: FsEntry,
    h: H,
) -> (Option<FsEntry>, H, Option<PollError>) {
    match entry {
        FsEntry::RegularFile { name, content, readable, removable } => {
            if !readable {
                (Some(entry), h, Some(PollError::ReadFailed { name }))
            } else {
                match h.respond(content@) {
                    Err(he) => (Some(entry), h.after(content@), Some(PollError::Handler(he))),
                    Ok(_) => (spec_delete_file(delete_files, entry), h.after(content@), None),
                }
            }
        },
        _ => (Some(entry), h, None),
    }
}

/// One poll cycle over `dir[i..]`: entries are processed front to back; on a
/// fatal error the failing entry and everything after it remain. The triple
/// is (the entries that remain, the handler afterwards, the fatal error if
/// any).
pub open spec fn spec_cycle_from<H: ContentHandler>(
    delete_files: bool,
    dir: Seq<FsEntry>,
    i: int,
    h: H,
) -> (Seq<FsEntry>, H, Option<PollError>)
    decreases dir.len() - i,
{
    if i < 0 || i >= dir.len() {
        (Seq::empty(), h, None)
    } else {
        let step = spec_process_file(delete_files, dir[i], h);
        if step.2 is Some {
            (dir.subrange(i, dir.len() as int), step.1, step.2)
        } else {
            let rest = spec_cycle_from(delete_files, dir, i + 1, step.1);
            let head = match step.0 {
                Some(kept) => seq![kept],
                None => Seq::empty(),
            };
            (head + rest.0, rest.1, rest.2)
        }
    }
}

/// One full poll cycle: one pass over all entries.
pub open spec fn spec_cycle<H: ContentHandler>(
    delete_files: bool,
    dir: Seq<FsEntry>,
    h: H,
) -> (Seq<FsEntry>, H, Option<PollError>) {
    spec_cycle_from(delete_files, dir, 0, h)
}

/// `n` poll cycles in a row, each scanning what the previous one left. A
/// fatal error stops the run: later cycles change nothing.
pub open spec fn spec_run_cycles<H: ContentHandler>(
    delete_files: bool,
    dir: Seq<FsEntry>,
    h: H,
    n: nat,
) -> (Seq<FsEntry>, H, Option<PollError>)
    decreases n,
{
    if n == 0 {
        (dir, h, None)
    } else {
        let prev = spec_run_cycles(delete_files, dir, h, (n - 1) as nat);
        if prev.2 is Some {
            prev
        } else {
            spec_cycle(delete_files, prev.0, prev.1)
        }
    }
}

/// The continuation policy, decided after each cycle. A positive cycle cap
/// takes precedence over the keep-running flag; without a cap the flag alone
/// decides.
pub open spec fn spec_should_continue(
    keep_running: bool,
    max_poll_cycles: i32,
    poll_cycles: i32,
) -> bool {
    if max_poll_cycles <= 0 {
        keep_running
    } else {
        poll_cycles < max_poll_cycles
    }
}

/// How many cycles a run performs when no fatal error cuts it short: the
/// cycle cap when one is set, otherwise a single cycle. (With no cap and the
/// keep-running flag set the run would never end on an unchanging directory;
/// [`DirectoryPoller::poll_directory`] excludes that configuration.)
pub open spec fn spec_planned_cycles(keep_running: bool, max_poll_cycles: i32) -> nat {
    if max_poll_cycles > 0 {
        max_poll_cycles as nat
    } else {
        1
    }
}

/// What a whole poll run over a directory does: the final entries, the final
/// handler and the result are exactly those of `n` cycles from the initial
/// entries `dir` and handler `h`.
pub open spec fn spec_poll_outcome<H: ContentHandler>(
    delete_files: bool,
    dir: Seq<FsEntry>,
    h: H,
    n: nat,
    final_dir: Seq<FsEntry>,
    final_h: H,
    r: Result<(), PollError>,
) -> bool {
    let run = spec_run_cycles(delete_files, dir, h, n);
    &&& final_dir == run.0
    &&& final_h == run.1
    &&& r == (match run.2 {
        Some(e) => Result::<(), PollError>::Err(e),
        None => Result::<(), PollError>::Ok(()),
    })
}

/// The polling engine: an immutable configuration and a content handler.
pub struct DirectoryPoller<H> {
    /// Continue after a cycle when no cycle cap is set.
    pub keep_running: bool,
    /// Remove each file after its content was handled successfully.
    pub delete_files: bool,
    /// How long a real driver waits between cycles, in milliseconds.
    pub poll_interval_millis: u64,
    /// An upper bound on the number of cycles; any value at most zero means
    /// no bound, and a positive bound takes precedence over `keep_running`.
    pub max_poll_cycles: i32,
    /// Invoked once per eligible file per cycle with that file's content.
    pub on_file_content: H,
}

impl DirectoryPoller<NoOpHandler> {
    /// A builder with the documented defaults.
    pub fn builder() -> (b: DirectoryPollerBuilder<NoOpHandler>)
        ensures
            b.keep_running == false,
            b.delete_files == false,
            b.poll_interval_millis == 1000,
            b.max_poll_cycles == -1,
            b.on_file_content == (NoOpHandler {}),
    {
        DirectoryPollerBuilder::new()
    }
}

impl<H: ContentHandler> DirectoryPoller<H> {
    /// The configuration fields, for stating that a run leaves them unchanged.
    pub open spec fn settings(self) -> (bool, bool, u64, i32) {
        (self.keep_running, self.delete_files, self.poll_interval_millis, self.max_poll_cycles)
    }

    /// Validate the target path: it must exist and be a directory. This runs
    /// exactly once, before the loop begins, so a persistently invalid path
    /// fails immediately instead of being retried every cycle.
    pub fn verify_directory(&self, target: &PathState) -> (r: Result<(), PollError>)
        ensures
            r == spec_verify_directory(*target),
    {
        match target {
            PathState::Missing => Err(PollError::NotFound),
            PathState::NonDirectory => Err(PollError::NotADirectory),
            PathState::Directory(_) => Ok(()),
        }
    }

    /// Decide whether another cycle follows after `poll_cycles` completed
    /// ones. A real driver waits `poll_interval_millis` before the next scan
    /// exactly when this returns true.
    pub fn should_continue_polling(&self, poll_cycles: i32) -> (r: bool)
        ensures
            r == spec_should_continue(self.keep_running, self.max_poll_cycles, poll_cycles),
    {
        if self.max_poll_cycles <= 0 {
            self.keep_running
        } else {
            poll_cycles < self.max_poll_cycles
        }
    }

    /// Apply the deletion policy to a successfully processed entry: `None`
    /// when the file was removed, `Some` when it stays. A removal that the
    /// filesystem refuses is not an error: the entry stays and becomes
    /// eligible again on the next cycle.
    pub fn delete_file(&self, entry: FsEntry) -> (kept: Option<FsEntry>)
        ensures
            kept == spec_delete_file(self.delete_files, entry),
    {
        if self.delete_files {
            match entry {
                FsEntry::RegularFile { name, content, readable, removable } => {
                    if removable {
                        None
                    } else {
                        Some(FsEntry::RegularFile { name, content, readable, removable })
                    }
                },
                other => Some(other),
            }
        } else {
            Some(entry)
        }
    }

    /// Process one entry: skip it silently unless it is a regular file; read
    /// its content and invoke the handler; on success apply the deletion
    /// policy. Returns what remains of the entry and, for an unreadable file
    /// or a handler failure, the fatal error.
    pub fn process_file(&mut self, entry: FsEntry) -> (res: (Option<FsEntry>, Option<PollError>))
        ensures
            final(self).settings() == old(self).settings(),
            ({
                let step = spec_process_file(old(self).delete_files, entry, old(self).on_file_content);
                res.0 == step.0 && final(self).on_file_content == step.1 && res.1 == step.2
            }),
    {
        match entry {
            FsEntry::RegularFile { name, content, readable, removable } => {
                if !readable {
                    let kept = FsEntry::RegularFile {
                        name: name.clone(),
                        content,
                        readable,
                        removable,
                    };
                    (Some(kept), Some(PollError::ReadFailed { name }))
                } else {
                    let outcome = self.on_file_content.on_content(content.as_str());
                    match outcome {
                        Err(he) => {
                            let kept = FsEntry::RegularFile { name, content, readable, removable };
                            (Some(kept), Some(PollError::Handler(he)))
                        },
                        Ok(_) => {
                            let kept = self.delete_file(
                                FsEntry::RegularFile { name, content, readable, removable },
                            );
                            (kept, None)
                        },
                    }
                }
            },
            other => (Some(other), None),
        }
    }
}

/// Once a run of cycles has hit a fatal error, running further cycles changes
/// nothing: the error and the state at the moment of the abort are final.
pub proof fn lemma_run_cycles_stuck<H: ContentHandler>(
    delete_files: bool,
    dir: Seq<FsEntry>,
    h: H,
    m: nat,
    n: nat,
)
    requires
        m <= n,
        spec_run_cycles(delete_files, dir, h, m).2 is Some,
    ensures
        spec_run_cycles(delete_files, dir, h, n) == spec_run_cycles(delete_files, dir, h, m),
    decreases n,
{
    if m < n {
        lemma_run_cycles_stuck(delete_files, dir, h, m, (n - 1) as nat);
    }
}

impl<H: ContentHandler> DirectoryPoller<H> {
    /// One full poll cycle: one pass over `entries`, front to back. Returns
    /// the entries that remain and, when a read or handler failure aborted
    /// the pass, the fatal error; the failing entry and everything after it
    /// remain.
    fn run_cycle(&mut self, entries: Vec<FsEntry>) -> (res: (Vec<FsEntry>, Option<PollError>))
        ensures
            final(self).settings() == old(self).settings(),
            ({
                let c = spec_cycle(old(self).delete_files, entries@, old(self).on_file_content);
                res.0@ == c.0 && final(self).on_file_content == c.1 && res.1 == c.2
            }),
    {
        let ghost dir0 = entries@;
        let ghost h0 = self.on_file_content;
        let ghost del0 = self.delete_files;
        let ghost s0 = self.settings();
        let mut pending = entries;
        let mut kept: Vec<FsEntry> = Vec::new();
        let mut failure: Option<PollError> = None;
        let ghost mut i: int = 0;
        while failure.is_none() && pending.len() > 0
            invariant
                self.settings() == s0,
                self.delete_files == del0,
                0 <= i <= dir0.len(),
                failure is None ==> pending@ == dir0.subrange(i, dir0.len() as int),
                failure is None ==> ({
                    let c_all = spec_cycle_from(del0, dir0, 0, h0);
                    let c_rest = spec_cycle_from(del0, dir0, i, self.on_file_content);
                    c_all.0 == kept@ + c_rest.0 && c_all.1 == c_rest.1 && c_all.2 == c_rest.2
                }),
                failure matches Some(e) ==> ({
                    let c_all = spec_cycle_from(del0, dir0, 0, h0);
                    c_all.0 == kept@ + pending@ && c_all.1 == self.on_file_content && c_all.2
                        == Some(e)
                }),
            decreases pending.len(),
        {
            let ghost pending_in = pending@;
            let ghost h_in = self.on_file_content;
            let entry = pending.remove(0);
            proof {
                assert(entry == dir0[i]);
                assert(pending@ =~= dir0.subrange(i + 1, dir0.len() as int));
            }
            let step = self.process_file(entry);
            let ghost sp = spec_process_file(del0, dir0[i], h_in);
            match step.0 {
                Some(kept_entry) => {
                    kept.push(kept_entry);
                },
                None => {},
            }
            match step.1 {
                Some(fatal) => {
                    proof {
                        let c_here = spec_cycle_from(del0, dir0, i, h_in);
                        assert(c_here.0 == dir0.subrange(i, dir0.len() as int));
                        assert(kept@ + pending@ =~= kept@.drop_last() + dir0.subrange(
                            i,
                            dir0.len() as int,
                        ));
                    }
                    failure = Some(fatal);
                },
                None => {
                    proof {
                        let c_here = spec_cycle_from(del0, dir0, i, h_in);
                        let c_next = spec_cycle_from(del0, dir0, i + 1, self.on_file_content);
                        match sp.0 {
                            Some(k) => {
                                assert(kept@ =~= kept@.drop_last() + seq![k]);
                                assert(kept@.drop_last() + (seq![k] + c_next.0) =~= kept@
                                    + c_next.0);
                            },
                            None => {
                                assert(Seq::<FsEntry>::empty() + c_next.0 =~= c_next.0);
                            },
                        }
                        i = i + 1;
                    }
                },
            }
        }
        match failure {
            Some(fatal) => {
                kept.append(&mut pending);
                (kept, Some(fatal))
            },
            None => {
                proof {
                    assert(i == dir0.len());
                    let c_end = spec_cycle_from(del0, dir0, i, self.on_file_content);
                    assert(kept@ + c_end.0 =~= kept@);
                }
                (kept, None)
            },
        }
    }

    /// Run the full poll loop to completion or failure.
    ///
    /// The target is validated once, up front; a missing path or a non-
    /// directory is reported without any scan. Otherwise the entries are
    /// scanned once per cycle, each regular file's content is handed to the
    /// handler, successfully processed files are removed when the deletion
    /// policy is enabled, and the continuation policy decides after each
    /// cycle whether another follows: with a positive cycle cap, until the
    /// cap is reached; without one, a single cycle. A read or handler
    /// failure aborts the whole operation with that error.
    ///
    /// On this in-memory state no new entries ever appear between cycles, so
    /// a run with no cycle cap and the keep-running flag set would never
    /// return; that configuration is excluded here, and a driver that polls
    /// a live directory runs its own loop around
    /// [`should_continue_polling`](Self::should_continue_polling) instead.
    pub fn poll_directory(&mut self, target: &mut PathState) -> (r: Result<(), PollError>)
        requires
            old(self).max_poll_cycles > 0 || !old(self).keep_running,
        ensures
            final(self).settings() == old(self).settings(),
            *old(target) is Missing ==> r == Err::<(), PollError>(PollError::NotFound)
                && *final(target) == *old(target) && *final(self) == *old(self),
            *old(target) is NonDirectory ==> r == Err::<(), PollError>(PollError::NotADirectory)
                && *final(target) == *old(target) && *final(self) == *old(self),
            *old(target) is Directory ==> (*final(target)) is Directory && spec_poll_outcome(
                old(self).delete_files,
                (*old(target)).entries(),
                old(self).on_file_content,
                spec_planned_cycles(old(self).keep_running, old(self).max_poll_cycles),
                (*final(target)).entries(),
                final(self).on_file_content,
                r,
            ),
    {
        match self.verify_directory(target) {
            Err(e) => {
                return Err(e);
            },
            Ok(_) => {},
        }
        let mut state = PathState::Missing;
        core::mem::swap(target, &mut state);
        let mut entries: Vec<FsEntry> = match state {
            PathState::Directory(v) => v,
            _ => vstd::pervasive::unreached(),
        };
        let ghost dir0 = entries@;
        let ghost h0 = self.on_file_content;
        let ghost kr0 = self.keep_running;
        let ghost del0 = self.delete_files;
        let ghost max0 = self.max_poll_cycles;
        let ghost s0 = self.settings();
        let ghost planned = spec_planned_cycles(kr0, max0);
        let mut poll_cycles: i32 = 0;
        let ghost mut done: nat = 0;
        let mut outcome: Option<PollError> = None;
        let mut keep_going = true;
        while keep_going
            invariant
                self.settings() == s0,
                self.keep_running == kr0,
                self.delete_files == del0,
                self.max_poll_cycles == max0,
                max0 > 0 || !kr0,
                planned == spec_planned_cycles(kr0, max0),
                keep_going ==> outcome is None,
                keep_going ==> done < planned,
                max0 > 0 && outcome is None ==> done == poll_cycles as int && poll_cycles
                    <= max0,
                max0 <= 0 ==> done <= 1,
                outcome is None ==> ({
                    let run = spec_run_cycles(del0, dir0, h0, done);
                    run.0 == entries@ && run.1 == self.on_file_content && run.2 is None
                }),
                outcome matches Some(e) ==> !keep_going && 1 <= done <= planned && ({
                    let run = spec_run_cycles(del0, dir0, h0, done);
                    run.0 == entries@ && run.1 == self.on_file_content && run.2 == Some(e)
                }),
                !keep_going && outcome is None ==> done == planned,
            decreases planned - done,
        {
            let cycle_out = self.run_cycle(entries);
            entries = cycle_out.0;
            proof {
                done = done + 1;
            }
            match cycle_out.1 {
                Some(e) => {
                    outcome = Some(e);
                    keep_going = false;
                },
                None => {
                    if poll_cycles < i32::MAX {
                        poll_cycles = poll_cycles + 1;
                    }
                    keep_going = self.should_continue_polling(poll_cycles);
                },
            }
        }
        proof {
            if outcome is Some {
                lemma_run_cycles_stuck(del0, dir0, h0, done, planned);
            }
        }
        *target = PathState::Directory(entries);
        match outcome {
            Some(e) => Err(e),
            None => Ok(()),
        }
    }
}

/// Builder for [`DirectoryPoller`]: one mutation method per option, each
/// returning the updated builder, and a terminal [`build`](Self::build). The
/// builder validates nothing; every value is accepted as given.
pub struct DirectoryPollerBuilder<H> {
    pub keep_running: bool,
    pub delete_files: bool,
    pub poll_interval_millis: u64,
    pub max_poll_cycles: i32,
    pub on_file_content: H,
}

impl DirectoryPollerBuilder<NoOpHandler> {
    /// The defaults: do not continue after one cycle, do not delete files,
    /// poll every 1000 ms, no cycle cap, and the no-op handler.
    pub fn new() -> (b: DirectoryPollerBuilder<NoOpHandler>)
        ensures
            b.keep_running == false,
            b.delete_files == false,
            b.poll_interval_millis == 1000,
            b.max_poll_cycles == -1,
            b.on_file_content == (NoOpHandler {}),
    {
        DirectoryPollerBuilder {
            keep_running: false,
            delete_files: false,
            poll_interval_millis: 1000,
            max_poll_cycles: -1,
            on_file_content: NoOpHandler {},
        }
    }
}

impl<H: ContentHandler> DirectoryPollerBuilder<H> {
    /// Continue polling after each cycle (unless a positive cycle cap decides
    /// instead).
    pub fn keep_running(self, keep_running: bool) -> (b: Self)
        ensures
            b.keep_running == keep_running,
            b.delete_files == self.delete_files,
            b.poll_interval_millis == self.poll_interval_millis,
            b.max_poll_cycles == self.max_poll_cycles,
            b.on_file_content == self.on_file_content,
    {
        let mut b = self;
        b.keep_running = keep_running;
        b
    }

    /// Delete each file after its content was handled successfully.
    pub fn delete_files(self, delete_files: bool) -> (b: Self)
        ensures
            b.keep_running == self.keep_running,
            b.delete_files == delete_files,
            b.poll_interval_millis == self.poll_interval_millis,
            b.max_poll_cycles == self.max_poll_cycles,
            b.on_file_content == self.on_file_content,
    {
        let mut b = self;
        b.delete_files = delete_files;
        b
    }

    /// How long a real driver waits between cycles, in milliseconds.
    pub fn poll_interval_millis(self, poll_interval_millis: u64) -> (b: Self)
        ensures
            b.keep_running == self.keep_running,
            b.delete_files == self.delete_files,
            b.poll_interval_millis == poll_interval_millis,
            b.max_poll_cycles == self.max_poll_cycles,
            b.on_file_content == self.on_file_content,
    {
        let mut b = self;
        b.poll_interval_millis = poll_interval_millis;
        b
    }

    /// Cap the number of cycles; a positive cap takes precedence over the
    /// keep-running flag, and any value at most zero means no cap.
    pub fn max_poll_cycles(self, max_poll_cycles: i32) -> (b: Self)
        ensures
            b.keep_running == self.keep_running,
            b.delete_files == self.delete_files,
            b.poll_interval_millis == self.poll_interval_millis,
            b.max_poll_cycles == max_poll_cycles,
            b.on_file_content == self.on_file_content,
    {
        let mut b = self;
        b.max_poll_cycles = max_poll_cycles;
        b
    }

    /// Supply the content handler invoked once per eligible file per cycle.
    pub fn on_file_content<H2: ContentHandler>(self, handler: H2) -> (b: DirectoryPollerBuilder<
        H2,
    >)
        ensures
            b.keep_running == self.keep_running,
            b.delete_files == self.delete_files,
            b.poll_interval_millis == self.poll_interval_millis,
            b.max_poll_cycles == self.max_poll_cycles,
            b.on_file_content == handler,
    {
        DirectoryPollerBuilder {
            keep_running: self.keep_running,
            delete_files: self.delete_files,
            poll_interval_millis: self.poll_interval_millis,
            max_poll_cycles: self.max_poll_cycles,
            on_file_content: handler,
        }
    }

    /// Yield the immutable, fully-resolved poller.
    pub fn build(self) -> (p: DirectoryPoller<H>)
        ensures
            p.keep_running == self.keep_running,
            p.delete_files == self.delete_files,
            p.poll_interval_millis == self.poll_interval_millis,
            p.max_poll_cycles == self.max_poll_cycles,
            p.on_file_content == self.on_file_content,
    {
        DirectoryPoller {
            keep_running: self.keep_running,
            delete_files: self.delete_files,
            poll_interval_millis: self.poll_interval_millis,
            max_poll_cycles: self.max_poll_cycles,
            on_file_content: self.on_file_content,
        }
    }
}

} // verus!
