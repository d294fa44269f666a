//! Properties of the polling engine, stated over the specification functions
//! that [`crate::poller`]'s contracts use.

use vstd::prelude::*;

use crate::fs_model::FsEntry;
use crate::handler::{ContentHandler, CountingHandler, HandlerError};
use crate::poller::{
    spec_cycle, spec_cycle_from, spec_process_file, spec_run_cycles, PollError,
};

verus! {

/// The contents of the eligible (regular-file) entries of `dir[i..]`, in
/// scan order.
pub open spec fn spec_eligible_contents(dir: Seq<FsEntry>, i: int) -> Seq<Seq<char>>
    decreases dir.len() - i,
{
    if i < 0 || i >= dir.len() {
        Seq::empty()
    } else {
        let rest = spec_eligible_contents(dir, i + 1);
        match dir[i] {
            FsEntry::RegularFile { content, .. } => seq![content@] + rest,
            _ => rest,
        }
    }
}

/// A handler's state after one invocation per element of `contents`, in
/// order.
pub open spec fn spec_handler_after_all<H: ContentHandler>(h: H, contents: Seq<Seq<char>>) -> H
    decreases contents.len(),
{
    if contents.len() == 0 {
        h
    } else {
        spec_handler_after_all(h.after(contents[0]), contents.subrange(1, contents.len() as int))
    }
}

proof fn lemma_cycle_from_no_delete<H: ContentHandler>(dir: Seq<FsEntry>, i: int, h: H)
    requires
        0 <= i <= dir.len(),
    ensures
        spec_cycle_from(false, dir, i, h).0 == dir.subrange(i, dir.len() as int),
    decreases dir.len() - i,
{
    if i == dir.len() {
        assert(dir.subrange(i, dir.len() as int) =~= Seq::<FsEntry>::empty());
    } else {
        let step = spec_process_file(false, dir[i], h);
        if step.2 is Some {
            // the failing entry and everything after it remain
        } else {
            lemma_cycle_from_no_delete(dir, i + 1, step.1);
            assert(seq![dir[i]] + dir.subrange(i + 1, dir.len() as int) =~= dir.subrange(
                i,
                dir.len() as int,
            ));
        }
    }
}

/// With deletion disabled, no pass over the directory removes anything:
/// after any number of cycles every entry is still there, whatever the
/// handler did, even when a failure aborted the run.
pub proof fn lemma_no_delete_preserves_entries<H: ContentHandler>(dir: Seq<FsEntry>, h: H, n: nat)
    ensures
        spec_run_cycles(false, dir, h, n).0 == dir,
    decreases n,
{
    if n > 0 {
        lemma_no_delete_preserves_entries(dir, h, (n - 1) as nat);
        let prev = spec_run_cycles(false, dir, h, (n - 1) as nat);
        if prev.2 is None {
            lemma_cycle_from_no_delete(dir, 0, prev.1);
            assert(dir.subrange(0, dir.len() as int) =~= dir);
        }
    }
}

proof fn lemma_cycle_from_handler<H: ContentHandler>(
    delete_files: bool,
    dir: Seq<FsEntry>,
    i: int,
    h: H,
)
    requires
        0 <= i <= dir.len(),
        spec_cycle_from(delete_files, dir, i, h).2 is None,
    ensures
        spec_cycle_from(delete_files, dir, i, h).1 == spec_handler_after_all(
            h,
            spec_eligible_contents(dir, i),
        ),
    decreases dir.len() - i,
{
    if i < dir.len() {
        let step = spec_process_file(delete_files, dir[i], h);
        let cs = spec_eligible_contents(dir, i);
        match dir[i] {
            FsEntry::RegularFile { content, .. } => {
                lemma_cycle_from_handler(delete_files, dir, i + 1, step.1);
                assert(cs[0] == content@);
                assert(cs.subrange(1, cs.len() as int) =~= spec_eligible_contents(dir, i + 1));
            },
            _ => {
                lemma_cycle_from_handler(delete_files, dir, i + 1, h);
            },
        }
    }
}

/// In a cycle that completes without a fatal error, the handler is invoked
/// exactly once per eligible file, in scan order, and with exactly those
/// files' contents: directories, symlinks and other non-regular entries are
/// never passed to it.
pub proof fn lemma_cycle_invokes_handler_once_per_eligible_file<H: ContentHandler>(
    delete_files: bool,
    dir: Seq<FsEntry>,
    h: H,
)
    requires
        spec_cycle(delete_files, dir, h).2 is None,
    ensures
        spec_cycle(delete_files, dir, h).1 == spec_handler_after_all(
            h,
            spec_eligible_contents(dir, 0),
        ),
{
    lemma_cycle_from_handler(delete_files, dir, 0, h);
}

/// A run of one cycle is exactly one cycle: together with
/// [`lemma_cycle_invokes_handler_once_per_eligible_file`] this says that a
/// "run once" poll (no cycle cap, keep-running unset, so the planned count is
/// one) invokes the handler exactly once per eligible file and terminates.
pub proof fn lemma_single_cycle_run<H: ContentHandler>(
    delete_files: bool,
    dir: Seq<FsEntry>,
    h: H,
)
    ensures
        spec_run_cycles(delete_files, dir, h, 1) == spec_cycle(delete_files, dir, h),
{
    assert(spec_run_cycles(delete_files, dir, h, 0) == (dir, h, Option::<PollError>::None));
}

proof fn lemma_cycle_from_handler_prefix<H: ContentHandler>(
    delete_files: bool,
    dir: Seq<FsEntry>,
    i: int,
    h: H,
)
    requires
        0 <= i <= dir.len(),
    ensures
        exists|k: int|
            0 <= k <= spec_eligible_contents(dir, i).len() && spec_cycle_from(
                delete_files,
                dir,
                i,
                h,
            ).1 == spec_handler_after_all(h, spec_eligible_contents(dir, i).take(k)),
    decreases dir.len() - i,
{
    let cs = spec_eligible_contents(dir, i);
    if i == dir.len() {
        assert(cs.take(0) =~= Seq::<Seq<char>>::empty());
        assert(spec_cycle_from(delete_files, dir, i, h).1 == spec_handler_after_all(
            h,
            cs.take(0),
        ));
    } else {
        let step = spec_process_file(delete_files, dir[i], h);
        match dir[i] {
            FsEntry::RegularFile { content, readable, .. } => {
                if !readable {
                    assert(cs.take(0) =~= Seq::<Seq<char>>::empty());
                    assert(spec_cycle_from(delete_files, dir, i, h).1
                        == spec_handler_after_all(h, cs.take(0)));
                } else {
                    let h2 = h.after(content@);
                    assert(cs[0] == content@);
                    if h.respond(content@) is Err {
                        assert(cs.take(1) =~= seq![content@]);
                        assert(seq![content@][0] == content@);
                        assert(seq![content@].subrange(1, 1) =~= Seq::<Seq<char>>::empty());
                        assert(spec_handler_after_all(h2, Seq::<Seq<char>>::empty()) == h2);
                        assert(spec_handler_after_all(h, cs.take(1)) == h2);
                        assert(0 <= 1 <= cs.len() && spec_cycle_from(delete_files, dir, i, h).1
                            == spec_handler_after_all(h, cs.take(1)));
                    } else {
                        lemma_cycle_from_handler_prefix(delete_files, dir, i + 1, h2);
                        let cs2 = spec_eligible_contents(dir, i + 1);
                        let k2 = choose|k: int|
                            0 <= k <= cs2.len() && spec_cycle_from(delete_files, dir, i + 1, h2).1
                                == spec_handler_after_all(h2, cs2.take(k));
                        assert(cs.take(k2 + 1) =~= seq![content@] + cs2.take(k2));
                        assert(cs.take(k2 + 1).subrange(1, cs.take(k2 + 1).len() as int)
                            =~= cs2.take(k2));
                        assert(spec_handler_after_all(h, cs.take(k2 + 1))
                            == spec_handler_after_all(h2, cs2.take(k2)));
                        assert(0 <= k2 + 1 <= cs.len() && spec_cycle_from(
                            delete_files,
                            dir,
                            i,
                            h,
                        ).1 == spec_handler_after_all(h, cs.take(k2 + 1)));
                    }
                }
            },
            _ => {
                lemma_cycle_from_handler_prefix(delete_files, dir, i + 1, h);
                let cs2 = spec_eligible_contents(dir, i + 1);
                let k2 = choose|k: int|
                    0 <= k <= cs2.len() && spec_cycle_from(delete_files, dir, i + 1, h).1
                        == spec_handler_after_all(h, cs2.take(k));
                assert(cs =~= cs2);
                assert(cs.take(k2) =~= cs2.take(k2));
                assert(0 <= k2 <= cs.len() && spec_cycle_from(delete_files, dir, i, h).1
                    == spec_handler_after_all(h, cs.take(k2)));
            },
        }
    }
}

/// In any cycle — aborted or not — the handler's state afterwards is its
/// state after some prefix of the eligible files' contents, in scan order:
/// directories, symlinks and other non-regular entries never reach the
/// handler, even in a cycle that a failure cut short.
pub proof fn lemma_handler_never_sees_non_regular_entries<H: ContentHandler>(
    delete_files: bool,
    dir: Seq<FsEntry>,
    h: H,
)
    ensures
        exists|k: int|
            0 <= k <= spec_eligible_contents(dir, 0).len() && spec_cycle(delete_files, dir, h).1
                == spec_handler_after_all(h, spec_eligible_contents(dir, 0).take(k)),
{
    lemma_cycle_from_handler_prefix(delete_files, dir, 0, h);
}

/// A [`CountingHandler`] counts one invocation per content handed to it.
pub proof fn lemma_handler_after_all_counts(h: CountingHandler, contents: Seq<Seq<char>>)
    requires
        h.calls + contents.len() <= u64::MAX,
    ensures
        spec_handler_after_all(h, contents).calls == h.calls + contents.len(),
    decreases contents.len(),
{
    if contents.len() > 0 {
        lemma_handler_after_all_counts(
            h.after(contents[0]),
            contents.subrange(1, contents.len() as int),
        );
    }
}

/// With a cycle cap of `n` and deletion disabled, a single file present for
/// the whole run is handed to the handler exactly once per cycle — `n` times
/// in all — and the run reports no error.
pub proof fn lemma_capped_run_invokes_handler_once_per_cycle(
    name: String,
    content: String,
    removable: bool,
    calls: u64,
    n: nat,
)
    requires
        calls + n <= u64::MAX,
    ensures
        ({
            let f = FsEntry::RegularFile { name, content, readable: true, removable };
            let run = spec_run_cycles(false, seq![f], CountingHandler { calls }, n);
            run.0 == seq![f] && run.1 == (CountingHandler { calls: (calls + n) as u64 }) && run.2
                is None
        }),
    decreases n,
{
    let f = FsEntry::RegularFile { name, content, readable: true, removable };
    if n > 0 {
        lemma_capped_run_invokes_handler_once_per_cycle(
            name,
            content,
            removable,
            calls,
            (n - 1) as nat,
        );
        let prev = spec_run_cycles(false, seq![f], CountingHandler { calls }, (n - 1) as nat);
        let step = spec_process_file(false, f, prev.1);
        assert(seq![f][0] == f);
        assert(step.0 == Some(f) && step.2 is None);
        assert(seq![f] + spec_cycle_from(false, seq![f], 1, step.1).0 =~= seq![f]);
    }
}

/// With deletion enabled, a readable, removable file whose content the
/// handler accepts is gone after one cycle.
pub proof fn lemma_enabled_deletion_removes_processed_file<H: ContentHandler>(
    name: String,
    content: String,
    h: H,
)
    requires
        h.respond(content@) is Ok,
    ensures
        ({
            let f = FsEntry::RegularFile { name, content, readable: true, removable: true };
            let c = spec_cycle(true, seq![f], h);
            c.0 == Seq::<FsEntry>::empty() && c.1 == h.after(content@) && c.2 is None
        }),
{
    let f = FsEntry::RegularFile { name, content, readable: true, removable: true };
    let step = spec_process_file(true, f, h);
    assert(seq![f][0] == f);
    assert(step.0 is None && step.2 is None);
    assert(Seq::<FsEntry>::empty() + spec_cycle_from(true, seq![f], 1, step.1).0
        =~= Seq::<FsEntry>::empty());
}

/// When the handler rejects the first file of a cycle, the run aborts at once
/// with that failure: no entry is removed, no later file reaches the handler
/// (its state shows exactly one invocation), and no further cycle changes
/// anything.
pub proof fn lemma_handler_failure_aborts_immediately<H: ContentHandler>(
    delete_files: bool,
    name: String,
    content: String,
    removable: bool,
    rest: Seq<FsEntry>,
    he: HandlerError,
    h: H,
    n: nat,
)
    requires
        1 <= n,
        h.respond(content@) == Err::<(), HandlerError>(he),
    ensures
        ({
            let f = FsEntry::RegularFile { name, content, readable: true, removable };
            let dir = seq![f] + rest;
            let run = spec_run_cycles(delete_files, dir, h, n);
            run.0 == dir && run.1 == h.after(content@) && run.2 == Some(PollError::Handler(he))
        }),
{
    let f = FsEntry::RegularFile { name, content, readable: true, removable };
    let dir = seq![f] + rest;
    assert(dir[0] == f);
    let step = spec_process_file(delete_files, f, h);
    assert(step.2 == Some(PollError::Handler(he)));
    assert(dir.subrange(0, dir.len() as int) =~= dir);
    assert(spec_run_cycles(delete_files, dir, h, 0) == (dir, h, Option::<PollError>::None));
    assert(spec_cycle(delete_files, dir, h) == (dir.subrange(0, dir.len() as int), step.1, step.2));
    let first = spec_run_cycles(delete_files, dir, h, 1);
    assert(first.0 == dir && first.1 == h.after(content@) && first.2 == Some(
        PollError::Handler(he),
    ));
    crate::poller::lemma_run_cycles_stuck(delete_files, dir, h, 1, n);
}

} // verus!
