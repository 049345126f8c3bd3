//! The fault-tolerant tree copier, as a state machine.
//!
//! The engine owns the traversal frontier and the failure registry and makes
//! every decision of the copy: which path is visited next, which destination
//! path it maps to, and how each outcome class is handled — idempotent skip,
//! silent source-read skip, one repaired retry, remount recovery, or a fatal
//! abort.  It performs no I/O itself: an unverified driver reads the pending
//! phase, carries out the one filesystem or mount operation it names on
//! [`Engine::cur`] / [`Engine::cur_dest`], and feeds the outcome back through
//! the `on_*` methods.  Every transition is pinned by its contract.

use crate::errors::classify_os_error;
use crate::errors::classify_spec;
use crate::errors::ErrorClass;
use crate::mapping::dest_path_spec;
use crate::mapping::map_dest_path;
use crate::mapping::under_root;
use crate::registry::FailureRegistry;
use crate::sanitize::repair_final_component;
use crate::sanitize::replace_forbidden_characters;
use vstd::prelude::*;

verus! {

/// The resolved invocation, read-only for the run: the device to mount, its
/// mount point, the source root and the destination root.
pub struct Config {
    pub device: String,
    pub mount_point: String,
    pub source: String,
    pub dest: String,
}

/// What the engine is waiting for.  Outside the two terminal states, each
/// phase names exactly the one operation the driver must perform next.
#[derive(Clone, Copy, Debug, PartialEq, Eq, Structural)]
pub enum Phase {
    /// Not started: the outcome of the startup probe of the source root is
    /// awaited.
    Idle,
    /// A path was popped from the frontier; awaiting whether it is a
    /// directory.
    AwaitIsDir,
    /// Awaiting creation of the destination directory and its ancestors.
    AwaitCreate,
    /// Awaiting the one repaired retry of the destination creation.
    AwaitCreateRetry,
    /// Awaiting the listing of the current source directory.
    AwaitList,
    /// Awaiting whether the destination file already exists.
    AwaitExists,
    /// As `AwaitExists`, for the repaired destination path.
    AwaitExistsRetry,
    /// Awaiting the byte copy of the current file.
    AwaitCopy,
    /// Awaiting the one repaired retry of the byte copy.
    AwaitCopyRetry,
    /// Remount recovery: awaiting the best-effort unmount.
    AwaitUnmount,
    /// Awaiting a mount attempt; repeated without bound until it succeeds.
    AwaitMount,
    /// The frontier is empty: the only successful terminal state.
    Done,
    /// A fatal error class was observed; the run is over.
    Aborted,
}

/// The phases in which `cur` is the target of a pending filesystem
/// operation.
pub open spec fn fs_target_phase(ph: Phase) -> bool {
    ||| ph == Phase::AwaitIsDir
    ||| ph == Phase::AwaitCreate
    ||| ph == Phase::AwaitCreateRetry
    ||| ph == Phase::AwaitList
    ||| ph == Phase::AwaitExists
    ||| ph == Phase::AwaitExistsRetry
    ||| ph == Phase::AwaitCopy
    ||| ph == Phase::AwaitCopyRetry
}

/// The phases whose pending operation addresses the destination path as the
/// bulk mapping produced it.
pub open spec fn mapped_dest_phase(ph: Phase) -> bool {
    ||| ph == Phase::AwaitIsDir
    ||| ph == Phase::AwaitCreate
    ||| ph == Phase::AwaitExists
    ||| ph == Phase::AwaitCopy
}

/// The phases whose pending operation addresses the destination path after
/// its one final-component repair.
pub open spec fn repaired_dest_phase(ph: Phase) -> bool {
    ||| ph == Phase::AwaitCreateRetry
    ||| ph == Phase::AwaitExistsRetry
    ||| ph == Phase::AwaitCopyRetry
}

/// What the frontier hands out next: the unordered last-in-first-out
/// collection is popped until a path that is not a known failure appears, or
/// it runs empty.
pub open spec fn next_pending(frontier: Seq<String>, failed: Set<Seq<char>>) -> Option<
    (Seq<String>, String),
>
    decreases frontier.len(),
{
    if frontier.len() == 0 {
        Option::None
    } else if failed.contains(frontier.last()@) {
        next_pending(frontier.drop_last(), failed)
    } else {
        Option::Some((frontier.drop_last(), frontier.last()))
    }
}

/// The fault-tolerant tree copier.
pub struct Engine {
    /// The invocation, immutable for the run.
    pub config: Config,
    /// Absolute source paths still to be visited.
    pub frontier: Vec<String>,
    /// Source paths abandoned after a connection abort; append-only.
    pub registry: FailureRegistry,
    /// The source path the pending operation is about.
    pub cur: String,
    /// The destination path the pending operation is about.
    pub cur_dest: String,
    /// What the engine is waiting for.
    pub phase: Phase,
}

impl Engine {
    /// Well-formedness: every queued path lies under the source root, a
    /// known failure is never the target of a filesystem operation, and the
    /// pending destination path is exactly the mapped (or once-repaired)
    /// image of the pending source path.
    pub open spec fn wf(&self) -> bool {
        &&& forall|i: int|
            0 <= i < self.frontier@.len() ==> under_root(
                self.config.source@,
                #[trigger] self.frontier@[i]@,
            )
        &&& fs_target_phase(self.phase) ==> under_root(self.config.source@, self.cur@)
        &&& fs_target_phase(self.phase) ==> !self.registry@.contains(self.cur@)
        &&& mapped_dest_phase(self.phase) ==> self.cur_dest@ == dest_path_spec(
            self.config.source@,
            self.config.dest@,
            self.cur@,
        )
        &&& repaired_dest_phase(self.phase) ==> self.cur_dest@ == repair_final_component(
            dest_path_spec(self.config.source@, self.config.dest@, self.cur@),
        )
    }

    /// A fresh engine for one run: empty frontier, empty registry, not yet
    /// started.
    pub fn new(config: Config) -> (e: Engine)
        ensures
            e.wf(),
            e.phase == Phase::Idle,
            e.config == config,
            e.frontier@.len() == 0,
            e.registry@ == Set::<Seq<char>>::empty(),
    {
        Engine {
            config,
            frontier: Vec::new(),
            registry: FailureRegistry::new(),
            cur: String::new(),
            cur_dest: String::new(),
            phase: Phase::Idle,
        }
    }

    /// Pops the frontier until a path that is not a known failure appears
    /// and makes it the pending target, or reaches the successful terminal
    /// state when the frontier runs empty.
    fn advance(&mut self)
        requires
            old(self).wf(),
        ensures
            final(self).wf(),
            advanced_from(*final(self), old(self).config, old(self).frontier@, old(self).registry@),
    {
        loop
            invariant
                self.wf(),
                self.config == old(self).config,
                self.registry@ == old(self).registry@,
                self.phase == old(self).phase,
                self.cur == old(self).cur,
                self.cur_dest == old(self).cur_dest,
                next_pending(self.frontier@, self.registry@) == next_pending(
                    old(self).frontier@,
                    old(self).registry@,
                ),
            decreases self.frontier@.len(),
        {
            let ghost prev = self.frontier@;
            proof {
                if prev.len() > 0 {
                    assert(under_root(self.config.source@, self.frontier@[prev.len() - 1]@));
                }
            }
            let popped = self.frontier.pop();
            match popped {
                Option::None => {
                    self.phase = Phase::Done;
                    return ;
                },
                Option::Some(p) => {
                    if !self.registry.is_failure(&p) {
                        proof {
                            assert(p == prev.last());
                            assert(next_pending(prev, self.registry@) == Option::Some(
                                (prev.drop_last(), prev.last()),
                            ));
                            assert(self.frontier@ =~= prev.drop_last());
                        }
                        let d = map_dest_path(
                            self.config.source.as_str(),
                            self.config.dest.as_str(),
                            p.as_str(),
                        );
                        self.cur = p;
                        self.cur_dest = d;
                        self.phase = Phase::AwaitIsDir;
                        return ;
                    }
                    proof {
                        assert(next_pending(prev, self.registry@) == next_pending(
                            prev.drop_last(),
                            self.registry@,
                        ));
                        assert(self.frontier@ =~= prev.drop_last());
                    }
                },
            }
        }
    }

    /// Feeds the startup probe's outcome: the attempt to list the source
    /// root either succeeded or failed with the given raw OS error code.  A
    /// transport-not-connected failure queues the root and asks for a
    /// mount; any other failure is fatal.
    pub fn start(&mut self, probe: Result<(), Option<i32>>)
        requires
            old(self).wf(),
            old(self).phase == Phase::Idle,
        ensures
            final(self).wf(),
            final(self).config == old(self).config,
            old(self).registry@.subset_of(final(self).registry@),
            match probe {
                Result::Ok(_) => advanced_from(
                    *final(self),
                    old(self).config,
                    old(self).frontier@.push(old(self).config.source),
                    old(self).registry@,
                ),
                Result::Err(code) => if classify_spec(code)
                    == ErrorClass::TransportNotConnected {
                    &&& final(self).phase == Phase::AwaitMount
                    &&& final(self).registry@ == old(self).registry@
                    &&& final(self).frontier@ == old(self).frontier@.push(old(self).config.source)
                } else {
                    final(self).phase == Phase::Aborted
                },
            },
    {
        match probe {
            Result::Ok(_) => {
                let src = self.config.source.clone();
                self.frontier.push(src);
                self.advance();
            },
            Result::Err(code) => {
                match classify_os_error(code) {
                    ErrorClass::TransportNotConnected => {
                        let src = self.config.source.clone();
                        self.frontier.push(src);
                        self.phase = Phase::AwaitMount;
                    },
                    _ => {
                        self.phase = Phase::Aborted;
                    },
                }
            },
        }
    }

    /// Feeds the answer to "is the pending source path a directory?".
    pub fn on_is_dir(&mut self, is_dir: bool)
        requires
            old(self).wf(),
            old(self).phase == Phase::AwaitIsDir,
        ensures
            final(self).wf(),
            final(self).config == old(self).config,
            final(self).registry@ == old(self).registry@,
            final(self).frontier@ == old(self).frontier@,
            final(self).cur == old(self).cur,
            final(self).cur_dest == old(self).cur_dest,
            final(self).phase == if is_dir {
                Phase::AwaitCreate
            } else {
                Phase::AwaitExists
            },
    {
        if is_dir {
            self.phase = Phase::AwaitCreate;
        } else {
            self.phase = Phase::AwaitExists;
        }
    }

    /// Feeds the outcome of creating the destination directory (with all
    /// missing ancestors).  An invalid-argument rejection earns one retry
    /// with the final component repaired; its failure, or any other error
    /// class, is fatal.
    pub fn on_create_dir(&mut self, result: Result<(), Option<i32>>)
        requires
            old(self).wf(),
            old(self).phase == Phase::AwaitCreate || old(self).phase == Phase::AwaitCreateRetry,
        ensures
            final(self).wf(),
            final(self).config == old(self).config,
            final(self).registry@ == old(self).registry@,
            final(self).frontier@ == old(self).frontier@,
            final(self).cur == old(self).cur,
            match result {
                Result::Ok(_) => final(self).phase == Phase::AwaitList && final(self).cur_dest
                    == old(self).cur_dest,
                Result::Err(code) => if old(self).phase == Phase::AwaitCreate && classify_spec(code)
                    == ErrorClass::InvalidArgument {
                    &&& final(self).phase == Phase::AwaitCreateRetry
                    &&& final(self).cur_dest@ == repair_final_component(old(self).cur_dest@)
                } else {
                    final(self).phase == Phase::Aborted
                },
            },
    {
        match result {
            Result::Ok(_) => {
                self.phase = Phase::AwaitList;
            },
            Result::Err(code) => {
                let retryable = self.phase == Phase::AwaitCreate;
                match classify_os_error(code) {
                    ErrorClass::InvalidArgument if retryable => {
                        self.cur_dest = replace_forbidden_characters(&self.cur_dest);
                        self.phase = Phase::AwaitCreateRetry;
                    },
                    _ => {
                        self.phase = Phase::Aborted;
                    },
                }
            },
        }
    }

    /// Feeds one directory listing of the pending source directory: the
    /// children that were yielded, in listing order, and how the
    /// enumeration ended.  Children are queued in either case; a
    /// connection abort marks the directory failed and asks for a remount,
    /// any other error class is fatal, and a clean end moves on.
    pub fn on_list_dir(&mut self, children: Vec<String>, result: Result<(), Option<i32>>)
        requires
            old(self).wf(),
            old(self).phase == Phase::AwaitList,
            forall|i: int|
                0 <= i < children@.len() ==> under_root(
                    old(self).config.source@,
                    #[trigger] children@[i]@,
                ),
        ensures
            final(self).wf(),
            final(self).config == old(self).config,
            old(self).registry@.subset_of(final(self).registry@),
            match result {
                Result::Ok(_) => advanced_from(
                    *final(self),
                    old(self).config,
                    old(self).frontier@ + children@,
                    old(self).registry@,
                ),
                Result::Err(code) => if classify_spec(code) == ErrorClass::ConnectionAborted {
                    &&& final(self).phase == Phase::AwaitUnmount
                    &&& final(self).registry@ == old(self).registry@.insert(old(self).cur@)
                    &&& final(self).frontier@ == old(self).frontier@ + children@
                    &&& final(self).cur == old(self).cur
                } else {
                    final(self).phase == Phase::Aborted
                },
            },
    {
        let n = children.len();
        let mut i: usize = 0;
        proof {
            assert(self.frontier@ =~= old(self).frontier@ + children@.subrange(0, 0));
        }
        while i < n
            invariant
                self.wf(),
                n == children@.len(),
                i <= n,
                self.config == old(self).config,
                self.registry@ == old(self).registry@,
                self.phase == old(self).phase,
                self.cur == old(self).cur,
                self.cur_dest == old(self).cur_dest,
                self.frontier@ == old(self).frontier@ + children@.subrange(0, i as int),
                forall|j: int|
                    0 <= j < children@.len() ==> under_root(
                        self.config.source@,
                        #[trigger] children@[j]@,
                    ),
            decreases n - i,
        {
            let c = children[i].clone();
            self.frontier.push(c);
            proof {
                assert(self.frontier@ =~= old(self).frontier@ + children@.subrange(0, i + 1));
            }
            i = i + 1;
        }
        proof {
            assert(children@.subrange(0, n as int) =~= children@);
        }
        match result {
            Result::Ok(_) => {
                self.advance();
            },
            Result::Err(code) => {
                match classify_os_error(code) {
                    ErrorClass::ConnectionAborted => {
                        self.registry.remember_failure(&self.cur);
                        self.phase = Phase::AwaitUnmount;
                    },
                    _ => {
                        self.phase = Phase::Aborted;
                    },
                }
            },
        }
    }

    /// Feeds the answer to "does the pending destination file exist?".  An
    /// existing destination counts as already copied and is skipped; a
    /// missing one is copied next.
    pub fn on_exists(&mut self, exists: bool)
        requires
            old(self).wf(),
            old(self).phase == Phase::AwaitExists || old(self).phase == Phase::AwaitExistsRetry,
        ensures
            final(self).wf(),
            final(self).config == old(self).config,
            old(self).registry@.subset_of(final(self).registry@),
            exists ==> advanced_from(
                *final(self),
                old(self).config,
                old(self).frontier@,
                old(self).registry@,
            ),
            !exists ==> {
                &&& final(self).phase == if old(self).phase == Phase::AwaitExists {
                    Phase::AwaitCopy
                } else {
                    Phase::AwaitCopyRetry
                }
                &&& final(self).registry@ == old(self).registry@
                &&& final(self).frontier@ == old(self).frontier@
                &&& final(self).cur == old(self).cur
                &&& final(self).cur_dest == old(self).cur_dest
            },
    {
        if exists {
            self.advance();
        } else if self.phase == Phase::AwaitExists {
            self.phase = Phase::AwaitCopy;
        } else {
            self.phase = Phase::AwaitCopyRetry;
        }
    }

    /// Feeds the outcome of the byte copy.  A source-side input/output
    /// error skips the one file silently; a connection abort marks the
    /// source path failed and asks for a remount; an invalid-argument
    /// rejection earns one retry through the repaired destination path;
    /// everything else is fatal.
    pub fn on_copy(&mut self, result: Result<(), Option<i32>>)
        requires
            old(self).wf(),
            old(self).phase == Phase::AwaitCopy || old(self).phase == Phase::AwaitCopyRetry,
        ensures
            final(self).wf(),
            final(self).config == old(self).config,
            old(self).registry@.subset_of(final(self).registry@),
            match result {
                Result::Ok(_) => advanced_from(
                    *final(self),
                    old(self).config,
                    old(self).frontier@,
                    old(self).registry@,
                ),
                Result::Err(code) => match classify_spec(code) {
                    ErrorClass::InputOutputError => advanced_from(
                        *final(self),
                        old(self).config,
                        old(self).frontier@,
                        old(self).registry@,
                    ),
                    ErrorClass::ConnectionAborted => {
                        &&& final(self).phase == Phase::AwaitUnmount
                        &&& final(self).registry@ == old(self).registry@.insert(old(self).cur@)
                        &&& final(self).frontier@ == old(self).frontier@
                        &&& final(self).cur == old(self).cur
                    },
                    ErrorClass::InvalidArgument => if old(self).phase == Phase::AwaitCopy {
                        &&& final(self).phase == Phase::AwaitExistsRetry
                        &&& final(self).registry@ == old(self).registry@
                        &&& final(self).frontier@ == old(self).frontier@
                        &&& final(self).cur == old(self).cur
                        &&& final(self).cur_dest@ == repair_final_component(old(self).cur_dest@)
                    } else {
                        final(self).phase == Phase::Aborted
                    },
                    _ => final(self).phase == Phase::Aborted,
                },
            },
    {
        match result {
            Result::Ok(_) => {
                self.advance();
            },
            Result::Err(code) => {
                let retryable = self.phase == Phase::AwaitCopy;
                match classify_os_error(code) {
                    ErrorClass::InputOutputError => {
                        self.advance();
                    },
                    ErrorClass::ConnectionAborted => {
                        self.registry.remember_failure(&self.cur);
                        self.phase = Phase::AwaitUnmount;
                    },
                    ErrorClass::InvalidArgument if retryable => {
                        self.cur_dest = replace_forbidden_characters(&self.cur_dest);
                        self.phase = Phase::AwaitExistsRetry;
                    },
                    _ => {
                        self.phase = Phase::Aborted;
                    },
                }
            },
        }
    }

    /// Feeds the outcome of the best-effort unmount half of a remount
    /// cycle; whether it succeeded or not, a mount attempt follows.
    pub fn on_unmount(&mut self, _success: bool)
        requires
            old(self).wf(),
            old(self).phase == Phase::AwaitUnmount,
        ensures
            final(self).wf(),
            final(self).config == old(self).config,
            final(self).registry@ == old(self).registry@,
            final(self).frontier@ == old(self).frontier@,
            final(self).cur == old(self).cur,
            final(self).cur_dest == old(self).cur_dest,
            final(self).phase == Phase::AwaitMount,
    {
        self.phase = Phase::AwaitMount;
    }

    /// Feeds the outcome of a mount attempt.  Failure starts another
    /// unmount-then-mount cycle — there is no retry cap — and success
    /// returns control to the traversal.
    pub fn on_mount(&mut self, success: bool)
        requires
            old(self).wf(),
            old(self).phase == Phase::AwaitMount,
        ensures
            final(self).wf(),
            final(self).config == old(self).config,
            old(self).registry@.subset_of(final(self).registry@),
            success ==> advanced_from(
                *final(self),
                old(self).config,
                old(self).frontier@,
                old(self).registry@,
            ),
            !success ==> {
                &&& final(self).phase == Phase::AwaitUnmount
                &&& final(self).registry@ == old(self).registry@
                &&& final(self).frontier@ == old(self).frontier@
                &&& final(self).cur == old(self).cur
                &&& final(self).cur_dest == old(self).cur_dest
            },
    {
        if success {
            self.advance();
        } else {
            self.phase = Phase::AwaitUnmount;
        }
    }
}

/// The engine advanced out of a completed operation: with the given
/// frontier and registry, it either took up the next pending path — with
/// its destination mapped afresh — or finished because nothing pending
/// remained.
pub open spec fn advanced_from(
    post: Engine,
    cfg: Config,
    frontier: Seq<String>,
    failed: Set<Seq<char>>,
) -> bool {
    &&& post.config == cfg
    &&& post.registry@ == failed
    &&& match next_pending(frontier, failed) {
        Option::None => post.phase == Phase::Done && post.frontier@.len() == 0,
        Option::Some(np) => {
            &&& post.phase == Phase::AwaitIsDir
            &&& post.frontier@ == np.0
            &&& post.cur@ == np.1@
            &&& post.cur_dest@ == dest_path_spec(cfg.source@, cfg.dest@, np.1@)
        },
    }
}

/// Failure-registry permanence, at the frontier: whatever order paths were
/// queued in, the next pending path handed out is never a known failure.
pub proof fn lemma_next_pending_not_failed(frontier: Seq<String>, failed: Set<Seq<char>>)
    ensures
        match next_pending(frontier, failed) {
            Option::Some(np) => !failed.contains(np.1@),
            Option::None => true,
        },
    decreases frontier.len(),
{
    if frontier.len() > 0 && failed.contains(frontier.last()@) {
        lemma_next_pending_not_failed(frontier.drop_last(), failed);
    }
}

/// Failure-registry permanence, at the pending operation: a well-formed
/// engine never holds a registered path as the target of a filesystem
/// operation.
pub proof fn lemma_failed_path_never_targeted(e: Engine)
    requires
        e.wf(),
        fs_target_phase(e.phase),
    ensures
        !e.registry@.contains(e.cur@),
{
}

} // verus!
