//! Bookkeeping of the graphics hook: which slots of the host's method
//! table are patched, what they held before, and when the overlay may be
//! unloaded. Writing to the host's table is done on a copy of its slots that
//! the embedding program reads and stores back.

use vstd::prelude::*;

verus! {

/// Where the hook stands.
#[derive(Clone, Copy, Debug, PartialEq, Eq, Structural)]
pub enum HookState {
    Uninstalled,
    Installing,
    Installed,
    Uninstalling,
}

/// A slot to patch and the address of our interceptor for it.
#[derive(Clone, Copy, Debug, PartialEq, Eq, Structural)]
pub struct Target {
    pub slot: usize,
    pub trampoline: u64,
}

/// A patched slot and what it held before the patch.
#[derive(Clone, Copy, Debug, PartialEq, Eq, Structural)]
pub struct Patch {
    pub slot: usize,
    pub original: u64,
}

/// Why an installation was refused.
#[derive(Clone, Copy, Debug, PartialEq, Eq, Structural)]
pub enum HookError {
    /// The hook is not in the state the operation starts from.
    WrongState,
    /// A target names a slot the table does not have.
    NoSuchSlot,
}

/// The record of an installed hook.
#[derive(Debug)]
pub struct Hook {
    pub state: HookState,
    pub patches: Vec<Patch>,
    pub in_flight: u64,
}

/// Whether every target names a slot of a table of `len` slots.
pub open spec fn targets_fit(targets: Seq<Target>, len: int) -> bool {
    forall|i: int| 0 <= i < targets.len() ==> (#[trigger] targets[i]).slot < len
}

/// Whether every patch names a slot of a table of `len` slots.
pub open spec fn patches_fit(patches: Seq<Patch>, len: int) -> bool {
    forall|i: int| 0 <= i < patches.len() ==> (#[trigger] patches[i]).slot < len
}

/// The table after the targets have been patched in, one after the other.
pub open spec fn patched(table: Seq<u64>, targets: Seq<Target>) -> Seq<u64>
    decreases targets.len(),
{
    if targets.len() == 0 {
        table
    } else {
        patched(table, targets.drop_last()).update(
            targets.last().slot as int,
            targets.last().trampoline,
        )
    }
}

/// The originals recorded while the targets are patched in: each patch
/// holds what its slot held just before it was written.
pub open spec fn recorded(table: Seq<u64>, targets: Seq<Target>) -> Seq<Patch>
    decreases targets.len(),
{
    if targets.len() == 0 {
        Seq::empty()
    } else {
        let before = targets.drop_last();
        recorded(table, before).push(
            Patch {
                slot: targets.last().slot,
                original: patched(table, before)[targets.last().slot as int],
            },
        )
    }
}

/// The table after the patches have been undone, the latest first.
pub open spec fn restored(table: Seq<u64>, patches: Seq<Patch>) -> Seq<u64>
    decreases patches.len(),
{
    if patches.len() == 0 {
        table
    } else {
        restored(
            table.update(patches.last().slot as int, patches.last().original),
            patches.drop_last(),
        )
    }
}

proof fn lemma_fit_prefix(targets: Seq<Target>, len: int)
    requires
        targets.len() > 0,
        targets_fit(targets, len),
    ensures
        targets_fit(targets.drop_last(), len),
{
    let before = targets.drop_last();
    assert forall|i: int| 0 <= i < before.len() implies (#[trigger] before[i]).slot < len by {
        assert(before[i] == targets[i]);
    }
}

proof fn lemma_patched_len(table: Seq<u64>, targets: Seq<Target>)
    requires
        targets_fit(targets, table.len() as int),
    ensures
        patched(table, targets).len() == table.len(),
        recorded(table, targets).len() == targets.len(),
        patches_fit(recorded(table, targets), table.len() as int),
    decreases targets.len(),
{
    if targets.len() > 0 {
        let before = targets.drop_last();
        lemma_fit_prefix(targets, table.len() as int);
        lemma_patched_len(table, before);
        let rec = recorded(table, targets);
        assert forall|i: int| 0 <= i < rec.len() implies (#[trigger] rec[i]).slot < table.len() by {
            if i < before.len() {
                assert(rec[i] == recorded(table, before)[i]);
            } else {
                assert(rec[i].slot == targets[i].slot);
            }
        }
    }
}

/// Undoing what an installation recorded gives the host's table back
/// exactly as it was before the installation, also where a slot was named
/// more than once.
pub proof fn lemma_uninstall_restores(table: Seq<u64>, targets: Seq<Target>)
    requires
        targets_fit(targets, table.len() as int),
    ensures
        restored(patched(table, targets), recorded(table, targets)) == table,
    decreases targets.len(),
{
    if targets.len() > 0 {
        let before = targets.drop_last();
        let last = targets.last();
        lemma_fit_prefix(targets, table.len() as int);
        lemma_patched_len(table, before);
        lemma_uninstall_restores(table, before);
        let mid = patched(table, before);
        let rec = recorded(table, targets);
        assert(rec.drop_last() =~= recorded(table, before));
        assert(mid.update(last.slot as int, last.trampoline).update(
            last.slot as int,
            mid[last.slot as int],
        ) =~= mid);
    }
}

/// After an uninstall, no slot of the table holds one of our interceptors,
/// provided none did before the installation.
pub proof fn lemma_no_trampoline_left(table: Seq<u64>, targets: Seq<Target>, slot: int, t: int)
    requires
        targets_fit(targets, table.len() as int),
        0 <= slot < table.len(),
        0 <= t < targets.len(),
        forall|i: int| 0 <= i < table.len() ==> table[i] != targets[t].trampoline,
    ensures
        restored(patched(table, targets), recorded(table, targets))[slot] != targets[t].trampoline,
{
    lemma_uninstall_restores(table, targets);
}

impl Hook {
    /// A hook that has not been installed.
    pub fn new() -> (h: Hook)
        ensures
            h.state == HookState::Uninstalled,
            h.patches@.len() == 0,
            h.in_flight == 0,
    {
        Hook { state: HookState::Uninstalled, patches: Vec::new(), in_flight: 0 }
    }

    /// Starts an installation: the hook leaves `Uninstalled` while the
    /// host's table is being located.
    pub fn begin_install(&mut self) -> (r: Result<(), HookError>)
        ensures
            old(self).state == HookState::Uninstalled ==> r is Ok && final(self).state
                == HookState::Installing,
            old(self).state != HookState::Uninstalled ==> r == Err::<(), HookError>(
                HookError::WrongState,
            ) && final(self).state == old(self).state,
            final(self).patches@ == old(self).patches@,
            final(self).in_flight == old(self).in_flight,
    {
        if matches!(self.state, HookState::Uninstalled) {
            self.state = HookState::Installing;
            Ok(())
        } else {
            Err(HookError::WrongState)
        }
    }

    /// Gives an installation up before anything was patched.
    pub fn abort_install(&mut self)
        ensures
            final(self).state == (if old(self).state == HookState::Installing {
                HookState::Uninstalled
            } else {
                old(self).state
            }),
            final(self).patches@ == old(self).patches@,
            final(self).in_flight == old(self).in_flight,
    {
        if matches!(self.state, HookState::Installing) {
            self.state = HookState::Uninstalled;
        }
    }

    /// Patches the targets into the table, recording what each slot held.
    /// The installation is all or nothing: where no installation was begun
    /// the table is left as it was, and where a target names no slot the
    /// table is left as it was and the hook is uninstalled again.
    pub fn install(&mut self, table: &mut Vec<u64>, targets: &Vec<Target>) -> (r: Result<
        (),
        HookError,
    >)
        ensures
            old(self).state != HookState::Installing ==> r == Err::<(), HookError>(
                HookError::WrongState,
            ) && final(self).state == old(self).state,
            old(self).state == HookState::Installing && !targets_fit(
                targets@,
                old(table)@.len() as int,
            ) ==> r == Err::<(), HookError>(HookError::NoSuchSlot) && final(self).state
                == HookState::Uninstalled,
            old(self).state == HookState::Installing && targets_fit(
                targets@,
                old(table)@.len() as int,
            ) ==> r is Ok,
            r is Ok ==> final(self).state == HookState::Installed && final(table)@ == patched(
                old(table)@,
                targets@,
            ) && final(self).patches@ == recorded(old(table)@, targets@) && final(self).in_flight
                == 0 && patches_fit(final(self).patches@, final(table)@.len() as int),
            r is Err ==> final(table)@ == old(table)@ && final(self).patches@ == old(self).patches@
                && final(self).in_flight == old(self).in_flight,
    {
        if !matches!(self.state, HookState::Installing) {
            return Err(HookError::WrongState);
        }
        let mut k: usize = 0;
        while k < targets.len()
            invariant
                k <= targets.len(),
                table@ == old(table)@,
                self.state == HookState::Installing,
                self.state == old(self).state,
                self.patches@ == old(self).patches@,
                self.in_flight == old(self).in_flight,
                forall|i: int| 0 <= i < k ==> (#[trigger] targets@[i]).slot < table@.len(),
            decreases targets.len() - k,
        {
            if targets[k].slot >= table.len() {
                assert(!(targets@[k as int].slot < table@.len()));
                self.state = HookState::Uninstalled;
                return Err(HookError::NoSuchSlot);
            }
            k = k + 1;
        }
        let mut patches: Vec<Patch> = Vec::new();
        let mut i: usize = 0;
        assert(targets@.subrange(0, 0) =~= Seq::<Target>::empty());
        while i < targets.len()
            invariant
                i <= targets.len(),
                targets_fit(targets@, old(table)@.len() as int),
                old(self).state == HookState::Installing,
                table@.len() == old(table)@.len(),
                table@ == patched(old(table)@, targets@.subrange(0, i as int)),
                patches@ == recorded(old(table)@, targets@.subrange(0, i as int)),
            decreases targets.len() - i,
        {
            let t = targets[i];
            proof {
                assert(targets@.subrange(0, i + 1).drop_last() =~= targets@.subrange(0, i as int));
            }
            patches.push(Patch { slot: t.slot, original: table[t.slot] });
            table.set(t.slot, t.trampoline);
            i = i + 1;
        }
        assert(targets@.subrange(0, targets.len() as int) =~= targets@);
        proof {
            lemma_patched_len(old(table)@, targets@);
        }
        self.patches = patches;
        self.state = HookState::Installed;
        self.in_flight = 0;
        Ok(())
    }

    /// An interceptor is entered: one more call is in flight.
    pub fn enter(&mut self)
        requires
            old(self).in_flight < u64::MAX,
        ensures
            final(self).in_flight == old(self).in_flight + 1,
            final(self).state == old(self).state,
            final(self).patches@ == old(self).patches@,
    {
        self.in_flight = self.in_flight + 1;
    }

    /// An interceptor returns: one call fewer is in flight.
    pub fn leave(&mut self)
        requires
            old(self).in_flight > 0,
        ensures
            final(self).in_flight == old(self).in_flight - 1,
            final(self).state == old(self).state,
            final(self).patches@ == old(self).patches@,
    {
        self.in_flight = self.in_flight - 1;
    }

    /// Puts every recorded original back, the latest patch first, and
    /// starts waiting for the calls in flight to drain.
    pub fn uninstall(&mut self, table: &mut Vec<u64>) -> (r: Result<(), HookError>)
        requires
            patches_fit(old(self).patches@, old(table)@.len() as int),
        ensures
            old(self).state != HookState::Installed ==> r == Err::<(), HookError>(
                HookError::WrongState,
            ) && final(table)@ == old(table)@ && final(self).state == old(self).state && final(self).patches@ == old(self).patches@,
            old(self).state == HookState::Installed ==> r is Ok && final(table)@ == restored(
                old(table)@,
                old(self).patches@,
            ) && final(self).state == HookState::Uninstalling && final(self).patches@.len() == 0,
            final(self).in_flight == old(self).in_flight,
    {
        if !matches!(self.state, HookState::Installed) {
            return Err(HookError::WrongState);
        }
        while self.patches.len() > 0
            invariant
                self.in_flight == old(self).in_flight,
                table@.len() == old(table)@.len(),
                patches_fit(self.patches@, table@.len() as int),
                restored(table@, self.patches@) == restored(old(table)@, old(self).patches@),
            decreases self.patches.len(),
        {
            let ghost before = self.patches@;
            let p = self.patches.pop().unwrap();
            assert(p == before.last());
            assert(self.patches@ =~= before.drop_last());
            table.set(p.slot, p.original);
        }
        self.state = HookState::Uninstalling;
        Ok(())
    }

    /// Asks whether the overlay may be unloaded: only once the originals
    /// are back and no interceptor is running. While calls are in flight the
    /// hook stays in `Uninstalling` and the library must stay resident.
    pub fn try_finish(&mut self) -> (done: bool)
        ensures
            done == (old(self).state == HookState::Uninstalling && old(self).in_flight == 0),
            done ==> final(self).state == HookState::Uninstalled,
            !done ==> final(self).state == old(self).state,
            final(self).in_flight == old(self).in_flight,
            final(self).patches@ == old(self).patches@,
    {
        if matches!(self.state, HookState::Uninstalling) && self.in_flight == 0 {
            self.state = HookState::Uninstalled;
            true
        } else {
            false
        }
    }

    /// Whether the library may be unloaded: only with the hook fully
    /// uninstalled. A hook that cannot drain is leaked rather than torn out
    /// from under the host.
    pub fn may_unload(&self) -> (ok: bool)
        ensures
            ok == (self.state == HookState::Uninstalled),
    {
        matches!(self.state, HookState::Uninstalled)
    }
}

/// What the presentation interceptor does, step by step.
#[derive(Clone, Copy, Debug, PartialEq, Eq, Structural)]
pub enum PresentStep {
    /// Create the interface's own resources; done once, on the first frame.
    CreateResources,
    /// Create the view of the host's back buffer that the overlay draws to.
    CreateTarget,
    /// Run the frame loop.
    RunFrameLoop,
    /// Release what was taken for this frame only.
    ReleaseTransient,
    /// Call the host's own presentation function.
    CallOriginal,
}

/// What the resize interceptor does, step by step.
#[derive(Clone, Copy, Debug, PartialEq, Eq, Structural)]
pub enum ResizeStep {
    /// Tear down the view of the back buffer.
    DropTarget,
    /// Call the host's own resize function.
    CallOriginal,
}

/// What the interceptors have built so far.
#[derive(Clone, Copy, Debug, PartialEq, Eq, Structural)]
pub struct Presenter {
    pub resources_ready: bool,
    pub target_ready: bool,
}

/// The steps of one presentation: whatever is missing is created first,
/// then the frame loop runs, the transient resources are released, and the
/// host's function is called last.
pub open spec fn present_steps(p: Presenter) -> Seq<PresentStep> {
    let create: Seq<PresentStep> = if p.resources_ready {
        Seq::empty()
    } else {
        seq![PresentStep::CreateResources]
    };
    let target: Seq<PresentStep> = if p.target_ready {
        Seq::empty()
    } else {
        seq![PresentStep::CreateTarget]
    };
    create + target + seq![
        PresentStep::RunFrameLoop,
        PresentStep::ReleaseTransient,
        PresentStep::CallOriginal,
    ]
}

/// The steps of one resize: the view is torn down if there is one, then
/// the host's function is called.
pub open spec fn resize_steps(p: Presenter) -> Seq<ResizeStep> {
    if p.target_ready {
        seq![ResizeStep::DropTarget, ResizeStep::CallOriginal]
    } else {
        seq![ResizeStep::CallOriginal]
    }
}

/// How often `step` occurs in `steps`.
pub open spec fn occurrences(steps: Seq<PresentStep>, step: PresentStep) -> nat
    decreases steps.len(),
{
    if steps.len() == 0 {
        0
    } else {
        let here: nat = if steps.last() == step {
            1
        } else {
            0
        };
        occurrences(steps.drop_last(), step) + here
    }
}

impl Presenter {
    /// Nothing built yet.
    pub fn new() -> (p: Presenter)
        ensures
            p == (Presenter { resources_ready: false, target_ready: false }),
    {
        Presenter { resources_ready: false, target_ready: false }
    }

    /// The host presents a frame.
    pub fn on_present(&mut self) -> (steps: Vec<PresentStep>)
        ensures
            steps@ == present_steps(*old(self)),
            *final(self) == (Presenter { resources_ready: true, target_ready: true }),
    {
        let mut steps: Vec<PresentStep> = Vec::new();
        if !self.resources_ready {
            steps.push(PresentStep::CreateResources);
            self.resources_ready = true;
        }
        if !self.target_ready {
            steps.push(PresentStep::CreateTarget);
            self.target_ready = true;
        }
        steps.push(PresentStep::RunFrameLoop);
        steps.push(PresentStep::ReleaseTransient);
        steps.push(PresentStep::CallOriginal);
        assert(steps@ =~= present_steps(*old(self)));
        steps
    }

    /// The host resizes its buffers.
    pub fn on_resize(&mut self) -> (steps: Vec<ResizeStep>)
        ensures
            steps@ == resize_steps(*old(self)),
            *final(self) == (Presenter { target_ready: false, ..*old(self) }),
    {
        let mut steps: Vec<ResizeStep> = Vec::new();
        if self.target_ready {
            steps.push(ResizeStep::DropTarget);
            self.target_ready = false;
        }
        steps.push(ResizeStep::CallOriginal);
        assert(steps@ =~= resize_steps(*old(self)));
        steps
    }
}

/// Every presentation runs the frame loop exactly once, after whatever had
/// to be created and before the host's own function, which is called
/// exactly once and last.
pub proof fn lemma_frame_loop_once_per_present(p: Presenter)
    ensures
        occurrences(present_steps(p), PresentStep::RunFrameLoop) == 1,
        occurrences(present_steps(p), PresentStep::CallOriginal) == 1,
        present_steps(p).last() == PresentStep::CallOriginal,
        present_steps(p)[present_steps(p).len() - 3] == PresentStep::RunFrameLoop,
{
    let steps = present_steps(p);
    reveal_with_fuel(occurrences, 6);
    let a = steps.drop_last();
    let b = a.drop_last();
    let c = b.drop_last();
    assert(steps.last() == PresentStep::CallOriginal);
    assert(a.last() == PresentStep::ReleaseTransient);
    assert(b.last() == PresentStep::RunFrameLoop);
    if c.len() > 0 {
        let d = c.drop_last();
        if d.len() > 0 {
            assert(d.drop_last().len() == 0);
        }
    }
}

} // verus!
