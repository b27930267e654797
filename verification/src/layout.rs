//! Realizing a multi-display layout: plan, stage, commit.
//!
//! A layout is an ordered sequence of desired settings, paired positionally
//! with the device list as enumerated at application time. Every device with a
//! layout entry is staged with that entry; every *active* surplus device — one
//! past the end of the layout — is staged with the reset form; an inactive
//! surplus device is never staged. After all staging attempts, successful or
//! not, the staged changes are committed in one final step, exactly once.
//!
//! The steps that talk to the system are driven from outside: a
//! [`LayoutSession`] says which call to make next, and is told each call's
//! status code. Whatever those codes are, every planned stage is attempted and
//! the commit step is offered exactly once.

use vstd::prelude::*;

use crate::device::DisplayDevice;
use crate::settings::{spec_reset_settings, DisplaySettings, DISP_CHANGE_SUCCESSFUL};

verus! {

/// One planned staging call: which device (by its position in the enumerated
/// device list), what settings, and whether the change is persistent.
#[derive(Clone, Copy, Debug, PartialEq, Eq, Structural)]
pub struct StageDirective {
    pub device_index: usize,
    pub settings: DisplaySettings,
    pub permanent: bool,
}

/// The directives for the devices from index `i` on: a layout entry while one
/// is left, the reset form for an active surplus device, nothing for an
/// inactive surplus device.
pub open spec fn spec_plan_from(
    layout: Seq<DisplaySettings>,
    devices: Seq<DisplayDevice>,
    i: int,
) -> Seq<StageDirective>
    decreases devices.len() - i,
{
    if i < 0 || i >= devices.len() {
        Seq::empty()
    } else {
        let rest = spec_plan_from(layout, devices, i + 1);
        if i < layout.len() {
            seq![
                StageDirective { device_index: i as usize, settings: layout[i], permanent: true },
            ] + rest
        } else if devices[i].active {
            seq![
                StageDirective {
                    device_index: i as usize,
                    settings: spec_reset_settings(),
                    permanent: true,
                },
            ] + rest
        } else {
            rest
        }
    }
}

/// The full staging plan a layout yields against a device list.
pub open spec fn spec_plan(layout: Seq<DisplaySettings>, devices: Seq<DisplayDevice>) -> Seq<
    StageDirective,
> {
    spec_plan_from(layout, devices, 0)
}

/// How many of the devices in `[from, to)` are active.
pub open spec fn spec_count_active(devices: Seq<DisplayDevice>, from: int, to: int) -> int
    decreases to - from,
{
    if from >= to {
        0
    } else {
        (if devices[from].active {
            1int
        } else {
            0int
        }) + spec_count_active(devices, from + 1, to)
    }
}

/// Build the staging plan for `layout` against `devices`. Every directive
/// names a device by a position inside the device list.
pub fn plan_layout(layout: &Vec<DisplaySettings>, devices: &Vec<DisplayDevice>) -> (plan: Vec<
    StageDirective,
>)
    ensures
        plan@ == spec_plan(layout@, devices@),
        forall|j: int|
            0 <= j < plan@.len() ==> (#[trigger] plan@[j]).device_index < devices@.len(),
{
    let device_count: usize = devices.len();
    proof {
        assert(devices@.len() == device_count);
        lemma_plan_indices_in_range(layout@, devices@);
    }
    let mut plan: Vec<StageDirective> = Vec::new();
    let mut i: usize = 0;
    while i < devices.len()
        invariant
            i <= devices@.len(),
            spec_plan(layout@, devices@) == plan@ + spec_plan_from(layout@, devices@, i as int),
        decreases devices@.len() - i,
    {
        let ghost prev = plan@;
        if i < layout.len() {
            plan.push(
                StageDirective { device_index: i, settings: layout[i], permanent: true },
            );
        } else if devices[i].active {
            plan.push(
                StageDirective {
                    device_index: i,
                    settings: crate::settings::reset_settings(),
                    permanent: true,
                },
            );
        }
        proof {
            assert(plan@ + spec_plan_from(layout@, devices@, i as int + 1) =~= prev
                + spec_plan_from(layout@, devices@, i as int));
        }
        i = i + 1;
    }
    proof {
        assert(plan@ + spec_plan_from(layout@, devices@, devices@.len() as int) =~= plan@);
    }
    plan
}

/// The next call a layout session asks its driver to make.
#[derive(Clone, Copy, Debug, PartialEq, Eq, Structural)]
pub enum SessionAction {
    /// Stage this directive and report the status code back.
    Stage(StageDirective),
    /// Commit all staged changes and report the status code back.
    Commit,
    /// Nothing is left to do.
    Done,
}

/// One rejected staging call: which device, and the status code the system
/// answered.
#[derive(Clone, Copy, Debug, PartialEq, Eq, Structural)]
pub struct StageFailure {
    pub device_index: usize,
    pub code: i32,
}

/// One layout application in progress: the plan, how far staging has come,
/// every rejection so far, and the commit answer once there is one.
///
/// The session never performs a system call itself; its driver asks
/// [`LayoutSession::next_action`] what to do, makes the call, and reports the
/// status code back. A rejected stage never stops the session — the remaining
/// devices still get their attempt, and the commit step follows in every case.
#[derive(Clone, Debug)]
pub struct LayoutSession {
    pub plan: Vec<StageDirective>,
    pub next: usize,
    pub stage_failures: Vec<StageFailure>,
    pub commit_code: Option<i32>,
}

impl LayoutSession {
    /// A session is well formed while staging has not run past the plan and
    /// the commit answer, if any, came after all staging.
    pub open spec fn wf(&self) -> bool {
        &&& self.next <= self.plan@.len()
        &&& self.commit_code is Some ==> self.next == self.plan@.len()
    }

    /// The action the session asks for next: the first unanswered staging
    /// call, then the one commit, then nothing.
    pub open spec fn spec_next_action(&self) -> SessionAction {
        if self.next < self.plan@.len() {
            SessionAction::Stage(self.plan@[self.next as int])
        } else if self.commit_code is None {
            SessionAction::Commit
        } else {
            SessionAction::Done
        }
    }

    /// Start a session: plan the layout against the device list; nothing is
    /// staged or committed yet.
    pub fn begin(layout: &Vec<DisplaySettings>, devices: &Vec<DisplayDevice>) -> (session: Self)
        ensures
            session.wf(),
            session.plan@ == spec_plan(layout@, devices@),
            session.next == 0,
            session.stage_failures@ == Seq::<StageFailure>::empty(),
            session.commit_code is None,
    {
        LayoutSession {
            plan: plan_layout(layout, devices),
            next: 0,
            stage_failures: Vec::new(),
            commit_code: None,
        }
    }

    /// Which call the driver should make next.
    pub fn next_action(&self) -> (action: SessionAction)
        ensures
            action == self.spec_next_action(),
    {
        if self.next < self.plan.len() {
            SessionAction::Stage(self.plan[self.next])
        } else if self.commit_code.is_none() {
            SessionAction::Commit
        } else {
            SessionAction::Done
        }
    }

    /// Report the status code of the staging call asked for last. A rejection
    /// is recorded, never propagated: staging moves on to the next device
    /// whatever the code was.
    pub fn on_stage_result(&mut self, code: i32)
        requires
            old(self).wf(),
            old(self).spec_next_action() is Stage,
        ensures
            final(self).wf(),
            final(self).plan == old(self).plan,
            final(self).next == old(self).next + 1,
            final(self).commit_code == old(self).commit_code,
            final(self).stage_failures@ == if code == DISP_CHANGE_SUCCESSFUL {
                old(self).stage_failures@
            } else {
                old(self).stage_failures@.push(
                    (StageFailure {
                        device_index: old(self).plan@[old(self).next as int].device_index,
                        code,
                    }),
                )
            },
    {
        let planned: usize = self.plan.len();
        assert(self.next < planned);
        if code != DISP_CHANGE_SUCCESSFUL {
            let directive = self.plan[self.next];
            self.stage_failures.push(
                StageFailure { device_index: directive.device_index, code },
            );
        }
        self.next = self.next + 1;
    }

    /// Report the status code of the commit call. The session is complete
    /// afterwards; the commit is never offered again.
    pub fn on_commit_result(&mut self, code: i32)
        requires
            old(self).wf(),
            old(self).spec_next_action() is Commit,
        ensures
            final(self).wf(),
            final(self).plan == old(self).plan,
            final(self).next == old(self).next,
            final(self).stage_failures == old(self).stage_failures,
            final(self).commit_code == Some(code),
            final(self).spec_next_action() == SessionAction::Done,
    {
        self.commit_code = Some(code);
    }
}

/// The staging plan never holds more directives than there are devices: each
/// device yields at most one.
pub proof fn lemma_plan_le_devices(layout: Seq<DisplaySettings>, devices: Seq<DisplayDevice>)
    ensures
        spec_plan(layout, devices).len() <= devices.len(),
{
    lemma_plan_from_le(layout, devices, 0);
}

/// Law: every planned directive names a device inside the device list.
pub proof fn lemma_plan_indices_in_range(layout: Seq<DisplaySettings>, devices: Seq<DisplayDevice>)
    requires
        devices.len() <= usize::MAX,
    ensures
        forall|j: int|
            0 <= j < spec_plan(layout, devices).len() ==> (#[trigger] spec_plan(layout, devices)[j]).device_index
                < devices.len(),
{
    assert forall|j: int| 0 <= j < spec_plan(layout, devices).len() implies (#[trigger] spec_plan(
        layout,
        devices,
    )[j]).device_index < devices.len() by {
        lemma_plan_from_elem_range(layout, devices, 0, j);
    }
}

proof fn lemma_plan_from_elem_range(
    layout: Seq<DisplaySettings>,
    devices: Seq<DisplayDevice>,
    k: int,
    j: int,
)
    requires
        0 <= k,
        devices.len() <= usize::MAX,
        0 <= j < spec_plan_from(layout, devices, k).len(),
    ensures
        k <= spec_plan_from(layout, devices, k)[j].device_index < devices.len(),
    decreases devices.len() - k,
{
    if k < devices.len() {
        if k < layout.len() || devices[k].active {
            if j > 0 {
                lemma_plan_from_elem_range(layout, devices, k + 1, j - 1);
            }
        } else {
            lemma_plan_from_elem_range(layout, devices, k + 1, j);
        }
    }
}

proof fn lemma_plan_from_le(layout: Seq<DisplaySettings>, devices: Seq<DisplayDevice>, i: int)
    requires
        0 <= i,
    ensures
        spec_plan_from(layout, devices, i).len() <= devices.len() - i || spec_plan_from(
            layout,
            devices,
            i,
        ).len() == 0,
    decreases devices.len() - i,
{
    if i < devices.len() {
        lemma_plan_from_le(layout, devices, i + 1);
    }
}

/// The rejections staging collects when the call for directive `i` answers
/// `codes[i]`, from directive `i` on: one record per non-successful code, in
/// plan order.
pub open spec fn spec_stage_failures_from(
    plan: Seq<StageDirective>,
    codes: Seq<i32>,
    i: int,
) -> Seq<StageFailure>
    decreases plan.len() - i,
{
    if i < 0 || i >= plan.len() {
        Seq::empty()
    } else {
        let rest = spec_stage_failures_from(plan, codes, i + 1);
        if codes[i] == DISP_CHANGE_SUCCESSFUL {
            rest
        } else {
            seq![StageFailure { device_index: plan[i].device_index, code: codes[i] }] + rest
        }
    }
}

/// The rejections a whole plan collects against the answer codes.
pub open spec fn spec_stage_failures(plan: Seq<StageDirective>, codes: Seq<i32>) -> Seq<
    StageFailure,
> {
    spec_stage_failures_from(plan, codes, 0)
}

/// What one layout application came to: the plan that was staged, every
/// staging rejection, and the answer to the one commit.
#[derive(Clone, Debug)]
pub struct LayoutOutcome {
    pub plan: Vec<StageDirective>,
    pub stage_failures: Vec<StageFailure>,
    pub commit_code: i32,
}

/// Apply a layout against a device list, the system's answers supplied as
/// values: `stage_codes[i]` answers the staging call for directive `i`, and
/// `commit_code` answers the one commit that follows. Every directive is
/// staged whatever the earlier answers were, the commit happens exactly once,
/// and exactly the rejected staging calls are reported.
pub fn apply_layout(
    layout: &Vec<DisplaySettings>,
    devices: &Vec<DisplayDevice>,
    stage_codes: &Vec<i32>,
    commit_code: i32,
) -> (outcome: LayoutOutcome)
    requires
        stage_codes@.len() >= devices@.len(),
    ensures
        outcome.plan@ == spec_plan(layout@, devices@),
        outcome.stage_failures@ == spec_stage_failures(spec_plan(layout@, devices@), stage_codes@),
        outcome.commit_code == commit_code,
{
    let mut session = LayoutSession::begin(layout, devices);
    proof {
        lemma_plan_le_devices(layout@, devices@);
    }
    loop
        invariant
            session.wf(),
            session.commit_code is None,
            session.plan@ == spec_plan(layout@, devices@),
            session.plan@.len() <= devices@.len(),
            stage_codes@.len() >= devices@.len(),
            spec_stage_failures(session.plan@, stage_codes@) == session.stage_failures@
                + spec_stage_failures_from(session.plan@, stage_codes@, session.next as int),
        ensures
            session.wf(),
            session.commit_code is None,
            session.plan@ == spec_plan(layout@, devices@),
            session.next == session.plan@.len(),
            spec_stage_failures(session.plan@, stage_codes@) == session.stage_failures@
                + spec_stage_failures_from(session.plan@, stage_codes@, session.next as int),
        decreases session.plan@.len() - session.next,
    {
        match session.next_action() {
            SessionAction::Stage(_) => {
                let ghost prev = session.stage_failures@;
                let ghost at = session.next as int;
                let code = stage_codes[session.next];
                session.on_stage_result(code);
                proof {
                    assert(session.stage_failures@ + spec_stage_failures_from(
                        session.plan@,
                        stage_codes@,
                        at + 1,
                    ) =~= prev + spec_stage_failures_from(session.plan@, stage_codes@, at));
                }
            },
            _ => {
                break ;
            },
        }
    }
    session.on_commit_result(commit_code);
    proof {
        assert(session.stage_failures@ + spec_stage_failures_from(
            session.plan@,
            stage_codes@,
            session.next as int,
        ) =~= session.stage_failures@);
    }
    LayoutOutcome {
        plan: session.plan,
        stage_failures: session.stage_failures,
        commit_code,
    }
}

proof fn lemma_count_active_nonneg(devices: Seq<DisplayDevice>, from: int, to: int)
    ensures
        0 <= spec_count_active(devices, from, to),
    decreases to - from,
{
    if from < to {
        lemma_count_active_nonneg(devices, from + 1, to);
    }
}

proof fn lemma_plan_from_len_tail(layout: Seq<DisplaySettings>, devices: Seq<DisplayDevice>, k: int)
    requires
        layout.len() <= k,
    ensures
        spec_plan_from(layout, devices, k).len() == spec_count_active(
            devices,
            k,
            devices.len() as int,
        ),
    decreases devices.len() - k,
{
    if k < devices.len() {
        lemma_plan_from_len_tail(layout, devices, k + 1);
    }
}

proof fn lemma_plan_from_len_head(layout: Seq<DisplaySettings>, devices: Seq<DisplayDevice>, k: int)
    requires
        0 <= k <= layout.len() <= devices.len(),
    ensures
        spec_plan_from(layout, devices, k).len() == (layout.len() - k) + spec_count_active(
            devices,
            layout.len() as int,
            devices.len() as int,
        ),
    decreases layout.len() - k,
{
    if k == layout.len() {
        lemma_plan_from_len_tail(layout, devices, k);
    } else {
        lemma_plan_from_len_head(layout, devices, k + 1);
    }
}

proof fn lemma_plan_from_index(
    layout: Seq<DisplaySettings>,
    devices: Seq<DisplayDevice>,
    k: int,
    j: int,
)
    requires
        0 <= k <= layout.len() <= devices.len() <= usize::MAX,
        0 <= j < spec_plan_from(layout, devices, k).len(),
    ensures
        j < layout.len() - k ==> spec_plan_from(layout, devices, k)[j] == (StageDirective {
            device_index: (k + j) as usize,
            settings: layout[k + j],
            permanent: true,
        }),
        j >= layout.len() - k ==> spec_plan_from(layout, devices, k)[j] == spec_plan_from(
            layout,
            devices,
            layout.len() as int,
        )[j - (layout.len() - k)],
    decreases layout.len() - k,
{
    if k < layout.len() {
        if j > 0 {
            lemma_plan_from_index(layout, devices, k + 1, j - 1);
        }
    }
}

proof fn lemma_plan_from_tail_elem(
    layout: Seq<DisplaySettings>,
    devices: Seq<DisplayDevice>,
    k: int,
    j: int,
)
    requires
        layout.len() <= k <= devices.len() <= usize::MAX,
        0 <= j < spec_plan_from(layout, devices, k).len(),
    ensures
        ({
            let e = spec_plan_from(layout, devices, k)[j];
            e.settings == spec_reset_settings() && e.permanent && k <= e.device_index
                < devices.len() && devices[e.device_index as int].active
        }),
    decreases devices.len() - k,
{
    if k < devices.len() {
        if devices[k].active {
            if j > 0 {
                lemma_plan_from_tail_elem(layout, devices, k + 1, j - 1);
            }
        } else {
            lemma_plan_from_tail_elem(layout, devices, k + 1, j);
        }
    }
}

proof fn lemma_plan_from_surplus_pos(
    layout: Seq<DisplaySettings>,
    devices: Seq<DisplayDevice>,
    k: int,
    i: int,
)
    requires
        layout.len() <= k <= i < devices.len() <= usize::MAX,
        devices[i].active,
    ensures
        ({
            let c = spec_count_active(devices, k, i);
            0 <= c < spec_plan_from(layout, devices, k).len() && spec_plan_from(layout, devices, k)[c]
                == (StageDirective {
                device_index: i as usize,
                settings: spec_reset_settings(),
                permanent: true,
            })
        }),
    decreases i - k,
{
    lemma_plan_from_len_tail(layout, devices, k);
    if k == i {
        lemma_count_active_nonneg(devices, k + 1, devices.len() as int);
    } else {
        lemma_plan_from_surplus_pos(layout, devices, k + 1, i);
    }
}

/// The `j`-th plan entry past the layout is a persistent reset of an active
/// surplus device.
pub open spec fn spec_surplus_entry_ok(
    layout: Seq<DisplaySettings>,
    devices: Seq<DisplayDevice>,
    j: int,
) -> bool {
    let e = spec_plan(layout, devices)[j];
    e.settings == spec_reset_settings() && e.permanent && layout.len() <= e.device_index
        < devices.len() && devices[e.device_index as int].active
}

/// The active surplus device `i` gets its reset directive at the plan
/// position the active devices before it determine.
pub open spec fn spec_surplus_reset_at(
    layout: Seq<DisplaySettings>,
    devices: Seq<DisplayDevice>,
    i: int,
) -> bool {
    let j = layout.len() + spec_count_active(devices, layout.len() as int, i);
    layout.len() <= j < spec_plan(layout, devices).len() && spec_plan(layout, devices)[j]
        == (StageDirective {
        device_index: i as usize,
        settings: spec_reset_settings(),
        permanent: true,
    })
}

/// Law: a layout shorter than the device list stages its entries on the first
/// devices, resets exactly the active surplus devices — one directive each, in
/// device order — and stages nothing for an inactive surplus device.
pub proof fn lemma_plan_surplus(layout: Seq<DisplaySettings>, devices: Seq<DisplayDevice>)
    requires
        layout.len() <= devices.len() <= usize::MAX,
    ensures
        spec_plan(layout, devices).len() == layout.len() + spec_count_active(
            devices,
            layout.len() as int,
            devices.len() as int,
        ),
        forall|j: int|
            0 <= j < layout.len() ==> #[trigger] spec_plan(layout, devices)[j]
                == (StageDirective {
                device_index: j as usize,
                settings: layout[j],
                permanent: true,
            }),
        forall|j: int|
            layout.len() <= j < spec_plan(layout, devices).len()
                ==> #[trigger] spec_surplus_entry_ok(layout, devices, j),
        forall|i: int|
            layout.len() <= i < devices.len() && devices[i].active
                ==> #[trigger] spec_surplus_reset_at(layout, devices, i),
{
    lemma_plan_from_len_head(layout, devices, 0);
    lemma_plan_from_len_tail(layout, devices, layout.len() as int);
    lemma_count_active_nonneg(devices, layout.len() as int, devices.len() as int);
    assert forall|j: int| 0 <= j < layout.len() implies #[trigger] spec_plan(layout, devices)[j]
        == (StageDirective {
        device_index: j as usize,
        settings: layout[j],
        permanent: true,
    }) by {
        lemma_plan_from_index(layout, devices, 0, j);
    }
    assert forall|j: int|
        layout.len() <= j < spec_plan(layout, devices).len() implies #[trigger] spec_surplus_entry_ok(
        layout,
        devices,
        j,
    ) by {
        lemma_plan_from_index(layout, devices, 0, j);
        lemma_plan_from_tail_elem(layout, devices, layout.len() as int, j - layout.len());
    }
    assert forall|i: int|
        layout.len() <= i < devices.len() && devices[i].active
            implies #[trigger] spec_surplus_reset_at(layout, devices, i) by {
        lemma_plan_from_surplus_pos(layout, devices, layout.len() as int, i);
        lemma_count_active_nonneg(devices, layout.len() as int, i);
        let c = spec_count_active(devices, layout.len() as int, i);
        lemma_plan_from_index(layout, devices, 0, layout.len() + c);
    }
}

/// Law: a session commits exactly once, however many staging calls were
/// rejected. The commit is offered exactly when every planned stage — failed
/// or not — has been answered and no commit has, and once a commit answer is
/// in, only `Done` follows.
pub proof fn lemma_commit_exactly_once(session: LayoutSession)
    requires
        session.wf(),
    ensures
        (session.spec_next_action() == SessionAction::Commit) <==> (session.next
            == session.plan@.len() && session.commit_code is None),
        session.commit_code is Some ==> session.spec_next_action() == SessionAction::Done,
        session.next < session.plan@.len() ==> session.spec_next_action() == SessionAction::Stage(
            session.plan@[session.next as int],
        ),
{
}

} // verus!
