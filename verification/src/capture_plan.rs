//! The order of work of one capture.
//!
//! A capture takes four system resources one after the other, draws the
//! window into the last of them, reads the pixels back, and gives the
//! resources up again. A plan says what to do next and is told how it went.
//! Whatever fails, and wherever, everything taken so far is given up, the
//! latest first, before the plan is finished.

use vstd::prelude::*;
use crate::capture::{
    alpha_of, capture_layout, spec_capture_layout, CaptureBackend, CaptureError, CaptureLayout,
    WindowGeometry,
};
use crate::window_controller::WindowController;
use crate::window_image::WindowImage;

verus! {

/// What a capture holds while it runs, in the order in which it is taken.
#[derive(Clone, Copy, Debug, PartialEq, Eq, Structural)]
pub enum CaptureResource {
    /// The window's own device context.
    WindowContext,
    /// An off-screen context compatible with it.
    MemoryContext,
    /// A bitmap of the size that is read back.
    Bitmap,
    /// The bitmap selected into the off-screen context.
    Selection,
}

/// How far a capture has come.
#[derive(Clone, Copy, Debug, PartialEq, Eq, Structural)]
pub enum CapturePhase {
    Acquiring,
    Drawing,
    Reading,
    Releasing,
    Finished,
}

/// The next thing to do for a capture.
#[derive(Clone, Copy, Debug, PartialEq, Eq, Structural)]
pub enum CaptureAction {
    /// Take this resource.
    Acquire(CaptureResource),
    /// Copy the requested rectangle from the window's context.
    Blit,
    /// Have the compositor render the whole window.
    Render,
    /// Read the pixels back, top row first.
    ReadPixels,
    /// Give this resource up.
    Release(CaptureResource),
    /// Nothing is left to do.
    Finish,
}

/// What is in hand once `action` went as `succeeded` says, when `held` was
/// in hand before it. Taking puts a resource on top, if it succeeds. Giving up
/// takes the top one off, and has no answer where the resource named is not
/// the top one: resources are to go in the reverse of the order in which
/// they came.
pub open spec fn held_after(held: Seq<CaptureResource>, action: CaptureAction, succeeded: bool) -> Option<
    Seq<CaptureResource>,
> {
    match action {
        CaptureAction::Acquire(resource) => Some(
            if succeeded {
                held.push(resource)
            } else {
                held
            },
        ),
        CaptureAction::Release(resource) => if held.len() > 0 && held.last() == resource {
            Some(held.drop_last())
        } else {
            None
        },
        _ => Some(held),
    }
}

/// The `i`-th resource that a capture takes.
pub open spec fn spec_resource_at(i: int) -> CaptureResource {
    if i <= 0 {
        CaptureResource::WindowContext
    } else if i == 1 {
        CaptureResource::MemoryContext
    } else if i == 2 {
        CaptureResource::Bitmap
    } else {
        CaptureResource::Selection
    }
}

/// The error of a capture that could not take `resource`.
pub open spec fn spec_acquire_error(resource: CaptureResource) -> CaptureError {
    match resource {
        CaptureResource::WindowContext => CaptureError::DeviceContext,
        CaptureResource::MemoryContext => CaptureError::CompatibleContext,
        CaptureResource::Bitmap => CaptureError::CompatibleBitmap,
        CaptureResource::Selection => CaptureError::SelectBitmap,
    }
}

/// The drawing step of a backend.
pub open spec fn spec_draw_action(backend: CaptureBackend) -> CaptureAction {
    match backend {
        CaptureBackend::DirectBlit => CaptureAction::Blit,
        CaptureBackend::CompositorRender => CaptureAction::Render,
    }
}

/// The error of a backend whose drawing step failed.
pub open spec fn spec_draw_error(backend: CaptureBackend) -> CaptureError {
    match backend {
        CaptureBackend::DirectBlit => CaptureError::BlitFailed,
        CaptureBackend::CompositorRender => CaptureError::RenderFailed,
    }
}

fn resource_at(i: u8) -> (resource: CaptureResource)
    ensures
        resource == spec_resource_at(i as int),
{
    if i == 0 {
        CaptureResource::WindowContext
    } else if i == 1 {
        CaptureResource::MemoryContext
    } else if i == 2 {
        CaptureResource::Bitmap
    } else {
        CaptureResource::Selection
    }
}

fn acquire_error(resource: CaptureResource) -> (error: CaptureError)
    ensures
        error == spec_acquire_error(resource),
{
    match resource {
        CaptureResource::WindowContext => CaptureError::DeviceContext,
        CaptureResource::MemoryContext => CaptureError::CompatibleContext,
        CaptureResource::Bitmap => CaptureError::CompatibleBitmap,
        CaptureResource::Selection => CaptureError::SelectBitmap,
    }
}

/// The plan that a request starts with: nothing in hand, nothing failed, the
/// first resource to be taken next. A request without a layout has no plan
/// but the error that its layout met.
pub open spec fn spec_begin(
    window: WindowController,
    backend: CaptureBackend,
    bounds: [i32; 4],
    geometry: WindowGeometry,
) -> Result<CapturePlan, CaptureError> {
    match spec_capture_layout(backend, bounds, geometry) {
        Ok(layout) => Ok(
            (CapturePlan { window, layout, phase: CapturePhase::Acquiring, held: 0, failure: None }),
        ),
        Err(error) => Err(error),
    }
}

/// The whole client area as a request: `[0, 0, width, height]`.
pub open spec fn whole_client_area(geometry: WindowGeometry) -> [i32; 4] {
    [
        0,
        0,
        (geometry.client.right - geometry.client.left) as i32,
        (geometry.client.bottom - geometry.client.top) as i32,
    ]
}

/// One capture of one window: its layout, how far it has come, how many
/// resources it holds, and what went wrong, if anything did.
#[derive(Clone, Copy, Debug)]
pub struct CapturePlan {
    pub window: WindowController,
    pub layout: CaptureLayout,
    pub phase: CapturePhase,
    pub held: u8,
    pub failure: Option<CaptureError>,
}

impl CapturePlan {
    /// The plan is in a state that a run can reach: resources are only taken
    /// while nothing has failed, drawing and reading happen with all four in
    /// hand, and a finished plan holds none.
    pub open spec fn wf(&self) -> bool {
        &&& self.layout.wf()
        &&& self.held <= 4
        &&& (self.phase == CapturePhase::Acquiring ==> self.held < 4 && self.failure is None)
        &&& (self.phase == CapturePhase::Drawing ==> self.held == 4 && self.failure is None)
        &&& (self.phase == CapturePhase::Reading ==> self.held == 4 && self.failure is None)
        &&& (self.phase == CapturePhase::Releasing ==> self.held > 0)
        &&& (self.phase == CapturePhase::Finished ==> self.held == 0)
    }

    /// The resources in hand, the first taken first.
    pub open spec fn held_resources(&self) -> Seq<CaptureResource> {
        Seq::new(self.held as nat, |i: int| spec_resource_at(i))
    }

    /// What is to be done next.
    pub open spec fn spec_next_action(&self) -> CaptureAction {
        match self.phase {
            CapturePhase::Acquiring => CaptureAction::Acquire(spec_resource_at(self.held as int)),
            CapturePhase::Drawing => spec_draw_action(self.layout.backend),
            CapturePhase::Reading => CaptureAction::ReadPixels,
            CapturePhase::Releasing => CaptureAction::Release(spec_resource_at(self.held - 1)),
            CapturePhase::Finished => CaptureAction::Finish,
        }
    }

    /// The plan after its next action was carried out and went as
    /// `succeeded` says. A failure to take, draw or read is remembered and
    /// turns the plan to giving up what it holds. How a release went does not
    /// matter: the resource counts as gone.
    pub open spec fn spec_advance(&self, succeeded: bool) -> CapturePlan {
        match self.phase {
            CapturePhase::Acquiring => if succeeded {
                CapturePlan {
                    held: (self.held + 1) as u8,
                    phase: if self.held + 1 == 4 {
                        CapturePhase::Drawing
                    } else {
                        CapturePhase::Acquiring
                    },
                    ..*self
                }
            } else {
                CapturePlan {
                    failure: Some(spec_acquire_error(spec_resource_at(self.held as int))),
                    phase: if self.held == 0 {
                        CapturePhase::Finished
                    } else {
                        CapturePhase::Releasing
                    },
                    ..*self
                }
            },
            CapturePhase::Drawing => if succeeded {
                CapturePlan { phase: CapturePhase::Reading, ..*self }
            } else {
                CapturePlan {
                    failure: Some(spec_draw_error(self.layout.backend)),
                    phase: CapturePhase::Releasing,
                    ..*self
                }
            },
            CapturePhase::Reading => if succeeded {
                CapturePlan { phase: CapturePhase::Releasing, ..*self }
            } else {
                CapturePlan {
                    failure: Some(CaptureError::ReadbackFailed),
                    phase: CapturePhase::Releasing,
                    ..*self
                }
            },
            CapturePhase::Releasing => CapturePlan {
                held: (self.held - 1) as u8,
                phase: if self.held - 1 == 0 {
                    CapturePhase::Finished
                } else {
                    CapturePhase::Releasing
                },
                ..*self
            },
            CapturePhase::Finished => *self,
        }
    }

    /// An upper bound on the actions that are still to come before `Finish`.
    pub open spec fn steps_left(&self) -> int {
        match self.phase {
            CapturePhase::Acquiring => 10 - self.held,
            CapturePhase::Drawing => 6,
            CapturePhase::Reading => 5,
            CapturePhase::Releasing => self.held as int,
            CapturePhase::Finished => 0,
        }
    }

    /// The plan after a run of actions that went as `outcomes` say, one after
    /// the other.
    pub open spec fn after(&self, outcomes: Seq<bool>) -> CapturePlan
        decreases outcomes.len(),
    {
        if outcomes.len() == 0 {
            *self
        } else {
            self.spec_advance(outcomes[0]).after(outcomes.drop_first())
        }
    }

    /// What is in hand after the plan's next actions went as `outcomes` say,
    /// when `held` was in hand before them; `None` where one of them gives up
    /// a resource out of turn, see [`held_after`].
    pub open spec fn replay(&self, outcomes: Seq<bool>, held: Seq<CaptureResource>) -> Option<
        Seq<CaptureResource>,
    >
        decreases outcomes.len(),
    {
        if outcomes.len() == 0 {
            Some(held)
        } else {
            match held_after(held, self.spec_next_action(), outcomes[0]) {
                Some(next) => self.spec_advance(outcomes[0]).replay(outcomes.drop_first(), next),
                None => None,
            }
        }
    }

    /// A plan for the request, or the reason why the request cannot be met.
    /// A request that is turned down has had nothing done for it: there is no
    /// plan, so no action.
    pub fn begin(
        window: WindowController,
        backend: CaptureBackend,
        bounds: [i32; 4],
        geometry: &WindowGeometry,
    ) -> (r: Result<CapturePlan, CaptureError>)
        ensures
            r == spec_begin(window, backend, bounds, *geometry),
            r is Ok ==> r->Ok_0.wf(),
            bounds[2] <= 0 || bounds[3] <= 0 ==> r == Err::<CapturePlan, CaptureError>(
                CaptureError::InvalidBounds,
            ),
    {
        match capture_layout(backend, bounds, geometry) {
            Ok(layout) => Ok(
                CapturePlan { window, layout, phase: CapturePhase::Acquiring, held: 0, failure: None },
            ),
            Err(error) => Err(error),
        }
    }

    /// What is to be done next.
    pub fn next_action(&self) -> (action: CaptureAction)
        requires
            self.wf(),
        ensures
            action == self.spec_next_action(),
    {
        match self.phase {
            CapturePhase::Acquiring => CaptureAction::Acquire(resource_at(self.held)),
            CapturePhase::Drawing => match self.layout.backend {
                CaptureBackend::DirectBlit => CaptureAction::Blit,
                CaptureBackend::CompositorRender => CaptureAction::Render,
            },
            CapturePhase::Reading => CaptureAction::ReadPixels,
            CapturePhase::Releasing => CaptureAction::Release(resource_at(self.held - 1)),
            CapturePhase::Finished => CaptureAction::Finish,
        }
    }

    /// Tells the plan how its next action went.
    pub fn advance(&mut self, succeeded: bool)
        requires
            old(self).wf(),
        ensures
            *final(self) == old(self).spec_advance(succeeded),
            final(self).wf(),
    {
        match self.phase {
            CapturePhase::Acquiring => {
                if succeeded {
                    self.held = self.held + 1;
                    if self.held == 4 {
                        self.phase = CapturePhase::Drawing;
                    }
                } else {
                    self.failure = Some(acquire_error(resource_at(self.held)));
                    if self.held == 0 {
                        self.phase = CapturePhase::Finished;
                    } else {
                        self.phase = CapturePhase::Releasing;
                    }
                }
            },
            CapturePhase::Drawing => {
                if succeeded {
                    self.phase = CapturePhase::Reading;
                } else {
                    self.failure = Some(
                        match self.layout.backend {
                            CaptureBackend::DirectBlit => CaptureError::BlitFailed,
                            CaptureBackend::CompositorRender => CaptureError::RenderFailed,
                        },
                    );
                    self.phase = CapturePhase::Releasing;
                }
            },
            CapturePhase::Reading => {
                if !succeeded {
                    self.failure = Some(CaptureError::ReadbackFailed);
                }
                self.phase = CapturePhase::Releasing;
            },
            CapturePhase::Releasing => {
                self.held = self.held - 1;
                if self.held == 0 {
                    self.phase = CapturePhase::Finished;
                }
            },
            CapturePhase::Finished => {},
        }
    }

    /// Whether nothing is left to do.
    pub fn is_finished(&self) -> (finished: bool)
        ensures
            finished == (self.phase == CapturePhase::Finished),
    {
        match self.phase {
            CapturePhase::Finished => true,
            _ => false,
        }
    }

    /// Checks [`CapturePlan::wf`].
    pub fn is_valid(&self) -> (ok: bool)
        ensures
            ok == self.wf(),
    {
        self.layout.is_valid() && self.held <= 4 && (match self.phase {
            CapturePhase::Acquiring => self.held < 4 && self.failure.is_none(),
            CapturePhase::Drawing => self.held == 4 && self.failure.is_none(),
            CapturePhase::Reading => self.held == 4 && self.failure.is_none(),
            CapturePhase::Releasing => self.held > 0,
            CapturePhase::Finished => self.held == 0,
        })
    }

    /// The result of a finished capture: the error that was met, else the
    /// image cut from the bytes that were read back. The bytes are looked at
    /// only where nothing failed.
    pub fn finish(&self, bits: &[u8]) -> (r: Result<WindowImage, CaptureError>)
        requires
            self.wf(),
            self.phase == CapturePhase::Finished,
            self.failure is None ==> bits@.len() == self.layout.spec_readback_len(),
        ensures
            self.failure is Some ==> r == Err::<WindowImage, CaptureError>(self.failure->Some_0),
            self.failure is None ==> r is Ok,
            r is Ok ==> {
                let image = r->Ok_0;
                &&& image.wf()
                &&& image.width == self.layout.width
                &&& image.height == self.layout.height
                &&& image.data@.len() == self.layout.width * self.layout.height
                &&& forall|x: int, y: int|
                    0 <= x < self.layout.width && 0 <= y < self.layout.height ==> image.pixel(x, y)
                        == #[trigger] self.layout.source_pixel(bits@, x, y)
                &&& forall|k: int|
                    0 <= k < image.data@.len() ==> alpha_of(#[trigger] image.data@[k]) == 0xFF
            },
    {
        match self.failure {
            Some(error) => Err(error),
            None => Ok(self.layout.image_from_readback(bits)),
        }
    }
}

/// Every step keeps a plan well-formed and brings it nearer to its end.
pub proof fn lemma_advance_progress(plan: CapturePlan, succeeded: bool)
    requires
        plan.wf(),
        plan.phase != CapturePhase::Finished,
    ensures
        plan.spec_advance(succeeded).wf(),
        0 <= plan.spec_advance(succeeded).steps_left() < plan.steps_left(),
{
}

/// A resource that was taken is in hand, on top of those taken before it; one
/// that could not be taken is not, and nothing more is taken after that.
pub proof fn lemma_acquire_stacks(plan: CapturePlan, resource: CaptureResource)
    requires
        plan.wf(),
        plan.spec_next_action() == CaptureAction::Acquire(resource),
    ensures
        plan.spec_advance(true).held_resources() == plan.held_resources().push(resource),
        plan.spec_advance(false).held_resources() == plan.held_resources(),
        plan.spec_advance(false).failure == Some(spec_acquire_error(resource)),
        plan.spec_advance(false).phase == CapturePhase::Releasing || plan.spec_advance(false).phase
            == CapturePhase::Finished,
{
    assert(plan.spec_advance(true).held_resources() =~= plan.held_resources().push(resource));
    assert(plan.spec_advance(false).held_resources() =~= plan.held_resources());
}

/// What is given up is always what was taken last, and it leaves the rest in
/// hand as it was: resources go in the reverse of the order in which they came.
pub proof fn lemma_release_reverses(plan: CapturePlan, resource: CaptureResource, succeeded: bool)
    requires
        plan.wf(),
        plan.spec_next_action() == CaptureAction::Release(resource),
    ensures
        plan.held_resources().len() > 0,
        plan.held_resources().last() == resource,
        plan.spec_advance(succeeded).held_resources() == plan.held_resources().drop_last(),
        plan.spec_advance(succeeded).failure == plan.failure,
{
    assert(plan.spec_advance(succeeded).held_resources() =~= plan.held_resources().drop_last());
}

/// Drawing and reading neither take nor give up a resource.
pub proof fn lemma_work_keeps_resources(plan: CapturePlan, succeeded: bool)
    requires
        plan.wf(),
        plan.phase == CapturePhase::Drawing || plan.phase == CapturePhase::Reading,
    ensures
        plan.spec_advance(succeeded).held_resources() == plan.held_resources(),
        !succeeded ==> plan.spec_advance(succeeded).failure is Some,
        !succeeded ==> plan.spec_advance(succeeded).phase == CapturePhase::Releasing,
{
}

/// Once something has failed, a plan only gives up what it holds, and the
/// error stays what it was.
pub proof fn lemma_failure_only_releases(plan: CapturePlan, succeeded: bool)
    requires
        plan.wf(),
        plan.failure is Some,
    ensures
        plan.spec_next_action() is Release || plan.spec_next_action() == CaptureAction::Finish,
        plan.spec_advance(succeeded).failure == plan.failure,
{
}

/// A finished plan holds nothing.
pub proof fn lemma_finished_holds_nothing(plan: CapturePlan)
    requires
        plan.wf(),
        plan.spec_next_action() == CaptureAction::Finish,
    ensures
        plan.held_resources() == Seq::<CaptureResource>::empty(),
{
    assert(plan.held_resources() =~= Seq::<CaptureResource>::empty());
}

/// However the actions go, a capture is over after as many of them as
/// [`CapturePlan::steps_left`] says, which is never more than ten, and then
/// holds nothing and still knows the first thing that failed.
pub proof fn lemma_every_run_finishes(plan: CapturePlan, outcomes: Seq<bool>)
    requires
        plan.wf(),
        outcomes.len() >= plan.steps_left(),
    ensures
        plan.steps_left() <= 10,
        plan.after(outcomes).wf(),
        plan.after(outcomes).phase == CapturePhase::Finished,
        plan.after(outcomes).held_resources() == Seq::<CaptureResource>::empty(),
        plan.failure is Some ==> plan.after(outcomes).failure == plan.failure,
    decreases outcomes.len(),
{
    if outcomes.len() == 0 {
        lemma_finished_holds_nothing(plan);
    } else if plan.phase == CapturePhase::Finished {
        lemma_every_run_finishes(plan.spec_advance(outcomes[0]), outcomes.drop_first());
    } else {
        lemma_advance_progress(plan, outcomes[0]);
        lemma_failure_keeps(plan, outcomes[0]);
        lemma_every_run_finishes(plan.spec_advance(outcomes[0]), outcomes.drop_first());
    }
}

/// However the actions go, no resource is ever given up out of turn, and
/// what the plan says it holds is what the actions so far have left in hand.
pub proof fn lemma_run_keeps_order(plan: CapturePlan, outcomes: Seq<bool>)
    requires
        plan.wf(),
    ensures
        plan.replay(outcomes, plan.held_resources()) == Some(
            plan.after(outcomes).held_resources(),
        ),
    decreases outcomes.len(),
{
    if outcomes.len() > 0 {
        let next = plan.spec_advance(outcomes[0]);
        match plan.spec_next_action() {
            CaptureAction::Acquire(resource) => {
                lemma_acquire_stacks(plan, resource);
            },
            CaptureAction::Release(resource) => {
                lemma_release_reverses(plan, resource, outcomes[0]);
            },
            CaptureAction::Finish => {},
            _ => {
                lemma_work_keeps_resources(plan, outcomes[0]);
            },
        }
        if plan.phase != CapturePhase::Finished {
            lemma_advance_progress(plan, outcomes[0]);
        }
        lemma_run_keeps_order(next, outcomes.drop_first());
    }
}

proof fn lemma_failure_keeps(plan: CapturePlan, succeeded: bool)
    requires
        plan.wf(),
    ensures
        plan.failure is Some ==> plan.spec_advance(succeeded).failure == plan.failure,
{
}

} // verus!
