//! The resource chain and its lifecycle manager: the fixed creation order of
//! the bootstrap steps, and the guarantee that teardown releases every
//! created step exactly once, in exact reverse creation order — also when
//! creation fails partway through.

use vstd::prelude::*;
use crate::error::BootstrapError;

verus! {

/// One owned link of the resource chain, in the order the bootstrap
/// creates them. Selecting the physical device is not listed: it creates
/// nothing that teardown must release. The debug messenger step exists
/// only when diagnostic instrumentation is enabled.
#[derive(Clone, Copy, Debug, PartialEq, Eq, Structural)]
pub enum StepKind {
    Instance,
    DebugMessenger,
    Surface,
    LogicalDevice,
    Swapchain,
    ImageViews,
    RenderPass,
    PipelineLayout,
    Pipeline,
    Framebuffers,
}

/// The full creation order for a configuration. The same flag that gates
/// the debug messenger's creation gates its place in the teardown order,
/// so creation and destruction of the messenger are always paired.
pub open spec fn creation_order(validation_enabled: bool) -> Seq<StepKind> {
    if validation_enabled {
        seq![
            StepKind::Instance,
            StepKind::DebugMessenger,
            StepKind::Surface,
            StepKind::LogicalDevice,
            StepKind::Swapchain,
            StepKind::ImageViews,
            StepKind::RenderPass,
            StepKind::PipelineLayout,
            StepKind::Pipeline,
            StepKind::Framebuffers,
        ]
    } else {
        seq![
            StepKind::Instance,
            StepKind::Surface,
            StepKind::LogicalDevice,
            StepKind::Swapchain,
            StepKind::ImageViews,
            StepKind::RenderPass,
            StepKind::PipelineLayout,
            StepKind::Pipeline,
            StepKind::Framebuffers,
        ]
    }
}

/// The creation order as a vector, for callers that iterate over it.
pub fn creation_sequence(validation_enabled: bool) -> (v: Vec<StepKind>)
    ensures
        v@ == creation_order(validation_enabled),
{
    let mut v: Vec<StepKind> = Vec::new();
    v.push(StepKind::Instance);
    if validation_enabled {
        v.push(StepKind::DebugMessenger);
    }
    v.push(StepKind::Surface);
    v.push(StepKind::LogicalDevice);
    v.push(StepKind::Swapchain);
    v.push(StepKind::ImageViews);
    v.push(StepKind::RenderPass);
    v.push(StepKind::PipelineLayout);
    v.push(StepKind::Pipeline);
    v.push(StepKind::Framebuffers);
    proof {
        assert(v@ =~= creation_order(validation_enabled));
    }
    v
}

/// Owns the resource chain's progress. The manager hands out the next step
/// to create, records each success, and on teardown — whether after a
/// failure partway through or at orderly shutdown — produces the exact
/// mirror of the creation order, exactly once.
pub struct LifecycleManager {
    validation_enabled: bool,
    plan: Vec<StepKind>,
    created: usize,
    torn_down: bool,
}

impl LifecycleManager {
    /// Whether diagnostic instrumentation was requested at construction.
    pub closed spec fn validation(self) -> bool {
        self.validation_enabled
    }

    /// The steps created so far and not yet torn down, oldest first.
    pub closed spec fn created_steps(self) -> Seq<StepKind> {
        self.plan@.take(self.created as int)
    }

    /// Whether teardown has been performed.
    pub closed spec fn torn_down(self) -> bool {
        self.torn_down
    }

    /// The manager's invariant: what is created is always a prefix of the
    /// fixed creation order for its configuration.
    pub closed spec fn wf(self) -> bool {
        &&& self.plan@ == creation_order(self.validation_enabled)
        &&& self.created <= self.plan@.len()
    }

    /// A fresh manager: nothing created, not torn down.
    pub fn new(validation_enabled: bool) -> (m: Self)
        ensures
            m.wf(),
            m.validation() == validation_enabled,
            m.created_steps() =~= Seq::<StepKind>::empty(),
            !m.torn_down(),
    {
        LifecycleManager {
            validation_enabled,
            plan: creation_sequence(validation_enabled),
            created: 0,
            torn_down: false,
        }
    }

    /// The next step the bootstrap must create, or `None` when the chain
    /// is complete.
    pub fn next_step(&self) -> (r: Option<StepKind>)
        requires
            self.wf(),
        ensures
            self.created_steps().len() < creation_order(self.validation()).len() ==> r == Some(
                creation_order(self.validation())[self.created_steps().len() as int],
            ),
            self.created_steps().len() == creation_order(self.validation()).len() ==> r is None,
    {
        if self.created < self.plan.len() {
            Some(self.plan[self.created])
        } else {
            None
        }
    }

    /// Record that the native creation call for `step` succeeded. Only the
    /// step the manager asked for next may be recorded.
    pub fn record_created(&mut self, step: StepKind)
        requires
            old(self).wf(),
            !old(self).torn_down(),
            old(self).created_steps().len() < creation_order(old(self).validation()).len(),
            step == creation_order(old(self).validation())[old(self).created_steps().len() as int],
        ensures
            final(self).wf(),
            final(self).validation() == old(self).validation(),
            !final(self).torn_down(),
            final(self).created_steps() =~= old(self).created_steps().push(step),
    {
        self.created += 1;
    }

    /// Whether every step of the creation order has been created.
    pub fn is_fully_created(&self) -> (r: bool)
        requires
            self.wf(),
        ensures
            r == (self.created_steps().len() == creation_order(self.validation()).len()),
    {
        self.created == self.plan.len()
    }

    /// Whether teardown has already run.
    pub fn is_torn_down(&self) -> (r: bool)
        ensures
            r == self.torn_down(),
    {
        self.torn_down
    }

    /// Enter the torn-down state, exactly once, and return the destruction
    /// plan: every created step, each exactly once, in exact reverse
    /// creation order. After the call nothing is left created.
    pub fn begin_teardown(&mut self) -> (plan: Vec<StepKind>)
        requires
            old(self).wf(),
            !old(self).torn_down(),
        ensures
            final(self).wf(),
            final(self).validation() == old(self).validation(),
            final(self).torn_down(),
            final(self).created_steps() =~= Seq::<StepKind>::empty(),
            plan@ == old(self).created_steps().reverse(),
    {
        let n = self.created;
        let mut plan: Vec<StepKind> = Vec::new();
        let mut i: usize = n;
        while i > 0
            invariant
                i <= n,
                n <= self.plan@.len(),
                plan@.len() == n - i,
                forall|t: int| 0 <= t < plan@.len() ==> plan@[t] == self.plan@[n - 1 - t],
            decreases i,
        {
            i -= 1;
            let step = self.plan[i];
            plan.push(step);
        }
        proof {
            assert(plan@ =~= self.plan@.take(n as int).reverse());
        }
        self.created = 0;
        self.torn_down = true;
        plan
    }
}

/// The teardown plan is the exact mirror of creation: the step created at
/// position `i` is destroyed at position `len - 1 - i`, so every step is
/// destroyed strictly before each step it depends on (created earlier) and
/// strictly after each step that depends on it (created later).
pub proof fn lemma_teardown_reverses_creation(created: Seq<StepKind>, plan: Seq<StepKind>)
    requires
        plan == created.reverse(),
    ensures
        plan.len() == created.len(),
        forall|i: int|
            0 <= i < created.len() ==> plan[created.len() - 1 - i] == created[i],
{
}

/// No step is destroyed twice: the created steps are pairwise distinct
/// (they form a prefix of the duplicate-free creation order), and the
/// teardown plan is a reordering of exactly those steps.
pub proof fn lemma_no_double_destroy(m: LifecycleManager)
    requires
        m.wf(),
    ensures
        forall|i: int, j: int|
            0 <= i < j < m.created_steps().len() ==> m.created_steps()[i] != m.created_steps()[j],
{
    let order = creation_order(m.validation());
    assert forall|i: int, j: int|
        0 <= i < j < m.created_steps().len() implies m.created_steps()[i]
        != m.created_steps()[j] by {
        assert(m.created_steps()[i] == order[i]);
        assert(m.created_steps()[j] == order[j]);
    }
}

/// A helper for stating where a bootstrap run first failed: every earlier
/// step's creation call succeeded and step `k`'s failed.
pub open spec fn fails_first_at(outcomes: Seq<bool>, k: int) -> bool {
    &&& !outcomes[k]
    &&& forall|j: int| 0 <= j < k ==> outcomes[j]
}

/// The whole bootstrap sequencing as one decision function: walk the
/// creation order, consuming one creation outcome per step (as reported by
/// the host performing the native calls). On full success the completed
/// chain is returned, still live; on the first failure the failed step is
/// reported together with the teardown plan for everything created before
/// it, in reverse creation order.
pub fn drive_bootstrap(validation_enabled: bool, outcomes: &Vec<bool>) -> (r: Result<
    LifecycleManager,
    (BootstrapError, Vec<StepKind>),
>)
    requires
        outcomes@.len() >= creation_order(validation_enabled).len(),
    ensures
        match r {
            Ok(m) => {
                &&& m.wf()
                &&& m.validation() == validation_enabled
                &&& !m.torn_down()
                &&& m.created_steps() == creation_order(validation_enabled)
                &&& forall|j: int|
                    0 <= j < creation_order(validation_enabled).len() ==> outcomes@[j]
            },
            Err((e, plan)) => exists|k: int|
                {
                    &&& 0 <= k < creation_order(validation_enabled).len()
                    &&& #[trigger] fails_first_at(outcomes@, k)
                    &&& e == BootstrapError::CreationFailure(
                        creation_order(validation_enabled)[k],
                    )
                    &&& plan@ == creation_order(validation_enabled).take(k).reverse()
                },
        },
{
    let ghost order = creation_order(validation_enabled);
    let mut mgr = LifecycleManager::new(validation_enabled);
    let mut k: usize = 0;
    loop
        invariant
            mgr.wf(),
            mgr.validation() == validation_enabled,
            !mgr.torn_down(),
            k == mgr.created_steps().len(),
            k <= order.len(),
            outcomes@.len() >= order.len(),
            order == creation_order(validation_enabled),
            forall|j: int| 0 <= j < k ==> outcomes@[j],
        decreases order.len() - k,
    {
        match mgr.next_step() {
            None => {
                proof {
                    assert(mgr.created_steps() =~= order);
                }
                return Ok(mgr);
            },
            Some(step) => {
                if outcomes[k] {
                    mgr.record_created(step);
                    k += 1;
                } else {
                    let plan = mgr.begin_teardown();
                    proof {
                        assert(fails_first_at(outcomes@, k as int));
                        assert(plan@ == order.take(k as int).reverse());
                    }
                    return Err((BootstrapError::CreationFailure(step), plan));
                }
            },
        }
    }
}

} // verus!
