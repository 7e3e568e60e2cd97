//! The order in which the graphics resources are destroyed.
use vstd::prelude::*;

verus! {

/// How many resources of each repeated kind are held. There is one each of the
/// others: the surface with its swapchain, the command pool, the fence of the
/// submission and the semaphore of the rendering.
#[derive(Clone, Copy, Debug, PartialEq, Eq)]
pub struct Resources {
    pub render_passes: usize,
    pub pipeline_layouts: usize,
    pub pipelines: usize,
}

/// The destruction of one resource; those of a repeated kind are numbered in the
/// order in which they were made.
#[derive(Clone, Copy, Debug, PartialEq, Eq)]
pub enum Teardown {
    DestroySemaphore,
    DestroyFence,
    DestroyPipeline(usize),
    DestroyPipelineLayout(usize),
    DestroyRenderPass(usize),
    DestroyCommandPool,
    UnconfigureSwapchain,
    DestroySurface,
}

/// The first `n` pipelines in order.
pub open spec fn pipelines_up_to(n: nat) -> Seq<Teardown> {
    Seq::new(n, |i: int| Teardown::DestroyPipeline(i as usize))
}

/// The first `n` pipeline layouts in order.
pub open spec fn layouts_up_to(n: nat) -> Seq<Teardown> {
    Seq::new(n, |i: int| Teardown::DestroyPipelineLayout(i as usize))
}

/// The first `n` render passes in order.
pub open spec fn passes_up_to(n: nat) -> Seq<Teardown> {
    Seq::new(n, |i: int| Teardown::DestroyRenderPass(i as usize))
}

impl Resources {
    /// What is destroyed, in order.
    pub open spec fn order(self) -> Seq<Teardown> {
        seq![Teardown::DestroySemaphore, Teardown::DestroyFence] + pipelines_up_to(
            self.pipelines as nat,
        ) + layouts_up_to(self.pipeline_layouts as nat) + passes_up_to(self.render_passes as nat)
            + seq![
            Teardown::DestroyCommandPool,
            Teardown::UnconfigureSwapchain,
            Teardown::DestroySurface,
        ]
    }

    /// The destruction belongs to a resource that is held.
    pub open spec fn holds(self, step: Teardown) -> bool {
        match step {
            Teardown::DestroyPipeline(i) => i < self.pipelines,
            Teardown::DestroyPipelineLayout(i) => i < self.pipeline_layouts,
            Teardown::DestroyRenderPass(i) => i < self.render_passes,
            _ => true,
        }
    }

    /// Where the destruction of a held resource stands in the order.
    pub open spec fn position(self, step: Teardown) -> int {
        match step {
            Teardown::DestroySemaphore => 0,
            Teardown::DestroyFence => 1,
            Teardown::DestroyPipeline(i) => 2 + i,
            Teardown::DestroyPipelineLayout(i) => 2 + self.pipelines + i,
            Teardown::DestroyRenderPass(i) => 2 + self.pipelines + self.pipeline_layouts + i,
            Teardown::DestroyCommandPool => 2 + self.pipelines + self.pipeline_layouts
                + self.render_passes,
            Teardown::UnconfigureSwapchain => 3 + self.pipelines + self.pipeline_layouts
                + self.render_passes,
            Teardown::DestroySurface => 4 + self.pipelines + self.pipeline_layouts
                + self.render_passes,
        }
    }

    /// Lists what is destroyed, in order: first what synchronises the frames,
    /// then the pipelines, their layouts, the render passes and the command
    /// pool, and last the swapchain and the surface itself.
    pub fn teardown(&self) -> (steps: Vec<Teardown>)
        ensures
            steps@ == self.order(),
    {
        let mut steps: Vec<Teardown> = Vec::new();
        steps.push(Teardown::DestroySemaphore);
        steps.push(Teardown::DestroyFence);
        let ghost base = steps@;
        let mut i: usize = 0;
        while i < self.pipelines
            invariant
                i <= self.pipelines,
                steps@ =~= base + pipelines_up_to(i as nat),
            decreases self.pipelines - i,
        {
            steps.push(Teardown::DestroyPipeline(i));
            i += 1;
        }
        let ghost base = steps@;
        let mut i: usize = 0;
        while i < self.pipeline_layouts
            invariant
                i <= self.pipeline_layouts,
                steps@ =~= base + layouts_up_to(i as nat),
            decreases self.pipeline_layouts - i,
        {
            steps.push(Teardown::DestroyPipelineLayout(i));
            i += 1;
        }
        let ghost base = steps@;
        let mut i: usize = 0;
        while i < self.render_passes
            invariant
                i <= self.render_passes,
                steps@ =~= base + passes_up_to(i as nat),
            decreases self.render_passes - i,
        {
            steps.push(Teardown::DestroyRenderPass(i));
            i += 1;
        }
        steps.push(Teardown::DestroyCommandPool);
        steps.push(Teardown::UnconfigureSwapchain);
        steps.push(Teardown::DestroySurface);
        assert(steps@ =~= self.order());
        steps
    }
}

/// Every resource that is held is destroyed, at its own position.
pub proof fn law_everything_is_destroyed(resources: Resources, step: Teardown)
    requires
        resources.holds(step),
    ensures
        0 <= resources.position(step) < resources.order().len(),
        resources.order()[resources.position(step)] == step,
{
}

/// Only what is held is destroyed, and nothing twice: each destruction in the
/// order is that of a held resource and stands at the position of that resource.
pub proof fn law_nothing_is_destroyed_twice(resources: Resources, k: int)
    requires
        0 <= k < resources.order().len(),
    ensures
        resources.holds(resources.order()[k]),
        resources.position(resources.order()[k]) == k,
{
    let (p, l) = (resources.pipelines as int, resources.pipeline_layouts as int);
    let r = resources.render_passes as int;
    let step = resources.order()[k];
    if 2 <= k < 2 + p {
        assert(step == Teardown::DestroyPipeline((k - 2) as usize));
    } else if 2 + p <= k < 2 + p + l {
        assert(step == Teardown::DestroyPipelineLayout((k - 2 - p) as usize));
    } else if 2 + p + l <= k < 2 + p + l + r {
        assert(step == Teardown::DestroyRenderPass((k - 2 - p - l) as usize));
    }
}

/// A pipeline goes before the layouts and the render passes that it was made
/// with.
pub proof fn law_pipelines_go_first(resources: Resources, pipeline: usize, other: Teardown)
    requires
        resources.holds(Teardown::DestroyPipeline(pipeline)),
        resources.holds(other),
        other is DestroyPipelineLayout || other is DestroyRenderPass,
    ensures
        resources.position(Teardown::DestroyPipeline(pipeline)) < resources.position(other),
{
}

/// The surface goes last, right after its swapchain, when everything else is
/// gone.
pub proof fn law_surface_goes_last(resources: Resources, other: Teardown)
    requires
        resources.holds(other),
        other !is UnconfigureSwapchain,
        other !is DestroySurface,
    ensures
        resources.position(other) < resources.position(Teardown::UnconfigureSwapchain),
        resources.position(Teardown::UnconfigureSwapchain) + 1 == resources.position(
            Teardown::DestroySurface,
        ),
        resources.position(Teardown::DestroySurface) + 1 == resources.order().len(),
{
}

/// The order of the teardown: the semaphore and the fence, then the pipelines, the
/// pipeline layouts and the render passes, those of each kind as they were made, then
/// the command pool, the swapchain and the surface, and nothing more.
pub proof fn law_order_of_the_teardown(resources: Resources, i: int)
    ensures
        ({
            let (p, l) = (resources.pipelines as int, resources.pipeline_layouts as int);
            let r = resources.render_passes as int;
            let order = resources.order();
            &&& order.len() == 5 + p + l + r
            &&& order[0] is DestroySemaphore
            &&& order[1] is DestroyFence
            &&& 0 <= i < p ==> (order[2 + i] matches Teardown::DestroyPipeline(n) && n == i)
            &&& 0 <= i < l ==> (order[2 + p + i] matches Teardown::DestroyPipelineLayout(n) && n
                == i)
            &&& 0 <= i < r ==> (order[2 + p + l + i] matches Teardown::DestroyRenderPass(n) && n
                == i)
            &&& order[2 + p + l + r] is DestroyCommandPool
            &&& order[3 + p + l + r] is UnconfigureSwapchain
            &&& order[4 + p + l + r] is DestroySurface
        }),
{
}

} // verus!
