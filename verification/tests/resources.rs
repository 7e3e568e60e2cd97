use rust_gfx::resources::{Resources, Teardown};

#[test]
fn one_of_each() {
    let resources = Resources { render_passes: 1, pipeline_layouts: 1, pipelines: 1 };
    let expected = vec![
        Teardown::DestroySemaphore,
        Teardown::DestroyFence,
        Teardown::DestroyPipeline(0),
        Teardown::DestroyPipelineLayout(0),
        Teardown::DestroyRenderPass(0),
        Teardown::DestroyCommandPool,
        Teardown::UnconfigureSwapchain,
        Teardown::DestroySurface,
    ];
    assert_eq!(resources.teardown(), expected);
}

#[test]
fn none_of_the_repeated_kinds() {
    let resources = Resources { render_passes: 0, pipeline_layouts: 0, pipelines: 0 };
    let expected = vec![
        Teardown::DestroySemaphore,
        Teardown::DestroyFence,
        Teardown::DestroyCommandPool,
        Teardown::UnconfigureSwapchain,
        Teardown::DestroySurface,
    ];
    assert_eq!(resources.teardown(), expected);
}

#[test]
fn several_of_each() {
    let resources = Resources { render_passes: 3, pipeline_layouts: 1, pipelines: 2 };
    let steps = resources.teardown();
    assert_eq!(steps.len(), 11);
    assert_eq!(
        &steps[2..8],
        &[
            Teardown::DestroyPipeline(0),
            Teardown::DestroyPipeline(1),
            Teardown::DestroyPipelineLayout(0),
            Teardown::DestroyRenderPass(0),
            Teardown::DestroyRenderPass(1),
            Teardown::DestroyRenderPass(2),
        ]
    );
    for (k, step) in steps.iter().enumerate() {
        assert!(!steps[k + 1..].contains(step));
    }
    assert_eq!(steps[10], Teardown::DestroySurface);
}
