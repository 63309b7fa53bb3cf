use vstd::prelude::*;

verus! {

/// One step of a frame's command recording.
#[derive(Debug, Clone, Copy, PartialEq, Eq, Structural)]
pub enum FrameStep {
    /// The expansion kernels: `init`, then `fill`.
    GrassDispatch,
    /// The depth pass of light `light`, with or without the grass.
    ShadowPass { light: u32, grass: bool },
    /// The color pass, with or without the grass.
    ForwardPass { grass: bool },
    /// The outline post-process.
    Postprocess,
}

/// Whether step `s` draws the grass generated this frame.
pub open spec fn draws_grass(s: FrameStep) -> bool {
    match s {
        FrameStep::ShadowPass { grass, .. } => grass,
        FrameStep::ForwardPass { grass } => grass,
        _ => false,
    }
}

/// The shadow passes of `lights` lights, in order.
pub open spec fn shadow_steps(lights: nat, grass: bool) -> Seq<FrameStep> {
    Seq::new(lights, |i: int| FrameStep::ShadowPass { light: i as u32, grass })
}

/// The steps of one frame: the grass is generated once, before the first
/// pass that draws it; the shadow passes come one per light, then the
/// forward pass, then the post-process if it is shown.
pub open spec fn frame_steps(
    lights: nat,
    grass_shadows: bool,
    show_grass: bool,
    show_postprocess: bool,
) -> Seq<FrameStep> {
    let shadows = shadow_steps(lights, grass_shadows);
    let forward = seq![FrameStep::ForwardPass { grass: show_grass }];
    let post = if show_postprocess {
        seq![FrameStep::Postprocess]
    } else {
        Seq::<FrameStep>::empty()
    };
    if grass_shadows {
        seq![FrameStep::GrassDispatch] + shadows + forward + post
    } else {
        shadows + seq![FrameStep::GrassDispatch] + forward + post
    }
}

/// The order in which a frame's commands are recorded, for `lights` lights.
pub fn plan_frame(lights: u32, grass_shadows: bool, show_grass: bool, show_postprocess: bool) -> (r:
    Vec<FrameStep>)
    ensures
        r@ == frame_steps(lights as nat, grass_shadows, show_grass, show_postprocess),
{
    let mut steps: Vec<FrameStep> = Vec::new();
    if grass_shadows {
        steps.push(FrameStep::GrassDispatch);
    }
    let ghost before = steps@;
    let mut i: u32 = 0;
    while i < lights
        invariant
            0 <= i <= lights,
            steps@ == before + shadow_steps(i as nat, grass_shadows),
        decreases lights - i,
    {
        steps.push(FrameStep::ShadowPass { light: i, grass: grass_shadows });
        assert(shadow_steps(i as nat + 1, grass_shadows) =~= shadow_steps(i as nat, grass_shadows).push(
            FrameStep::ShadowPass { light: i, grass: grass_shadows },
        ));
        i = i + 1;
    }
    if !grass_shadows {
        steps.push(FrameStep::GrassDispatch);
    }
    steps.push(FrameStep::ForwardPass { grass: show_grass });
    if show_postprocess {
        steps.push(FrameStep::Postprocess);
    }
    proof {
        let shadows = shadow_steps(lights as nat, grass_shadows);
        let forward = seq![FrameStep::ForwardPass { grass: show_grass }];
        let post = if show_postprocess {
            seq![FrameStep::Postprocess]
        } else {
            Seq::<FrameStep>::empty()
        };
        if grass_shadows {
            assert(steps@ =~= seq![FrameStep::GrassDispatch] + shadows + forward + post);
        } else {
            assert(steps@ =~= shadows + seq![FrameStep::GrassDispatch] + forward + post);
        }
    }
    steps
}

/// A frame generates the grass exactly once, and before every pass that
/// draws it, so that the shadow and forward passes read one and the same
/// result.
pub proof fn lemma_dispatch_precedes_draws(
    lights: nat,
    grass_shadows: bool,
    show_grass: bool,
    show_postprocess: bool,
)
    ensures
        ({
            let steps = frame_steps(lights, grass_shadows, show_grass, show_postprocess);
            exists|d: int|
                {
                    &&& 0 <= d < steps.len()
                    &&& #[trigger] steps[d] == FrameStep::GrassDispatch
                    &&& forall|j: int|
                        0 <= j < steps.len() && j != d ==> #[trigger] steps[j]
                            != FrameStep::GrassDispatch
                    &&& forall|j: int| 0 <= j < steps.len() && draws_grass(#[trigger] steps[j]) ==> d < j
                }
        }),
{
    let steps = frame_steps(lights, grass_shadows, show_grass, show_postprocess);
    let shadows = shadow_steps(lights, grass_shadows);
    let d: int = if grass_shadows {
        0
    } else {
        lights as int
    };
    assert(steps[d] == FrameStep::GrassDispatch);
    assert forall|j: int| 0 <= j < steps.len() && j != d implies #[trigger] steps[j]
        != FrameStep::GrassDispatch by {
        if grass_shadows {
            if 1 <= j < 1 + lights {
                assert(steps[j] == shadows[j - 1]);
            }
        } else {
            if j < lights {
                assert(steps[j] == shadows[j]);
            }
        }
    }
    assert forall|j: int| 0 <= j < steps.len() && draws_grass(#[trigger] steps[j]) implies d < j by {
        if !grass_shadows && j < lights {
            assert(steps[j] == shadows[j]);
        }
    }
}

} // verus!
