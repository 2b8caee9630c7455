use vstd::prelude::*;

verus! {

/// Full intensity of a color channel: channels count in thousandths.
pub const CHANNEL_FULL: u16 = 1000;

/// A color whose channels count in thousandths of full intensity.
#[derive(Clone, Copy, Debug, PartialEq, Eq, Structural)]
pub struct Rgba {
    pub r: u16,
    pub g: u16,
    pub b: u16,
    pub a: u16,
}

impl Rgba {
    pub open spec fn in_range(self) -> bool {
        self.r <= CHANNEL_FULL && self.g <= CHANNEL_FULL && self.b <= CHANNEL_FULL && self.a
            <= CHANNEL_FULL
    }
}

/// The color every frame is cleared to: (0.1, 0.2, 0.3, 1.0).
pub open spec fn spec_clear_color() -> Rgba {
    Rgba { r: 100, g: 200, b: 300, a: 1000 }
}

pub fn clear_color() -> (c: Rgba)
    ensures
        c == spec_clear_color(),
        c.in_range(),
{
    Rgba { r: 100, g: 200, b: 300, a: CHANNEL_FULL }
}

/// What a render pass does with the image's contents when it begins.
#[derive(Clone, Copy, Debug, PartialEq, Eq, Structural)]
pub enum LoadOp {
    /// Overwrite every pixel with the color.
    Clear(Rgba),
    /// Keep the contents as they are.
    Load,
}

/// The operations of a render pass on its color attachment.
#[derive(Clone, Copy, Debug, PartialEq, Eq, Structural)]
pub struct PassOps {
    pub load: LoadOp,
    /// Whether the pass's results are written back to the image.
    pub store: bool,
}

/// The operations of the frame's pass: clear to the fixed color, and keep the
/// result for presentation.
pub open spec fn spec_clear_pass_ops() -> PassOps {
    PassOps { load: LoadOp::Clear(spec_clear_color()), store: true }
}

pub fn clear_pass_ops() -> (ops: PassOps)
    ensures
        ops == spec_clear_pass_ops(),
{
    PassOps { load: LoadOp::Clear(clear_color()), store: true }
}

/// The image, as a sequence of pixels, after a pass without draw calls ran on
/// `prior`; `None` where the pass leaves the contents undefined (its results
/// are not stored).
pub open spec fn pass_output(ops: PassOps, prior: Seq<Rgba>) -> Option<Seq<Rgba>> {
    if !ops.store {
        None
    } else {
        match ops.load {
            LoadOp::Clear(c) => Some(Seq::new(prior.len(), |_i: int| c)),
            LoadOp::Load => Some(prior),
        }
    }
}

/// One step of a frame. The language has no draw step: a frame's passes
/// issue no draw calls.
#[derive(Clone, Copy, Debug, PartialEq, Eq, Structural)]
pub enum FrameStep {
    /// Acquire the next presentable image of the surface.
    AcquireImage,
    /// Derive a full-image view of the acquired image.
    CreateView,
    /// Open a command recording scope on the device.
    OpenEncoder,
    /// Record one render pass whose sole color attachment is the view. The
    /// pass is released before the next step begins.
    RenderPass(PassOps),
    /// Finalize the recording into a command buffer.
    Finish,
    /// Submit the command buffer to the queue, in one batch.
    Submit,
    /// Present the acquired image.
    Present,
}

/// The steps of every frame, in order.
pub open spec fn spec_frame_plan() -> Seq<FrameStep> {
    seq![
        FrameStep::AcquireImage,
        FrameStep::CreateView,
        FrameStep::OpenEncoder,
        FrameStep::RenderPass(spec_clear_pass_ops()),
        FrameStep::Finish,
        FrameStep::Submit,
        FrameStep::Present,
    ]
}

/// The steps of one frame, in the order in which they are carried out.
pub fn frame_plan() -> (plan: Vec<FrameStep>)
    ensures
        plan@ == spec_frame_plan(),
{
    let mut plan: Vec<FrameStep> = Vec::new();
    plan.push(FrameStep::AcquireImage);
    plan.push(FrameStep::CreateView);
    plan.push(FrameStep::OpenEncoder);
    plan.push(FrameStep::RenderPass(clear_pass_ops()));
    plan.push(FrameStep::Finish);
    plan.push(FrameStep::Submit);
    plan.push(FrameStep::Present);
    assert(plan@ =~= spec_frame_plan());
    plan
}

/// The index of the first occurrence of `step` in `plan` (its length if none).
pub open spec fn position(plan: Seq<FrameStep>, step: FrameStep) -> int
    decreases plan.len(),
{
    if plan.len() == 0 {
        0
    } else if plan[0] == step {
        0
    } else {
        1 + position(plan.drop_first(), step)
    }
}

/// A frame has exactly one render pass, whose operations clear and store; the
/// image is acquired and viewed and the recording opened before it; the pass
/// is released before the recording is finalized, which comes before the
/// single submission and the presentation. Whatever the image held before,
/// after the pass every pixel has the clear color.
pub proof fn frame_clears_every_pixel(prior: Seq<Rgba>)
    ensures
        forall|i: int|
            0 <= i < spec_frame_plan().len() && spec_frame_plan()[i] is RenderPass ==> i == 3,
        spec_frame_plan()[3] == FrameStep::RenderPass(spec_clear_pass_ops()),
        spec_frame_plan().filter(|s: FrameStep| s == FrameStep::Submit).len() == 1,
        position(spec_frame_plan(), FrameStep::AcquireImage) < position(
            spec_frame_plan(),
            FrameStep::CreateView,
        ),
        position(spec_frame_plan(), FrameStep::CreateView) < position(
            spec_frame_plan(),
            FrameStep::OpenEncoder,
        ),
        position(spec_frame_plan(), FrameStep::OpenEncoder) < 3,
        3 < position(spec_frame_plan(), FrameStep::Finish),
        position(spec_frame_plan(), FrameStep::Finish) < position(
            spec_frame_plan(),
            FrameStep::Submit,
        ),
        position(spec_frame_plan(), FrameStep::Submit) < position(
            spec_frame_plan(),
            FrameStep::Present,
        ),
        position(spec_frame_plan(), FrameStep::Present) == spec_frame_plan().len() - 1,
        pass_output(spec_clear_pass_ops(), prior) is Some,
        pass_output(spec_clear_pass_ops(), prior)->0.len() == prior.len(),
        forall|i: int|
            0 <= i < prior.len() ==> pass_output(spec_clear_pass_ops(), prior)->0[i]
                == spec_clear_color(),
{
    let plan = spec_frame_plan();
    reveal_with_fuel(position, 8);
    reveal_with_fuel(Seq::filter, 8);
    assert(plan.filter(|s: FrameStep| s == FrameStep::Submit) =~= seq![FrameStep::Submit]);
}

} // verus!
