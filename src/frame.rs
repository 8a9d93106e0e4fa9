//! Per-frame state: the acquired presentation target, the one command
//! encoder all passes record into, and the result flag.
use vstd::prelude::*;
use crate::device::Handle;
use crate::error::SurfaceError;

verus! {

/// The render passes of a frame, in the order they run.
#[derive(Clone, Copy, PartialEq, Eq, Debug)]
pub enum PassKind {
    Shadow,
    Composite,
    Debug,
}

/// Where a pass writes color.
#[derive(Clone, Copy, PartialEq, Eq, Debug)]
pub enum ColorAttachment {
    /// The acquired presentation target.
    Surface,
    /// A registry texture.
    Texture(Handle),
}

/// One recorded command. Every pass clears what it writes: the backend
/// clears color to the pass's background and depth to the far plane.
#[derive(Clone, Copy, PartialEq, Eq, Debug)]
pub enum RenderCommand {
    /// Opens a pass scope; `depth` is a depth texture, written at its first
    /// layer.
    BeginPass { pass: PassKind, color: Option<ColorAttachment>, depth: Option<Handle> },
    SetPipeline(Handle),
    SetBindGroup { slot: u32, group: Handle },
    SetVertexBuffer { slot: u32, buffer: Handle },
    SetIndexBuffer(Handle),
    Draw { vertices: u32, instances: u32 },
    DrawIndexed { indices: u32, first_instance: u32, instances: u32 },
    EndPass,
    /// The user-interface overlay, painted over the presentation target.
    DrawOverlay,
}

#[derive(Clone, Copy, PartialEq, Eq, Structural, Debug)]
pub enum FrameStage {
    Idle,
    TargetAcquired,
    Encoding,
    Submitted,
    Presented,
    Aborted,
}

#[derive(Clone, Copy, PartialEq, Eq, Debug)]
pub enum FrameOutcome {
    Presented,
    Aborted(SurfaceError),
}

/// Whether `c` issues draws.
pub open spec fn is_draw(c: RenderCommand) -> bool {
    c is Draw || c is DrawIndexed
}

/// The number of draw calls in `cmds`.
pub open spec fn draw_count(cmds: Seq<RenderCommand>) -> nat
    decreases cmds.len(),
{
    if cmds.len() == 0 {
        0
    } else {
        draw_count(cmds.drop_last()) + if is_draw(cmds.last()) { 1nat } else { 0nat }
    }
}

/// A frame from acquisition to present or abort.
pub struct FrameContext {
    pub stage: FrameStage,
    /// The failure that ended the frame, if one did.
    pub result: Option<SurfaceError>,
    /// The presentation target is held, to be consumed by the present.
    pub has_target: bool,
    /// The encoder's recorded commands.
    pub commands: Vec<RenderCommand>,
    /// A pass scope is open on the encoder.
    pub in_pass: bool,
    /// The recorded commands were handed to the queue.
    pub submitted: bool,
}

impl FrameContext {
    /// Passes may record: the encoder is open, no failure was recorded and
    /// no pass scope is open.
    pub open spec fn recording(&self) -> bool {
        &&& self.stage == FrameStage::Encoding
        &&& self.result is None
        &&& !self.in_pass
    }

    /// A failure recorded in the result flag holds the frame in `Aborted`;
    /// nothing is recorded before the encoder opens, nor in an aborted
    /// frame, and only a submitted frame was handed to the queue.
    pub open spec fn wf(&self) -> bool {
        &&& (self.result is Some <==> self.stage == FrameStage::Aborted)
        &&& (self.stage == FrameStage::Idle || self.stage == FrameStage::TargetAcquired
            || self.stage == FrameStage::Aborted) ==> self.commands@.len() == 0
        &&& self.in_pass ==> self.stage == FrameStage::Encoding
        &&& self.submitted <==> (self.stage == FrameStage::Submitted || self.stage == FrameStage::Presented)
        &&& self.has_target <==> (self.stage == FrameStage::TargetAcquired || self.stage == FrameStage::Encoding
            || self.stage == FrameStage::Submitted)
    }

    pub fn new() -> (r: FrameContext)
        ensures
            r.wf(),
            r.stage == FrameStage::Idle,
            r.commands@.len() == 0,
    {
        FrameContext {
            stage: FrameStage::Idle,
            result: None,
            has_target: false,
            commands: Vec::new(),
            in_pass: false,
            submitted: false,
        }
    }

    /// Takes the outcome of acquiring the presentation target. A failure is
    /// recorded and ends the frame.
    pub fn acquire(&mut self, acquired: Result<(), SurfaceError>)
        requires
            old(self).wf(),
            old(self).stage == FrameStage::Idle,
        ensures
            final(self).wf(),
            final(self).commands@ == old(self).commands@,
            !final(self).in_pass,
            acquired is Ok ==> final(self).stage == FrameStage::TargetAcquired && final(self).has_target,
            acquired matches Err(e) ==> final(self).stage == FrameStage::Aborted && final(self).result == Some(e),
    {
        match acquired {
            Ok(()) => {
                self.stage = FrameStage::TargetAcquired;
                self.has_target = true;
            },
            Err(e) => {
                self.stage = FrameStage::Aborted;
                self.result = Some(e);
            },
        }
    }

    /// Opens the command encoder that all passes of the frame share.
    pub fn begin_encoding(&mut self)
        requires
            old(self).wf(),
        ensures
            final(self).wf(),
            final(self).commands@ == old(self).commands@,
            final(self).in_pass == old(self).in_pass,
            old(self).stage == FrameStage::TargetAcquired ==> final(self).stage == FrameStage::Encoding
                && final(self).result is None,
            old(self).stage != FrameStage::TargetAcquired ==> *final(self) == *old(self),
    {
        if self.stage == FrameStage::TargetAcquired {
            self.stage = FrameStage::Encoding;
        }
    }

    /// Opens a pass scope.
    pub fn begin_pass(&mut self, pass: PassKind, color: Option<ColorAttachment>, depth: Option<Handle>)
        requires
            old(self).wf(),
            old(self).recording(),
        ensures
            final(self).wf(),
            final(self).stage == old(self).stage,
            final(self).result == old(self).result,
            final(self).in_pass,
            final(self).commands@ == old(self).commands@.push(RenderCommand::BeginPass { pass, color, depth }),
    {
        self.commands.push(RenderCommand::BeginPass { pass, color, depth });
        self.in_pass = true;
    }

    /// Records `cmd` into the open pass scope.
    pub fn record(&mut self, cmd: RenderCommand)
        requires
            old(self).wf(),
            old(self).in_pass,
            old(self).result is None,
            !(cmd is BeginPass),
            !(cmd is EndPass),
        ensures
            final(self).wf(),
            final(self).stage == old(self).stage,
            final(self).result == old(self).result,
            final(self).in_pass,
            final(self).commands@ == old(self).commands@.push(cmd),
    {
        self.commands.push(cmd);
    }

    /// Closes the open pass scope.
    pub fn end_pass(&mut self)
        requires
            old(self).wf(),
            old(self).in_pass,
            old(self).result is None,
        ensures
            final(self).wf(),
            final(self).recording(),
            final(self).stage == old(self).stage,
            final(self).commands@ == old(self).commands@.push(RenderCommand::EndPass),
    {
        self.commands.push(RenderCommand::EndPass);
        self.in_pass = false;
    }

    /// Records the user-interface overlay outside any pass scope of ours.
    pub fn record_overlay(&mut self)
        requires
            old(self).wf(),
            old(self).recording(),
        ensures
            final(self).wf(),
            final(self).recording(),
            final(self).commands@ == old(self).commands@.push(RenderCommand::DrawOverlay),
    {
        self.commands.push(RenderCommand::DrawOverlay);
    }

    /// Hands the recorded commands to the queue, once. A frame that is not
    /// encoding is left alone.
    pub fn submit(&mut self)
        requires
            old(self).wf(),
            !old(self).in_pass,
        ensures
            final(self).wf(),
            final(self).commands@ == old(self).commands@,
            old(self).stage == FrameStage::Encoding ==> final(self).stage == FrameStage::Submitted && final(self).submitted,
            old(self).stage != FrameStage::Encoding ==> *final(self) == *old(self),
    {
        if self.stage == FrameStage::Encoding {
            self.stage = FrameStage::Submitted;
            self.submitted = true;
        }
    }

    /// Presents the target of a submitted frame, or reports why the frame
    /// was aborted.
    pub fn present(&mut self) -> (r: FrameOutcome)
        requires
            old(self).wf(),
            old(self).stage == FrameStage::Submitted || old(self).stage == FrameStage::Aborted,
        ensures
            final(self).wf(),
            final(self).commands@ == old(self).commands@,
            old(self).stage == FrameStage::Submitted ==> r == FrameOutcome::Presented
                && final(self).stage == FrameStage::Presented && !final(self).has_target,
            old(self).stage == FrameStage::Aborted ==> r == FrameOutcome::Aborted(old(self).result->0)
                && *final(self) == *old(self),
    {
        match self.result {
            Some(e) => FrameOutcome::Aborted(e),
            None => {
                self.stage = FrameStage::Presented;
                self.has_target = false;
                FrameOutcome::Presented
            },
        }
    }
}

} // verus!
