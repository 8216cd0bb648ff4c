//! Frame compositor: the order of the single render pass and the captured
//! secondary UI layer that may be composited into it.

use vstd::prelude::*;

verus! {

/// One recorded step of the single render pass of a tick.
#[derive(Clone, Copy, PartialEq, Eq, Structural, Debug)]
pub enum PassStep {
    /// Clear the target to the configured background color.
    ClearBackground,
    /// Upload the captured UI layer to a transient texture and draw it.
    BlitCapturedLayer,
    /// Draw the fixed base pipeline on top.
    DrawBasePipeline,
}

/// Records the steps of the render pass for one tick: the pass always
/// clears first and draws the base pipeline last, with the captured layer
/// (when one is present) blitted in between, so the pipeline output acts as
/// an overlay on top of the captured content.
pub fn compose_pass(has_captured_layer: bool) -> (steps: Vec<PassStep>)
    ensures
        has_captured_layer ==> steps@ == seq![
            PassStep::ClearBackground,
            PassStep::BlitCapturedLayer,
            PassStep::DrawBasePipeline,
        ],
        !has_captured_layer ==> steps@ == seq![
            PassStep::ClearBackground,
            PassStep::DrawBasePipeline,
        ],
{
    let mut steps: Vec<PassStep> = Vec::new();
    steps.push(PassStep::ClearBackground);
    if has_captured_layer {
        steps.push(PassStep::BlitCapturedLayer);
    }
    steps.push(PassStep::DrawBasePipeline);
    proof {
        if has_captured_layer {
            assert(steps@ =~= seq![
                PassStep::ClearBackground,
                PassStep::BlitCapturedLayer,
                PassStep::DrawBasePipeline,
            ]);
        } else {
            assert(steps@ =~= seq![PassStep::ClearBackground, PassStep::DrawBasePipeline]);
        }
    }
    steps
}

/// Why a decoded capture was rejected.
#[derive(Clone, Copy, PartialEq, Eq, Structural, Debug)]
pub enum LayerError {
    /// The byte count is not `width * 4 * height`.
    SizeMismatch,
}

/// Externally captured RGBA image of the sibling UI surface, valid for one
/// frame; rows are tightly packed.
#[derive(Debug)]
pub struct CapturedLayer {
    pub width: u32,
    pub height: u32,
    pub rgba: Vec<u8>,
}

impl CapturedLayer {
    /// The image holds exactly `width * 4 * height` bytes.
    pub open spec fn wf(self) -> bool {
        self.rgba@.len() == self.width * 4 * self.height
    }

    /// Wraps a decoded RGBA capture, rejecting byte counts that do not
    /// match the stated dimensions.
    pub fn new(width: u32, height: u32, rgba: Vec<u8>) -> (r: Result<CapturedLayer, LayerError>)
        ensures
            r is Ok <==> rgba@.len() == width * 4 * height,
            r is Ok ==> r->Ok_0 == (CapturedLayer { width, height, rgba }),
            r is Err ==> r->Err_0 == LayerError::SizeMismatch,
    {
        proof {
            assert((width as int) * 4 * (height as int) <= 0x4_0000_0000 * 0xffff_ffff)
                by (nonlinear_arith)
                requires
                    0 <= width as int <= 0xffff_ffff,
                    0 <= height as int <= 0xffff_ffff,
            ;
        }
        let expected: u128 = (width as u128) * 4 * (height as u128);
        if (rgba.len() as u128) == expected {
            Ok(CapturedLayer { width, height, rgba })
        } else {
            Err(LayerError::SizeMismatch)
        }
    }

    /// Texture-upload layout of the layer: tightly packed rows of
    /// `4 * width` bytes, `height` rows per image.
    pub fn upload_layout(&self) -> (layout: (u32, u32))
        requires
            self.width * 4 <= u32::MAX,
        ensures
            layout.0 == self.width * 4,
            layout.1 == self.height,
    {
        (self.width * 4, self.height)
    }
}

} // verus!
