//! The frame driver: a harness owns the pending input batch, the modifier
//! flags, the last pointer position, the last frame output and the texture
//! delta ledger, and advances exactly one frame per run cycle. A run cycle is
//! split in two: [`Harness::begin_frame`] turns the queued simulated actions
//! into the native batch and hands it over for the application callback, and
//! [`Harness::finish_frame`] absorbs the output that callback produced.

use vstd::prelude::*;

use crate::events::{ModifierState, NativeEvent, PointerPos, SimulatedEvent};
use crate::translate::{translate_all, translate_batch};

verus! {

/// One frame's incremental GPU image changes: the ids of textures added or
/// updated by the frame, in order, then the ids it freed. A renderer must
/// apply whole deltas in insertion order: a later update to the same id
/// supersedes an earlier one, and an id may be allocated in one delta and
/// freed in a later one.
#[derive(Clone, Debug, PartialEq, Eq)]
pub struct TextureDelta {
    pub updates: Vec<u64>,
    pub frees: Vec<u64>,
}

impl TextureDelta {
    /// True of a delta that changes nothing.
    pub open spec fn is_empty(self) -> bool {
        self.updates@ == Seq::<u64>::empty() && self.frees@ == Seq::<u64>::empty()
    }

    /// A delta that changes nothing.
    pub fn empty() -> (r: TextureDelta)
        ensures
            r.is_empty(),
    {
        TextureDelta { updates: Vec::new(), frees: Vec::new() }
    }
}

/// One node of an accessibility tree update. The harness never interprets
/// nodes; it only hands every update to the accessibility query engine.
#[derive(Clone, Debug, PartialEq, Eq)]
pub struct AccessNode {
    pub id: u64,
    pub label: String,
}

/// One frame's accessibility tree update: a diff against the previous frame,
/// which is why no update may ever be skipped or reordered.
#[derive(Clone, Debug, PartialEq, Eq)]
pub struct AccessUpdate {
    pub nodes: Vec<AccessNode>,
}

/// The result of one application callback invocation.
#[derive(Clone, Debug, PartialEq, Eq)]
pub struct FrameOutput {
    /// Draw primitives, opaque to the harness beyond being tessellation
    /// input; carried as handles chosen by the shell around the library.
    pub shapes: Vec<u64>,
    /// The GPU texture changes this frame produced.
    pub textures_delta: TextureDelta,
    /// The accessibility tree update, present whenever accessibility support
    /// is enabled on the application context.
    pub accesskit_update: Option<AccessUpdate>,
}

/// The one fatal misconfiguration: a frame output without an accessibility
/// update, meaning accessibility support is disabled on the application
/// context. Every harness operation depends on the accessibility tree, so
/// callers must abort on it.
#[derive(Clone, Copy, Debug, PartialEq, Eq, Structural)]
pub enum HarnessError {
    AccessKitDisabled,
}

/// Pixels per logical point, kept as an exact ratio so that target pixel
/// sizes are computed without rounding surprises.
#[derive(Clone, Copy, Debug, PartialEq, Eq, Structural)]
pub struct PixelDensity {
    pub num: u32,
    pub den: u32,
}

impl PixelDensity {
    /// A density is well formed when its denominator is nonzero.
    pub open spec fn wf(self) -> bool {
        self.den > 0
    }

    /// Native density: one pixel per point.
    pub fn one() -> (r: PixelDensity)
        ensures
            r == (PixelDensity { num: 1, den: 1 }),
            r.wf(),
    {
        PixelDensity { num: 1, den: 1 }
    }

    /// A length in points scaled to pixels, rounded toward zero.
    pub open spec fn scaled_spec(self, len: u32) -> int {
        (len * self.num) / (self.den as int)
    }

    /// Executable scaling; exact, since the product of two 32-bit values
    /// always fits in 64 bits.
    pub fn scaled(self, len: u32) -> (r: u64)
        requires
            self.wf(),
        ensures
            r as int == self.scaled_spec(len),
    {
        proof {
            assert((len as int) * (self.num as int) < 0x1_0000_0000_0000_0000int)
                by (nonlinear_arith)
                requires
                    len < 0x1_0000_0000int,
                    self.num < 0x1_0000_0000int,
            ;
            assert((len as int) * (self.num as int) >= 0) by (nonlinear_arith)
                requires
                    len >= 0,
                    self.num >= 0,
            ;
        }
        ((len as u64) * (self.num as u64)) / (self.den as u64)
    }
}

/// Harness configuration: the initial screen size in logical points and the
/// initial pixel density, read once when the harness is built.
#[derive(Clone, Copy, Debug, PartialEq, Eq, Structural)]
pub struct HarnessBuilder {
    pub screen_width: u32,
    pub screen_height: u32,
    pub density: PixelDensity,
}

impl HarnessBuilder {
    /// A builder is well formed when its density is.
    pub open spec fn wf(self) -> bool {
        self.density.wf()
    }

    /// Pick the screen size, in logical points.
    pub fn with_size(self, width: u32, height: u32) -> (r: HarnessBuilder)
        ensures
            r == (HarnessBuilder { screen_width: width, screen_height: height, ..self }),
    {
        HarnessBuilder { screen_width: width, screen_height: height, ..self }
    }

    /// Pick the pixel density.
    pub fn with_dpi(self, density: PixelDensity) -> (r: HarnessBuilder)
        requires
            density.wf(),
        ensures
            r == (HarnessBuilder { density, ..self }),
            r.wf(),
    {
        HarnessBuilder { density, ..self }
    }

    /// Build a harness around the output of the application callback's first
    /// invocation. Fails exactly when that output carries no accessibility
    /// update; on success the returned update initializes the accessibility
    /// query engine, the initial texture delta is the ledger's first entry,
    /// and the input state starts clean.
    pub fn build(self, initial: FrameOutput) -> (r: Result<(Harness, AccessUpdate), HarnessError>)
        requires
            self.wf(),
        ensures
            initial.accesskit_update is Some <==> r is Ok,
            r matches Ok(built) ==> {
                &&& Some(built.1) == initial.accesskit_update
                &&& built.0.wf()
                &&& built.0.screen_width == self.screen_width
                &&& built.0.screen_height == self.screen_height
                &&& built.0.density == self.density
                &&& built.0.batch@ == Seq::<NativeEvent>::empty()
                &&& built.0.modifiers == (ModifierState {
                    shift: false,
                    control: false,
                    alt: false,
                    command: false,
                })
                &&& built.0.last_pointer_pos == (PointerPos { x_bits: 0, y_bits: 0 })
                &&& built.0.ledger@ == seq![initial.textures_delta]
                &&& built.0.output.shapes == initial.shapes
                &&& built.0.output.textures_delta.is_empty()
                &&& built.0.output.accesskit_update is None
            },
            r is Err ==> r == Err::<(Harness, AccessUpdate), HarnessError>(
                HarnessError::AccessKitDisabled,
            ),
    {
        let FrameOutput { shapes, textures_delta, accesskit_update } = initial;
        match accesskit_update {
            None => Err(HarnessError::AccessKitDisabled),
            Some(update) => {
                let mut ledger: Vec<TextureDelta> = Vec::new();
                ledger.push(textures_delta);
                proof {
                    assert(ledger@ =~= seq![initial.textures_delta]);
                }
                let harness = Harness {
                    screen_width: self.screen_width,
                    screen_height: self.screen_height,
                    density: self.density,
                    batch: Vec::new(),
                    modifiers: crate::events::ModifierState::no_modifiers(),
                    last_pointer_pos: crate::events::PointerPos::origin(),
                    ledger,
                    output: FrameOutput {
                        shapes,
                        textures_delta: TextureDelta::empty(),
                        accesskit_update: None,
                    },
                };
                Ok((harness, update))
            },
        }
    }
}

impl Default for HarnessBuilder {
    /// The default window: 800 by 600 points at native density.
    fn default() -> (r: HarnessBuilder)
        ensures
            r == (HarnessBuilder {
                screen_width: 800,
                screen_height: 600,
                density: PixelDensity { num: 1, den: 1 },
            }),
            r.wf(),
    {
        HarnessBuilder { screen_width: 800, screen_height: 600, density: PixelDensity::one() }
    }
}

/// The harness state machine. It owns the pending input batch, the modifier
/// flags, the last pointer position, the texture delta ledger and the last
/// frame output, all exclusively: nothing else mutates them.
pub struct Harness {
    /// Screen size in logical points, reported with the next frame's input.
    pub screen_width: u32,
    pub screen_height: u32,
    /// Pixels per point, for input reporting and render target sizing.
    pub density: PixelDensity,
    /// Native input events queued for the next frame, in delivery order.
    pub batch: Vec<NativeEvent>,
    /// The modifier flags, updated only by modifier key events.
    pub modifiers: ModifierState,
    /// The most recent pointer position observed via a move event.
    pub last_pointer_pos: PointerPos,
    /// Texture deltas not yet consumed by a render, in frame order.
    pub ledger: Vec<TextureDelta>,
    /// The last frame's output, with its delta moved to the ledger and its
    /// accessibility update already handed to the query engine.
    pub output: FrameOutput,
}

impl Harness {
    /// A harness is well formed when its density is.
    pub open spec fn wf(self) -> bool {
        self.density.wf()
    }

    /// A builder with the default configuration.
    pub fn builder() -> (r: HarnessBuilder)
        ensures
            r == (HarnessBuilder {
                screen_width: 800,
                screen_height: 600,
                density: PixelDensity { num: 1, den: 1 },
            }),
            r.wf(),
    {
        HarnessBuilder::default()
    }

    /// Build a harness with the default configuration around the output of
    /// the application callback's first invocation; see
    /// [`HarnessBuilder::build`].
    pub fn new(initial: FrameOutput) -> (r: Result<(Harness, AccessUpdate), HarnessError>)
        ensures
            initial.accesskit_update is Some <==> r is Ok,
            r matches Ok(built) ==> {
                &&& Some(built.1) == initial.accesskit_update
                &&& built.0.wf()
                &&& built.0.screen_width == 800
                &&& built.0.screen_height == 600
                &&& built.0.density == (PixelDensity { num: 1, den: 1 })
                &&& built.0.batch@ == Seq::<NativeEvent>::empty()
                &&& built.0.modifiers == (ModifierState {
                    shift: false,
                    control: false,
                    alt: false,
                    command: false,
                })
                &&& built.0.last_pointer_pos == (PointerPos { x_bits: 0, y_bits: 0 })
                &&& built.0.ledger@ == seq![initial.textures_delta]
                &&& built.0.output.shapes == initial.shapes
                &&& built.0.output.textures_delta.is_empty()
                &&& built.0.output.accesskit_update is None
            },
            r is Err ==> r == Err::<(Harness, AccessUpdate), HarnessError>(
                HarnessError::AccessKitDisabled,
            ),
    {
        Harness::builder().build(initial)
    }

    /// Set the screen size, in logical points, for the next frame.
    pub fn set_size(&mut self, width: u32, height: u32)
        ensures
            *final(self) == (Harness {
                screen_width: width,
                screen_height: height,
                ..*old(self)
            }),
    {
        self.screen_width = width;
        self.screen_height = height;
    }

    /// Set the pixel density for the next frame and for renders.
    pub fn set_dpi(&mut self, density: PixelDensity)
        requires
            density.wf(),
        ensures
            *final(self) == (Harness { density, ..*old(self) }),
            final(self).wf(),
    {
        self.density = density;
    }

    /// The first half of a run cycle: translate the simulated actions drained
    /// from the accessibility query engine, in FIFO order, into native events
    /// appended to the pending batch, then take ownership of the whole batch,
    /// leaving it empty. The caller passes the returned batch to the
    /// application framework's execution entry point and brings the resulting
    /// output to [`Harness::finish_frame`].
    pub fn begin_frame(&mut self, sims: Vec<SimulatedEvent>) -> (batch: Vec<NativeEvent>)
        ensures
            batch@ == old(self).batch@ + translate_all(
                old(self).modifiers,
                old(self).last_pointer_pos,
                sims@,
            ).2,
            final(self).batch@ == Seq::<NativeEvent>::empty(),
            final(self).modifiers == translate_all(
                old(self).modifiers,
                old(self).last_pointer_pos,
                sims@,
            ).0,
            final(self).last_pointer_pos == translate_all(
                old(self).modifiers,
                old(self).last_pointer_pos,
                sims@,
            ).1,
            final(self).screen_width == old(self).screen_width,
            final(self).screen_height == old(self).screen_height,
            final(self).density == old(self).density,
            final(self).ledger == old(self).ledger,
            final(self).output == old(self).output,
    {
        translate_batch(&mut self.modifiers, &mut self.last_pointer_pos, sims, &mut self.batch);
        let mut batch: Vec<NativeEvent> = Vec::new();
        core::mem::swap(&mut batch, &mut self.batch);
        batch
    }

    /// The second half of a run cycle: absorb the frame output the
    /// application callback produced. Fails exactly when the output carries
    /// no accessibility update, leaving the harness untouched; on success the
    /// update is returned for the accessibility query engine — every update
    /// must reach it, in order — the output's texture delta is appended to
    /// the ledger, and the output replaces the last one.
    pub fn finish_frame(&mut self, output: FrameOutput) -> (r: Result<AccessUpdate, HarnessError>)
        ensures
            output.accesskit_update is Some <==> r is Ok,
            r matches Ok(update) ==> {
                &&& Some(update) == output.accesskit_update
                &&& final(self).ledger@ == old(self).ledger@.push(output.textures_delta)
                &&& final(self).output.shapes == output.shapes
                &&& final(self).output.textures_delta.is_empty()
                &&& final(self).output.accesskit_update is None
                &&& final(self).batch == old(self).batch
                &&& final(self).modifiers == old(self).modifiers
                &&& final(self).last_pointer_pos == old(self).last_pointer_pos
                &&& final(self).screen_width == old(self).screen_width
                &&& final(self).screen_height == old(self).screen_height
                &&& final(self).density == old(self).density
            },
            r is Err ==> *final(self) == *old(self) && r == Err::<AccessUpdate, HarnessError>(
                HarnessError::AccessKitDisabled,
            ),
    {
        let FrameOutput { shapes, textures_delta, accesskit_update } = output;
        match accesskit_update {
            None => Err(HarnessError::AccessKitDisabled),
            Some(update) => {
                self.ledger.push(textures_delta);
                self.output = FrameOutput {
                    shapes,
                    textures_delta: TextureDelta::empty(),
                    accesskit_update: None,
                };
                Ok(update)
            },
        }
    }

    /// Read-only view of the pending input batch for the next frame.
    pub fn input(&self) -> (r: &Vec<NativeEvent>)
        ensures
            r == self.batch,
    {
        &self.batch
    }

    /// Mutable view of the pending input batch, for manual event injection.
    pub fn input_mut(&mut self) -> (r: &mut Vec<NativeEvent>)
        ensures
            *r == old(self).batch,
            final(self).batch == *final(r),
            final(self).modifiers == old(self).modifiers,
            final(self).last_pointer_pos == old(self).last_pointer_pos,
            final(self).screen_width == old(self).screen_width,
            final(self).screen_height == old(self).screen_height,
            final(self).density == old(self).density,
            final(self).ledger == old(self).ledger,
            final(self).output == old(self).output,
    {
        &mut self.batch
    }

    /// Read-only view of the last frame's output.
    pub fn output(&self) -> (r: &FrameOutput)
        ensures
            r == self.output,
    {
        &self.output
    }
}

} // verus!
