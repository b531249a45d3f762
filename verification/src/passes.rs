//! What the rasterizer draws for each layer: which runs of the index buffer,
//! and in which passes.

use crate::draw_list::{DrawCmd, DrawList};
use vstd::prelude::*;

verus! {

/// A run of the index buffer that one draw call reads: `count` indices from
/// position `first` on.
#[derive(Clone, Copy, Debug, PartialEq, Eq, Structural)]
pub struct IndexRun {
    pub first: usize,
    pub count: usize,
}

/// The draw calls of one layer.
#[derive(Clone, Copy, Debug, PartialEq, Eq, Structural)]
pub enum LayerPasses {
    /// A plain layer: one draw of all its triangles.
    Fill(IndexRun),
    /// A text layer: first `coverage`, the glyph triangles, accumulated into
    /// an offscreen target; then `composite`, the layer's screen quad, which
    /// brings the accumulated coverage onto the main target.
    Text { coverage: IndexRun, composite: IndexRun },
}

impl IndexRun {
    /// The position after the last index of the run.
    pub open spec fn end(self) -> int {
        self.first + self.count
    }
}

impl DrawCmd {
    /// The draw calls of this layer. A text layer's first six indices are its
    /// screen quad; the rest are glyph triangles.
    pub open spec fn passes(self) -> LayerPasses {
        if self.is_text {
            LayerPasses::Text {
                coverage: IndexRun {
                    first: (self.idx_offset + 6) as usize,
                    count: (3 * self.num_of_elems - 6) as usize,
                },
                composite: IndexRun { first: self.idx_offset, count: 6 },
            }
        } else {
            LayerPasses::Fill(
                IndexRun { first: self.idx_offset, count: (3 * self.num_of_elems) as usize },
            )
        }
    }
}

impl LayerPasses {
    /// Whether the passes read exactly the indices from `first` up to `end`,
    /// each once.
    pub open spec fn covers(self, first: int, end: int) -> bool {
        match self {
            LayerPasses::Fill(run) => run.first == first && run.end() == end,
            LayerPasses::Text { coverage, composite } => {
                &&& composite.first == first
                &&& composite.end() == coverage.first
                &&& coverage.end() == end
            },
        }
    }
}

impl DrawList {
    /// The draw calls of layer `layer`. They read the layer's indices and no
    /// others, and stay inside the index buffer.
    pub fn layer_passes(&self, layer: usize) -> (passes: LayerPasses)
        requires
            self.wf(),
            layer < self@.cmds.len(),
        ensures
            passes == self@.cmds[layer as int].passes(),
            passes.covers(self@.cmds[layer as int].idx_offset as int, self@.layer_end(layer as int)),
            self@.layer_end(layer as int) <= self@.indices.len(),
            self@.cmds[layer as int].is_text ==> self@.has_text_header(layer as int),
    {
        proof {
            assert(self@.layer_ok(layer as int));
        }
        let cmd = self.cmds[layer];
        if cmd.is_text {
            LayerPasses::Text {
                coverage: IndexRun { first: cmd.idx_offset + 6, count: (cmd.num_of_elems - 2) * 3 },
                composite: IndexRun { first: cmd.idx_offset, count: 6 },
            }
        } else {
            LayerPasses::Fill(IndexRun { first: cmd.idx_offset, count: cmd.num_of_elems * 3 })
        }
    }
}

} // verus!
