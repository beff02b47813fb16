//! The static layer of the board and its cache.
//!
//! Backdrop, cell grid and coordinate labels depend on the board's size and
//! orientation only. They are laid out at the first drawing request and
//! kept until the size or the orientation changes; neither the position
//! nor a gesture touches them.

use vstd::prelude::*;
use crate::chessboard::{Event, Status};
use crate::layout::{backdrop, cells, labels, spec_backdrop, spec_cells, spec_labels};
use crate::primitives::{Color, Label, Quad};

verus! {

/// What the pointer does over the static layer: nothing.
#[derive(Clone, Copy, Debug, PartialEq, Eq, Structural)]
pub enum Interaction {
    Nothing,
}

/// The shapes of the static layer, in drawing order.
pub struct StaticLayer {
    pub backdrop: Quad,
    pub cells: Vec<Quad>,
    pub labels: Vec<Label>,
}

/// A static layer as contracts see it.
pub struct StaticLayerView {
    pub backdrop: Quad,
    pub cells: Seq<Quad>,
    pub labels: Seq<Label>,
}

impl View for StaticLayer {
    type V = StaticLayerView;

    open spec fn view(&self) -> StaticLayerView {
        StaticLayerView { backdrop: self.backdrop, cells: self.cells@, labels: self.labels@ }
    }
}

/// The colours of the static layer.
#[derive(Clone, Copy, Debug, PartialEq, Eq, Structural)]
pub struct Palette {
    pub background: Color,
    pub white_cell: Color,
    pub black_cell: Color,
    pub text: Color,
}

/// The static layer of a board of `size` pixels in the given orientation.
pub open spec fn spec_static_layer(size: u16, reversed: bool, palette: Palette) -> StaticLayerView {
    StaticLayerView {
        backdrop: spec_backdrop(size as int, palette.background),
        cells: spec_cells(size as int, palette.white_cell, palette.black_cell),
        labels: spec_labels(size as int, reversed, palette.text),
    }
}

/// Lays out the static layer.
pub fn static_layer(size: u16, reversed: bool, palette: Palette) -> (layer: StaticLayer)
    ensures
        layer@ == spec_static_layer(size, reversed, palette),
{
    StaticLayer {
        backdrop: backdrop(size, palette.background),
        cells: cells(size, palette.white_cell, palette.black_cell),
        labels: labels(size, reversed, palette.text),
    }
}

/// The background of the board: its size, orientation and colours, the
/// static layer as long as it is kept, and the number of times the layer
/// has been invalidated.
///
/// The layer is laid out at the first drawing request that finds none
/// kept, and kept until the size or the orientation changes.
pub struct ChessBoardBackground {
    size: u16,
    reversed: bool,
    palette: Palette,
    cached: Option<StaticLayer>,
    invalidations: u64,
    count: Ghost<nat>,
}

/// `n` as far as 64 bits hold it.
pub open spec fn capped(n: nat) -> u64 {
    if n <= u64::MAX {
        n as u64
    } else {
        u64::MAX
    }
}

impl ChessBoardBackground {
    /// The board's size in pixels.
    pub closed spec fn spec_size(&self) -> u16 {
        self.size
    }

    /// Whether Black is drawn at the bottom.
    pub closed spec fn spec_reversed(&self) -> bool {
        self.reversed
    }

    /// The colours.
    pub closed spec fn spec_palette(&self) -> Palette {
        self.palette
    }

    /// The kept layer, if one is kept.
    pub closed spec fn cached_layer(&self) -> Option<StaticLayerView> {
        match self.cached {
            Some(layer) => Some(layer@),
            None => None,
        }
    }

    /// Number of times the size or the orientation has changed.
    pub closed spec fn spec_invalidations(&self) -> nat {
        self.count@
    }

    /// The kept layer is the layer of the present size and orientation,
    /// and the counter shows the number of changes as far as it can.
    pub closed spec fn wf(&self) -> bool {
        &&& self.cached matches Some(layer) ==> layer@ == spec_static_layer(
            self.size,
            self.reversed,
            self.palette,
        )
        &&& self.invalidations == capped(self.count@)
    }

    /// The layer that a drawing request hands out.
    pub open spec fn layer(&self) -> StaticLayerView {
        spec_static_layer(self.spec_size(), self.spec_reversed(), self.spec_palette())
    }

    /// Whether a layer is kept, so that the next drawing request lays
    /// nothing out.
    pub open spec fn is_fresh(&self) -> bool {
        self.cached_layer() is Some
    }

    /// How a drawing request takes the background from `self` to `next`: a
    /// fresh background is left exactly as it is; one without a layer gets
    /// the layer of its size and orientation and is otherwise as before.
    pub open spec fn draws_to(&self, next: &ChessBoardBackground) -> bool {
        if self.is_fresh() {
            *next == *self
        } else {
            &&& next.spec_size() == self.spec_size()
            &&& next.spec_reversed() == self.spec_reversed()
            &&& next.spec_palette() == self.spec_palette()
            &&& next.spec_invalidations() == self.spec_invalidations()
            &&& next.cached_layer() == Some(self.layer())
        }
    }

    /// How setting size and orientation to `size` and `reversed` takes the
    /// background from `self` to `next`: when both are what they were, it is
    /// left exactly as it is; when one of them changes, the kept layer is
    /// dropped and one more invalidation is counted.
    pub open spec fn changes_to(&self, next: &ChessBoardBackground, size: u16, reversed: bool) -> bool {
        if size == self.spec_size() && reversed == self.spec_reversed() {
            *next == *self
        } else {
            &&& next.spec_size() == size
            &&& next.spec_reversed() == reversed
            &&& next.spec_palette() == self.spec_palette()
            &&& next.spec_invalidations() == self.spec_invalidations() + 1
            &&& next.cached_layer() is None
        }
    }

    /// A background in the standard colours, in normal orientation, with
    /// nothing laid out yet.
    pub fn new(size: u16) -> (b: ChessBoardBackground)
        ensures
            b.wf(),
            b.spec_size() == size,
            !b.spec_reversed(),
            b.spec_palette() == (Palette {
                background: Color::spec_rgb8(0x00, 0x80, 0xFF),
                white_cell: Color::spec_rgb8(0xFF, 0xDE, 0xAD),
                black_cell: Color::spec_rgb8(0xCD, 0x85, 0x3F),
                text: Color::spec_rgb8(0xFF, 0xFF, 0x00),
            }),
            b.cached_layer() is None,
            b.spec_invalidations() == 0,
    {
        ChessBoardBackground {
            size,
            reversed: false,
            palette: Palette {
                background: Color::from_rgb8(0x00, 0x80, 0xFF),
                white_cell: Color::from_rgb8(0xFF, 0xDE, 0xAD),
                black_cell: Color::from_rgb8(0xCD, 0x85, 0x3F),
                text: Color::from_rgb8(0xFF, 0xFF, 0x00),
            },
            cached: None,
            invalidations: 0,
            count: Ghost(0),
        }
    }

    /// A background in the given colours, with nothing laid out yet.
    pub fn with_palette(size: u16, reversed: bool, palette: Palette) -> (b: ChessBoardBackground)
        ensures
            b.wf(),
            b.spec_size() == size,
            b.spec_reversed() == reversed,
            b.spec_palette() == palette,
            b.cached_layer() is None,
            b.spec_invalidations() == 0,
    {
        ChessBoardBackground {
            size,
            reversed,
            palette,
            cached: None,
            invalidations: 0,
            count: Ghost(0),
        }
    }

    /// The board's size in pixels.
    pub fn size(&self) -> (r: u16)
        ensures
            r == self.spec_size(),
    {
        self.size
    }

    /// Whether Black is drawn at the bottom.
    pub fn reversed(&self) -> (r: bool)
        ensures
            r == self.spec_reversed(),
    {
        self.reversed
    }

    /// Whether a layer is kept.
    pub fn is_cached(&self) -> (r: bool)
        ensures
            r == self.is_fresh(),
    {
        self.cached.is_some()
    }

    /// Number of times the size or the orientation has changed, as far as
    /// 64 bits hold it.
    pub fn invalidations(&self) -> (r: u64)
        requires
            self.wf(),
        ensures
            r == capped(self.spec_invalidations()),
    {
        self.invalidations
    }

    /// Drops the kept layer and counts the invalidation.
    fn invalidate(&mut self)
        requires
            old(self).wf(),
        ensures
            final(self).wf(),
            final(self).spec_size() == old(self).spec_size(),
            final(self).spec_reversed() == old(self).spec_reversed(),
            final(self).spec_palette() == old(self).spec_palette(),
            final(self).spec_invalidations() == old(self).spec_invalidations() + 1,
            final(self).cached_layer() is None,
    {
        self.cached = None;
        if self.invalidations < u64::MAX {
            self.invalidations = self.invalidations + 1;
        }
        self.count = Ghost(self.count@ + 1);
    }

    /// Changes the board's size. A size that differs from the present one
    /// invalidates the kept layer.
    pub fn set_size(&mut self, size: u16)
        requires
            old(self).wf(),
        ensures
            final(self).wf(),
            old(self).changes_to(final(self), size, old(self).spec_reversed()),
    {
        if size != self.size {
            self.invalidate();
            self.size = size;
        }
    }

    /// Changes the board's orientation. An orientation that differs from
    /// the present one invalidates the kept layer.
    pub fn set_orientation(&mut self, reversed: bool)
        requires
            old(self).wf(),
        ensures
            final(self).wf(),
            old(self).changes_to(final(self), old(self).spec_size(), reversed),
    {
        if reversed != self.reversed {
            self.invalidate();
            self.reversed = reversed;
        }
    }

    /// Takes an event: the static layer makes use of none, and the
    /// interaction stays as it is.
    pub fn update(&self, interaction: &mut Interaction, event: Event) -> (status: Status)
        ensures
            status == Status::Ignored,
            *final(interaction) == *old(interaction),
    {
        Status::Ignored
    }

    /// Serves a drawing request: hands out the static layer for the current
    /// size and orientation.
    ///
    /// The kept layer is handed out as it is. When none is kept, the layer
    /// is laid out and kept.
    pub fn draw(&mut self) -> (layer: &StaticLayer)
        requires
            old(self).wf(),
        ensures
            final(self).wf(),
            old(self).draws_to(final(self)),
            layer@ == old(self).layer(),
            final(self).cached_layer() == Some(layer@),
    {
        if self.cached.is_none() {
            self.cached = Some(static_layer(self.size, self.reversed, self.palette));
        }
        self.cached.as_ref().unwrap()
    }
}

/// Two drawing requests in a row, with size and orientation unchanged
/// between them: the second leaves the background exactly as the first
/// left it, so it hands out the very layer that the first kept.
pub proof fn lemma_second_draw_reuses(
    before: ChessBoardBackground,
    between: ChessBoardBackground,
    after: ChessBoardBackground,
)
    requires
        before.draws_to(&between),
        between.draws_to(&after),
    ensures
        after == between,
        after.cached_layer() == between.cached_layer(),
        after.spec_invalidations() == before.spec_invalidations(),
{
}

/// The counter moves only when size or orientation change: a drawing
/// request never moves it, and setting size and orientation moves it, by
/// one, exactly when one of them is not what it was.
pub proof fn lemma_counter_moves_only_on_change(
    before: ChessBoardBackground,
    after: ChessBoardBackground,
    size: u16,
    reversed: bool,
)
    ensures
        before.draws_to(&after) ==> after.spec_invalidations() == before.spec_invalidations(),
        before.changes_to(&after, size, reversed) ==> after.spec_invalidations() == (if size
            == before.spec_size() && reversed == before.spec_reversed() {
            before.spec_invalidations()
        } else {
            before.spec_invalidations() + 1
        }),
{
}

/// A change of orientation between two drawing requests: the counter is
/// one up, the second request lays the layer out anew, with the labels in
/// the places of the other orientation and the backdrop and the cells as
/// they were.
pub proof fn lemma_turn_between_draws(
    drawn: ChessBoardBackground,
    turned: ChessBoardBackground,
    redrawn: ChessBoardBackground,
)
    requires
        drawn.is_fresh(),
        drawn.cached_layer() == Some(drawn.layer()),
        drawn.changes_to(&turned, drawn.spec_size(), !drawn.spec_reversed()),
        turned.draws_to(&redrawn),
    ensures
        redrawn.spec_invalidations() == drawn.spec_invalidations() + 1,
        !turned.is_fresh(),
        redrawn.cached_layer() == Some(redrawn.layer()),
        redrawn.layer().labels == spec_labels(
            drawn.spec_size() as int,
            !drawn.spec_reversed(),
            drawn.spec_palette().text,
        ),
        redrawn.layer().cells == drawn.layer().cells,
        redrawn.layer().backdrop == drawn.layer().backdrop,
{
}

/// A change of size between two drawing requests: the counter is one up and
/// the second request lays the layer out anew for the new size.
pub proof fn lemma_resize_between_draws(
    drawn: ChessBoardBackground,
    resized: ChessBoardBackground,
    redrawn: ChessBoardBackground,
    size: u16,
)
    requires
        drawn.is_fresh(),
        size != drawn.spec_size(),
        drawn.changes_to(&resized, size, drawn.spec_reversed()),
        resized.draws_to(&redrawn),
    ensures
        redrawn.spec_invalidations() == drawn.spec_invalidations() + 1,
        !resized.is_fresh(),
        redrawn.cached_layer() == Some(
            spec_static_layer(size, drawn.spec_reversed(), drawn.spec_palette()),
        ),
{
}

} // verus!
