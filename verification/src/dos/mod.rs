//! The terminal: a grid of cells, and the queue of cells that wait to be placed.

pub mod char;

use vstd::prelude::*;

use vstd::arithmetic::div_mod::lemma_fundamental_div_mod_converse;

use crate::atlas::AtlasLayout;
use crate::binary::BinaryAsset;
use crate::color::Color;
use crate::dos::char::{create_bundle, CharBundle, TerminalChar, TerminalTextureAtlas};
use crate::error::DosError;
use crate::font::{DosFont, FontSheet};
use crate::math::{IVec3, Ratio, Transform, U64Vec2, UVec2, UVec3, Vec2};
use crate::mesh::MaterialMeshBundle;
use crate::state::{FontAction, FontEvent, FontStage, State};

verus! {

/// An object of the scene, by the number the scene gave it.
#[derive(Clone, Copy, Debug, PartialEq, Eq, Structural)]
pub struct Entity {
    pub bits: u64,
}

/// A cell that waits to be placed, under `parent` if it has one.
#[derive(Clone, Copy, Debug, PartialEq, Eq, Structural)]
pub struct CellRequest {
    pub parent: Option<Entity>,
    pub char: TerminalChar,
}

/// The world's `x` of the centre of a cell in column `column`, for cells `cell_width` wide.
pub open spec fn world_x(cell_width: int, column: int) -> int {
    column * cell_width + cell_width / 2
}

/// The world's `y` of the centre of a cell in row `row`, for a grid of `rows`
/// rows of cells `cell_height` high. Row 0 is the top one, and `y` grows upwards.
pub open spec fn world_y(rows: int, cell_height: int, row: int) -> int {
    rows * cell_height - row * cell_height - cell_height / 2
}

/// A terminal as a mathematical value: the grid, and the queue with the oldest cell first.
pub struct TerminalState {
    pub size: UVec2,
    pub char_size: UVec2,
    pub pending: Seq<CellRequest>,
}

impl TerminalState {
    /// The grid has cells, and the cells have pixels.
    pub open spec fn wf(self) -> bool {
        self.size.x > 0 && self.size.y > 0 && self.char_size.x > 0 && self.char_size.y > 0
    }

    /// Where the centre of cell `loc` stands in the world.
    pub open spec fn loc_to_world(self, loc: UVec3) -> IVec3 {
        IVec3 {
            x: world_x(self.char_size.x as int, loc.x as int) as i128,
            y: world_y(self.size.y as int, self.char_size.y as int, loc.y as int) as i128,
            z: loc.z as i128,
        }
    }

    /// The transform of a cell at `loc`: its centre in the world, and the
    /// cell's size as its scale in the plane.
    pub open spec fn char_transform(self, loc: UVec3, transform: Transform) -> Transform {
        Transform {
            translation: self.loc_to_world(loc),
            scale: UVec3 { x: self.char_size.x, y: self.char_size.y, z: transform.scale.z },
        }
    }

    /// The same terminal with `request` at the end of its queue.
    pub open spec fn enqueue(self, request: CellRequest) -> TerminalState {
        TerminalState { pending: self.pending.push(request), ..self }
    }

    /// The same terminal with nothing waiting.
    pub open spec fn drained(self) -> TerminalState {
        TerminalState { pending: Seq::empty(), ..self }
    }

    /// The same terminal with `requests` at the end of its queue, in their order.
    pub open spec fn enqueue_all(self, requests: Seq<CellRequest>) -> TerminalState
        decreases requests.len(),
    {
        if requests.len() == 0 {
            self
        } else {
            self.enqueue_all(requests.drop_last()).enqueue(requests.last())
        }
    }

    /// The cells that a placement cycle takes out of the queue: all of them
    /// once the atlas is there, none before.
    pub open spec fn placed(self, atlas_ready: bool) -> Seq<CellRequest> {
        if atlas_ready {
            self.pending
        } else {
            Seq::empty()
        }
    }

    /// The terminal after a placement cycle.
    pub open spec fn after_placement(self, atlas_ready: bool) -> TerminalState {
        if atlas_ready {
            self.drained()
        } else {
            self
        }
    }

    /// The cell that fills place `i` of a grid that is filled column by
    /// column: white on nothing, its glyph counted along the rows and wrapped
    /// at 255.
    pub open spec fn tile(self, i: int) -> CellRequest {
        let x = i / (self.size.y as int);
        let y = i % (self.size.y as int);
        CellRequest {
            parent: None,
            char: TerminalChar {
                code: ((y * self.size.x + x) % 255) as u8,
                loc: UVec3 { x: x as u32, y: y as u32, z: 0 },
                background: Color { r: 0, g: 0, b: 0, a: 0 },
                foreground: Color { r: 255, g: 255, b: 255, a: 255 },
            },
        }
    }

    /// One cell for every place of the grid, column by column.
    pub open spec fn tiles(self) -> Seq<CellRequest> {
        Seq::new((self.size.x * self.size.y) as nat, |i: int| self.tile(i))
    }

    /// Enqueueing is appending: the queue grows by the requests, in their order.
    pub proof fn lemma_enqueue_all(self, requests: Seq<CellRequest>)
        ensures
            self.enqueue_all(requests) == (TerminalState {
                pending: self.pending + requests,
                ..self
            }),
        decreases requests.len(),
    {
        if requests.len() == 0 {
            assert(self.pending + requests =~= self.pending);
        } else {
            self.lemma_enqueue_all(requests.drop_last());
            assert((self.pending + requests.drop_last()).push(requests.last()) =~= self.pending
                + requests);
        }
    }

    /// First in, first out: three requests put into an empty queue come out
    /// of a drain in the order they went in, and the queue is empty after it.
    pub proof fn lemma_fifo(self, a: CellRequest, b: CellRequest, c: CellRequest)
        requires
            self.pending.len() == 0,
        ensures
            self.enqueue(a).enqueue(b).enqueue(c).pending == seq![a, b, c],
            self.enqueue(a).enqueue(b).enqueue(c).drained().pending.len() == 0,
    {
        assert(self.pending =~= Seq::<CellRequest>::empty());
        assert(self.enqueue(a).enqueue(b).enqueue(c).pending =~= seq![a, b, c]);
    }

    /// First in, first out, for any queue and any requests: a drain hands
    /// out what waited before, then the new requests in their order, and
    /// leaves nothing.
    pub proof fn lemma_fifo_all(self, requests: Seq<CellRequest>)
        ensures
            self.enqueue_all(requests).pending == self.pending + requests,
            self.enqueue_all(requests).drained().pending.len() == 0,
            self.enqueue_all(requests).drained().size == self.size,
            self.enqueue_all(requests).drained().char_size == self.char_size,
    {
        self.lemma_enqueue_all(requests);
    }

    /// A request made before the atlas exists waits through every cycle
    /// without one, is placed by the first cycle with one, exactly once and
    /// with nothing else, and no later cycle places it again.
    pub proof fn lemma_deferred_placement(self, request: CellRequest)
        requires
            self.pending.len() == 0,
        ensures
            self.enqueue(request).placed(false).len() == 0,
            self.enqueue(request).after_placement(false) == self.enqueue(request),
            self.enqueue(request).after_placement(false).placed(true) == seq![request],
            self.enqueue(request).after_placement(false).after_placement(true).pending.len() == 0,
            self.enqueue(request).after_placement(false).after_placement(true).placed(true).len()
                == 0,
    {
        assert(self.pending =~= Seq::<CellRequest>::empty());
        assert(self.enqueue(request).pending =~= seq![request]);
    }

    /// The place of a cell is the centre that `world_x` and `world_y` give,
    /// with nothing lost to the width of the numbers.
    pub proof fn lemma_loc_to_world(self, loc: UVec3)
        ensures
            self.loc_to_world(loc).x == world_x(self.char_size.x as int, loc.x as int),
            self.loc_to_world(loc).y == world_y(
                self.size.y as int,
                self.char_size.y as int,
                loc.y as int,
            ),
            self.loc_to_world(loc).z == loc.z,
    {
        let width = self.char_size.x as int;
        let height = self.char_size.y as int;
        assert(0 <= loc.x * width <= 0xffff_ffff * 0xffff_ffff) by (nonlinear_arith)
            requires
                0 <= loc.x <= 0xffff_ffff,
                0 <= width <= 0xffff_ffff,
        ;
        assert(0 <= loc.y * height <= 0xffff_ffff * 0xffff_ffff) by (nonlinear_arith)
            requires
                0 <= loc.y <= 0xffff_ffff,
                0 <= height <= 0xffff_ffff,
        ;
        assert(0 <= self.size.y * height <= 0xffff_ffff * 0xffff_ffff) by (nonlinear_arith)
            requires
                0 <= self.size.y <= 0xffff_ffff,
                0 <= height <= 0xffff_ffff,
        ;
    }

    /// Cells `factor.x` times as wide and `factor.y` times as high put every
    /// cell that many times as far from the origin, and leave its layer. With
    /// cells of an odd side the half pixel that the centre drops is not
    /// scaled, so the law holds for even sides, and for factors 0 and 1.
    pub proof fn lemma_loc_to_world_scales(self, scaled: TerminalState, factor: UVec2, loc: UVec3)
        requires
            scaled.size == self.size,
            scaled.char_size.x == factor.x * self.char_size.x,
            scaled.char_size.y == factor.y * self.char_size.y,
            self.char_size.x % 2 == 0 || factor.x <= 1,
            self.char_size.y % 2 == 0 || factor.y <= 1,
        ensures
            scaled.loc_to_world(loc).x == factor.x * self.loc_to_world(loc).x,
            scaled.loc_to_world(loc).y == factor.y * self.loc_to_world(loc).y,
            scaled.loc_to_world(loc).z == self.loc_to_world(loc).z,
    {
        self.lemma_loc_to_world(loc);
        scaled.lemma_loc_to_world(loc);
        lemma_world_x_scales(self.char_size.x as int, factor.x as int, loc.x as int);
        lemma_world_y_scales(
            self.size.y as int,
            self.char_size.y as int,
            factor.y as int,
            loc.y as int,
        );
    }

    /// The place of a cell depends on the grid, the cell's size and the
    /// cell's location, and on nothing else: not on what waits in the queue.
    pub proof fn lemma_loc_to_world_pure(self, other: TerminalState, loc: UVec3)
        requires
            self.size == other.size,
            self.char_size == other.char_size,
        ensures
            self.loc_to_world(loc) == other.loc_to_world(loc),
    {
    }
}

/// Cells `factor` times as wide stand `factor` times as far to the right. With
/// cells of odd width the half pixel that the centre drops is not scaled, so
/// the law is stated for even widths, and for factors 0 and 1.
pub proof fn lemma_world_x_scales(cell_width: int, factor: int, column: int)
    requires
        cell_width >= 0,
        factor >= 0,
        cell_width % 2 == 0 || factor <= 1,
    ensures
        world_x(factor * cell_width, column) == factor * world_x(cell_width, column),
{
    if factor == 0 {
        assert(factor * cell_width == 0) by (nonlinear_arith)
            requires
                factor == 0,
        ;
        assert(factor * world_x(cell_width, column) == 0) by (nonlinear_arith)
            requires
                factor == 0,
        ;
        assert(column * 0 == 0) by (nonlinear_arith);
    } else if factor == 1 {
        assert(factor * cell_width == cell_width) by (nonlinear_arith)
            requires
                factor == 1,
        ;
        assert(factor * world_x(cell_width, column) == world_x(cell_width, column))
            by (nonlinear_arith)
            requires
                factor == 1,
        ;
    } else {
        let half = cell_width / 2;
        assert(cell_width == 2 * half);
        assert(factor * cell_width == 2 * (factor * half)) by (nonlinear_arith)
            requires
                cell_width == 2 * half,
        ;
        assert((factor * cell_width) / 2 == factor * half);
        assert(column * (factor * cell_width) + factor * half == factor * (column * cell_width
            + half)) by (nonlinear_arith);
    }
}

/// Cells `factor` times as high stand `factor` times as far up, under the
/// same condition as for the width.
pub proof fn lemma_world_y_scales(rows: int, cell_height: int, factor: int, row: int)
    requires
        cell_height >= 0,
        factor >= 0,
        cell_height % 2 == 0 || factor <= 1,
    ensures
        world_y(rows, factor * cell_height, row) == factor * world_y(rows, cell_height, row),
{
    if factor == 0 {
        assert(factor * cell_height == 0) by (nonlinear_arith)
            requires
                factor == 0,
        ;
        assert(factor * world_y(rows, cell_height, row) == 0) by (nonlinear_arith)
            requires
                factor == 0,
        ;
        assert(rows * 0 == 0 && row * 0 == 0) by (nonlinear_arith);
    } else if factor == 1 {
        assert(factor * cell_height == cell_height) by (nonlinear_arith)
            requires
                factor == 1,
        ;
        assert(factor * world_y(rows, cell_height, row) == world_y(rows, cell_height, row))
            by (nonlinear_arith)
            requires
                factor == 1,
        ;
    } else {
        let half = cell_height / 2;
        assert(cell_height == 2 * half);
        assert(factor * cell_height == 2 * (factor * half)) by (nonlinear_arith)
            requires
                cell_height == 2 * half,
        ;
        assert((factor * cell_height) / 2 == factor * half);
        assert(rows * (factor * cell_height) - row * (factor * cell_height) - factor * half
            == factor * (rows * cell_height - row * cell_height - half)) by (nonlinear_arith);
    }
}

/// What a placement cycle decided for one request.
#[derive(Debug, PartialEq, Eq)]
pub enum Placement {
    /// The cell is to be spawned, under `parent` if it has one.
    Spawn { parent: Option<Entity>, bundle: CharBundle },
    /// The cell is left out, and the cycle goes on.
    Skip { char: TerminalChar, error: DosError },
}

impl Placement {
    /// The decision is the one that `request` calls for: the cell drawn from
    /// the atlas, at its place in the grid of `terminal` and under the parent
    /// asked for, or, where the atlas lacks the glyph, the cell left out for
    /// that reason.
    pub open spec fn answers(
        self,
        request: CellRequest,
        atlas: AtlasLayout,
        terminal: TerminalState,
    ) -> bool {
        if atlas.has_tile(request.char.code as int) {
            &&& self matches Placement::Spawn { parent, bundle }
            &&& parent == request.parent
            &&& bundle.draws_at(
                request.char,
                atlas,
                terminal.char_transform(request.char.loc, Transform::identity()),
            )
        } else {
            self == (Placement::Skip { char: request.char, error: DosError::UnknownGlyphCode })
        }
    }
}

/// A grid of `size` cells, each `char_size` pixels, and the cells that wait to be placed.
pub struct Terminal {
    size: UVec2,
    char_size: UVec2,
    char_queue: Vec<CellRequest>,
}

impl View for Terminal {
    type V = TerminalState;

    closed spec fn view(&self) -> TerminalState {
        TerminalState { size: self.size, char_size: self.char_size, pending: self.char_queue@ }
    }
}

impl Terminal {
    #[verifier::type_invariant]
    spec fn inv(self) -> bool {
        self@.wf()
    }

    /// The terminal that `default` makes.
    pub open spec fn default_state() -> TerminalState {
        TerminalState {
            size: UVec2 { x: 40, y: 25 },
            char_size: UVec2 { x: 8, y: 8 },
            pending: Seq::empty(),
        }
    }

    /// A terminal with nothing waiting, or nothing where a side of the grid
    /// or of a cell is zero.
    pub fn new(size: UVec2, char_size: UVec2) -> (made: Option<Terminal>)
        ensures
            made is Some <==> size.x > 0 && size.y > 0 && char_size.x > 0 && char_size.y > 0,
            made matches Some(terminal) ==> terminal@ == (TerminalState {
                size,
                char_size,
                pending: Seq::empty(),
            }),
    {
        if size.x > 0 && size.y > 0 && char_size.x > 0 && char_size.y > 0 {
            Some(Terminal { size, char_size, char_queue: Vec::new() })
        } else {
            None
        }
    }

    /// The grid's size in cells.
    pub fn size(&self) -> (size: UVec2)
        ensures
            self@.wf(),
            size == self@.size,
    {
        proof {
            use_type_invariant(self);
        }
        self.size
    }

    /// A cell's size in pixels.
    pub fn char_size(&self) -> (char_size: UVec2)
        ensures
            self@.wf(),
            char_size == self@.char_size,
    {
        proof {
            use_type_invariant(self);
        }
        self.char_size
    }

    /// The size of the whole grid in pixels.
    pub fn base_resolution(&self) -> (resolution: U64Vec2)
        ensures
            resolution.x == self@.size.x * self@.char_size.x,
            resolution.y == self@.size.y * self@.char_size.y,
    {
        assert(self.size.x * self.char_size.x <= 0xffff_ffff * 0xffff_ffff) by (nonlinear_arith)
            requires
                self.size.x <= 0xffff_ffff,
                self.char_size.x <= 0xffff_ffff,
        ;
        assert(self.size.y * self.char_size.y <= 0xffff_ffff * 0xffff_ffff) by (nonlinear_arith)
            requires
                self.size.y <= 0xffff_ffff,
                self.char_size.y <= 0xffff_ffff,
        ;
        U64Vec2 {
            x: self.size.x as u64 * self.char_size.x as u64,
            y: self.size.y as u64 * self.char_size.y as u64,
        }
    }

    /// The middle of the grid: half the resolution, kept exact.
    pub fn camera_translation(&self) -> (centre: Vec2)
        ensures
            centre.x == (Ratio { num: (self@.size.x * self@.char_size.x) as u64, den: 2 }),
            centre.y == (Ratio { num: (self@.size.y * self@.char_size.y) as u64, den: 2 }),
            centre.x.equals(self@.size.x * self@.char_size.x, 2),
            centre.y.equals(self@.size.y * self@.char_size.y, 2),
    {
        let resolution = self.base_resolution();
        Vec2 { x: Ratio { num: resolution.x, den: 2 }, y: Ratio { num: resolution.y, den: 2 } }
    }

    /// Where the centre of cell `loc` stands in the world. Row 0 is the top
    /// row and the world's `y` grows upwards, so a row below the grid lands
    /// below zero; `z` is the cell's layer, unscaled.
    pub fn loc_to_world(&self, loc: UVec3) -> (position: IVec3)
        ensures
            position == self@.loc_to_world(loc),
            position.x == world_x(self@.char_size.x as int, loc.x as int),
            position.y == world_y(self@.size.y as int, self@.char_size.y as int, loc.y as int),
            position.z == loc.z,
    {
        let resolution = self.base_resolution();
        assert(0 <= loc.x * self.char_size.x <= 0xffff_ffff * 0xffff_ffff) by (nonlinear_arith)
            requires
                0 <= loc.x <= 0xffff_ffff,
                0 <= self.char_size.x <= 0xffff_ffff,
        ;
        assert(0 <= loc.y * self.char_size.y <= 0xffff_ffff * 0xffff_ffff) by (nonlinear_arith)
            requires
                0 <= loc.y <= 0xffff_ffff,
                0 <= self.char_size.y <= 0xffff_ffff,
        ;
        assert(0 <= self.size.y * self.char_size.y <= 0xffff_ffff * 0xffff_ffff)
            by (nonlinear_arith)
            requires
                0 <= self.size.y <= 0xffff_ffff,
                0 <= self.char_size.y <= 0xffff_ffff,
        ;
        let x: i128 = loc.x as i128 * self.char_size.x as i128 + (self.char_size.x / 2) as i128;
        let y: i128 = resolution.y as i128 - loc.y as i128 * self.char_size.y as i128 - (
        self.char_size.y / 2) as i128;
        IVec3 { x, y, z: loc.z as i128 }
    }

    /// The transform of a cell at `char.loc`, whatever it was before; only
    /// the scale along `z` is kept.
    pub fn char_transform(&self, char: &TerminalChar, transform: Transform) -> (placed: Transform)
        ensures
            placed == self@.char_transform(char.loc, transform),
    {
        Transform {
            translation: self.loc_to_world(char.loc),
            scale: UVec3 { x: self.char_size.x, y: self.char_size.y, z: transform.scale.z },
        }
    }

    /// Puts a cell at the end of the queue. Its location is not held against
    /// the grid: a cell outside it is placed outside the visible area.
    pub fn add_char(&mut self, char: TerminalChar, parent: Option<Entity>)
        ensures
            final(self)@ == old(self)@.enqueue(CellRequest { parent, char }),
    {
        let mut queue = self.take_queue();
        queue.push(CellRequest { parent, char });
        self.put_queue(queue);
    }

    /// Moves the queue out and leaves an empty one.
    fn take_queue(&mut self) -> (queue: Vec<CellRequest>)
        ensures
            queue@ == old(self)@.pending,
            final(self)@ == old(self)@.drained(),
    {
        proof {
            use_type_invariant(&*self);
        }
        let mut taken = Terminal {
            size: self.size,
            char_size: self.char_size,
            char_queue: Vec::new(),
        };
        std::mem::swap(self, &mut taken);
        let Terminal { size: _, char_size: _, char_queue } = taken;
        char_queue
    }

    /// Puts `queue` in the place of the queue.
    fn put_queue(&mut self, queue: Vec<CellRequest>)
        ensures
            final(self)@ == (TerminalState { pending: queue@, ..old(self)@ }),
    {
        proof {
            use_type_invariant(&*self);
        }
        *self = Terminal { size: self.size, char_size: self.char_size, char_queue: queue };
    }

    /// Gives the grid new sides, or leaves it as it is where one of them is
    /// zero. What waits in the queue stays there.
    pub fn resize(&mut self, size: UVec2, char_size: UVec2) -> (resized: bool)
        ensures
            resized <==> size.x > 0 && size.y > 0 && char_size.x > 0 && char_size.y > 0,
            resized ==> final(self)@ == (TerminalState { size, char_size, ..old(self)@ }),
            !resized ==> final(self)@ == old(self)@,
    {
        if size.x > 0 && size.y > 0 && char_size.x > 0 && char_size.y > 0 {
            let queue = self.take_queue();
            *self = Terminal { size, char_size, char_queue: queue };
            true
        } else {
            false
        }
    }

    /// The number of cells that wait.
    pub fn pending_len(&self) -> (len: usize)
        ensures
            len == self@.pending.len(),
    {
        self.char_queue.len()
    }

    /// Takes every waiting cell out of the queue, the oldest first.
    pub fn drain_pending(&mut self) -> (drained: Vec<CellRequest>)
        ensures
            drained@ == old(self)@.pending,
            final(self)@ == old(self)@.drained(),
    {
        self.take_queue()
    }
}

impl Default for Terminal {
    /// Forty columns by twenty-five rows of eight-by-eight cells, nothing waiting.
    fn default() -> (terminal: Terminal)
        ensures
            terminal@ == Terminal::default_state(),
    {
        Terminal {
            size: UVec2 { x: 40, y: 25 },
            char_size: UVec2 { x: 8, y: 8 },
            char_queue: Vec::new(),
        }
    }
}

/// Decides one request against the atlas, and gives the cell its place in the grid.
pub fn place_char(request: CellRequest, atlas: &TerminalTextureAtlas, term: &Terminal) -> (placement:
    Placement)
    ensures
        atlas.0@.wf(),
        placement.answers(request, atlas.0@, term@),
{
    match create_bundle(request.char, &atlas.0) {
        Ok(bundle) => {
            let transform = term.char_transform(&request.char, bundle.mesh.transform);
            let mesh = MaterialMeshBundle {
                mesh: bundle.mesh.mesh,
                material: bundle.mesh.material,
                transform,
            };
            Placement::Spawn { parent: request.parent, bundle: CharBundle { char: bundle.char, mesh } }
        },
        Err(error) => Placement::Skip { char: request.char, error },
    }
}

/// One placement cycle. Without an atlas nothing is taken from the queue and
/// the cycle is put off. With one, every waiting cell is taken out and
/// decided, the oldest first: it is drawn from the atlas at its place in the
/// grid, or, where the atlas lacks its glyph, left out without stopping the
/// others.
pub fn system_spawn_chars(atlas: Option<&TerminalTextureAtlas>, term: &mut Terminal) -> (placed: Result<
    Vec<Placement>,
    DosError,
>)
    ensures
        final(term)@ == old(term)@.after_placement(atlas is Some),
        atlas is None ==> placed == Err::<Vec<Placement>, DosError>(DosError::AtlasNotReady),
        atlas matches Some(ready) ==> {
            &&& placed matches Ok(placements)
            &&& placements@.len() == old(term)@.placed(true).len()
            &&& forall|i: int|
                0 <= i < placements@.len() ==> (#[trigger] placements@[i]).answers(
                    old(term)@.placed(true)[i],
                    ready.0@,
                    old(term)@,
                )
        },
{
    match atlas {
        None => Err(DosError::AtlasNotReady),
        Some(ready) => {
            let requests = term.drain_pending();
            let mut placements: Vec<Placement> = Vec::new();
            let mut i: usize = 0;
            while i < requests.len()
                invariant
                    i <= requests@.len(),
                    placements@.len() == i,
                    term@.size == old(term)@.size,
                    term@.char_size == old(term)@.char_size,
                    forall|j: int|
                        0 <= j < i ==> (#[trigger] placements@[j]).answers(
                            requests@[j],
                            ready.0@,
                            old(term)@,
                        ),
                decreases requests@.len() - i,
            {
                let placement = place_char(requests[i], ready, term);
                placements.push(placement);
                i += 1;
            }
            Ok(placements)
        },
    }
}

/// The transforms of the placed cells, each set anew from its cell's
/// location and the terminal's grid.
pub fn system_update_chars(term: &Terminal, chars: &Vec<(TerminalChar, Transform)>) -> (updated: Vec<
    Transform,
>)
    ensures
        updated@.len() == chars@.len(),
        forall|i: int|
            0 <= i < chars@.len() ==> #[trigger] updated@[i] == term@.char_transform(
                chars@[i].0.loc,
                chars@[i].1,
            ),
{
    let mut updated: Vec<Transform> = Vec::new();
    let mut i: usize = 0;
    while i < chars.len()
        invariant
            i <= chars@.len(),
            updated@.len() == i,
            forall|j: int|
                0 <= j < i ==> #[trigger] updated@[j] == term@.char_transform(
                    chars@[j].0.loc,
                    chars@[j].1,
                ),
        decreases chars@.len() - i,
    {
        let transform = term.char_transform(&chars[i].0, chars[i].1);
        updated.push(transform);
        i += 1;
    }
    updated
}

/// Asks for the font file, once: the name to load where nothing was asked
/// for yet, and nothing afterwards.
pub fn startup_load_fonts(state: &mut State) -> (file: Option<&'static str>)
    ensures
        final(state).tiles_added == old(state).tiles_added,
        final(state).font == old(state).font.next(FontEvent::Startup).0,
        file is Some <==> old(state).font == FontStage::Unloaded,
        file matches Some(name) ==> name@ == "CP437.F08"@,
{
    match state.handle(FontEvent::Startup) {
        FontAction::Load => Some("CP437.F08"),
        _ => None,
    }
}

/// The stage that the font is in after a cycle that found the bytes
/// `loaded` or not, and whose decoding, where it came to it, went `ok`.
pub open spec fn font_stage_after_build(stage: FontStage, loaded: bool, ok: bool) -> FontStage {
    let polled = stage.next(FontEvent::Polled { loaded }).0;
    if polled == FontStage::Decoding && loaded {
        polled.next(FontEvent::Decoded { ok }).0
    } else {
        polled
    }
}

/// One cycle of building the atlas. While the file is awaited the loader is
/// polled; once the bytes are here they are decoded as an eight-by-eight code
/// page and cut into the atlas, and the atlas or the failure is handed back. A
/// font that is ready or has failed is left alone.
pub fn system_build_fonts(state: &mut State, font_asset: Option<&BinaryAsset>) -> (built: Option<
    Result<TerminalTextureAtlas, DosError>,
>)
    ensures
        final(state).tiles_added == old(state).tiles_added,
        built is Some <==> font_asset is Some && old(state).font.spec_awaits_bytes(),
        font_asset matches Some(asset) ==> {
            let sheet = FontSheet::eight_bit(asset@);
            &&& final(state).font == font_stage_after_build(
                old(state).font,
                true,
                sheet.is_complete(),
            )
            &&& built matches Some(Ok(atlas)) ==> {
                &&& sheet.is_complete()
                &&& atlas.0@.wf()
                &&& atlas.0@.texture == sheet.decoded()
                &&& atlas.0@.tile_size == (UVec2 { x: 8, y: 8 })
                &&& atlas.0@.columns == 16
                &&& atlas.0@.rows == 16
            }
            &&& built matches Some(Err(error)) ==> !sheet.is_complete() && error
                == DosError::MalformedFont
        },
        font_asset is None ==> final(state).font == font_stage_after_build(
            old(state).font,
            false,
            false,
        ),
{
    match font_asset {
        None => {
            state.handle(FontEvent::Polled { loaded: false });
            None
        },
        Some(asset) => {
            state.handle(FontEvent::Polled { loaded: true });
            match state.font {
                FontStage::Decoding => {
                    let font = DosFont::new_8bit(BinaryAsset::from_bytes(asset.data.as_slice()));
                    match font.build_texture_atlas() {
                        Ok(atlas) => {
                            state.handle(FontEvent::Decoded { ok: true });
                            Some(Ok(TerminalTextureAtlas(atlas)))
                        },
                        Err(error) => {
                            state.handle(FontEvent::Decoded { ok: false });
                            Some(Err(error))
                        },
                    }
                },
                _ => None,
            }
        },
    }
}

/// Fills the grid, once: a cell for every place, column by column, white on
/// nothing, and the middle of the grid for the camera. Where the grid was
/// filled before, nothing is done.
pub fn system_build_tiles(term: &mut Terminal, state: &mut State) -> (camera: Option<Vec2>)
    ensures
        final(state).font == old(state).font,
        final(state).tiles_added,
        camera is Some <==> !old(state).tiles_added,
        old(state).tiles_added ==> final(term)@ == old(term)@,
        !old(state).tiles_added ==> final(term)@ == (TerminalState {
            pending: old(term)@.pending + old(term)@.tiles(),
            ..old(term)@
        }),
        camera matches Some(centre) ==> {
            &&& centre.x == (Ratio {
                num: (old(term)@.size.x * old(term)@.char_size.x) as u64,
                den: 2,
            })
            &&& centre.y == (Ratio {
                num: (old(term)@.size.y * old(term)@.char_size.y) as u64,
                den: 2,
            })
        },
{
    if state.tiles_added {
        return None;
    }
    let centre = term.camera_translation();
    let size = term.size();
    let ghost start = term@;
    let mut x: u32 = 0;
    while x < size.x
        invariant
            x <= size.x,
            size == start.size,
            term@.size == start.size,
            term@.char_size == start.char_size,
            term@.pending == start.pending + start.tiles().take(x * size.y),
        decreases size.x - x,
    {
        let mut y: u32 = 0;
        while y < size.y
            invariant
                x < size.x,
                y <= size.y,
                size == start.size,
                term@.size == start.size,
                term@.char_size == start.char_size,
                term@.pending == start.pending + start.tiles().take(x * size.y + y),
            decreases size.y - y,
        {
            assert(0 <= y * size.x <= 0xffff_ffff * 0xffff_ffff) by (nonlinear_arith)
                requires
                    0 <= y <= 0xffff_ffff,
                    0 <= size.x <= 0xffff_ffff,
            ;
            let code: u8 = ((y as u64 * size.x as u64 + x as u64) % 255) as u8;
            let char = TerminalChar {
                code,
                loc: UVec3 { x, y, z: 0 },
                background: Color::none(),
                foreground: Color::white(),
            };
            proof {
                let place = x * size.y + y;
                assert(0 <= place < size.x * size.y) by (nonlinear_arith)
                    requires
                        0 <= x < size.x,
                        0 <= y < size.y,
                        place == x * size.y + y,
                ;
                lemma_fundamental_div_mod_converse(place, size.y as int, x as int, y as int);
                assert(start.tile(place) == (CellRequest { parent: None, char }));
                assert(start.tiles().take(place + 1) =~= start.tiles().take(place).push(
                    start.tiles()[place],
                ));
                assert((start.pending + start.tiles().take(place)).push(start.tiles()[place])
                    =~= start.pending + start.tiles().take(place + 1));
            }
            term.add_char(char, None);
            y += 1;
        }
        proof {
            assert(x * size.y + size.y == (x + 1) * size.y) by (nonlinear_arith);
        }
        x += 1;
    }
    proof {
        assert(start.tiles().take(size.x * size.y) =~= start.tiles());
    }
    state.tiles_added = true;
    Some(centre)
}

} // verus!
