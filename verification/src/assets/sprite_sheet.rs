use vstd::prelude::*;
use crate::assets::key_table::KeyTable;

verus! {

/// Location of a single sprite: 1-based (row, column) grid coordinates
/// into the sheet.
pub type SpritePos = (i32, i32);

/// Sprite locations ordered in a way that creates an animation.
pub type SpriteAnimation = Vec<SpritePos>;

/// One draw instruction for the external renderer: where on the screen to
/// draw, and which pixel-space source rectangle of the sheet's image to
/// draw there.
#[derive(Clone, Copy, Debug, PartialEq, Eq, Structural)]
pub struct DrawCommand {
    pub x: i64,
    pub y: i64,
    pub source_x: i64,
    pub source_y: i64,
    pub source_width: i64,
    pub source_height: i64,
}

/// Mathematical value of a sprite sheet: the image and grid geometry, the
/// animation table, and the draw batch collected so far this frame.
pub ghost struct SheetView {
    pub image_width: int,
    pub image_height: int,
    pub rows: int,
    pub columns: int,
    pub cell_width: int,
    pub cell_height: int,
    pub animation_sets: Map<Seq<char>, Seq<SpritePos>>,
    pub batch: Seq<DrawCommand>,
}

/// The draw instruction `enqueue_draw` appends for the given screen
/// position and grid coordinates: the source rectangle starts at
/// `((column - 1) * cell_width, (row - 1) * cell_height)` and spans one
/// cell. Out-of-range grid coordinates are not validated; the rectangle
/// is computed by the same formula and may lie outside the image, which
/// mirrors how callers hand coordinates straight from config data.
pub open spec fn draw_command(s: SheetView, x: i64, y: i64, row: i32, column: i32) -> DrawCommand {
    DrawCommand {
        x,
        y,
        source_x: ((column - 1) * s.cell_width) as i64,
        source_y: ((row - 1) * s.cell_height) as i64,
        source_width: s.cell_width as i64,
        source_height: s.cell_height as i64,
    }
}

/// An array of sprites packed into a single image, also called an atlas.
/// The image itself lives with the external renderer; the sheet carries
/// its dimensions and the grid geometry derived from them once at
/// construction.
pub struct SpriteSheet {
    image_width: u32,
    image_height: u32,
    rows: i32,
    columns: i32,
    cell_width: u32,
    cell_height: u32,
    animation_sets: KeyTable<SpriteAnimation>,
    batch: Vec<DrawCommand>,
}

impl View for SpriteSheet {
    type V = SheetView;

    closed spec fn view(&self) -> SheetView {
        SheetView {
            image_width: self.image_width as int,
            image_height: self.image_height as int,
            rows: self.rows as int,
            columns: self.columns as int,
            cell_width: self.cell_width as int,
            cell_height: self.cell_height as int,
            animation_sets: self.animation_sets@,
            batch: self.batch@,
        }
    }
}

impl SpriteSheet {
    #[verifier::type_invariant]
    spec fn geometry_ok(self) -> bool {
        &&& 1 <= self.rows
        &&& 1 <= self.columns
        &&& self.image_width <= 0x7fff_ffff
        &&& self.image_height <= 0x7fff_ffff
        &&& self.cell_width <= 0x7fff_ffff
        &&& self.cell_height <= 0x7fff_ffff
    }

    /// A sheet over an `image_width` by `image_height` pixel image, cut
    /// into a `rows` by `columns` grid; each cell is `image / grid` pixels,
    /// derived once here and never re-derived.
    pub fn new(image_width: u32, image_height: u32, rows: i32, columns: i32) -> (sheet:
        SpriteSheet)
        requires
            1 <= rows,
            1 <= columns,
            image_width <= 0x7fff_ffff,
            image_height <= 0x7fff_ffff,
        ensures
            sheet@ == (SheetView {
                image_width: image_width as int,
                image_height: image_height as int,
                rows: rows as int,
                columns: columns as int,
                cell_width: image_width as int / columns as int,
                cell_height: image_height as int / rows as int,
                animation_sets: Map::<Seq<char>, Seq<SpritePos>>::empty(),
                batch: Seq::<DrawCommand>::empty(),
            }),
    {
        let cell_width = image_width / (columns as u32);
        let cell_height = image_height / (rows as u32);
        proof {
            assert(image_width as int / columns as int <= image_width as int)
                by (nonlinear_arith)
                requires
                    1 <= columns as int,
                    0 <= image_width as int,
            ;
            assert(image_height as int / rows as int <= image_height as int)
                by (nonlinear_arith)
                requires
                    1 <= rows as int,
                    0 <= image_height as int,
            ;
        }
        SpriteSheet {
            image_width,
            image_height,
            rows,
            columns,
            cell_width,
            cell_height,
            animation_sets: KeyTable::new(),
            batch: Vec::new(),
        }
    }

    /// How many grid rows the sheet has; at least one.
    pub fn rows(&self) -> (r: i32)
        ensures
            r as int == self@.rows,
            1 <= r,
    {
        proof {
            use_type_invariant(&*self);
        }
        self.rows
    }

    /// How many grid columns the sheet has; at least one.
    pub fn columns(&self) -> (c: i32)
        ensures
            c as int == self@.columns,
            1 <= c,
    {
        proof {
            use_type_invariant(&*self);
        }
        self.columns
    }

    /// Width in pixels of a single grid cell.
    pub fn cell_width(&self) -> (w: u32)
        ensures
            w as int == self@.cell_width,
    {
        self.cell_width
    }

    /// Height in pixels of a single grid cell.
    pub fn cell_height(&self) -> (h: u32)
        ensures
            h as int == self@.cell_height,
    {
        self.cell_height
    }

    /// Adds a new sprite position sequence that represents an animation,
    /// overwriting an animation of the same name. An empty sequence is a
    /// valid, no-op animation.
    pub fn add_animation(&mut self, name: String, set: SpriteAnimation)
        ensures
            final(self)@ == (SheetView {
                animation_sets: old(self)@.animation_sets.insert(name@, set@),
                ..old(self)@
            }),
    {
        proof {
            use_type_invariant(&*self);
        }
        let mut table = KeyTable::new();
        core::mem::swap(&mut self.animation_sets, &mut table);
        let _prev = table.put(name, set);
        self.animation_sets = table;
    }

    /// The animation's sprite position sequence, or an empty sequence for
    /// an unknown name: animation lookups never fail.
    pub fn get_animation(&self, name: &String) -> (frames: SpriteAnimation)
        ensures
            frames@ == (if self@.animation_sets.contains_key(name@) {
                self@.animation_sets[name@]
            } else {
                Seq::<SpritePos>::empty()
            }),
    {
        match self.animation_sets.lookup(name) {
            Some(stored) => {
                let n = stored.len();
                let mut frames: SpriteAnimation = Vec::new();
                let mut i: usize = 0;
                while i < n
                    invariant
                        n == stored.len(),
                        i <= n,
                        frames@ == stored@.subrange(0, i as int),
                    decreases n - i,
                {
                    frames.push(stored[i]);
                    proof {
                        assert(frames@ =~= stored@.subrange(0, i + 1));
                    }
                    i = i + 1;
                }
                proof {
                    assert(frames@ =~= stored@);
                }
                frames
            },
            None => Vec::new(),
        }
    }

    /// Converts the 1-based grid coordinates to a pixel-space source
    /// rectangle and appends the draw instruction to the sheet's batch.
    pub fn enqueue_draw(&mut self, x: i64, y: i64, row: i32, column: i32)
        ensures
            final(self)@ == (SheetView {
                batch: old(self)@.batch.push(draw_command(old(self)@, x, y, row, column)),
                ..old(self)@
            }),
    {
        proof {
            use_type_invariant(&*self);
        }
        let cw = self.cell_width as i64;
        let ch = self.cell_height as i64;
        let c1 = column as i64 - 1;
        let r1 = row as i64 - 1;
        proof {
            assert(-0x8000_0000_0000_0000 <= c1 * cw <= 0x7fff_ffff_ffff_ffff)
                by (nonlinear_arith)
                requires
                    -0x8000_0001 <= c1 <= 0x7fff_fffe,
                    0 <= cw <= 0x7fff_ffff,
            ;
            assert(-0x8000_0000_0000_0000 <= r1 * ch <= 0x7fff_ffff_ffff_ffff)
                by (nonlinear_arith)
                requires
                    -0x8000_0001 <= r1 <= 0x7fff_fffe,
                    0 <= ch <= 0x7fff_ffff,
            ;
        }
        let command = DrawCommand {
            x,
            y,
            source_x: c1 * cw,
            source_y: r1 * ch,
            source_width: cw,
            source_height: ch,
        };
        let mut batch: Vec<DrawCommand> = Vec::new();
        core::mem::swap(&mut self.batch, &mut batch);
        batch.push(command);
        self.batch = batch;
    }

    /// Hands the accumulated draw instructions over for this frame and
    /// leaves the batch empty.
    pub fn flush_batch(&mut self) -> (batch: Vec<DrawCommand>)
        ensures
            batch@ == old(self)@.batch,
            final(self)@ == (SheetView { batch: Seq::<DrawCommand>::empty(), ..old(self)@ }),
    {
        proof {
            use_type_invariant(&*self);
        }
        let mut batch: Vec<DrawCommand> = Vec::new();
        core::mem::swap(&mut self.batch, &mut batch);
        batch
    }
}

} // verus!
