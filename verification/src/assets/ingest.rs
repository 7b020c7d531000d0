use vstd::prelude::*;
use crate::assets::asset_database::{AssetContainer, AssetDatabase, ContainerView};
use crate::assets::sprite_sheet::{SheetView, SpriteAnimation, SpritePos, SpriteSheet};

verus! {

/// The asset kinds a configuration record can declare in its `type`
/// field. Configuration is inherently stringly-typed; the string is
/// converted to this typed variant at the ingestion boundary and never
/// carried further.
#[derive(Clone, Copy, Debug, PartialEq, Eq, Structural)]
pub enum AssetKind {
    SpriteSheet,
}

/// The typed asset kind a record's `type` field declares, or nothing
/// for a kind this core does not support; the caller logs and skips
/// such a record.
pub fn asset_kind_for(type_field: &str) -> (kind: Option<AssetKind>)
    ensures
        kind == (if type_field@ == "sprite sheet"@ {
            Some(AssetKind::SpriteSheet)
        } else {
            Option::<AssetKind>::None
        }),
{
    if type_field.to_owned() == "sprite sheet".to_owned() {
        Some(AssetKind::SpriteSheet)
    } else {
        None
    }
}

/// The plain record a configuration loader hands over for one declared
/// sprite sheet: the loaded image's pixel dimensions, the grid, and the
/// named animations as lists of 1-based (row, column) pairs. Finding and
/// parsing configuration files, and loading the image, happen outside
/// the core; this record carries exactly what the core checks and
/// stores.
pub struct SpriteSheetConfig {
    pub asset_id: String,
    pub image_width: u32,
    pub image_height: u32,
    pub rows: i32,
    pub columns: i32,
    pub animations: Vec<(String, SpriteAnimation)>,
}

/// Mathematical value of a `SpriteSheetConfig`.
pub ghost struct ConfigView {
    pub asset_id: Seq<char>,
    pub image_width: int,
    pub image_height: int,
    pub rows: int,
    pub columns: int,
    pub animations: Seq<(Seq<char>, Seq<SpritePos>)>,
}

impl View for SpriteSheetConfig {
    type V = ConfigView;

    open spec fn view(&self) -> ConfigView {
        ConfigView {
            asset_id: self.asset_id@,
            image_width: self.image_width as int,
            image_height: self.image_height as int,
            rows: self.rows as int,
            columns: self.columns as int,
            animations: Seq::new(
                self.animations@.len(),
                |i: int| (self.animations@[i].0@, self.animations@[i].1@),
            ),
        }
    }
}

/// Whether a record's geometry can build a sheet: at least one grid row
/// and column, and image dimensions within the sheet's pixel range.
pub open spec fn config_valid(c: ConfigView) -> bool {
    &&& 1 <= c.rows
    &&& 1 <= c.columns
    &&& c.image_width <= 0x7fff_ffff
    &&& c.image_height <= 0x7fff_ffff
}

/// The animation table built from the first `n` animations of a record,
/// in order: a later animation of the same name wins.
pub open spec fn animations_map(s: Seq<(Seq<char>, Seq<SpritePos>)>, n: int) -> Map<
    Seq<char>,
    Seq<SpritePos>,
>
    decreases n,
{
    if n <= 0 {
        Map::empty()
    } else {
        animations_map(s, n - 1).insert(s[n - 1].0, s[n - 1].1)
    }
}

/// The sheet a valid record builds: cell sizes derived once from the
/// image and grid, the full animation table, and an empty draw batch.
pub open spec fn sheet_of_config(c: ConfigView) -> SheetView {
    SheetView {
        image_width: c.image_width,
        image_height: c.image_height,
        rows: c.rows,
        columns: c.columns,
        cell_width: c.image_width / c.columns,
        cell_height: c.image_height / c.rows,
        animation_sets: animations_map(c.animations, c.animations.len() as int),
        batch: Seq::empty(),
    }
}

/// Registers a loaded atlas under its identifier — unless the identifier
/// is already taken, in which case the atlas is rejected and the
/// registry untouched, to catch configuration collisions early. The
/// registry's own `add_asset` overwrites by design; ingestion adds this
/// duplicate check on top. An identifier whose stored container is the
/// `NotFound` sentinel counts as free, exactly as a lookup reports it.
pub fn register_sprite_atlas(
    asset_db: &mut AssetDatabase,
    asset_id: String,
    atlas: SpriteSheet,
) -> (registered: bool)
    ensures
        registered == (!old(asset_db)@.contains_key(asset_id@) || old(
            asset_db,
        )@[asset_id@] is NotFound),
        registered ==> final(asset_db)@ == old(asset_db)@.insert(
            asset_id@,
            ContainerView::Spritesheet(atlas@),
        ),
        !registered ==> final(asset_db)@ == old(asset_db)@,
{
    let free = match asset_db.get_asset(&asset_id) {
        AssetContainer::NotFound => true,
        _ => false,
    };
    if free {
        let _ = asset_db.add_asset(asset_id, AssetContainer::Spritesheet(atlas));
        true
    } else {
        false
    }
}

/// Builds the sheet a record describes and registers it, reporting
/// whether the asset entered the registry. A record with an unusable
/// grid or image, and a duplicate identifier, are each rejected with the
/// registry unchanged: the offending asset is simply absent thereafter,
/// and every consumer already tolerates that through the `NotFound`
/// sentinel.
pub fn ingest_sprite_sheet(asset_db: &mut AssetDatabase, config: SpriteSheetConfig) -> (loaded:
    bool)
    ensures
        loaded == (config_valid(config@) && (!old(asset_db)@.contains_key(config@.asset_id)
            || old(asset_db)@[config@.asset_id] is NotFound)),
        loaded ==> final(asset_db)@ == old(asset_db)@.insert(
            config@.asset_id,
            ContainerView::Spritesheet(sheet_of_config(config@)),
        ),
        !loaded ==> final(asset_db)@ == old(asset_db)@,
{
    let ghost cview = config@;
    let SpriteSheetConfig { asset_id, image_width, image_height, rows, columns, animations } =
        config;
    if rows < 1 || columns < 1 || image_width > 0x7fff_ffff || image_height > 0x7fff_ffff {
        return false;
    }
    let mut sheet = SpriteSheet::new(image_width, image_height, rows, columns);
    let ghost aviews = cview.animations;
    let mut remaining = animations;
    let count = remaining.len();
    let ghost total = count as int;
    proof {
        assert(total == aviews.len());
    }
    let mut done: usize = 0;
    while remaining.len() > 0
        invariant
            total <= usize::MAX,
            done + remaining@.len() == total,
            forall|j: int|
                0 <= j < remaining@.len() ==> ((#[trigger] remaining@[j]).0@, remaining@[j].1@)
                    == aviews[done + j],
            sheet@ == (SheetView {
                animation_sets: animations_map(aviews, done as int),
                ..sheet_of_config(cview)
            }),
        decreases remaining@.len(),
    {
        let pair = remaining.remove(0);
        sheet.add_animation(pair.0, pair.1);
        done = done + 1;
    }
    proof {
        assert(sheet@ == sheet_of_config(cview));
    }
    register_sprite_atlas(asset_db, asset_id, sheet)
}

} // verus!
