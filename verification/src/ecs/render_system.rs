use vstd::prelude::*;
use crate::assets::asset_database::{enqueued_map, AssetDatabase, ContainerView};
use crate::ecs::world::{RowView, World};

verus! {

/// The registry after the render system has walked the first `n`
/// entities: for each entity holding position and visual, in ascending
/// identifier order, one draw instruction was enqueued on the sheet its
/// visual references — if that reference resolves to a sprite sheet. Any
/// other resolution is skipped silently: a missing atlas renders nothing
/// for the entity and never stops the frame.
pub open spec fn render_upto(
    w: Seq<RowView>,
    assets: Map<Seq<char>, ContainerView>,
    n: int,
) -> Map<Seq<char>, ContainerView>
    decreases n,
{
    if n <= 0 {
        assets
    } else {
        let prev = render_upto(w, assets, n - 1);
        match (w[n - 1].position, w[n - 1].visual) {
            (Some(p), Some(v)) => enqueued_map(
                prev,
                v.sprite_sheet_name,
                p.map_pos.0,
                p.map_pos.1,
                v.sprite_location.0,
                v.sprite_location.1,
            ),
            _ => prev,
        }
    }
}

/// The render system: for every entity with a position and a visual it
/// resolves the visual's sheet through the asset registry and enqueues
/// one draw instruction on that sheet's batch, which the frame target
/// collects once per frame.
pub struct RenderSystem;

impl RenderSystem {
    /// One full pass over the component store. Declared access: reads
    /// positions and visuals; writes the asset registry, whose sheets
    /// collect the draw batches.
    pub fn run(&mut self, asset_database: &mut AssetDatabase, world: &World)
        ensures
            final(asset_database)@ == render_upto(world@, old(asset_database)@, world@.len() as int),
    {
        let n = world.num_entities();
        let mut e: usize = 0;
        while e < n
            invariant
                n == world@.len(),
                e <= n,
                asset_database@ == render_upto(world@, old(asset_database)@, e as int),
            decreases n - e,
        {
            let position = world.position_of(e);
            let visual = world.visual_of(e);
            match (position, visual) {
                (Some(p), Some(v)) => {
                    let _ = asset_database.enqueue_on(
                        &v.sprite_sheet_name,
                        p.map_pos.0,
                        p.map_pos.1,
                        v.sprite_location.0,
                        v.sprite_location.1,
                    );
                },
                _ => {},
            }
            e = e + 1;
        }
    }
}

} // verus!
