use vstd::prelude::*;
use crate::ecs::control_components::PlayerControlComponent;
use crate::ecs::gfx_components::{
    AnimationComponent, AnimationView, VisualComponent, VisualView,
};
use crate::ecs::position_component::PositionComponent;

verus! {

/// The attribute kinds an entity can hold.
#[derive(Clone, Copy, Debug, PartialEq, Eq, Structural)]
pub enum AttrType {
    Position,
    Visual,
    Animation,
    Controller,
}

/// A set of attribute kinds, one flag per kind; used to say which
/// attributes a query requires.
#[derive(Clone, Copy, Debug, PartialEq, Eq, Structural)]
pub struct AttrSet {
    pub position: bool,
    pub visual: bool,
    pub animation: bool,
    pub controller: bool,
}

impl AttrSet {
    /// Whether the set holds the given attribute kind.
    pub open spec fn has(self, t: AttrType) -> bool {
        match t {
            AttrType::Position => self.position,
            AttrType::Visual => self.visual,
            AttrType::Animation => self.animation,
            AttrType::Controller => self.controller,
        }
    }

    /// The empty set of attribute kinds.
    pub fn none() -> (s: AttrSet)
        ensures
            s == (AttrSet { position: false, visual: false, animation: false, controller: false }),
    {
        AttrSet { position: false, visual: false, animation: false, controller: false }
    }
}

/// One attribute value, tagged with its kind, for insertion.
pub enum Attribute {
    Position(PositionComponent),
    Visual(VisualComponent),
    Animation(AnimationComponent),
    Controller(PlayerControlComponent),
}

/// Mathematical value of one entity's attribute row.
pub ghost struct RowView {
    pub position: Option<PositionComponent>,
    pub visual: Option<VisualView>,
    pub animation: Option<AnimationView>,
    pub control: Option<PlayerControlComponent>,
}

impl RowView {
    /// Whether the row holds an attribute of the given kind.
    pub open spec fn has(self, t: AttrType) -> bool {
        match t {
            AttrType::Position => self.position is Some,
            AttrType::Visual => self.visual is Some,
            AttrType::Animation => self.animation is Some,
            AttrType::Controller => self.control is Some,
        }
    }

    /// Whether the row holds every attribute kind the set requires.
    pub open spec fn has_all(self, req: AttrSet) -> bool {
        &&& (req.position ==> self.position is Some)
        &&& (req.visual ==> self.visual is Some)
        &&& (req.animation ==> self.animation is Some)
        &&& (req.controller ==> self.control is Some)
    }

    /// A row with no attributes.
    pub open spec fn empty() -> RowView {
        RowView { position: None, visual: None, animation: None, control: None }
    }
}

/// One entity's attribute storage.
struct EntityRow {
    position: Option<PositionComponent>,
    visual: Option<VisualComponent>,
    animation: Option<AnimationComponent>,
    control: Option<PlayerControlComponent>,
}

impl View for EntityRow {
    type V = RowView;

    closed spec fn view(&self) -> RowView {
        RowView {
            position: self.position,
            visual: match self.visual {
                Some(v) => Some(v@),
                None => None,
            },
            animation: match self.animation {
                Some(a) => Some(a@),
                None => None,
            },
            control: self.control,
        }
    }
}

/// Which entities among the first `n` hold every attribute kind in `req`,
/// in ascending order of entity identifier.
pub open spec fn query_upto(w: Seq<RowView>, req: AttrSet, n: int) -> Seq<usize>
    decreases n,
{
    if n <= 0 {
        Seq::empty()
    } else {
        let prefix = query_upto(w, req, n - 1);
        if w[n - 1].has_all(req) {
            prefix.push((n - 1) as usize)
        } else {
            prefix
        }
    }
}

/// Query correctness: the entities a query lists are exactly those that
/// hold every required attribute kind — each listed entity holds them
/// all, every entity holding them all is listed, and the listing is
/// strictly ascending, so no entity repeats.
pub proof fn lemma_query_exact(w: Seq<RowView>, req: AttrSet, n: int)
    requires
        0 <= n <= w.len(),
        n <= usize::MAX,
    ensures
        forall|k: int|
            0 <= k < query_upto(w, req, n).len() ==> 0 <= #[trigger] query_upto(w, req, n)[k]
                < n && w[query_upto(w, req, n)[k] as int].has_all(req),
        forall|k1: int, k2: int|
            0 <= k1 < k2 < query_upto(w, req, n).len() ==> #[trigger] query_upto(w, req, n)[k1]
                < #[trigger] query_upto(w, req, n)[k2],
        forall|e: int|
            0 <= e < n && (#[trigger] w[e]).has_all(req) ==> exists|k: int|
                0 <= k < query_upto(w, req, n).len() && query_upto(w, req, n)[k] == e,
    decreases n,
{
    if n > 0 {
        lemma_query_exact(w, req, n - 1);
        let prefix = query_upto(w, req, n - 1);
        let full = query_upto(w, req, n);
        assert forall|e: int|
            0 <= e < n && (#[trigger] w[e]).has_all(req) implies exists|k: int|
            0 <= k < full.len() && full[k] == e by {
            if e < n - 1 {
                let k = choose|k: int| 0 <= k < prefix.len() && prefix[k] == e;
                assert(full[k] == e);
            } else {
                assert(full[full.len() - 1] == e);
            }
        }
    }
}

/// The component store together with entity creation and destruction: one
/// row of optional attributes per entity. Entity identifiers are indexes
/// into the store and are never reused while the world lives.
pub struct World {
    rows: Vec<EntityRow>,
}

impl View for World {
    type V = Seq<RowView>;

    closed spec fn view(&self) -> Seq<RowView> {
        Seq::new(self.rows@.len(), |i: int| self.rows@[i]@)
    }
}

impl World {
    pub fn new() -> (world: World)
        ensures
            world@ == Seq::<RowView>::empty(),
    {
        let world = World { rows: Vec::new() };
        proof {
            assert(world@ =~= Seq::<RowView>::empty());
        }
        world
    }

    /// How many entities were ever created in this world.
    pub fn num_entities(&self) -> (n: usize)
        ensures
            n == self@.len(),
    {
        self.rows.len()
    }

    /// Creates a fresh entity with no attributes and returns its
    /// identifier, which no other entity of this world ever had.
    pub fn create_entity(&mut self) -> (entity: usize)
        ensures
            entity as int == old(self)@.len(),
            final(self)@ == old(self)@.push(RowView::empty()),
    {
        let entity = self.rows.len();
        self.rows.push(
            EntityRow { position: None, visual: None, animation: None, control: None },
        );
        proof {
            assert(final(self)@ =~= old(self)@.push(RowView::empty()));
        }
        entity
    }

    /// Stores the attribute on the entity, replacing an attribute of the
    /// same kind. An identifier no entity has is reported, and the value
    /// dropped.
    pub fn insert(&mut self, entity: usize, attribute: Attribute) -> (stored: bool)
        ensures
            stored == ((entity as int) < old(self)@.len()),
            !stored ==> final(self)@ == old(self)@,
            stored ==> final(self)@ == old(self)@.update(
                entity as int,
                (match attribute {
                    Attribute::Position(p) => RowView {
                        position: Some(p),
                        ..old(self)@[entity as int]
                    },
                    Attribute::Visual(v) => RowView {
                        visual: Some(v@),
                        ..old(self)@[entity as int]
                    },
                    Attribute::Animation(a) => RowView {
                        animation: Some(a@),
                        ..old(self)@[entity as int]
                    },
                    Attribute::Controller(c) => RowView {
                        control: Some(c),
                        ..old(self)@[entity as int]
                    },
                }),
            ),
    {
        if entity < self.rows.len() {
            let row = &mut self.rows[entity];
            match attribute {
                Attribute::Position(p) => {
                    row.position = Some(p);
                },
                Attribute::Visual(v) => {
                    row.visual = Some(v);
                },
                Attribute::Animation(a) => {
                    row.animation = Some(a);
                },
                Attribute::Controller(c) => {
                    row.control = Some(c);
                },
            }
            proof {
                assert(final(self)@ =~= old(self)@.update(
                    entity as int,
                    final(self)@[entity as int],
                ));
            }
            true
        } else {
            false
        }
    }

    /// Removes the attribute of the given kind from the entity; reports
    /// whether the entity existed and held one.
    pub fn remove(&mut self, entity: usize, kind: AttrType) -> (removed: bool)
        ensures
            removed == ((entity as int) < old(self)@.len() && old(self)@[entity as int].has(
                kind,
            )),
            (entity as int) >= old(self)@.len() ==> final(self)@ == old(self)@,
            (entity as int) < old(self)@.len() ==> final(self)@ == old(self)@.update(
                entity as int,
                (match kind {
                    AttrType::Position => RowView {
                        position: None,
                        ..old(self)@[entity as int]
                    },
                    AttrType::Visual => RowView { visual: None, ..old(self)@[entity as int] },
                    AttrType::Animation => RowView {
                        animation: None,
                        ..old(self)@[entity as int]
                    },
                    AttrType::Controller => RowView {
                        control: None,
                        ..old(self)@[entity as int]
                    },
                }),
            ),
    {
        if entity < self.rows.len() {
            let row = &mut self.rows[entity];
            let removed: bool;
            match kind {
                AttrType::Position => {
                    removed = row.position.is_some();
                    row.position = None;
                },
                AttrType::Visual => {
                    removed = row.visual.is_some();
                    row.visual = None;
                },
                AttrType::Animation => {
                    removed = row.animation.is_some();
                    row.animation = None;
                },
                AttrType::Controller => {
                    removed = row.control.is_some();
                    row.control = None;
                },
            }
            proof {
                assert(final(self)@ =~= old(self)@.update(
                    entity as int,
                    final(self)@[entity as int],
                ));
            }
            removed
        } else {
            false
        }
    }

    /// Destroys the entity by removing all its attribute rows at once;
    /// the identifier is not reused. Reports whether the entity existed.
    pub fn delete_entity(&mut self, entity: usize) -> (existed: bool)
        ensures
            existed == ((entity as int) < old(self)@.len()),
            !existed ==> final(self)@ == old(self)@,
            existed ==> final(self)@ == old(self)@.update(entity as int, RowView::empty()),
    {
        if entity < self.rows.len() {
            self.rows[entity] = EntityRow {
                position: None,
                visual: None,
                animation: None,
                control: None,
            };
            proof {
                assert(final(self)@ =~= old(self)@.update(entity as int, RowView::empty()));
            }
            true
        } else {
            false
        }
    }

    /// The entity's position attribute, if the entity exists and holds
    /// one.
    pub fn position_of(&self, entity: usize) -> (r: Option<PositionComponent>)
        ensures
            r == (if (entity as int) < self@.len() {
                self@[entity as int].position
            } else {
                Option::<PositionComponent>::None
            }),
    {
        if entity < self.rows.len() {
            self.rows[entity].position
        } else {
            None
        }
    }

    /// The entity's controller attribute, if the entity exists and holds
    /// one.
    pub fn controller_of(&self, entity: usize) -> (r: Option<PlayerControlComponent>)
        ensures
            r == (if (entity as int) < self@.len() {
                self@[entity as int].control
            } else {
                Option::<PlayerControlComponent>::None
            }),
    {
        if entity < self.rows.len() {
            self.rows[entity].control
        } else {
            None
        }
    }

    /// A copy of the entity's visual attribute, if the entity exists and
    /// holds one.
    pub fn visual_of(&self, entity: usize) -> (r: Option<VisualComponent>)
        ensures
            (entity as int) < self@.len() && self@[entity as int].visual is Some ==> (
            r matches Some(v) && Some(v@) == self@[entity as int].visual),
            !((entity as int) < self@.len() && self@[entity as int].visual is Some) ==> r
                is None,
    {
        if entity < self.rows.len() {
            match &self.rows[entity].visual {
                Some(v) => Some(v.duplicate()),
                None => None,
            }
        } else {
            None
        }
    }

    /// A copy of the entity's animation attribute, if the entity exists
    /// and holds one.
    pub fn animation_of(&self, entity: usize) -> (r: Option<AnimationComponent>)
        ensures
            (entity as int) < self@.len() && self@[entity as int].animation is Some ==> (
            r matches Some(a) && Some(a@) == self@[entity as int].animation),
            !((entity as int) < self@.len() && self@[entity as int].animation is Some) ==> r
                is None,
    {
        if entity < self.rows.len() {
            match &self.rows[entity].animation {
                Some(a) => Some(a.duplicate()),
                None => None,
            }
        } else {
            None
        }
    }

    /// Overwrites the entity's position attribute.
    pub(crate) fn set_position(&mut self, entity: usize, p: PositionComponent)
        requires
            (entity as int) < old(self)@.len(),
        ensures
            final(self)@ == old(self)@.update(
                entity as int,
                (RowView { position: Some(p), ..old(self)@[entity as int] }),
            ),
    {
        let row = &mut self.rows[entity];
        row.position = Some(p);
        proof {
            assert(final(self)@ =~= old(self)@.update(
                entity as int,
                final(self)@[entity as int],
            ));
        }
    }

    /// Overwrites the entity's visual attribute.
    pub(crate) fn set_visual(&mut self, entity: usize, v: VisualComponent)
        requires
            (entity as int) < old(self)@.len(),
        ensures
            final(self)@ == old(self)@.update(
                entity as int,
                (RowView { visual: Some(v@), ..old(self)@[entity as int] }),
            ),
    {
        let row = &mut self.rows[entity];
        row.visual = Some(v);
        proof {
            assert(final(self)@ =~= old(self)@.update(
                entity as int,
                final(self)@[entity as int],
            ));
        }
    }

    /// Overwrites the entity's animation attribute.
    pub(crate) fn set_animation(&mut self, entity: usize, a: AnimationComponent)
        requires
            (entity as int) < old(self)@.len(),
        ensures
            final(self)@ == old(self)@.update(
                entity as int,
                (RowView { animation: Some(a@), ..old(self)@[entity as int] }),
            ),
    {
        let row = &mut self.rows[entity];
        row.animation = Some(a);
        proof {
            assert(final(self)@ =~= old(self)@.update(
                entity as int,
                final(self)@[entity as int],
            ));
        }
    }

    /// The entities holding every attribute kind in `required`, in
    /// ascending identifier order: exactly those, and none missing one.
    pub fn query(&self, required: AttrSet) -> (entities: Vec<usize>)
        ensures
            entities@ == query_upto(self@, required, self@.len() as int),
    {
        let n = self.rows.len();
        let mut entities: Vec<usize> = Vec::new();
        let mut e: usize = 0;
        while e < n
            invariant
                n == self@.len(),
                e <= n,
                entities@ == query_upto(self@, required, e as int),
            decreases n - e,
        {
            let row = &self.rows[e];
            let qualifies = (!required.position || row.position.is_some()) && (!required.visual
                || row.visual.is_some()) && (!required.animation || row.animation.is_some())
                && (!required.controller || row.control.is_some());
            if qualifies {
                entities.push(e);
            }
            e = e + 1;
        }
        entities
    }
}

} // verus!
