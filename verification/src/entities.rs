use crate::coords::as_coordinate;
use crate::coords::cell_flipped;
use crate::coords::flip_cell;
use crate::coords::IVec2;
use crate::document::EntityInstance;
use crate::document::Float64;
use crate::error::gathered;
use crate::error::lemma_gathered_all;
use crate::error::lemma_gathered_fails_at;
use crate::error::lemma_gathered_next;
use crate::error::lemma_gathered_none;
use crate::error::lemma_views_none;
use crate::error::lemma_views_push;
use crate::error::viewed;
use crate::error::views;
use crate::error::LdtkError;
use crate::error::LdtkErrorView;
use crate::error::LdtkResult;
use crate::fields::DeserializeLdtkFields;
use crate::fields::Fields;
use crate::fields::FieldsView;
use crate::fields::fields_of;
use crate::fields::OwnerKind;
use crate::lookup::find_keyed;
use crate::lookup::keys_of;
use crate::lookup::position_of;
use crate::schema::EntitySchema;
use crate::schema::EntitySchemaView;
use crate::schema::EnumSchema;
use crate::schema::EnumSchemaView;
use vstd::prelude::*;

verus! {

/// An entity of a level. Positions are measured from the bottom left, upward.
#[derive(Debug, PartialEq, Eq)]
pub struct Entity {
    /// The identifier of the entity kind.
    pub identifier: String,
    pub dimensions_px: IVec2,
    pub position_cell: IVec2,
    pub position_px: IVec2,
    /// The horizontal pivot, a fraction of the width.
    pub pivot_x: Float64,
    /// The vertical pivot as the document holds it: a fraction of the
    /// height, measured from the top.
    pub pivot_y: Float64,
    pub fields: Fields,
}

/// [`Entity`] as a mathematical value: texts as sequences of characters,
/// vectors as sequences.
pub struct EntityView {
    pub identifier: Seq<char>,
    pub dimensions_px: IVec2,
    pub position_cell: IVec2,
    pub position_px: IVec2,
    pub pivot_x: Float64,
    pub pivot_y: Float64,
    pub fields: FieldsView,
}

impl View for Entity {
    type V = EntityView;

    open spec fn view(&self) -> EntityView {
        EntityView {
            identifier: self.identifier@,
            dimensions_px: self.dimensions_px,
            position_cell: self.position_cell,
            position_px: self.position_px,
            pivot_x: self.pivot_x,
            pivot_y: self.pivot_y,
            fields: self.fields@,
        }
    }
}

/// The entity that an instance of the kind `schema` stands for, in a layer of
/// `parent_size_grid` cells and `parent_size_px` pixels: the row and the
/// vertical pixel position are counted from the bottom. The error is that of a
/// position that is no coordinate, else that of the first field that cannot
/// be had.
pub open spec fn entity_of(
    entity: EntityInstance,
    schema: EntitySchemaView,
    enums: Seq<EnumSchemaView>,
    parent_size_grid: IVec2,
    parent_size_px: IVec2,
) -> Result<EntityView, LdtkErrorView> {
    match (
        as_coordinate(cell_flipped(entity.grid.y as int, parent_size_grid.y as int)),
        as_coordinate(cell_flipped(entity.px.y as int, parent_size_px.y as int)),
    ) {
        (Some(cell_y), Some(px_y)) => match fields_of(
            schema.fields,
            entity.field_instances@,
            enums,
            OwnerKind::Entity,
            entity.identifier@,
        ) {
            Ok(members) => Ok(
                EntityView {
                    identifier: entity.identifier@,
                    dimensions_px: IVec2 { x: entity.width, y: entity.height },
                    position_cell: IVec2 { x: entity.grid.x, y: cell_y },
                    position_px: IVec2 { x: entity.px.x, y: px_y },
                    pivot_x: entity.pivot_x,
                    pivot_y: entity.pivot_y,
                    fields: FieldsView { members },
                },
            ),
            Err(error) => Err(error),
        },
        _ => Err(LdtkErrorView::CoordinateOutOfRange),
    }
}

impl Entity {
    /// Decodes an entity instance of the kind `schema`.
    pub fn load(
        entity: &EntityInstance,
        schema: &EntitySchema,
        enums: &[EnumSchema],
        parent_size_grid: IVec2,
        parent_size_px: IVec2,
    ) -> (loaded: LdtkResult<Entity>)
        ensures
            viewed(loaded) == entity_of(
                *entity,
                schema@,
                views(enums@),
                parent_size_grid,
                parent_size_px,
            ),
    {
        let cell_y = match flip_cell(entity.grid.y, parent_size_grid.y) {
            Some(y) => y,
            None => {
                return Err(LdtkError::CoordinateOutOfRange);
            },
        };
        let px_y = match flip_cell(entity.px.y, parent_size_px.y) {
            Some(y) => y,
            None => {
                return Err(LdtkError::CoordinateOutOfRange);
            },
        };
        match Fields::deserialize_ldtk(
            entity.field_instances.as_slice(),
            schema.fields.as_slice(),
            enums,
            OwnerKind::Entity,
            entity.identifier.as_str(),
        ) {
            Ok(fields) => Ok(
                Entity {
                    identifier: entity.identifier.clone(),
                    dimensions_px: IVec2 { x: entity.width, y: entity.height },
                    position_cell: IVec2 { x: entity.grid.x, y: cell_y },
                    position_px: IVec2 { x: entity.px.x, y: px_y },
                    pivot_x: entity.pivot_x,
                    pivot_y: entity.pivot_y,
                    fields,
                },
            ),
            Err(error) => Err(error),
        }
    }
}

/// The entities of one kind in a layer.
#[derive(Debug, PartialEq, Eq)]
pub struct EntityGroup {
    /// The member name of the group: `all_` and the identifier of the kind
    /// in lower snake case.
    pub name: String,
    pub entities: Vec<Entity>,
}

/// [`EntityGroup`] as a mathematical value: texts as sequences of characters,
/// vectors as sequences.
pub struct EntityGroupView {
    pub name: Seq<char>,
    pub entities: Seq<EntityView>,
}

impl View for EntityGroup {
    type V = EntityGroupView;

    open spec fn view(&self) -> EntityGroupView {
        EntityGroupView { name: self.name@, entities: views(self.entities@) }
    }
}

/// The entities of a layer: one group for each compiled entity kind, in the
/// order of the kinds.
#[derive(Debug, PartialEq, Eq)]
pub struct ProjectEntities {
    pub groups: Vec<EntityGroup>,
}

/// [`ProjectEntities`] as a mathematical value: texts as sequences of characters,
/// vectors as sequences.
pub struct ProjectEntitiesView {
    pub groups: Seq<EntityGroupView>,
}

impl View for ProjectEntities {
    type V = ProjectEntitiesView;

    open spec fn view(&self) -> ProjectEntitiesView {
        ProjectEntitiesView { groups: views(self.groups@) }
    }
}

/// The identifiers by which entity kinds are found.
pub open spec fn entity_identifiers(kinds: Seq<EntitySchemaView>) -> Seq<Seq<char>> {
    Seq::new(kinds.len(), |i: int| kinds[i].identifier)
}

/// An entity instance decoded, with the position of its kind among `kinds`:
/// the first kind of the instance's identifier. Without such a kind the
/// error names the identifier.
pub open spec fn sorted_entity_of(
    entity: EntityInstance,
    kinds: Seq<EntitySchemaView>,
    enums: Seq<EnumSchemaView>,
    parent_size_grid: IVec2,
    parent_size_px: IVec2,
) -> Result<(int, EntityView), LdtkErrorView> {
    match position_of(entity_identifiers(kinds), entity.identifier@) {
        Some(kind) => match entity_of(
            entity,
            kinds[kind],
            enums,
            parent_size_grid,
            parent_size_px,
        ) {
            Ok(loaded) => Ok((kind, loaded)),
            Err(error) => Err(error),
        },
        None => Err(LdtkErrorView::UnknownEntityType(entity.identifier@)),
    }
}

/// The entities of kind `kind` among `sorted`, in order.
pub open spec fn entities_of_kind(sorted: Seq<(int, EntityView)>, kind: int) -> Seq<EntityView>
    decreases sorted.len(),
{
    if sorted.len() == 0 {
        Seq::empty()
    } else if sorted.last().0 == kind {
        entities_of_kind(sorted.drop_last(), kind).push(sorted.last().1)
    } else {
        entities_of_kind(sorted.drop_last(), kind)
    }
}

/// The entities of a layer by kind: the instances are decoded in order, and
/// the first that fails gives the error.
pub open spec fn project_entities_of(
    instances: Seq<EntityInstance>,
    kinds: Seq<EntitySchemaView>,
    enums: Seq<EnumSchemaView>,
    parent_size_grid: IVec2,
    parent_size_px: IVec2,
) -> Result<ProjectEntitiesView, LdtkErrorView> {
    match gathered(
        Seq::new(
            instances.len(),
            |i: int| sorted_entity_of(instances[i], kinds, enums, parent_size_grid, parent_size_px),
        ),
    ) {
        Ok(sorted) => Ok(
            ProjectEntitiesView {
                groups: Seq::new(
                    kinds.len(),
                    |kind: int|
                        EntityGroupView {
                            name: kinds[kind].group_name,
                            entities: entities_of_kind(sorted, kind),
                        },
                ),
            },
        ),
        Err(error) => Err(error),
    }
}

/// The identifiers of the compiled entity kinds are the keys by which they are found.
pub proof fn lemma_entity_identifiers(kinds: Seq<EntitySchema>)
    ensures
        entity_identifiers(views(kinds)) == keys_of(kinds),
{
    assert(entity_identifiers(views(kinds)) =~= keys_of(kinds));
}

fn empty_groups(kinds: &[EntitySchema]) -> (groups: Vec<EntityGroup>)
    ensures
        groups.len() == kinds.len(),
        forall|kind: int|
            0 <= kind < kinds.len() ==> (#[trigger] groups@[kind])@ == (EntityGroupView {
                name: kinds@[kind].group_name@,
                entities: Seq::empty(),
            }),
{
    let mut groups: Vec<EntityGroup> = Vec::new();
    let mut i: usize = 0;
    while i < kinds.len()
        invariant
            i <= kinds.len(),
            groups.len() == i,
            forall|kind: int|
                0 <= kind < i ==> (#[trigger] groups@[kind])@ == (EntityGroupView {
                    name: kinds@[kind].group_name@,
                    entities: Seq::empty(),
                }),
        decreases kinds.len() - i,
    {
        let group = EntityGroup { name: kinds[i].group_name.clone(), entities: Vec::new() };
        proof {
            lemma_views_none::<Entity>();
        }
        groups.push(group);
        i += 1;
    }
    groups
}

/// The entities of a layer, as they can be decoded from entity instances.
pub trait DeserializeLdtkEntities: Sized + View {
    /// The entities that the instances stand for under the compiled kinds,
    /// or the error that decoding them gives.
    spec fn decoded(
        instances: Seq<EntityInstance>,
        kinds: Seq<EntitySchemaView>,
        enums: Seq<EnumSchemaView>,
        parent_size_grid: IVec2,
        parent_size_px: IVec2,
    ) -> Result<Self::V, LdtkErrorView>;

    /// Decodes the entity instances of a layer of `parent_size_grid` cells
    /// and `parent_size_px` pixels.
    fn deserialize_ldtk(
        instances: &[EntityInstance],
        kinds: &[EntitySchema],
        enums: &[EnumSchema],
        parent_size_grid: IVec2,
        parent_size_px: IVec2,
    ) -> (entities: LdtkResult<Self>)
        ensures
            viewed(entities) == Self::decoded(
                instances@,
                views(kinds@),
                views(enums@),
                parent_size_grid,
                parent_size_px,
            ),
    ;
}

impl DeserializeLdtkEntities for ProjectEntities {
    open spec fn decoded(
        instances: Seq<EntityInstance>,
        kinds: Seq<EntitySchemaView>,
        enums: Seq<EnumSchemaView>,
        parent_size_grid: IVec2,
        parent_size_px: IVec2,
    ) -> Result<ProjectEntitiesView, LdtkErrorView> {
        project_entities_of(instances, kinds, enums, parent_size_grid, parent_size_px)
    }

    /// Decodes the entity instances and sorts them by kind.
    fn deserialize_ldtk(
        instances: &[EntityInstance],
        kinds: &[EntitySchema],
        enums: &[EnumSchema],
        parent_size_grid: IVec2,
        parent_size_px: IVec2,
    ) -> (entities: LdtkResult<ProjectEntities>) {
        let ghost steps = Seq::new(
            instances@.len(),
            |i: int|
                sorted_entity_of(
                    instances@[i],
                    views(kinds@),
                    views(enums@),
                    parent_size_grid,
                    parent_size_px,
                ),
        );
        let mut groups = empty_groups(kinds);
        let mut i: usize = 0;
        proof {
            lemma_gathered_none(steps);
            lemma_entity_identifiers(kinds@);
        }
        while i < instances.len()
            invariant
                i <= instances.len(),
                steps == Seq::new(
                    instances@.len(),
                    |i: int|
                        sorted_entity_of(
                            instances@[i],
                            views(kinds@),
                            views(enums@),
                            parent_size_grid,
                            parent_size_px,
                        ),
                ),
                entity_identifiers(views(kinds@)) == keys_of(kinds@),
                gathered(steps.take(i as int)) is Ok,
                groups.len() == kinds.len(),
                forall|kind: int|
                    0 <= kind < kinds.len() ==> (#[trigger] groups@[kind])@ == (EntityGroupView {
                        name: kinds@[kind].group_name@,
                        entities: entities_of_kind(gathered(steps.take(i as int))->Ok_0, kind),
                    }),
            decreases instances.len() - i,
        {
            let ghost sorted = gathered(steps.take(i as int))->Ok_0;
            let instance = &instances[i];
            let kind = match find_keyed(kinds, instance.identifier.as_str()) {
                Some(kind) => kind,
                None => {
                    let error = LdtkError::UnknownEntityType(instance.identifier.clone());
                    proof {
                        lemma_gathered_fails_at(steps, i as int, error@);
                    }
                    return Err(error);
                },
            };
            match Entity::load(instance, &kinds[kind], enums, parent_size_grid, parent_size_px) {
                Ok(entity) => {
                    proof {
                        lemma_gathered_next(steps, i as int, (kind as int, entity@));
                        lemma_views_push(groups@[kind as int].entities@, entity);
                        assert(sorted.push((kind as int, entity@)).drop_last() =~= sorted);
                    }
                    groups[kind].entities.push(entity);
                },
                Err(error) => {
                    proof {
                        lemma_gathered_fails_at(steps, i as int, error@);
                    }
                    return Err(error);
                },
            }
            i += 1;
        }
        proof {
            lemma_gathered_all(steps);
        }
        let entities = ProjectEntities { groups };
        proof {
            let expected = project_entities_of(
                instances@,
                views(kinds@),
                views(enums@),
                parent_size_grid,
                parent_size_px,
            );
            assert(entities@.groups =~= expected->Ok_0.groups);
        }
        Ok(entities)
    }
}

} // verus!
