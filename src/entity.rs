use vstd::prelude::*;
use crate::common::{EntityCommon, EntityCommonView};
use crate::entities::{EntityType, EntityTypeView};

verus! {

/// A drawing entity: the fields every entity has and the data of its kind.
#[derive(Clone, Debug, PartialEq)]
pub struct Entity {
    pub common: EntityCommon,
    pub specific: EntityType,
}

pub struct EntityView {
    pub common: EntityCommonView,
    pub specific: EntityTypeView,
}

impl View for Entity {
    type V = EntityView;

    open spec fn view(&self) -> EntityView {
        EntityView { common: self.common@, specific: self.specific@ }
    }
}

impl Entity {
    /// Creates a new `Entity` with the default common values.
    pub fn new(specific: EntityType) -> (r: Entity)
        ensures
            r@ == (EntityView { common: EntityCommon::default_view(), specific: specific@ }),
    {
        Entity { common: EntityCommon::default(), specific }
    }

    /// Ensures all entity values are valid: an empty layer name becomes the
    /// default layer.
    pub fn normalize(&mut self)
        ensures
            final(self)@.specific == old(self)@.specific,
            final(self)@.common == (if old(self)@.common.layer.len() == 0 {
                EntityCommonView { layer: crate::common::default_layer(), ..old(self)@.common }
            } else {
                old(self)@.common
            }),
    {
        self.common.normalize();
    }
}

} // verus!
