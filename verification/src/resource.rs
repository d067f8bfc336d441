//! Resources: the payloads a client registers with the broker. The broker
//! stores them and hands them out; only backends look inside.
use vstd::prelude::*;
use crate::tensorflow::models::{
    TensorflowModel, TensorflowModelView, TensorflowSavedModel, TensorflowSavedModelView,
};

verus! {

/// What every kind of resource offers.
pub trait ResourceType {
    /// The id the resource is known under.
    spec fn resource_id(&self) -> u64;

    /// Get the id of the resource.
    fn id(&self) -> (r: u64)
        ensures
            r == self.resource_id(),
    ;
}

/// A resource of one of the kinds the broker knows.
#[derive(Debug)]
pub enum Resource {
    /// A TensorFlow SavedModel.
    TensorflowSavedModel(TensorflowSavedModel),
    /// A TensorFlow protobuf model.
    TensorFlowModel(TensorflowModel),
}

/// What a `Resource` holds.
pub enum ResourceView {
    TensorflowSavedModel(TensorflowSavedModelView),
    TensorFlowModel(TensorflowModelView),
}

impl ResourceView {
    /// The id the resource carries.
    pub open spec fn id(self) -> u64 {
        match self {
            ResourceView::TensorflowSavedModel(model) => model.id,
            ResourceView::TensorFlowModel(model) => model.id,
        }
    }

    /// The same resource under the id `id`.
    pub open spec fn with_id(self, id: u64) -> ResourceView {
        match self {
            ResourceView::TensorflowSavedModel(model) => ResourceView::TensorflowSavedModel(
                TensorflowSavedModelView { id, ..model },
            ),
            ResourceView::TensorFlowModel(model) => ResourceView::TensorFlowModel(
                TensorflowModelView { id, ..model },
            ),
        }
    }
}

impl View for Resource {
    type V = ResourceView;

    open spec fn view(&self) -> ResourceView {
        match *self {
            Resource::TensorflowSavedModel(model) => ResourceView::TensorflowSavedModel(model@),
            Resource::TensorFlowModel(model) => ResourceView::TensorFlowModel(model@),
        }
    }
}

impl Resource {
    /// The resource under the id `id`.
    pub fn with_id(self, id: u64) -> (r: Self)
        ensures
            r@ == self@.with_id(id),
    {
        match self {
            Resource::TensorflowSavedModel(model) => Resource::TensorflowSavedModel(
                model.with_id(id),
            ),
            Resource::TensorFlowModel(model) => Resource::TensorFlowModel(model.with_id(id)),
        }
    }
}

impl ResourceType for Resource {
    open spec fn resource_id(&self) -> u64 {
        self@.id()
    }

    fn id(&self) -> (r: u64) {
        match self {
            Resource::TensorflowSavedModel(model) => model.id(),
            Resource::TensorFlowModel(model) => model.id(),
        }
    }
}

} // verus!
