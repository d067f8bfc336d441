//! TensorFlow models as resources: where a model lives, and the builder that
//! hands out a saved model only when it is complete.
use vstd::prelude::*;
use crate::resource::ResourceType;
use crate::Error;

verus! {

/// A TensorFlow SavedModel held in memory.
#[derive(Debug)]
pub struct InMemorySavedModel {
    pub model: Vec<u8>,
    pub checkpoint: Vec<u8>,
    pub var_index: Vec<u8>,
}

/// Where a TensorFlow SavedModel lives.
#[derive(Debug)]
pub enum SavedModel {
    /// In a directory the model was exported to.
    ExportDir(String),
    /// In memory.
    InMemory(InMemorySavedModel),
}

/// What a `SavedModel` holds.
pub enum SavedModelView {
    ExportDir(Seq<char>),
    InMemory { model: Seq<u8>, checkpoint: Seq<u8>, var_index: Seq<u8> },
}

impl View for SavedModel {
    type V = SavedModelView;

    open spec fn view(&self) -> SavedModelView {
        match *self {
            SavedModel::ExportDir(path) => SavedModelView::ExportDir(path@),
            SavedModel::InMemory(held) => SavedModelView::InMemory {
                model: held.model@,
                checkpoint: held.checkpoint@,
                var_index: held.var_index@,
            },
        }
    }
}

/// A TensorFlow SavedModel, as a resource.
#[derive(Debug)]
pub struct TensorflowSavedModel {
    id: u64,
    model: SavedModel,
}

/// What a `TensorflowSavedModel` holds.
pub struct TensorflowSavedModelView {
    pub id: u64,
    pub model: SavedModelView,
}

impl View for TensorflowSavedModel {
    type V = TensorflowSavedModelView;

    closed spec fn view(&self) -> TensorflowSavedModelView {
        TensorflowSavedModelView { id: self.id, model: self.model@ }
    }
}

impl TensorflowSavedModel {
    /// The saved model `model` under the id `id`.
    pub fn from_parts(id: u64, model: SavedModel) -> (r: Self)
        ensures
            r@ == (TensorflowSavedModelView { id, model: model@ }),
    {
        TensorflowSavedModel { id, model }
    }

    /// Where the model lives.
    pub fn model(&self) -> (r: &SavedModel)
        ensures
            r@ == self@.model,
    {
        &self.model
    }

    /// The model under the id `id`.
    pub fn with_id(self, id: u64) -> (r: Self)
        ensures
            r@ == (TensorflowSavedModelView { id, model: self@.model }),
    {
        TensorflowSavedModel { id, model: self.model }
    }
}

impl ResourceType for TensorflowSavedModel {
    open spec fn resource_id(&self) -> u64 {
        self@.id
    }

    fn id(&self) -> (r: u64) {
        self.id
    }
}

/// Collects the parts of a TensorFlow SavedModel.
pub struct TensorflowSavedModelBuilder {
    export_dir: Option<String>,
    model: Option<Vec<u8>>,
    checkpoint: Option<Vec<u8>>,
    var_index: Option<Vec<u8>>,
}

/// The parts a builder has been given.
pub struct TensorflowSavedModelBuilderView {
    pub export_dir: Option<Seq<char>>,
    pub model: Option<Seq<u8>>,
    pub checkpoint: Option<Seq<u8>>,
    pub var_index: Option<Seq<u8>>,
}

impl TensorflowSavedModelBuilderView {
    /// The builder with nothing given.
    pub open spec fn empty() -> TensorflowSavedModelBuilderView {
        TensorflowSavedModelBuilderView {
            export_dir: None,
            model: None,
            checkpoint: None,
            var_index: None,
        }
    }

    /// The model these parts make up, if they make up one: the export
    /// directory where one was given, else the three in-memory parts where
    /// all three were given.
    pub open spec fn built(self) -> Option<SavedModelView> {
        if self.export_dir is Some {
            Some(SavedModelView::ExportDir(self.export_dir->0))
        } else if self.model is Some && self.checkpoint is Some && self.var_index is Some {
            Some(
                SavedModelView::InMemory {
                    model: self.model->0,
                    checkpoint: self.checkpoint->0,
                    var_index: self.var_index->0,
                },
            )
        } else {
            None
        }
    }
}

impl View for TensorflowSavedModelBuilder {
    type V = TensorflowSavedModelBuilderView;

    closed spec fn view(&self) -> TensorflowSavedModelBuilderView {
        TensorflowSavedModelBuilderView {
            export_dir: match self.export_dir {
                Some(path) => Some(path@),
                None => None,
            },
            model: match self.model {
                Some(bytes) => Some(bytes@),
                None => None,
            },
            checkpoint: match self.checkpoint {
                Some(bytes) => Some(bytes@),
                None => None,
            },
            var_index: match self.var_index {
                Some(bytes) => Some(bytes@),
                None => None,
            },
        }
    }
}

impl Default for TensorflowSavedModelBuilder {
    fn default() -> (r: Self)
        ensures
            r@ == TensorflowSavedModelBuilderView::empty(),
    {
        TensorflowSavedModelBuilder::new()
    }
}

impl TensorflowSavedModelBuilder {
    /// A builder with nothing given.
    pub fn new() -> (r: Self)
        ensures
            r@ == TensorflowSavedModelBuilderView::empty(),
    {
        TensorflowSavedModelBuilder {
            export_dir: None,
            model: None,
            checkpoint: None,
            var_index: None,
        }
    }

    /// Gives the directory the model was exported to.
    pub fn export_dir(self, path: String) -> (r: Self)
        ensures
            r@ == (TensorflowSavedModelBuilderView { export_dir: Some(path@), ..self@ }),
    {
        let mut builder = self;
        builder.export_dir = Some(path);
        builder
    }

    /// Gives the bytes of the model.
    pub fn model(self, bytes: Vec<u8>) -> (r: Self)
        ensures
            r@ == (TensorflowSavedModelBuilderView { model: Some(bytes@), ..self@ }),
    {
        let mut builder = self;
        builder.model = Some(bytes);
        builder
    }

    /// Gives the bytes of the checkpoint.
    pub fn checkpoint(self, bytes: Vec<u8>) -> (r: Self)
        ensures
            r@ == (TensorflowSavedModelBuilderView { checkpoint: Some(bytes@), ..self@ }),
    {
        let mut builder = self;
        builder.checkpoint = Some(bytes);
        builder
    }

    /// Gives the bytes of the variable index.
    pub fn var_index(self, bytes: Vec<u8>) -> (r: Self)
        ensures
            r@ == (TensorflowSavedModelBuilderView { var_index: Some(bytes@), ..self@ }),
    {
        let mut builder = self;
        builder.var_index = Some(bytes);
        builder
    }

    /// The saved model the parts make up, under the id 0; `InvalidArgument`
    /// where they make up none.
    pub fn build(self) -> (r: Result<TensorflowSavedModel, Error>)
        ensures
            match self@.built() {
                Some(model) => r matches Ok(built) && built@ == (TensorflowSavedModelView {
                    id: 0,
                    model,
                }),
                None => r matches Err(Error::InvalidArgument),
            },
    {
        if let Some(path) = self.export_dir {
            return Ok(TensorflowSavedModel { id: 0, model: SavedModel::ExportDir(path) });
        }
        let model = match self.model {
            Some(bytes) => bytes,
            None => {
                return Err(Error::InvalidArgument);
            },
        };
        let checkpoint = match self.checkpoint {
            Some(bytes) => bytes,
            None => {
                return Err(Error::InvalidArgument);
            },
        };
        let var_index = match self.var_index {
            Some(bytes) => bytes,
            None => {
                return Err(Error::InvalidArgument);
            },
        };
        Ok(
            TensorflowSavedModel {
                id: 0,
                model: SavedModel::InMemory(InMemorySavedModel { model, checkpoint, var_index }),
            },
        )
    }
}

/// Where a TensorFlow protobuf model lives.
#[derive(Debug)]
pub enum ProtobufModel {
    /// In a protobuf file.
    Protobuf(String),
    /// In memory.
    InMemory(Vec<u8>),
}

/// What a `ProtobufModel` holds.
pub enum ProtobufModelView {
    Protobuf(Seq<char>),
    InMemory(Seq<u8>),
}

impl View for ProtobufModel {
    type V = ProtobufModelView;

    open spec fn view(&self) -> ProtobufModelView {
        match *self {
            ProtobufModel::Protobuf(path) => ProtobufModelView::Protobuf(path@),
            ProtobufModel::InMemory(bytes) => ProtobufModelView::InMemory(bytes@),
        }
    }
}

/// A TensorFlow protobuf model, as a resource.
#[derive(Debug)]
pub struct TensorflowModel {
    id: u64,
    model: ProtobufModel,
}

/// What a `TensorflowModel` holds.
pub struct TensorflowModelView {
    pub id: u64,
    pub model: ProtobufModelView,
}

impl View for TensorflowModel {
    type V = TensorflowModelView;

    closed spec fn view(&self) -> TensorflowModelView {
        TensorflowModelView { id: self.id, model: self.model@ }
    }
}

impl TensorflowModel {
    /// The protobuf model `model` under the id `id`.
    pub fn from_parts(id: u64, model: ProtobufModel) -> (r: Self)
        ensures
            r@ == (TensorflowModelView { id, model: model@ }),
    {
        TensorflowModel { id, model }
    }

    /// Where the model lives.
    pub fn model(&self) -> (r: &ProtobufModel)
        ensures
            r@ == self@.model,
    {
        &self.model
    }

    /// The model under the id `id`.
    pub fn with_id(self, id: u64) -> (r: Self)
        ensures
            r@ == (TensorflowModelView { id, model: self@.model }),
    {
        TensorflowModel { id, model: self.model }
    }
}

impl ResourceType for TensorflowModel {
    open spec fn resource_id(&self) -> u64 {
        self@.id
    }

    fn id(&self) -> (r: u64) {
        self.id
    }
}

} // verus!
