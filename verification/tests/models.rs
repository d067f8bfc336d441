use vaccel::resource::{Resource, ResourceType};
use vaccel::tensorflow::models::{
    InMemorySavedModel, ProtobufModel, SavedModel, TensorflowModel, TensorflowSavedModel,
    TensorflowSavedModelBuilder,
};
use vaccel::Error;

#[test]
fn export_dir_alone_builds() {
    let model = TensorflowSavedModelBuilder::new().export_dir("/m".to_string()).build().unwrap();
    assert_eq!(model.id(), 0);
    assert!(matches!(model.model(), SavedModel::ExportDir(path) if path == "/m"));
}

#[test]
fn export_dir_wins_over_in_memory_parts() {
    let model = TensorflowSavedModelBuilder::new()
        .model(vec![1])
        .checkpoint(vec![2])
        .var_index(vec![3])
        .export_dir("/m".to_string())
        .build()
        .unwrap();
    assert!(matches!(model.model(), SavedModel::ExportDir(path) if path == "/m"));
}

#[test]
fn three_parts_build_in_memory() {
    let model = TensorflowSavedModelBuilder::new()
        .var_index(vec![3, 3])
        .model(vec![1])
        .checkpoint(vec![])
        .build()
        .unwrap();
    assert_eq!(model.id(), 0);
    match model.model() {
        SavedModel::InMemory(held) => {
            assert_eq!(held.model, vec![1]);
            assert_eq!(held.checkpoint, Vec::<u8>::new());
            assert_eq!(held.var_index, vec![3, 3]);
        }
        other => panic!("unexpected model {:?}", other),
    }
}

#[test]
fn missing_part_is_an_invalid_argument() {
    assert!(matches!(TensorflowSavedModelBuilder::new().build(), Err(Error::InvalidArgument)));
    assert!(matches!(
        TensorflowSavedModelBuilder::new().checkpoint(vec![2]).var_index(vec![3]).build(),
        Err(Error::InvalidArgument)
    ));
    assert!(matches!(
        TensorflowSavedModelBuilder::new().model(vec![1]).var_index(vec![3]).build(),
        Err(Error::InvalidArgument)
    ));
    assert!(matches!(
        TensorflowSavedModelBuilder::new().model(vec![1]).checkpoint(vec![2]).build(),
        Err(Error::InvalidArgument)
    ));
}

#[test]
fn later_part_replaces_earlier() {
    let model = TensorflowSavedModelBuilder::new()
        .model(vec![1])
        .model(vec![9])
        .checkpoint(vec![2])
        .var_index(vec![3])
        .build()
        .unwrap();
    assert!(matches!(model.model(), SavedModel::InMemory(held) if held.model == vec![9]));
}

#[test]
fn models_carry_the_id_they_are_given() {
    let held = InMemorySavedModel { model: vec![1], checkpoint: vec![2], var_index: vec![3] };
    let saved = TensorflowSavedModel::from_parts(4, SavedModel::InMemory(held));
    assert_eq!(saved.id(), 4);
    let saved = saved.with_id(5);
    assert_eq!(saved.id(), 5);
    assert!(matches!(saved.model(), SavedModel::InMemory(held) if held.checkpoint == vec![2]));

    let graph = TensorflowModel::from_parts(6, ProtobufModel::Protobuf("/g.pb".to_string()));
    assert_eq!(graph.id(), 6);
    let graph = graph.with_id(7);
    assert_eq!(graph.id(), 7);
    assert!(matches!(graph.model(), ProtobufModel::Protobuf(path) if path == "/g.pb"));
}

#[test]
fn resource_has_the_id_of_what_it_holds() {
    let graph = TensorflowModel::from_parts(6, ProtobufModel::InMemory(vec![0]));
    let resource = Resource::TensorFlowModel(graph);
    assert_eq!(resource.id(), 6);
    let resource = resource.with_id(12);
    assert_eq!(resource.id(), 12);
    assert!(matches!(&resource, Resource::TensorFlowModel(model) if model.id() == 12));

    let saved = TensorflowSavedModelBuilder::new().export_dir("/m".to_string()).build().unwrap();
    let resource = Resource::TensorflowSavedModel(saved).with_id(3);
    assert_eq!(resource.id(), 3);
    assert!(matches!(
        &resource,
        Resource::TensorflowSavedModel(model)
            if matches!(model.model(), SavedModel::ExportDir(path) if path == "/m")
    ));
}
