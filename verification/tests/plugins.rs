use std::sync::atomic::{AtomicU64, Ordering};
use std::sync::Arc;

use libloading::Library;
use vaccel::capability::{
    InvocationError, PluginDeclaration, PluginRegistrar, VaccelPlugin, VaccelPluginFunctions,
};
use vaccel::noop::Noop;
use vaccel::plugin::Plugins;
use vaccel::Error;

/// A backend that counts the calls it gets and answers with its own code.
struct Counting {
    code: u64,
    calls: Arc<AtomicU64>,
    functions: Vec<VaccelPluginFunctions>,
}

impl VaccelPlugin for Counting {
    fn supported(&self) -> &[VaccelPluginFunctions] {
        &self.functions
    }

    fn tf_session_load(&self, _model_id: u64) -> Result<(), InvocationError> {
        self.calls.fetch_add(1, Ordering::SeqCst);
        Err(InvocationError::Implementation { error_code: self.code, msg: "load".to_string() })
    }

    fn tf_session_unload(&self, _model_id: u64) -> Result<(), InvocationError> {
        self.calls.fetch_add(1, Ordering::SeqCst);
        Err(InvocationError::Unknown("unload".to_string()))
    }
}

fn tags(rustc: &str, core: &str) -> PluginDeclaration {
    PluginDeclaration { rustc_version: rustc.to_string(), core_version: core.to_string() }
}

fn this_library() -> Arc<Library> {
    Arc::new(Library::from(libloading::os::unix::Library::this()))
}

fn load(plugins: &mut Plugins, name: &str, plugin: Box<dyn VaccelPlugin>) {
    let lib = this_library();
    let mut registrar = vaccel::plugin::PluginRegistrar::new(lib.clone());
    registrar.register_plugin(name, plugin);
    let host = tags("1.80.0", "0.1.0");
    plugins.load(lib, &host, &tags("1.80.0", "0.1.0"), registrar).expect("Could not load plugin");
}

fn counting(code: u64, functions: Vec<VaccelPluginFunctions>) -> (Box<Counting>, Arc<AtomicU64>) {
    let calls = Arc::new(AtomicU64::new(0));
    (Box::new(Counting { code, calls: calls.clone(), functions }), calls)
}

#[test]
fn empty_table_implements_nothing() {
    let plugins = Plugins::new();
    assert!(plugins.supported().is_empty());
    assert!(matches!(plugins.tf_session_load(1), Err(InvocationError::NotImplemented)));
    assert!(matches!(plugins.tf_session_unload(1), Err(InvocationError::NotImplemented)));
}

#[test]
fn noop_rejects_model_zero() {
    let noop = Noop;
    assert_eq!(
        noop.supported(),
        &[VaccelPluginFunctions::TFSessionLoad, VaccelPluginFunctions::TFSessionUnload]
    );
    assert!(noop.tf_session_load(1).is_ok());
    assert!(noop.tf_session_unload(u64::MAX).is_ok());
    match noop.tf_session_load(0) {
        Err(InvocationError::InvalidArgument(detail)) => assert_eq!(detail, "Unknown model id"),
        other => panic!("unexpected answer {:?}", other),
    }
    match noop.tf_session_unload(0) {
        Err(InvocationError::InvalidArgument(detail)) => assert_eq!(detail, "Unknown model id"),
        other => panic!("unexpected answer {:?}", other),
    }
}

#[test]
fn loaded_noop_answers_through_the_table() {
    let mut plugins = Plugins::new();
    load(&mut plugins, "vaccel-noop", Box::new(Noop));
    assert!(plugins.tf_session_load(5).is_ok());
    assert!(plugins.tf_session_unload(5).is_ok());
    assert!(matches!(plugins.tf_session_load(0), Err(InvocationError::InvalidArgument(_))));
    assert!(matches!(plugins.tf_session_unload(0), Err(InvocationError::InvalidArgument(_))));
}

#[test]
fn first_loaded_backend_is_dispatched_to() {
    let both = vec![VaccelPluginFunctions::TFSessionLoad, VaccelPluginFunctions::TFSessionUnload];
    let (first, first_calls) = counting(11, both.clone());
    let (second, second_calls) = counting(22, both);
    let mut plugins = Plugins::new();
    load(&mut plugins, "first", first);
    load(&mut plugins, "second", second);
    for model_id in [3u64, 1, 2, 0] {
        match plugins.tf_session_load(model_id) {
            Err(InvocationError::Implementation { error_code, msg }) => {
                assert_eq!(error_code, 11);
                assert_eq!(msg, "load");
            }
            other => panic!("unexpected answer {:?}", other),
        }
    }
    assert!(matches!(plugins.tf_session_unload(7), Err(InvocationError::Unknown(_))));
    assert_eq!(first_calls.load(Ordering::SeqCst), 5);
    assert_eq!(second_calls.load(Ordering::SeqCst), 0);
}

#[test]
fn backend_is_listed_only_under_what_it_declares() {
    let (unloader, unloader_calls) = counting(1, vec![VaccelPluginFunctions::TFSessionUnload]);
    let (loader, loader_calls) = counting(2, vec![VaccelPluginFunctions::TFSessionLoad]);
    let mut plugins = Plugins::new();
    load(&mut plugins, "unloader", unloader);
    assert!(matches!(plugins.tf_session_load(1), Err(InvocationError::NotImplemented)));
    load(&mut plugins, "loader", loader);
    assert!(matches!(
        plugins.tf_session_load(1),
        Err(InvocationError::Implementation { error_code: 2, .. })
    ));
    assert!(matches!(plugins.tf_session_unload(1), Err(InvocationError::Unknown(_))));
    assert_eq!(unloader_calls.load(Ordering::SeqCst), 1);
    assert_eq!(loader_calls.load(Ordering::SeqCst), 1);
}

#[test]
fn backend_that_declares_a_function_twice_still_comes_first() {
    let twice = vec![VaccelPluginFunctions::TFSessionLoad, VaccelPluginFunctions::TFSessionLoad];
    let (first, first_calls) = counting(5, twice);
    let (second, second_calls) = counting(6, vec![VaccelPluginFunctions::TFSessionLoad]);
    let mut plugins = Plugins::new();
    load(&mut plugins, "first", first);
    load(&mut plugins, "second", second);
    assert!(matches!(
        plugins.tf_session_load(1),
        Err(InvocationError::Implementation { error_code: 5, .. })
    ));
    assert_eq!(first_calls.load(Ordering::SeqCst), 1);
    assert_eq!(second_calls.load(Ordering::SeqCst), 0);
}

#[test]
fn version_mismatch_fails_and_changes_nothing() {
    let mut plugins = Plugins::new();
    load(&mut plugins, "vaccel-noop", Box::new(Noop));
    let host = tags("1.80.0", "0.1.0");
    for declared in [tags("1.79.0", "0.1.0"), tags("1.80.0", "0.2.0"), tags("", "")] {
        let lib = this_library();
        let registrar = vaccel::plugin::PluginRegistrar::new(lib.clone());
        match plugins.load(lib, &host, &declared, registrar) {
            Err(Error::Plugin(text)) => assert_eq!(text, "Version mismatch"),
            other => panic!("unexpected result {:?}", other),
        }
        assert!(plugins.tf_session_load(5).is_ok());
        assert!(matches!(plugins.tf_session_load(0), Err(InvocationError::InvalidArgument(_))));
    }
}

#[test]
fn version_mismatch_keeps_an_empty_table_empty() {
    let (other, calls) = counting(9, vec![VaccelPluginFunctions::TFSessionLoad]);
    let mut plugins = Plugins::new();
    let lib = this_library();
    let mut registrar = vaccel::plugin::PluginRegistrar::new(lib.clone());
    registrar.register_plugin("other", other);
    let result = plugins.load(lib, &tags("a", "b"), &tags("a", "c"), registrar);
    assert!(matches!(result, Err(Error::Plugin(_))));
    assert!(matches!(plugins.tf_session_load(1), Err(InvocationError::NotImplemented)));
    assert_eq!(calls.load(Ordering::SeqCst), 0);
}

#[test]
fn declarations_match_on_both_tags() {
    assert!(tags("1.80.0", "0.1.0").matches(&tags("1.80.0", "0.1.0")));
    assert!(!tags("1.80.0", "0.1.0").matches(&tags("1.80.1", "0.1.0")));
    assert!(!tags("1.80.0", "0.1.0").matches(&tags("1.80.0", "0.1.1")));
    assert!(!tags("0.1.0", "1.80.0").matches(&tags("1.80.0", "0.1.0")));
}

#[test]
fn second_registration_replaces_the_first() {
    let (first, first_calls) = counting(1, vec![VaccelPluginFunctions::TFSessionLoad]);
    let (second, second_calls) = counting(2, vec![VaccelPluginFunctions::TFSessionLoad]);
    let lib = this_library();
    let mut registrar = vaccel::plugin::PluginRegistrar::new(lib.clone());
    registrar.register_plugin("first", first);
    registrar.register_plugin("second", second);
    let mut plugins = Plugins::new();
    let host = tags("x", "y");
    plugins.load(lib, &host, &tags("x", "y"), registrar).expect("Could not load plugin");
    assert!(matches!(
        plugins.tf_session_load(1),
        Err(InvocationError::Implementation { error_code: 2, .. })
    ));
    assert_eq!(first_calls.load(Ordering::SeqCst), 0);
    assert_eq!(second_calls.load(Ordering::SeqCst), 1);
}

#[test]
fn select_names_the_first_loaded_backend() {
    let mut plugins = Plugins::new();
    assert!(plugins.select(VaccelPluginFunctions::TFSessionLoad).is_none());
    let (first, _) = counting(1, vec![VaccelPluginFunctions::TFSessionLoad]);
    let (second, _) = counting(
        2,
        vec![VaccelPluginFunctions::TFSessionLoad, VaccelPluginFunctions::TFSessionUnload],
    );
    load(&mut plugins, "first", first);
    load(&mut plugins, "second", second);
    let selected = plugins.select(VaccelPluginFunctions::TFSessionLoad).expect("no backend");
    assert_eq!(selected.name(), "first");
    assert_eq!(selected.supported(), &[VaccelPluginFunctions::TFSessionLoad]);
    let selected = plugins.select(VaccelPluginFunctions::TFSessionUnload).expect("no backend");
    assert_eq!(selected.name(), "second");
    assert!(plugins.select(VaccelPluginFunctions::TFSessionRun).is_none());
}

#[test]
fn registrar_keeps_the_name_and_the_backend() {
    let lib = this_library();
    let mut registrar = vaccel::plugin::PluginRegistrar::new(lib);
    assert!(registrar.plugin().is_none());
    registrar.register_plugin("vaccel-noop", Box::new(Noop));
    let proxy = registrar.plugin().expect("nothing registered");
    assert_eq!(proxy.name(), "vaccel-noop");
    assert_eq!(
        proxy.supported(),
        &[VaccelPluginFunctions::TFSessionLoad, VaccelPluginFunctions::TFSessionUnload]
    );
    assert!(proxy.tf_session_load(3).is_ok());
    assert!(matches!(proxy.tf_session_load(0), Err(InvocationError::InvalidArgument(_))));
    assert!(matches!(proxy.tf_session_unload(0), Err(InvocationError::InvalidArgument(_))));
}

/// A backend that implements nothing but says what it supports.
struct Idle;

impl VaccelPlugin for Idle {
    fn supported(&self) -> &[VaccelPluginFunctions] {
        &[]
    }
}

#[test]
fn functions_left_alone_are_not_implemented() {
    let idle = Idle;
    assert!(matches!(idle.tf_session_load(1), Err(InvocationError::NotImplemented)));
    assert!(matches!(idle.tf_session_unload(1), Err(InvocationError::NotImplemented)));
    let mut plugins = Plugins::new();
    load(&mut plugins, "idle", Box::new(Idle));
    assert!(plugins.select(VaccelPluginFunctions::TFSessionLoad).is_none());
    assert!(matches!(plugins.tf_session_load(1), Err(InvocationError::NotImplemented)));
}
