//! The plugin runtime: the proxy that ties a backend to the library it came
//! from, and the dispatch table from capability to backends in load order.
use vstd::prelude::*;
use std::sync::Arc;
use dashmap::DashMap;
use libloading::Library;
use crate::capability::{
    Answer, InvocationError, InvocationErrorView, PluginDeclaration, VaccelPlugin,
    VaccelPluginFunctions, answer_of, declined,
};
use crate::{Error, ErrorView};

verus! {

/// `dashmap::DashMap`, a concurrent hash map. Nothing of its inside is known here.
#[verifier::external_type_specification]
#[verifier::external_body]
#[verifier::reject_recursive_types(K)]
#[verifier::reject_recursive_types(V)]
#[verifier::reject_recursive_types(S)]
pub struct ExDashMap<K, V, S>(DashMap<K, V, S>);

/// `libloading::Library`, a loaded dynamic library. It is only held, so
/// that the library stays loaded.
#[verifier::external_type_specification]
#[verifier::external_body]
pub struct ExLibrary(Library);

/// A proxy object that makes sure a `VaccelPlugin` cannot outlive the
/// dynamic library it came from.
pub struct VaccelPluginProxy<P: VaccelPlugin + ?Sized = dyn VaccelPlugin> {
    name: String,
    plugin: Box<P>,
    _lib: Arc<Library>,
}

impl<P: VaccelPlugin + ?Sized> VaccelPluginProxy<P> {
    /// Whether `plugin` is the implementation behind the proxy.
    pub closed spec fn wraps(&self, plugin: &P) -> bool {
        self.plugin == plugin
    }

    /// A proxy for `plugin`, which came from `lib`, under the name `name`.
    pub fn new(name: &str, plugin: Box<P>, lib: Arc<Library>) -> (r: Self)
        ensures
            r.registered_name() == name@,
            r.wraps(&*plugin),
            r.library() == lib,
    {
        VaccelPluginProxy { name: name.to_owned(), plugin, _lib: lib }
    }

    /// A proxy declares what the implementation behind it declares, and
    /// answers as it does.
    pub proof fn proxy_forwards(&self, plugin: &P)
        requires
            self.wraps(plugin),
        ensures
            forall|functions: Seq<VaccelPluginFunctions>|
                self.declares(functions) == plugin.declares(functions),
            forall|model_id: u64, r: Answer|
                self.load_outcome(model_id, r) == plugin.load_outcome(model_id, r),
            forall|model_id: u64, r: Answer|
                self.unload_outcome(model_id, r) == plugin.unload_outcome(model_id, r),
    {
    }

    /// The name the backend registered under.
    pub closed spec fn registered_name(&self) -> Seq<char> {
        self.name@
    }

    /// The name the backend registered under.
    pub fn name(&self) -> (r: &str)
        ensures
            r@ == self.registered_name(),
    {
        self.name.as_str()
    }

    /// The library the implementation came from, which the proxy keeps loaded.
    pub closed spec fn library(&self) -> Arc<Library> {
        self._lib
    }
}

impl<P: VaccelPlugin + ?Sized> VaccelPlugin for VaccelPluginProxy<P> {
    closed spec fn declares(&self, functions: Seq<VaccelPluginFunctions>) -> bool {
        self.plugin.declares(functions)
    }

    closed spec fn load_outcome(&self, model_id: u64, r: Answer) -> bool {
        self.plugin.load_outcome(model_id, r)
    }

    closed spec fn unload_outcome(&self, model_id: u64, r: Answer) -> bool {
        self.plugin.unload_outcome(model_id, r)
    }

    fn supported(&self) -> (r: &[VaccelPluginFunctions]) {
        self.plugin.supported()
    }

    fn tf_session_load(&self, model_id: u64) -> (r: Result<(), InvocationError>) {
        self.plugin.tf_session_load(model_id)
    }

    fn tf_session_unload(&self, model_id: u64) -> (r: Result<(), InvocationError>) {
        self.plugin.tf_session_unload(model_id)
    }
}

/// Collects what a backend's registration entry point registers, and ties it
/// to the library the entry point lives in.
pub struct PluginRegistrar {
    plugin: Option<VaccelPluginProxy>,
    lib: Arc<Library>,
}

impl PluginRegistrar {
    /// The proxy of what was registered last, if anything was.
    pub closed spec fn registered(&self) -> Option<VaccelPluginProxy> {
        self.plugin
    }

    /// The library whose entry point this registrar is for.
    pub closed spec fn library(&self) -> Arc<Library> {
        self.lib
    }

    /// The proxy of what was registered last, if anything was.
    pub fn plugin(&self) -> (r: Option<&VaccelPluginProxy>)
        ensures
            match r {
                Some(proxy) => self.registered() == Some(*proxy),
                None => self.registered() is None,
            },
    {
        self.plugin.as_ref()
    }

    /// A registrar for the entry point of `lib`, with nothing registered yet.
    pub fn new(lib: Arc<Library>) -> (r: Self)
        ensures
            r.registered() is None,
            r.library() == lib,
    {
        PluginRegistrar { plugin: None, lib }
    }
}

impl crate::capability::PluginRegistrar for PluginRegistrar {
    /// Puts `plugin` behind a proxy that shares the registrar's library,
    /// under the name given. A second registration replaces the first.
    fn register_plugin(&mut self, name: &str, plugin: Box<dyn VaccelPlugin>)
        ensures
            final(self).library() == old(self).library(),
            final(self).registered() is Some,
            final(self).registered()->0.registered_name() == name@,
            final(self).registered()->0.wraps(&*plugin),
            final(self).registered()->0.library() == old(self).library(),
    {
        self.plugin = Some(VaccelPluginProxy::new(name, plugin, share(&self.lib)));
    }
}

/// For each capability that has any, the backends that declared it.
pub type DispatchLists = Map<VaccelPluginFunctions, Seq<Arc<VaccelPluginProxy>>>;

/// The dispatch lists a table holds: for each capability that has any, the
/// backends that declared it.
pub uninterp spec fn dispatch_lists(
    table: DashMap<VaccelPluginFunctions, Vec<Arc<VaccelPluginProxy>>>,
) -> Map<VaccelPluginFunctions, Seq<Arc<VaccelPluginProxy>>>;

/// `DashMap::new`: a table that holds nothing.
#[verifier::external_body]
fn table_new() -> (table: DashMap<VaccelPluginFunctions, Vec<Arc<VaccelPluginProxy>>>)
    ensures
        dispatch_lists(table) == DispatchLists::empty(),
{
    DashMap::new()
}

/// `DashMap::get`, with the list that was found cloned out of the guard: the
/// list under `function`, if the table holds one. The table is not changed.
#[verifier::external_body]
fn table_get(
    table: &DashMap<VaccelPluginFunctions, Vec<Arc<VaccelPluginProxy>>>,
    function: &VaccelPluginFunctions,
) -> (list: Option<Vec<Arc<VaccelPluginProxy>>>)
    ensures
        match list {
            Some(found) => dispatch_lists(*table).contains_key(*function) && found@
                == dispatch_lists(*table)[*function],
            None => !dispatch_lists(*table).contains_key(*function),
        },
{
    table.get(function).map(|entry| entry.value().clone())
}

/// `DashMap::remove`, called by the table's only holder: the list under
/// `function` leaves the table and is returned with its key; where there
/// was none, nothing changes.
#[verifier::external_body]
fn table_remove(
    table: &mut DashMap<VaccelPluginFunctions, Vec<Arc<VaccelPluginProxy>>>,
    function: &VaccelPluginFunctions,
) -> (taken: Option<(VaccelPluginFunctions, Vec<Arc<VaccelPluginProxy>>)>)
    ensures
        dispatch_lists(*final(table)) == dispatch_lists(*old(table)).remove(*function),
        match taken {
            Some((key, list)) => key == *function && dispatch_lists(*old(table)).contains_key(
                *function,
            ) && list@ == dispatch_lists(*old(table))[*function],
            None => !dispatch_lists(*old(table)).contains_key(*function),
        },
{
    table.remove(function)
}

/// `DashMap::insert`, called by the table's only holder: `list` stands under
/// `function` afterwards, and the list that stood there before is returned.
#[verifier::external_body]
fn table_insert(
    table: &mut DashMap<VaccelPluginFunctions, Vec<Arc<VaccelPluginProxy>>>,
    function: VaccelPluginFunctions,
    list: Vec<Arc<VaccelPluginProxy>>,
) -> (previous: Option<Vec<Arc<VaccelPluginProxy>>>)
    ensures
        dispatch_lists(*final(table)) == dispatch_lists(*old(table)).insert(function, list@),
        match previous {
            Some(before) => dispatch_lists(*old(table)).contains_key(function) && before@
                == dispatch_lists(*old(table))[function],
            None => !dispatch_lists(*old(table)).contains_key(function),
        },
{
    table.insert(function, list)
}

/// `Arc::clone`: another pointer to the same value.
#[verifier::external_body]
fn share<T>(pointer: &Arc<T>) -> (other: Arc<T>)
    ensures
        other == *pointer,
{
    Arc::clone(pointer)
}

/// How often `function` occurs in `declared`.
pub open spec fn occurrences(
    declared: Seq<VaccelPluginFunctions>,
    function: VaccelPluginFunctions,
) -> nat
    decreases declared.len(),
{
    if declared.len() == 0 {
        0
    } else {
        occurrences(declared.drop_last(), function) + if declared.last() == function {
            1nat
        } else {
            0nat
        }
    }
}

/// `handle`, `count` times over.
pub open spec fn repeated(handle: Arc<VaccelPluginProxy>, count: nat) -> Seq<
    Arc<VaccelPluginProxy>,
> {
    Seq::new(count, |i: int| handle)
}

/// The dispatch table: for each capability the backends that declared it,
/// in the order they were loaded, and the libraries they came from.
pub struct Plugins {
    implementations: DashMap<VaccelPluginFunctions, Vec<Arc<VaccelPluginProxy>>>,
    libraries: Vec<Arc<Library>>,
}

impl Plugins {
    /// The backends that declared `function`, first loaded first.
    pub closed spec fn handlers(&self, function: VaccelPluginFunctions) -> Seq<
        Arc<VaccelPluginProxy>,
    > {
        if dispatch_lists(self.implementations).contains_key(function) {
            dispatch_lists(self.implementations)[function]
        } else {
            Seq::empty()
        }
    }

    /// The libraries the table keeps loaded, in load order.
    pub closed spec fn libraries(&self) -> Seq<Arc<Library>> {
        self.libraries@
    }

    /// The backend a call of `function` goes to: the first that was loaded
    /// among those that declared it.
    pub open spec fn selected(&self, function: VaccelPluginFunctions) -> Option<
        Arc<VaccelPluginProxy>,
    > {
        if self.handlers(function).len() > 0 {
            Some(self.handlers(function)[0])
        } else {
            None
        }
    }

    /// Whether the table holds what `before` holds.
    pub open spec fn same_as(&self, before: &Plugins) -> bool {
        &&& self.libraries() == before.libraries()
        &&& forall|function: VaccelPluginFunctions| #[trigger]
            self.handlers(function) == before.handlers(function)
    }

    /// Whether the table is `before` with one more backend loaded, which
    /// gave `declared` as its functions: `handle` stands at the end of the
    /// list of each function in `declared`, once for each time it occurs
    /// there, and `lib` is kept after the other libraries.
    pub open spec fn extends(
        &self,
        before: &Plugins,
        handle: Arc<VaccelPluginProxy>,
        declared: Seq<VaccelPluginFunctions>,
        lib: Arc<Library>,
    ) -> bool {
        &&& self.libraries() == before.libraries().push(lib)
        &&& forall|function: VaccelPluginFunctions| #[trigger]
            self.handlers(function) == before.handlers(function) + repeated(
                handle,
                occurrences(declared, function),
            )
    }

    /// A table with nothing loaded.
    pub fn new() -> (r: Self)
        ensures
            r.libraries() == Seq::<Arc<Library>>::empty(),
            forall|function: VaccelPluginFunctions| #[trigger]
                r.handlers(function) == Seq::<Arc<VaccelPluginProxy>>::empty(),
    {
        Plugins { implementations: table_new(), libraries: Vec::new() }
    }

    /// The backend a call of `function` goes to: the first that was loaded
    /// among those that declared it, if any did.
    pub fn select(&self, function: VaccelPluginFunctions) -> (r: Option<Arc<VaccelPluginProxy>>)
        ensures
            r == self.selected(function),
    {
        match table_get(&self.implementations, &function) {
            None => None,
            Some(list) => {
                if list.len() == 0 {
                    None
                } else {
                    Some(share(&list[0]))
                }
            },
        }
    }

    /// Takes a backend into the table, if it was built as the host was.
    ///
    /// `declaration` holds the version tags read from the backend library
    /// `lib`, `host` the host's own. Where they differ the load fails and the
    /// table is left as it was. Where they agree, `registrar` holds what the
    /// library's registration entry point registered: its proxy is asked
    /// once for the functions it supports and appended to the list of each,
    /// and `lib` is kept.
    pub fn load(
        &mut self,
        lib: Arc<Library>,
        host: &PluginDeclaration,
        declaration: &PluginDeclaration,
        registrar: PluginRegistrar,
    ) -> (r: Result<(), Error>)
        requires
            host.same_build(declaration) ==> registrar.registered() is Some,
        ensures
            !host.same_build(declaration) ==> final(self).same_as(old(self)) && (r matches Err(e)
                && e@ == ErrorView::Plugin("Version mismatch"@)),
            host.same_build(declaration) ==> r is Ok && exists|declared: Seq<VaccelPluginFunctions>|
                registrar.registered()->0.declares(declared) && #[trigger] final(self).extends(
                    old(self),
                    Arc::new(registrar.registered()->0),
                    declared,
                    lib,
                ),
    {
        if !declaration.matches(host) {
            return Err(Error::Plugin("Version mismatch".to_owned()));
        }
        let ghost before = *self;
        let plugin = Arc::new(registrar.plugin.unwrap());
        let declared = plugin.supported();
        let mut i: usize = 0;
        while i < declared.len()
            invariant
                i <= declared@.len(),
                plugin.declares(declared@),
                self.libraries() == before.libraries(),
                forall|function: VaccelPluginFunctions| #[trigger]
                    self.handlers(function) == before.handlers(function) + repeated(
                        plugin,
                        occurrences(declared@.take(i as int), function),
                    ),
            decreases declared@.len() - i,
        {
            let func = declared[i];
            let ghost entered = *self;
            let mut list = match table_remove(&mut self.implementations, &func) {
                Some((_, list)) => list,
                None => Vec::new(),
            };
            list.push(share(&plugin));
            table_insert(&mut self.implementations, func, list);
            proof {
                assert(declared@.take(i + 1).drop_last() == declared@.take(i as int));
                assert forall|function: VaccelPluginFunctions| #[trigger]
                    self.handlers(function) == before.handlers(function) + repeated(
                        plugin,
                        occurrences(declared@.take(i + 1), function),
                    ) by {
                    let earlier = occurrences(declared@.take(i as int), function);
                    if function == func {
                        assert(self.handlers(function) == entered.handlers(function).push(plugin));
                        assert(repeated(plugin, earlier + 1) == repeated(plugin, earlier).push(
                            plugin,
                        ));
                    } else {
                        assert(self.handlers(function) == entered.handlers(function));
                    }
                }
            }
            i += 1;
        }
        proof {
            assert(declared@.take(i as int) == declared@);
        }
        let ghost filled = *self;
        self.libraries.push(lib);
        assert(forall|function: VaccelPluginFunctions| #[trigger]
            self.handlers(function) == filled.handlers(function));
        assert(self.extends(&before, plugin, declared@, lib));
        Ok(())
    }
}

impl VaccelPlugin for Plugins {
    /// The table itself supports nothing.
    open spec fn declares(&self, functions: Seq<VaccelPluginFunctions>) -> bool {
        functions == Seq::<VaccelPluginFunctions>::empty()
    }

    /// An answer of the selected backend. Where no backend declared the
    /// function there is none, so that the table declines.
    open spec fn load_outcome(&self, model_id: u64, r: Answer) -> bool {
        match self.selected(VaccelPluginFunctions::TFSessionLoad) {
            None => false,
            Some(handle) => handle.load_outcome(model_id, r),
        }
    }

    /// An answer of the selected backend. Where no backend declared the
    /// function there is none, so that the table declines.
    open spec fn unload_outcome(&self, model_id: u64, r: Answer) -> bool {
        match self.selected(VaccelPluginFunctions::TFSessionUnload) {
            None => false,
            Some(handle) => handle.unload_outcome(model_id, r),
        }
    }

    fn supported(&self) -> (r: &[VaccelPluginFunctions]) {
        let none: &[VaccelPluginFunctions] = &[];
        assert(none@ =~= Seq::<VaccelPluginFunctions>::empty());
        none
    }

    /// Hands the request to the selected backend and returns its answer;
    /// declines where no backend declared the function.
    fn tf_session_load(&self, model_id: u64) -> (r: Result<(), InvocationError>)
        ensures
            self.selected(VaccelPluginFunctions::TFSessionLoad) is None ==> answer_of(r)
                == declined(),
    {
        match self.select(VaccelPluginFunctions::TFSessionLoad) {
            None => Err(InvocationError::NotImplemented),
            Some(plugin) => plugin.tf_session_load(model_id),
        }
    }

    /// Hands the request to the selected backend and returns its answer;
    /// declines where no backend declared the function.
    fn tf_session_unload(&self, model_id: u64) -> (r: Result<(), InvocationError>)
        ensures
            self.selected(VaccelPluginFunctions::TFSessionUnload) is None ==> answer_of(r)
                == declined(),
    {
        match self.select(VaccelPluginFunctions::TFSessionUnload) {
            None => Err(InvocationError::NotImplemented),
            Some(plugin) => plugin.tf_session_unload(model_id),
        }
    }
}

/// A function that a backend declares occurs among its functions at least once.
proof fn declared_occurs(declared: Seq<VaccelPluginFunctions>, function: VaccelPluginFunctions)
    requires
        declared.contains(function),
    ensures
        occurrences(declared, function) >= 1,
    decreases declared.len(),
{
    if declared.last() != function {
        let i = choose|i: int| 0 <= i < declared.len() && declared[i] == function;
        assert(declared.drop_last()[i] == function);
        declared_occurs(declared.drop_last(), function);
    }
}

/// Loading one more backend does not change where a function goes that a
/// backend was loaded for before.
pub proof fn selection_is_stable(
    before: Plugins,
    after: Plugins,
    handle: Arc<VaccelPluginProxy>,
    declared: Seq<VaccelPluginFunctions>,
    lib: Arc<Library>,
    function: VaccelPluginFunctions,
)
    requires
        after.extends(&before, handle, declared, lib),
        before.selected(function) is Some,
    ensures
        after.selected(function) == before.selected(function),
{
    assert(after.handlers(function) == before.handlers(function) + repeated(
        handle,
        occurrences(declared, function),
    ));
}

/// Of two backends that declare the same function, loaded one after the
/// other into a table that had none for it, the one loaded first is the one
/// the function goes to.
pub proof fn first_loaded_is_selected(
    start: Plugins,
    middle: Plugins,
    end: Plugins,
    first: Arc<VaccelPluginProxy>,
    second: Arc<VaccelPluginProxy>,
    first_declared: Seq<VaccelPluginFunctions>,
    second_declared: Seq<VaccelPluginFunctions>,
    first_lib: Arc<Library>,
    second_lib: Arc<Library>,
    function: VaccelPluginFunctions,
)
    requires
        start.selected(function) is None,
        middle.extends(&start, first, first_declared, first_lib),
        end.extends(&middle, second, second_declared, second_lib),
        first_declared.contains(function),
        second_declared.contains(function),
    ensures
        middle.selected(function) == Some(first),
        end.selected(function) == Some(first),
{
    declared_occurs(first_declared, function);
    assert(middle.handlers(function) == start.handlers(function) + repeated(
        first,
        occurrences(first_declared, function),
    ));
    selection_is_stable(middle, end, second, second_declared, second_lib, function);
}

} // verus!
