//! The capability contract shared by the broker and every backend: the
//! capability tags, the errors an invocation can end in, and the interface a
//! backend implements a subset of.
use vstd::prelude::*;

verus! {

/// The ways in which the invocation of a backend function can fail.
#[derive(Debug)]
pub enum InvocationError {
    /// An invalid argument was passed to a function.
    InvalidArgument(String),
    /// The function is not implemented by the backend.
    NotImplemented,
    /// A failure that only the backend can interpret.
    Implementation { error_code: u64, msg: String },
    /// An unknown error occurred; this indicates a bug.
    Unknown(String),
}

/// What an `InvocationError` says, with its texts as sequences of characters.
pub enum InvocationErrorView {
    InvalidArgument(Seq<char>),
    NotImplemented,
    Implementation { error_code: u64, msg: Seq<char> },
    Unknown(Seq<char>),
}

impl View for InvocationError {
    type V = InvocationErrorView;

    open spec fn view(&self) -> InvocationErrorView {
        match *self {
            InvocationError::InvalidArgument(detail) => InvocationErrorView::InvalidArgument(
                detail@,
            ),
            InvocationError::NotImplemented => InvocationErrorView::NotImplemented,
            InvocationError::Implementation { error_code, msg } => {
                InvocationErrorView::Implementation { error_code, msg: msg@ }
            },
            InvocationError::Unknown(detail) => InvocationErrorView::Unknown(detail@),
        }
    }
}

/// The answer of a backend function: done, or the error it ended in.
pub type Answer = Result<(), InvocationErrorView>;

/// The answer that a result of the backend interface stands for.
pub open spec fn answer_of(r: Result<(), InvocationError>) -> Answer {
    match r {
        Ok(_) => Ok(()),
        Err(e) => Err(e@),
    }
}

/// The functions a backend may offer.
#[derive(Debug, Eq, PartialEq, Hash, Copy, Clone, Structural)]
pub enum VaccelPluginFunctions {
    TFSessionLoad,
    TFSessionUnload,
    TFSessionRun,
}

/// The answer of a backend that does not implement the function asked for.
pub open spec fn declined() -> Answer {
    Err(InvocationErrorView::NotImplemented)
}

/// The interface of a backend.
///
/// A backend implements a subset of the functions: a function that it
/// leaves alone answers `NotImplemented`. A backend may describe itself,
/// through `declares`, `load_outcome` and `unload_outcome`: the list of
/// functions it gives, and what it answers when it does not decline. A
/// backend that describes nothing promises nothing.
pub trait VaccelPlugin: Send + Sync {
    /// Whether `functions` is a list this backend may give as the functions
    /// it supports.
    open spec fn declares(&self, functions: Seq<VaccelPluginFunctions>) -> bool {
        true
    }

    /// Whether `r` is an answer this backend may give to a request to load
    /// the model `model_id`, besides declining.
    open spec fn load_outcome(&self, model_id: u64, r: Answer) -> bool {
        true
    }

    /// Whether `r` is an answer this backend may give to a request to unload
    /// the model `model_id`, besides declining.
    open spec fn unload_outcome(&self, model_id: u64, r: Answer) -> bool {
        true
    }

    /// The functions supported by this backend.
    fn supported(&self) -> (r: &[VaccelPluginFunctions])
        ensures
            self.declares(r@),
    ;

    /// Load a TensorFlow model in memory, creating a session.
    fn tf_session_load(&self, model_id: u64) -> (r: Result<(), InvocationError>)
        ensures
            answer_of(r) == declined() || self.load_outcome(model_id, answer_of(r)),
    {
        Err(InvocationError::NotImplemented)
    }

    /// Unload a TensorFlow session.
    fn tf_session_unload(&self, model_id: u64) -> (r: Result<(), InvocationError>)
        ensures
            answer_of(r) == declined() || self.unload_outcome(model_id, answer_of(r)),
    {
        Err(InvocationError::NotImplemented)
    }
}

/// Whether `r` is an answer `plugin` may give to a request to load the
/// model `model_id`: it declines, or gives an answer it describes.
pub open spec fn answers_load<P: VaccelPlugin + ?Sized>(
    plugin: &P,
    model_id: u64,
    r: Answer,
) -> bool {
    r == declined() || plugin.load_outcome(model_id, r)
}

/// Whether `r` is an answer `plugin` may give to a request to unload the
/// model `model_id`: it declines, or gives an answer it describes.
pub open spec fn answers_unload<P: VaccelPlugin + ?Sized>(
    plugin: &P,
    model_id: u64,
    r: Answer,
) -> bool {
    r == declined() || plugin.unload_outcome(model_id, r)
}

/// What the loader hands to a backend's registration entry point. The entry
/// point registers exactly one named implementation through it.
pub trait PluginRegistrar {
    fn register_plugin(&mut self, name: &str, function: Box<dyn VaccelPlugin>);
}

/// The version tags of a build: those a backend library declares, or the
/// host's own. A backend is only usable by a host with the same tags.
pub struct PluginDeclaration {
    /// Version of the compiler the build was made with.
    pub rustc_version: String,
    /// Version of the capability contract the build was made against.
    pub core_version: String,
}

impl PluginDeclaration {
    /// Whether both tags of `self` and `other` agree.
    pub open spec fn same_build(&self, other: &PluginDeclaration) -> bool {
        self.rustc_version@ == other.rustc_version@ && self.core_version@ == other.core_version@
    }

    /// Compares the two version tags of `self` with those of `other`.
    pub fn matches(&self, other: &PluginDeclaration) -> (r: bool)
        ensures
            r == self.same_build(other),
    {
        self.rustc_version == other.rustc_version && self.core_version == other.core_version
    }
}

} // verus!
