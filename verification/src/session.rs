//! A session: a client's workspace, with its id and its run directory.
use vstd::prelude::*;

verus! {

/// A client's workspace.
#[derive(Debug)]
pub struct Session {
    /// Unique identifier of the session.
    id: u64,
    /// Run directory of the session.
    rundir: Option<String>,
}

/// What a `Session` holds.
pub struct SessionView {
    pub id: u64,
    pub rundir: Option<Seq<char>>,
}

impl View for Session {
    type V = SessionView;

    closed spec fn view(&self) -> SessionView {
        SessionView {
            id: self.id,
            rundir: match self.rundir {
                Some(path) => Some(path@),
                None => None,
            },
        }
    }
}

impl Default for Session {
    fn default() -> (r: Self)
        ensures
            r@ == (SessionView { id: 0, rundir: None }),
    {
        Session { id: 0, rundir: None }
    }
}

impl Session {
    /// A session with id 0 and no run directory.
    pub fn new() -> (r: Self)
        ensures
            r@ == (SessionView { id: 0, rundir: None }),
    {
        Session { id: 0, rundir: None }
    }

    /// The session with its id set to `id`.
    pub fn with_id(self, id: u64) -> (r: Self)
        ensures
            r@ == (SessionView { id, rundir: self@.rundir }),
    {
        let mut session = self;
        session.id = id;
        session
    }

    /// The session with its run directory set to `rundir`.
    pub fn with_rundir(self, rundir: String) -> (r: Self)
        ensures
            r@ == (SessionView { id: self@.id, rundir: Some(rundir@) }),
    {
        let mut session = self;
        session.rundir = Some(rundir);
        session
    }

    /// The id of the session.
    pub fn id(&self) -> (r: u64)
        ensures
            r == self@.id,
    {
        self.id
    }

    /// The run directory of the session, if it has one.
    pub fn rundir(&self) -> (r: Option<&str>)
        ensures
            match r {
                Some(path) => self@.rundir == Some(path@),
                None => self@.rundir is None,
            },
    {
        match &self.rundir {
            None => None,
            Some(path) => Some(path.as_str()),
        }
    }
}

} // verus!
