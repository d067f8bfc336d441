//! A backend that accepts every model but the one with id 0 and does nothing.
use vstd::prelude::*;
use crate::capability::{
    Answer, InvocationError, InvocationErrorView, VaccelPlugin, VaccelPluginFunctions, answer_of,
};

verus! {

pub struct Noop;

/// What `Noop` answers to a request about the model `model_id`.
pub open spec fn noop_answer(model_id: u64) -> Answer {
    if model_id == 0 {
        Err(InvocationErrorView::InvalidArgument("Unknown model id"@))
    } else {
        Ok(())
    }
}

impl VaccelPlugin for Noop {
    open spec fn declares(&self, functions: Seq<VaccelPluginFunctions>) -> bool {
        functions == seq![
            VaccelPluginFunctions::TFSessionLoad,
            VaccelPluginFunctions::TFSessionUnload,
        ]
    }

    open spec fn load_outcome(&self, model_id: u64, r: Answer) -> bool {
        r == noop_answer(model_id)
    }

    open spec fn unload_outcome(&self, model_id: u64, r: Answer) -> bool {
        r == noop_answer(model_id)
    }

    fn supported(&self) -> (r: &[VaccelPluginFunctions]) {
        &[VaccelPluginFunctions::TFSessionLoad, VaccelPluginFunctions::TFSessionUnload]
    }

    /// Accepts every model but the one with id 0.
    fn tf_session_load(&self, model_id: u64) -> (r: Result<(), InvocationError>)
        ensures
            answer_of(r) == noop_answer(model_id),
    {
        match model_id {
            0 => Err(InvocationError::InvalidArgument("Unknown model id".to_owned())),
            _ => Ok(()),
        }
    }

    /// Accepts every model but the one with id 0.
    fn tf_session_unload(&self, model_id: u64) -> (r: Result<(), InvocationError>)
        ensures
            answer_of(r) == noop_answer(model_id),
    {
        match model_id {
            0 => Err(InvocationError::InvalidArgument("Unknown model id".to_owned())),
            _ => Ok(()),
        }
    }
}

} // verus!
