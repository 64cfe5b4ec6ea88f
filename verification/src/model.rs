use crate::ident::Title;
use vstd::prelude::*;

verus! {

/// How a session came to its context.
#[derive(PartialEq, Eq, Structural, Clone, Copy, Debug)]
pub enum SessionMountKind {
    ExistingContext,
    NewBlankContext,
    NewContextFromMind,
}

/// A cognitive context, as far as request handling reads it.
pub struct ContextRecord {
    pub id: String,
    pub agent_id: String,
}

/// A cognitive context that is to be created.
pub struct NewCognitiveContext {
    pub id: String,
    pub agent_id: String,
    pub title: Title,
}

/// A session that is to be created.
pub struct NewSession {
    pub id: String,
    pub agent_id: String,
    pub context_id: String,
    pub parent_session_id: Option<String>,
    pub title: Title,
    pub mount_kind: SessionMountKind,
}

/// Which agent and context a server falls back to.
pub struct ServerDefaults {
    pub agent_id: String,
    pub context_id: String,
}

} // verus!
