use crate::error;
use crate::error::{error_response, ErrorReply, Message};
use crate::ident;
use crate::ident::{check_identifier, Title};
use crate::json::Json;
use crate::model::{ContextRecord, NewCognitiveContext, NewSession, ServerDefaults, SessionMountKind};
use crate::reply;
use crate::reply::internal_response;
use crate::text;
use crate::text::same;
use vstd::prelude::*;

verus! {

/// Where a new session is to be mounted.
pub enum ContextMountRequest {
    ExistingContext { context_id: String },
    NewBlankContext { context_id: Option<String>, context_title: Option<String> },
    NewContextFromMind {
        source_context_id: String,
        source_version: Option<u64>,
        context_id: Option<String>,
        context_title: Option<String>,
    },
}

/// Where a new session is mounted.
pub struct ResolvedMount {
    pub agent_id: String,
    pub context_id: String,
    pub seed: Option<Json>,
    pub mount_kind: SessionMountKind,
}

/// The refusal of an identifier, `None` where it is good.
pub open spec fn identifier_refusal(kind: &'static str, value: Seq<char>) -> Option<ErrorReply> {
    match ident::identifier_fault(value) {
        Some(fault) => Some(error::error_reply(400, Message::Identifier { kind, fault })),
        None => None,
    }
}

pub fn refuse_identifier(kind: &'static str, value: &str) -> (r: Option<ErrorReply>)
    ensures
        r == identifier_refusal(kind, value@),
{
    match check_identifier(value) {
        Some(fault) => Some(error_response(400, Message::Identifier { kind, fault })),
        None => None,
    }
}

/// A mount into a context that is there already.
pub struct ExistingMount {
    /// The agent that was asked for, where one was.
    pub requested_agent: Option<String>,
    pub context_id: String,
}

/// A mount into a new, blank context.
pub struct BlankMount {
    pub agent_id: String,
    pub context_id: Option<String>,
    pub context_title: Option<String>,
}

/// A mount into a new context that starts from the mind of another one.
pub struct MindMount {
    pub requested_agent: Option<String>,
    pub source_context_id: String,
    pub source_version: Option<u64>,
    pub context_id: Option<String>,
    pub context_title: Option<String>,
}

/// What a mount has to look up first.
pub enum MountStart {
    Context(ExistingMount),
    Agent(BlankMount),
    Source(MindMount),
    Refuse(ErrorReply),
}

pub open spec fn mount_start(
    requested_agent: Option<String>,
    mount: Option<ContextMountRequest>,
    defaults: ServerDefaults,
) -> MountStart {
    let agent_id = match requested_agent {
        Some(agent) => agent,
        None => defaults.agent_id,
    };
    match identifier_refusal("agent_id", agent_id@) {
        Some(refusal) => MountStart::Refuse(refusal),
        None => match mount {
            Some(ContextMountRequest::NewBlankContext { context_id, context_title }) =>
                MountStart::Agent(BlankMount { agent_id, context_id, context_title }),
            Some(
                ContextMountRequest::NewContextFromMind {
                    source_context_id,
                    source_version,
                    context_id,
                    context_title,
                },
            ) => MountStart::Source(
                MindMount {
                    requested_agent,
                    source_context_id,
                    source_version,
                    context_id,
                    context_title,
                },
            ),
            _ => {
                let context_id = match mount {
                    Some(ContextMountRequest::ExistingContext { context_id }) => context_id,
                    _ => defaults.context_id,
                };
                match identifier_refusal("context_id", context_id@) {
                    Some(refusal) => MountStart::Refuse(refusal),
                    None => MountStart::Context(ExistingMount { requested_agent, context_id }),
                }
            },
        },
    }
}

/// What a mount has to look up first. Without a request a session goes to the default context.
pub fn resolve_context_mount(
    requested_agent: Option<String>,
    mount: Option<ContextMountRequest>,
    defaults: &ServerDefaults,
) -> (r: MountStart)
    ensures
        r == mount_start(requested_agent, mount, *defaults),
{
    let agent_id: String = match &requested_agent {
        Some(agent) => agent.clone(),
        None => defaults.agent_id.clone(),
    };
    match refuse_identifier("agent_id", agent_id.as_str()) {
        Some(refusal) => {
            return MountStart::Refuse(refusal);
        },
        None => {},
    }
    let context_id: String = match mount {
        Some(ContextMountRequest::NewBlankContext { context_id, context_title }) => {
            return MountStart::Agent(BlankMount { agent_id, context_id, context_title });
        },
        Some(
            ContextMountRequest::NewContextFromMind {
                source_context_id,
                source_version,
                context_id,
                context_title,
            },
        ) => {
            return MountStart::Source(
                MindMount {
                    requested_agent,
                    source_context_id,
                    source_version,
                    context_id,
                    context_title,
                },
            );
        },
        Some(ContextMountRequest::ExistingContext { context_id }) => context_id,
        None => defaults.context_id.clone(),
    };
    match refuse_identifier("context_id", context_id.as_str()) {
        Some(refusal) => MountStart::Refuse(refusal),
        None => MountStart::Context(ExistingMount { requested_agent, context_id }),
    }
}

/// What a looked-up context means for a mount.
pub open spec fn mount_of_context(
    mount: ExistingMount,
    found: Result<Option<ContextRecord>, String>,
) -> Result<ResolvedMount, ErrorReply> {
    match found {
        Err(_) => Err::<ResolvedMount, ErrorReply>(reply::internal_reply()),
        Ok(None) => Err(
            error::error_reply(
                404,
                Message::Around {
                    before: "mounted Context '",
                    value: mount.context_id,
                    after: "' does not exist",
                },
            ),
        ),
        Ok(Some(context)) => match mount.requested_agent {
            Some(agent) if agent@ != context.agent_id@ => Err(
                error::error_reply(
                    409,
                    Message::Pair {
                        before: "requested Agent '",
                        first: agent,
                        between: "' does not match Context owner Agent '",
                        second: context.agent_id,
                        after: "'",
                    },
                ),
            ),
            _ => Ok(
                ResolvedMount {
                    agent_id: context.agent_id,
                    context_id: mount.context_id,
                    seed: None,
                    mount_kind: SessionMountKind::ExistingContext,
                },
            ),
        },
    }
}

impl ExistingMount {
    /// What the looked-up context means for the mount: it must be there, and belong to the agent
    /// that was asked for.
    pub fn on_context(self, found: Result<Option<ContextRecord>, String>) -> (r: Result<
        ResolvedMount,
        ErrorReply,
    >)
        ensures
            r == mount_of_context(self, found),
    {
        let context = match found {
            Err(_) => {
                return Err(internal_response());
            },
            Ok(None) => {
                return Err(
                    error_response(
                        404,
                        Message::Around {
                            before: "mounted Context '",
                            value: self.context_id,
                            after: "' does not exist",
                        },
                    ),
                );
            },
            Ok(Some(context)) => context,
        };
        match self.requested_agent {
            Some(agent) => {
                if !same(agent.as_str(), context.agent_id.as_str()) {
                    return Err(
                        error_response(
                            409,
                            Message::Pair {
                                before: "requested Agent '",
                                first: agent,
                                between: "' does not match Context owner Agent '",
                                second: context.agent_id,
                                after: "'",
                            },
                        ),
                    );
                }
            },
            None => {},
        }
        Ok(
            ResolvedMount {
                agent_id: context.agent_id,
                context_id: self.context_id,
                seed: None,
                mount_kind: SessionMountKind::ExistingContext,
            },
        )
    }
}

/// A context that is to be created for a mount.
pub struct ContextCreation {
    pub context: NewCognitiveContext,
    pub agent_id: String,
    pub context_id: String,
}

pub open spec fn context_creation(
    agent_id: String,
    context_id: String,
    title: Option<String>,
    fallback: &'static str,
) -> Result<ContextCreation, ErrorReply> {
    match identifier_refusal("context_id", context_id@) {
        Some(refusal) => Err(refusal),
        None => Ok(
            ContextCreation {
                context: NewCognitiveContext {
                    id: context_id,
                    agent_id,
                    title: Title::Bounded { given: title, fallback },
                },
                agent_id,
                context_id,
            },
        ),
    }
}

fn create_context(
    agent_id: String,
    context_id: String,
    title: Option<String>,
    fallback: &'static str,
) -> (r: Result<ContextCreation, ErrorReply>)
    ensures
        r == context_creation(agent_id, context_id, title, fallback),
{
    match refuse_identifier("context_id", context_id.as_str()) {
        Some(refusal) => Err(refusal),
        None => Ok(
            ContextCreation {
                context: NewCognitiveContext {
                    id: context_id.clone(),
                    agent_id: agent_id.clone(),
                    title: Title::Bounded { given: title, fallback },
                },
                agent_id,
                context_id,
            },
        ),
    }
}

/// What a looked-up agent means for a mount into a blank context.
pub open spec fn context_of_agent(
    mount: BlankMount,
    found: Result<Option<String>, String>,
    fresh_context_id: String,
) -> Result<ContextCreation, ErrorReply> {
    match found {
        Err(_) => Err::<ContextCreation, ErrorReply>(reply::internal_reply()),
        Ok(None) => Err(
            error::error_reply(
                404,
                Message::Around {
                    before: "Agent '",
                    value: mount.agent_id,
                    after: "' does not exist; call create_agent first",
                },
            ),
        ),
        Ok(Some(agent_id)) => context_creation(
            agent_id,
            match mount.context_id {
                Some(id) => id,
                None => fresh_context_id,
            },
            mount.context_title,
            "New Blank Context",
        ),
    }
}

impl BlankMount {
    /// What the looked-up agent means for the mount: it must be there.
    pub fn on_agent(self, found: Result<Option<String>, String>, fresh_context_id: String) -> (r:
        Result<ContextCreation, ErrorReply>)
        ensures
            r == context_of_agent(self, found, fresh_context_id),
    {
        match found {
            Err(_) => Err(internal_response()),
            Ok(None) => Err(
                error_response(
                    404,
                    Message::Around {
                        before: "Agent '",
                        value: self.agent_id,
                        after: "' does not exist; call create_agent first",
                    },
                ),
            ),
            Ok(Some(agent_id)) => {
                let context_id: String = match self.context_id {
                    Some(id) => id,
                    None => fresh_context_id,
                };
                create_context(agent_id, context_id, self.context_title, "New Blank Context")
            },
        }
    }
}

/// The mount once its blank context was created.
pub open spec fn mount_of_blank(
    creation: ContextCreation,
    created: Result<(), String>,
) -> Result<ResolvedMount, ErrorReply> {
    match created {
        Ok(_) => Ok::<ResolvedMount, ErrorReply>(
            ResolvedMount {
                agent_id: creation.agent_id,
                context_id: creation.context_id,
                seed: None,
                mount_kind: SessionMountKind::NewBlankContext,
            },
        ),
        Err(detail) => Err(error::error_reply(409, Message::Owned(detail))),
    }
}

/// The mount once its context was seeded from a mind.
pub open spec fn mount_of_mind(
    creation: ContextCreation,
    seeded: Result<Json, String>,
) -> Result<ResolvedMount, ErrorReply> {
    match seeded {
        Ok(seed) => Ok::<ResolvedMount, ErrorReply>(
            ResolvedMount {
                agent_id: creation.agent_id,
                context_id: creation.context_id,
                seed: Some(seed),
                mount_kind: SessionMountKind::NewContextFromMind,
            },
        ),
        Err(detail) => Err(error::error_reply(409, Message::Owned(detail))),
    }
}

impl ContextCreation {
    /// The mount into a blank context, once that was created.
    pub fn on_blank_created(self, created: Result<(), String>) -> (r: Result<
        ResolvedMount,
        ErrorReply,
    >)
        ensures
            r == mount_of_blank(self, created),
    {
        match created {
            Ok(_) => Ok(
                ResolvedMount {
                    agent_id: self.agent_id,
                    context_id: self.context_id,
                    seed: None,
                    mount_kind: SessionMountKind::NewBlankContext,
                },
            ),
            Err(detail) => Err(error_response(409, Message::Owned(detail))),
        }
    }

    /// The mount into a context that starts from another mind, once that was seeded.
    pub fn on_seeded(self, seeded: Result<Json, String>) -> (r: Result<ResolvedMount, ErrorReply>)
        ensures
            r == mount_of_mind(self, seeded),
    {
        match seeded {
            Ok(seed) => Ok(
                ResolvedMount {
                    agent_id: self.agent_id,
                    context_id: self.context_id,
                    seed: Some(seed),
                    mount_kind: SessionMountKind::NewContextFromMind,
                },
            ),
            Err(detail) => Err(error_response(409, Message::Owned(detail))),
        }
    }
}

/// A mount from a mind, with the owner of its source known.
pub struct MindSource {
    pub agent_id: String,
    pub mount: MindMount,
}

/// What the looked-up source means for a mount that starts from its mind.
pub open spec fn source_of_mind(
    mount: MindMount,
    found: Result<Option<ContextRecord>, String>,
) -> Result<MindSource, ErrorReply> {
    match found {
        Err(_) => Err::<MindSource, ErrorReply>(reply::internal_reply()),
        Ok(None) => Err(
            error::error_reply(
                404,
                Message::Around {
                    before: "source Context '",
                    value: mount.source_context_id,
                    after: "' does not exist",
                },
            ),
        ),
        Ok(Some(source)) => match mount.requested_agent {
            Some(agent) if agent@ != source.agent_id@ => Err(
                error::error_reply(
                    409,
                    Message::Pair {
                        before: "requested Agent '",
                        first: agent,
                        between: "' does not match source Context owner Agent '",
                        second: source.agent_id,
                        after: "'",
                    },
                ),
            ),
            _ => Ok(MindSource { agent_id: source.agent_id, mount: mount }),
        },
    }
}

impl MindMount {
    /// What the looked-up source means for the mount: it must be there, and belong to the agent
    /// that was asked for.
    pub fn on_source(self, found: Result<Option<ContextRecord>, String>) -> (r: Result<
        MindSource,
        ErrorReply,
    >)
        ensures
            r == source_of_mind(self, found),
    {
        let source = match found {
            Err(_) => {
                return Err(internal_response());
            },
            Ok(None) => {
                return Err(
                    error_response(
                        404,
                        Message::Around {
                            before: "source Context '",
                            value: self.source_context_id,
                            after: "' does not exist",
                        },
                    ),
                );
            },
            Ok(Some(source)) => source,
        };
        match &self.requested_agent {
            Some(agent) => {
                if !same(agent.as_str(), source.agent_id.as_str()) {
                    return Err(
                        error_response(
                            409,
                            Message::Pair {
                                before: "requested Agent '",
                                first: agent.clone(),
                                between: "' does not match source Context owner Agent '",
                                second: source.agent_id,
                                after: "'",
                            },
                        ),
                    );
                }
            },
            None => {},
        }
        Ok(MindSource { agent_id: source.agent_id, mount: self })
    }
}

/// Whether the source is still at the version that was asked for.
pub open spec fn version_fault(
    source: MindSource,
    current: Result<u64, String>,
) -> Result<(), ErrorReply> {
    match source.mount.source_version {
        None => Ok::<(), ErrorReply>(()),
        Some(expected) => match current {
            Err(detail) => Err(error::error_reply(409, Message::Owned(detail))),
            Ok(version) => if expected != version {
                Err(
                    error::error_reply(
                        409,
                        Message::Numbers {
                            before: "source Context version conflict: requested ",
                            first: expected,
                            between: ", current ",
                            second: version,
                        },
                    ),
                )
            } else {
                Ok(())
            },
        },
    }
}

/// The context that starts from a mind.
pub open spec fn context_of_mind(
    source: MindSource,
    fresh_context_id: String,
) -> Result<ContextCreation, ErrorReply> {
    context_creation(
        source.agent_id,
        match source.mount.context_id {
            Some(id) => id,
            None => fresh_context_id,
        },
        source.mount.context_title,
        "Independent Cognitive Context",
    )
}

impl MindSource {
    /// Checks the version of the source, where one was asked for, against the current one.
    pub fn check_version(&self, current: Result<u64, String>) -> (r: Result<(), ErrorReply>)
        ensures
            r == version_fault(*self, current),
    {
        match self.mount.source_version {
            None => Ok(()),
            Some(expected) => match current {
                Err(detail) => Err(error_response(409, Message::Owned(detail))),
                Ok(version) => if expected != version {
                    Err(
                        error_response(
                            409,
                            Message::Numbers {
                                before: "source Context version conflict: requested ",
                                first: expected,
                                between: ", current ",
                                second: version,
                            },
                        ),
                    )
                } else {
                    Ok(())
                },
            },
        }
    }

    /// The context that is created for the mount. It belongs to the owner of the source.
    pub fn new_context(&self, fresh_context_id: String) -> (r: Result<ContextCreation, ErrorReply>)
        ensures
            r == context_of_mind(*self, fresh_context_id),
    {
        let context_id: String = match &self.mount.context_id {
            Some(id) => id.clone(),
            None => fresh_context_id,
        };
        let title: Option<String> = match &self.mount.context_title {
            Some(title) => Some(title.clone()),
            None => None,
        };
        create_context(self.agent_id.clone(), context_id, title, "Independent Cognitive Context")
    }
}

/// The answer to a step of a creation that the runtime refused.
pub fn creation_conflict(detail: String) -> (r: ErrorReply)
    ensures
        r == error::error_reply(409, Message::Owned(detail)),
{
    error_response(409, Message::Owned(detail))
}

/// A new agent with its root context and its first session.
pub struct CreateAgentRequest {
    pub id: Option<String>,
    pub title: Option<String>,
    pub root_context_id: Option<String>,
    pub root_context_title: Option<String>,
    pub initial_session_id: Option<String>,
    pub initial_session_title: Option<String>,
}

/// The identifiers that are used where a request names none.
pub struct FreshIds {
    pub agent_id: String,
    pub context_id: String,
    pub session_id: String,
}

/// What is created for a new agent.
pub struct AgentBundle {
    pub agent_id: String,
    pub agent_title: Title,
    pub context: NewCognitiveContext,
    pub session: NewSession,
}

pub open spec fn id_or(given: Option<String>, fresh: String) -> String {
    match given {
        Some(id) => id,
        None => fresh,
    }
}

fn take_id(given: Option<String>, fresh: String) -> (r: String)
    ensures
        r == id_or(given, fresh),
{
    match given {
        Some(id) => id,
        None => fresh,
    }
}

pub open spec fn agent_bundle(request: CreateAgentRequest, fresh: FreshIds) -> Result<
    AgentBundle,
    ErrorReply,
> {
    let agent_id = id_or(request.id, fresh.agent_id);
    let context_id = id_or(request.root_context_id, fresh.context_id);
    let session_id = id_or(request.initial_session_id, fresh.session_id);
    if identifier_refusal("agent_id", agent_id@) is Some {
        Err(identifier_refusal("agent_id", agent_id@)->0)
    } else if identifier_refusal("root_context_id", context_id@) is Some {
        Err(identifier_refusal("root_context_id", context_id@)->0)
    } else if identifier_refusal("initial_session_id", session_id@) is Some {
        Err(identifier_refusal("initial_session_id", session_id@)->0)
    } else {
        Ok(
            AgentBundle {
                agent_id,
                agent_title: Title::Bounded { given: request.title, fallback: "New Agent" },
                context: NewCognitiveContext {
                    id: context_id,
                    agent_id,
                    title: Title::Bounded {
                        given: request.root_context_title,
                        fallback: "Root Context",
                    },
                },
                session: NewSession {
                    id: session_id,
                    agent_id,
                    context_id,
                    parent_session_id: None,
                    title: Title::Bounded {
                        given: request.initial_session_title,
                        fallback: "Initial Session",
                    },
                    mount_kind: SessionMountKind::NewBlankContext,
                },
            },
        )
    }
}

/// What is created for a new agent: the agent, its root context and its first session, which refer
/// to each other.
pub fn plan_agent(request: CreateAgentRequest, fresh: FreshIds) -> (r: Result<
    AgentBundle,
    ErrorReply,
>)
    ensures
        r == agent_bundle(request, fresh),
{
    let agent_id = take_id(request.id, fresh.agent_id);
    let context_id = take_id(request.root_context_id, fresh.context_id);
    let session_id = take_id(request.initial_session_id, fresh.session_id);
    match refuse_identifier("agent_id", agent_id.as_str()) {
        Some(refusal) => {
            return Err(refusal);
        },
        None => {},
    }
    match refuse_identifier("root_context_id", context_id.as_str()) {
        Some(refusal) => {
            return Err(refusal);
        },
        None => {},
    }
    match refuse_identifier("initial_session_id", session_id.as_str()) {
        Some(refusal) => {
            return Err(refusal);
        },
        None => {},
    }
    let context = NewCognitiveContext {
        id: context_id.clone(),
        agent_id: agent_id.clone(),
        title: Title::Bounded { given: request.root_context_title, fallback: "Root Context" },
    };
    let session = NewSession {
        id: session_id,
        agent_id: agent_id.clone(),
        context_id,
        parent_session_id: None,
        title: Title::Bounded { given: request.initial_session_title, fallback: "Initial Session" },
        mount_kind: SessionMountKind::NewBlankContext,
    };
    Ok(
        AgentBundle {
            agent_id,
            agent_title: Title::Bounded { given: request.title, fallback: "New Agent" },
            context,
            session,
        },
    )
}

/// Why a new session is refused for its identifiers.
pub open spec fn new_session_fault(
    id: Seq<char>,
    parent: Option<String>,
) -> Result<(), ErrorReply> {
    if identifier_refusal("session_id", id) is Some {
        Err::<(), ErrorReply>(identifier_refusal("session_id", id)->0)
    } else {
        match parent {
            Some(parent_id) => match identifier_refusal("parent_session_id", parent_id@) {
                Some(refusal) => Err(refusal),
                None => Ok(()),
            },
            None => Ok(()),
        }
    }
}

/// Checks the identifiers of a new session.
pub fn check_new_session(id: &str, parent: &Option<String>) -> (r: Result<(), ErrorReply>)
    ensures
        r == new_session_fault(id@, *parent),
{
    match refuse_identifier("session_id", id) {
        Some(refusal) => {
            return Err(refusal);
        },
        None => {},
    }
    match parent {
        Some(parent_id) => match refuse_identifier("parent_session_id", parent_id.as_str()) {
            Some(refusal) => Err(refusal),
            None => Ok(()),
        },
        None => Ok(()),
    }
}

/// The actions that create a session, in the order in which they are done.
#[derive(PartialEq, Eq, Structural, Clone, Copy, Debug)]
pub enum CreateSessionStage {
    /// Look whether the identifier is taken.
    CheckFree,
    /// Make sure that the principal is known.
    EnsurePrincipal,
    /// Make sure that the principal may see the parent.
    CheckParent,
    /// Resolve the mount, which may create a context.
    Mount,
    /// Create the session.
    Create,
}

/// The action that follows one. Who calls and whether they may see the parent is settled before a
/// context is created, so that a refused session leaves no orphan context behind.
pub fn next_create_stage(stage: CreateSessionStage, has_parent: bool) -> (r: CreateSessionStage)
    ensures
        r == create_stage_after(stage, has_parent),
{
    match stage {
        CreateSessionStage::CheckFree => CreateSessionStage::EnsurePrincipal,
        CreateSessionStage::EnsurePrincipal => if has_parent {
            CreateSessionStage::CheckParent
        } else {
            CreateSessionStage::Mount
        },
        CreateSessionStage::CheckParent => CreateSessionStage::Mount,
        CreateSessionStage::Mount => CreateSessionStage::Create,
        CreateSessionStage::Create => CreateSessionStage::Create,
    }
}

pub open spec fn create_stage_after(stage: CreateSessionStage, has_parent: bool) -> CreateSessionStage {
    match stage {
        CreateSessionStage::CheckFree => CreateSessionStage::EnsurePrincipal,
        CreateSessionStage::EnsurePrincipal => if has_parent {
            CreateSessionStage::CheckParent
        } else {
            CreateSessionStage::Mount
        },
        CreateSessionStage::CheckParent => CreateSessionStage::Mount,
        CreateSessionStage::Mount => CreateSessionStage::Create,
        CreateSessionStage::Create => CreateSessionStage::Create,
    }
}

/// What it means whether a session's identifier is taken.
pub fn check_session_free(taken: Result<bool, String>) -> (r: Result<(), ErrorReply>)
    ensures
        r == match taken {
            Ok(true) => Err::<(), ErrorReply>(
                error::error_reply(409, Message::Fixed("Session ID already exists")),
            ),
            Ok(false) => Ok(()),
            Err(_) => Err(reply::internal_reply()),
        },
{
    match taken {
        Ok(true) => Err(error_response(409, Message::Fixed("Session ID already exists"))),
        Ok(false) => Ok(()),
        Err(_) => Err(internal_response()),
    }
}

/// The session for a resolved mount.
pub open spec fn session_of_mount(
    id: String,
    mount: ResolvedMount,
    parent_session_id: Option<String>,
    title: Option<String>,
    fallback: &'static str,
) -> NewSession {
    (NewSession {
        id,
        agent_id: mount.agent_id,
        context_id: mount.context_id,
        parent_session_id,
        title: Title::Bounded { given: title, fallback },
        mount_kind: mount.mount_kind,
    })
}

/// The session that is created for a resolved mount.
pub fn mounted_session(
    id: String,
    mount: &ResolvedMount,
    parent_session_id: Option<String>,
    title: Option<String>,
    fallback: &'static str,
) -> (r: NewSession)
    ensures
        r == session_of_mount(id, *mount, parent_session_id, title, fallback),
{
    NewSession {
        id,
        agent_id: mount.agent_id.clone(),
        context_id: mount.context_id.clone(),
        parent_session_id,
        title: Title::Bounded { given: title, fallback },
        mount_kind: mount.mount_kind,
    }
}

/// A context is only created once the principal, and the parent where there is one, were settled.
pub proof fn law_no_context_before_identity_is_settled(stage: CreateSessionStage, has_parent: bool)
    ensures
        create_stage_after(stage, has_parent) == CreateSessionStage::Mount ==> (stage
            == CreateSessionStage::CheckParent || (stage == CreateSessionStage::EnsurePrincipal
            && !has_parent)),
        create_stage_after(stage, has_parent) == CreateSessionStage::CheckParent ==> stage
            == CreateSessionStage::EnsurePrincipal,
        create_stage_after(stage, has_parent) == CreateSessionStage::EnsurePrincipal ==> stage
            == CreateSessionStage::CheckFree,
{
}

/// The parts of an accepted agent bundle refer to each other, and all their identifiers are good.
pub proof fn law_agent_bundle_is_consistent(request: CreateAgentRequest, fresh: FreshIds)
    ensures
        agent_bundle(request, fresh) matches Ok(bundle) ==> {
            &&& bundle.context.agent_id == bundle.agent_id
            &&& bundle.session.agent_id == bundle.agent_id
            &&& bundle.session.context_id == bundle.context.id
            &&& ident::identifier_fault(bundle.agent_id@) is None
            &&& ident::identifier_fault(bundle.context.id@) is None
            &&& ident::identifier_fault(bundle.session.id@) is None
        },
{
}

/// What a request for a mount asks for is what is looked up: an existing context where one is named
/// or nothing is said (then the default one), the agent for a blank context (the one asked for, or
/// the default one), the source for a context that starts from its mind. Only a bad identifier stands
/// in the way.
pub proof fn law_mounts_look_up_what_was_asked(
    requested_agent: Option<String>,
    mount: Option<ContextMountRequest>,
    defaults: ServerDefaults,
)
    ensures
        ({
            let agent = if requested_agent is Some {
                requested_agent->0
            } else {
                defaults.agent_id
            };
            let start = mount_start(requested_agent, mount, defaults);
            &&& ident::identifier_fault(agent@) is Some ==> (start matches MountStart::Refuse(reply)
                && reply.status == 400)
            &&& ident::identifier_fault(agent@) is None ==> {
                &&& mount is None && ident::identifier_fault(defaults.context_id@) is None ==> (
                start matches MountStart::Context(found) && found.context_id == defaults.context_id
                    && found.requested_agent == requested_agent)
                &&& mount matches Some(ContextMountRequest::ExistingContext { context_id }) ==> if
                    ident::identifier_fault(context_id@) is None {
                    start matches MountStart::Context(found) && found.context_id == context_id
                        && found.requested_agent == requested_agent
                } else {
                    start matches MountStart::Refuse(reply) && reply.status == 400
                }
                &&& mount matches Some(
                    ContextMountRequest::NewBlankContext { context_id, context_title },
                ) ==> (start matches MountStart::Agent(blank) && blank.agent_id == agent
                    && blank.context_id == context_id && blank.context_title == context_title)
                &&& mount matches Some(
                    ContextMountRequest::NewContextFromMind {
                        source_context_id,
                        source_version,
                        context_id,
                        context_title,
                    },
                ) ==> (start matches MountStart::Source(mind) && mind.source_context_id
                    == source_context_id && mind.source_version == source_version && mind.context_id
                    == context_id && mind.context_title == context_title && mind.requested_agent
                    == requested_agent)
            }
        }),
{
}

/// A session is mounted into an existing context with that context's own agent. Who asks for another
/// agent is refused, and so is who names a context that is not there.
pub proof fn law_existing_contexts_keep_their_agent(
    mount: ExistingMount,
    found: Result<Option<ContextRecord>, String>,
)
    ensures
        ({
            let r = mount_of_context(mount, found);
            &&& found is Err ==> (r matches Err(reply) && reply.status == 500)
            &&& found matches Ok(None) ==> (r matches Err(reply) && reply.status == 404)
            &&& found matches Ok(Some(context)) ==> {
                let other = mount.requested_agent matches Some(agent) && agent@
                    != context.agent_id@;
                &&& other ==> (r matches Err(reply) && reply.status == 409)
                &&& !other ==> (r matches Ok(made) && made.context_id == mount.context_id
                    && made.agent_id == context.agent_id && made.seed is None && made.mount_kind
                    == SessionMountKind::ExistingContext)
            }
        }),
{
}

/// A blank context is made for the agent that was found, under the identifier that was asked for or
/// a fresh one, and the session is mounted into exactly that context.
pub proof fn law_blank_contexts_belong_to_their_agent(
    mount: BlankMount,
    found: Result<Option<String>, String>,
    fresh: String,
)
    ensures
        ({
            let r = context_of_agent(mount, found, fresh);
            let id = if mount.context_id is Some {
                mount.context_id->0
            } else {
                fresh
            };
            &&& found is Err ==> (r matches Err(reply) && reply.status == 500)
            &&& found matches Ok(None) ==> (r matches Err(reply) && reply.status == 404)
            &&& (found matches Ok(Some(_))) && ident::identifier_fault(id@) is Some ==> (
            r matches Err(reply) && reply.status == 400)
            &&& found matches Ok(Some(agent)) ==> (ident::identifier_fault(id@) is None ==> (
            r matches Ok(creation) && creation.context.id == id && creation.context.agent_id
                == agent && creation.context.title@ == ident::bounded_title_of(
                mount.context_title,
                "New Blank Context"@,
            ) && (mount_of_blank(creation, Ok(())) matches Ok(made) && made.context_id == id
                && made.agent_id == agent && made.seed is None && made.mount_kind
                == SessionMountKind::NewBlankContext)))
        }),
{
}

/// A context that starts from a mind belongs to the agent of its source, and carries the seed. Who
/// asks for another agent, or for a version that the source is no longer at, is refused.
pub proof fn law_minds_are_taken_from_their_source(
    mount: MindMount,
    found: Result<Option<ContextRecord>, String>,
    current: Result<u64, String>,
    fresh: String,
    seed: Json,
)
    ensures
        ({
            let r = source_of_mind(mount, found);
            &&& found is Err ==> (r matches Err(reply) && reply.status == 500)
            &&& found matches Ok(None) ==> (r matches Err(reply) && reply.status == 404)
            &&& found matches Ok(Some(context)) ==> {
                let other = mount.requested_agent matches Some(agent) && agent@
                    != context.agent_id@;
                &&& other ==> (r matches Err(reply) && reply.status == 409)
                &&& !other ==> (r matches Ok(source) && source.agent_id == context.agent_id
                    && source.mount == mount)
            }
            &&& r matches Ok(source) ==> {
                let stale = mount.source_version matches Some(asked) && current != Ok::<
                    u64,
                    String,
                >(asked);
                &&& version_fault(source, current) is Err <==> stale
                &&& version_fault(source, current) matches Err(reply) ==> reply.status == 409
                &&& context_of_mind(source, fresh) matches Ok(creation) ==> {
                    &&& creation.context.agent_id == source.agent_id
                    &&& mount.context_id is Some ==> Some(creation.context.id) == mount.context_id
                    &&& mount.context_id is None ==> creation.context.id == fresh
                    &&& creation.context.title@ == ident::bounded_title_of(
                        mount.context_title,
                        "Independent Cognitive Context"@,
                    )
                    &&& mount_of_mind(creation, Ok(seed)) matches Ok(made) && made.seed == Some(
                        seed,
                    ) && made.context_id == creation.context.id && made.agent_id == source.agent_id
                        && made.mount_kind == SessionMountKind::NewContextFromMind
                }
            }
        }),
{
}

/// A context that could not be made is a conflict, and nothing is mounted.
pub proof fn law_failed_contexts_are_conflicts(creation: ContextCreation, detail: String)
    ensures
        mount_of_blank(creation, Err(detail)) matches Err(reply) && reply.status == 409
            && reply.message@ == detail@,
        mount_of_mind(creation, Err(detail)) matches Err(reply) && reply.status == 409
            && reply.message@ == detail@,
{
}

/// A new agent comes with a root context and a first session, under the identifiers that were given
/// or fresh ones, and with the titles that were given or these; only a bad identifier is refused.
pub proof fn law_agents_are_made_as_asked(request: CreateAgentRequest, fresh: FreshIds)
    ensures
        ({
            let agent = if request.id is Some {
                request.id->0
            } else {
                fresh.agent_id
            };
            let context = if request.root_context_id is Some {
                request.root_context_id->0
            } else {
                fresh.context_id
            };
            let session = if request.initial_session_id is Some {
                request.initial_session_id->0
            } else {
                fresh.session_id
            };
            let good = ident::identifier_fault(agent@) is None && ident::identifier_fault(
                context@,
            ) is None && ident::identifier_fault(session@) is None;
            &&& !good ==> (agent_bundle(request, fresh) matches Err(reply) && reply.status == 400)
            &&& good ==> (agent_bundle(request, fresh) matches Ok(bundle) && bundle.agent_id
                == agent && bundle.context.id == context && bundle.session.id == session
                && bundle.session.parent_session_id is None && bundle.session.mount_kind
                == SessionMountKind::NewBlankContext && bundle.agent_title@
                == ident::bounded_title_of(request.title, "New Agent"@) && bundle.context.title@
                == ident::bounded_title_of(request.root_context_title, "Root Context"@)
                && bundle.session.title@ == ident::bounded_title_of(
                request.initial_session_title,
                "Initial Session"@,
            ))
        }),
{
}

/// A session is created by looking whether its identifier is free, settling who calls, settling the
/// parent where there is one, mounting, and creating; each once and in this order.
pub proof fn law_sessions_are_created_in_order(has_parent: bool)
    ensures
        ({
            let a = create_stage_after(CreateSessionStage::CheckFree, has_parent);
            let b = create_stage_after(a, has_parent);
            let c = create_stage_after(b, has_parent);
            let d = create_stage_after(c, has_parent);
            &&& a == CreateSessionStage::EnsurePrincipal
            &&& has_parent ==> b == CreateSessionStage::CheckParent && c
                == CreateSessionStage::Mount && d == CreateSessionStage::Create
            &&& !has_parent ==> b == CreateSessionStage::Mount && c == CreateSessionStage::Create
        }),
{
}

/// A new session is refused for a bad identifier of its own or of its parent, and for nothing else;
/// and what is created is in the mount that was resolved.
pub proof fn law_new_sessions_are_in_their_mount(
    id: String,
    parent: Option<String>,
    mount: ResolvedMount,
    title: Option<String>,
    fallback: &'static str,
)
    ensures
        new_session_fault(id@, parent) is Ok <==> ident::identifier_fault(id@) is None && (
        parent matches Some(p) ==> ident::identifier_fault(p@) is None),
        new_session_fault(id@, parent) matches Err(reply) ==> reply.status == 400,
        ({
            let made = session_of_mount(id, mount, parent, title, fallback);
            &&& made.id == id
            &&& made.context_id == mount.context_id
            &&& made.agent_id == mount.agent_id
            &&& made.parent_session_id == parent
            &&& made.mount_kind == mount.mount_kind
            &&& made.title@ == ident::bounded_title_of(title, fallback@)
        }),
{
}

/// An identifier that was given is used, and only without one a fresh one is.
pub proof fn law_given_identifiers_are_used(given: String, fresh: String, field: &'static str)
    ensures
        id_or(Some(given), fresh) == given,
        id_or(None, fresh) == fresh,
        identifier_refusal(field, given@) is None <==> ident::identifier_fault(given@) is None,
        identifier_refusal(field, given@) matches Some(reply) ==> reply.status == 400,
{
}

/// What a refused mount is told: which context, agent or version stood in the way.
pub proof fn law_refused_mounts_are_told_why(
    mount: ExistingMount,
    blank: BlankMount,
    mind: MindMount,
    context: ContextRecord,
    fresh: String,
)
    ensures
        mount_of_context(mount, Ok(None)) matches Err(reply) && reply.message@
            == "mounted Context '"@ + mount.context_id@ + "' does not exist"@,
        mount.requested_agent matches Some(agent) ==> (agent@ != context.agent_id@ ==> (
        mount_of_context(mount, Ok(Some(context))) matches Err(reply) && reply.message@
            == "requested Agent '"@ + agent@ + "' does not match Context owner Agent '"@
            + context.agent_id@ + "'"@)),
        context_of_agent(blank, Ok(None), fresh) matches Err(reply) && reply.message@ == "Agent '"@
            + blank.agent_id@ + "' does not exist; call create_agent first"@,
        source_of_mind(mind, Ok(None)) matches Err(reply) && reply.message@ == "source Context '"@
            + mind.source_context_id@ + "' does not exist"@,
        mind.requested_agent matches Some(agent) ==> (agent@ != context.agent_id@ ==> (
        source_of_mind(mind, Ok(Some(context))) matches Err(reply) && reply.message@
            == "requested Agent '"@ + agent@ + "' does not match source Context owner Agent '"@
            + context.agent_id@ + "'"@)),
{
}

/// A bad identifier is told with the name of what it identifies.
pub proof fn law_bad_identifiers_are_told_by_name(
    requested_agent: Option<String>,
    context_id: String,
    defaults: ServerDefaults,
    agent_id: String,
    title: Option<String>,
    fallback: &'static str,
    parent: String,
)
    ensures
        ({
            let agent = if requested_agent is Some {
                requested_agent->0
            } else {
                defaults.agent_id
            };
            let fault = ident::identifier_fault(context_id@);
            &&& ident::identifier_fault(agent@) matches Some(fault) ==> (mount_start(
                requested_agent,
                Some(ContextMountRequest::ExistingContext { context_id }),
                defaults,
            ) matches MountStart::Refuse(reply) && reply.message == (Message::Identifier {
                kind: "agent_id",
                fault,
            }))
            &&& ident::identifier_fault(agent@) is None && fault is Some ==> (mount_start(
                requested_agent,
                Some(ContextMountRequest::ExistingContext { context_id }),
                defaults,
            ) matches MountStart::Refuse(reply) && reply.message == (Message::Identifier {
                kind: "context_id",
                fault: fault->0,
            }))
            &&& fault is Some ==> (context_creation(agent_id, context_id, title, fallback) matches
                Err(reply) && reply.status == 400 && reply.message == (Message::Identifier {
                kind: "context_id",
                fault: fault->0,
            }))
            &&& fault is Some ==> (new_session_fault(context_id@, Some(parent)) matches Err(reply)
                && reply.message == (Message::Identifier { kind: "session_id", fault: fault->0 }))
            &&& ident::identifier_fault(parent@) matches Some(other) ==> (fault is None ==> (
            new_session_fault(context_id@, Some(parent)) matches Err(reply) && reply.message == (
            Message::Identifier { kind: "parent_session_id", fault: other })))
        }),
{
}

/// A new agent with a bad identifier is told which of the three it is, the agent's first.
pub proof fn law_bad_agents_are_told_why(request: CreateAgentRequest, fresh: FreshIds)
    ensures
        ({
            let agent = ident::identifier_fault(id_or(request.id, fresh.agent_id)@);
            let context = ident::identifier_fault(
                id_or(request.root_context_id, fresh.context_id)@,
            );
            let session = ident::identifier_fault(
                id_or(request.initial_session_id, fresh.session_id)@,
            );
            &&& agent matches Some(fault) ==> (agent_bundle(request, fresh) matches Err(reply)
                && reply.message == (Message::Identifier { kind: "agent_id", fault }))
            &&& agent is None ==> (context matches Some(fault) ==> (agent_bundle(
                request,
                fresh,
            ) matches Err(reply) && reply.message == (Message::Identifier {
                kind: "root_context_id",
                fault,
            })))
            &&& agent is None && context is None ==> (session matches Some(fault) ==> (
            agent_bundle(request, fresh) matches Err(reply) && reply.message == (
            Message::Identifier { kind: "initial_session_id", fault })))
        }),
{
}

/// A source that moved on is told with both versions.
pub proof fn law_moved_sources_are_told_by_version(
    source: MindSource,
    asked: u64,
    current: u64,
    detail: String,
)
    requires
        source.mount.source_version == Some(asked),
        asked != current,
    ensures
        version_fault(source, Ok(current)) matches Err(reply) && reply.message@
            == "source Context version conflict: requested "@ + text::decimal(asked as nat)
            + ", current "@ + text::decimal(current as nat),
        version_fault(source, Err(detail)) matches Err(reply) && reply.message@ == detail@,
{
}

} // verus!
