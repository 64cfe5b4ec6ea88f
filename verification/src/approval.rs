use crate::error;
use crate::error::{error_response, ErrorReply, Message};
use crate::text;
use crate::text::{ascii_lowercase, same, trim, Text};
use vstd::prelude::*;

verus! {

/// How far a reusable permission reaches.
#[derive(PartialEq, Eq, Structural, Clone, Copy, Debug)]
pub enum CapabilityLeaseScope {
    Thread,
    Objective,
    Session,
}

/// What is done with an approval request.
#[derive(PartialEq, Eq, Structural, Clone, Copy, Debug)]
pub enum ApprovalAction {
    /// Allow it, and the like of it within a scope.
    AllowScope(CapabilityLeaseScope),
    /// Allow this one time.
    AllowOnce,
    Deny,
}

impl ApprovalAction {
    /// The tag that a single decision is recorded under.
    pub fn risk_tag(self) -> (r: Option<&'static str>)
        ensures
            r == match self {
                ApprovalAction::AllowScope(_) => None::<&'static str>,
                ApprovalAction::AllowOnce => Some("human-approved"),
                ApprovalAction::Deny => Some("human-denied"),
            },
    {
        match self {
            ApprovalAction::AllowScope(_) => None,
            ApprovalAction::AllowOnce => Some("human-approved"),
            ApprovalAction::Deny => Some("human-denied"),
        }
    }
}

/// What a decision in words means, or why it is refused.
pub open spec fn approval_meaning(decision: Seq<char>) -> Result<ApprovalAction, &'static str> {
    let word = text::lowercase(text::trimmed(decision));
    if word == "allow_lease"@ || word == "approve_lease"@ || word == "allow_thread"@ {
        Ok(ApprovalAction::AllowScope(CapabilityLeaseScope::Thread))
    } else if word == "allow_objective"@ {
        Ok(ApprovalAction::AllowScope(CapabilityLeaseScope::Objective))
    } else if word == "allow_session"@ {
        Ok(ApprovalAction::AllowScope(CapabilityLeaseScope::Session))
    } else if word == "allow_all"@ || word == "full_access"@ {
        Err(
            "An approval decision cannot enable Full Access; update the Session permission preset explicitly instead",
        )
    } else if word == "allow"@ || word == "allow_once"@ || word == "approve"@ {
        Ok(ApprovalAction::AllowOnce)
    } else if word == "deny"@ || word == "reject"@ {
        Ok(ApprovalAction::Deny)
    } else {
        Err(
            "decision supports only allow_once, allow_thread, allow_objective, allow_session, or deny",
        )
    }
}

/// What a decision in words means.
pub fn decide_approval(decision: &str) -> (r: Result<ApprovalAction, ErrorReply>)
    ensures
        r == match approval_meaning(decision@) {
            Ok(action) => Ok::<ApprovalAction, ErrorReply>(action),
            Err(reason) => Err(error::error_reply(400, Message::Fixed(reason))),
        },
{
    let lower = ascii_lowercase(trim(decision));
    let word = lower.as_str();
    if same(word, "allow_lease") || same(word, "approve_lease") || same(word, "allow_thread") {
        Ok(ApprovalAction::AllowScope(CapabilityLeaseScope::Thread))
    } else if same(word, "allow_objective") {
        Ok(ApprovalAction::AllowScope(CapabilityLeaseScope::Objective))
    } else if same(word, "allow_session") {
        Ok(ApprovalAction::AllowScope(CapabilityLeaseScope::Session))
    } else if same(word, "allow_all") || same(word, "full_access") {
        Err(
            error_response(
                400,
                Message::Fixed(
                    "An approval decision cannot enable Full Access; update the Session permission preset explicitly instead",
                ),
            ),
        )
    } else if same(word, "allow") || same(word, "allow_once") || same(word, "approve") {
        Ok(ApprovalAction::AllowOnce)
    } else if same(word, "deny") || same(word, "reject") {
        Ok(ApprovalAction::Deny)
    } else {
        Err(
            error_response(
                400,
                Message::Fixed(
                    "decision supports only allow_once, allow_thread, allow_objective, allow_session, or deny",
                ),
            ),
        )
    }
}

/// The reason that is recorded with a decision.
pub fn approval_rationale(rationale: Option<String>) -> (r: Text)
    ensures
        r == match rationale {
            Some(text) => Text::Owned(text),
            None => Text::Fixed("the user decided through the Morphz approval channel"),
        },
{
    match rationale {
        Some(text) => Text::Owned(text),
        None => Text::Fixed("the user decided through the Morphz approval channel"),
    }
}

/// The answer to a decision that the runtime did not take: an unknown request, or for a reusable
/// permission a conflict.
pub fn approval_refusal(action: ApprovalAction, detail: String) -> (r: ErrorReply)
    ensures
        r == match action {
            ApprovalAction::AllowScope(_) => error::error_reply(409, Message::Owned(detail)),
            _ => error::error_reply(404, Message::Owned(detail)),
        },
{
    match action {
        ApprovalAction::AllowScope(_) => error_response(409, Message::Owned(detail)),
        _ => error_response(404, Message::Owned(detail)),
    }
}

/// No decision on an approval ever opens full access.
pub proof fn law_approvals_never_open_full_access(decision: Seq<char>)
    requires
        text::lowercase(text::trimmed(decision)) == "allow_all"@ || text::lowercase(
            text::trimmed(decision),
        ) == "full_access"@,
    ensures
        approval_meaning(decision) is Err,
{
    reveal_strlit("allow_all");
    reveal_strlit("full_access");
    reveal_strlit("allow_lease");
    reveal_strlit("approve_lease");
    reveal_strlit("allow_thread");
    reveal_strlit("allow_objective");
    reveal_strlit("allow_session");
    assert("allow_all"@[6] != "allow_lease"@[6]);
    assert("full_access"@[0] != "allow_lease"@[0]);
    assert("allow_all"@.len() == 9 && "allow_lease"@.len() == 11);
}

proof fn lemma_decision_words_differ()
    ensures
        "allow_lease"@.len() == 11 && "allow_lease"@[0] == 'a',
        "approve_lease"@.len() == 13 && "approve_lease"@[1] == 'p',
        "allow_thread"@.len() == 12,
        "allow_objective"@.len() == 15,
        "allow_session"@.len() == 13 && "allow_session"@[1] == 'l',
        "allow_all"@.len() == 9,
        "full_access"@.len() == 11 && "full_access"@[0] == 'f',
        "allow"@.len() == 5,
        "allow_once"@.len() == 10,
        "approve"@.len() == 7,
        "deny"@.len() == 4,
        "reject"@.len() == 6,
{
    reveal_strlit("allow_lease");
    reveal_strlit("approve_lease");
    reveal_strlit("allow_thread");
    reveal_strlit("allow_objective");
    reveal_strlit("allow_session");
    reveal_strlit("allow_all");
    reveal_strlit("full_access");
    reveal_strlit("allow");
    reveal_strlit("allow_once");
    reveal_strlit("approve");
    reveal_strlit("deny");
    reveal_strlit("reject");
}

/// What a decision means, in whatever case it is written and with spaces round it: it allows for
/// exactly the scope that it names, once where it names none, and denies where it says so. A word
/// that is not among these means nothing, and so does one that asks for full access.
pub proof fn law_decisions_mean_what_they_say(decision: Seq<char>)
    ensures
        ({
            let word = text::lowercase(text::trimmed(decision));
            let meaning = approval_meaning(decision);
            &&& word == "allow_lease"@ || word == "approve_lease"@ || word == "allow_thread"@
                <==> meaning == Ok::<ApprovalAction, &'static str>(
                ApprovalAction::AllowScope(CapabilityLeaseScope::Thread),
            )
            &&& word == "allow_objective"@ <==> meaning == Ok::<ApprovalAction, &'static str>(
                ApprovalAction::AllowScope(CapabilityLeaseScope::Objective),
            )
            &&& word == "allow_session"@ <==> meaning == Ok::<ApprovalAction, &'static str>(
                ApprovalAction::AllowScope(CapabilityLeaseScope::Session),
            )
            &&& word == "allow"@ || word == "allow_once"@ || word == "approve"@ <==> meaning == Ok::<
                ApprovalAction,
                &'static str,
            >(ApprovalAction::AllowOnce)
            &&& word == "deny"@ || word == "reject"@ <==> meaning == Ok::<
                ApprovalAction,
                &'static str,
            >(ApprovalAction::Deny)
            &&& word == "allow_all"@ || word == "full_access"@ ==> meaning == Err::<
                ApprovalAction,
                &'static str,
            >(
                "An approval decision cannot enable Full Access; update the Session permission preset explicitly instead",
            )
        }),
{
    lemma_decision_words_differ();
}

} // verus!
