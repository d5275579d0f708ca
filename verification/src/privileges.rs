//! Privilege escalation over an explicit security context.
//!
//! Escalation mutates the calling process's security token, a process-wide
//! side effect, so it is modelled as an operation on a `SecurityContext`
//! value owned by the session.  The context records, for each privilege the
//! optimizer needs, whether the operating system grants it to the current
//! token; the caller who holds the token learns this by attempting the
//! grants and builds the context from the outcomes.

use vstd::prelude::*;

verus! {

/// The security context of the calling process: which of the required
/// privileges the operating system grants to its token, and which are
/// currently enabled on it.
#[derive(Clone, Copy, Debug, PartialEq, Eq, Structural)]
pub struct SecurityContext {
    /// The token may hold the privilege to access protected processes.
    pub debug_grantable: bool,
    /// The token may hold the privilege to lower another process's base
    /// priority.
    pub base_priority_grantable: bool,
    /// The access-protected-process privilege is enabled on the token.
    pub debug_enabled: bool,
    /// The lower-base-priority privilege is enabled on the token.
    pub base_priority_enabled: bool,
}

impl SecurityContext {
    /// An enabled privilege is necessarily one the system grants.
    pub open spec fn wf(self) -> bool {
        &&& self.debug_enabled ==> self.debug_grantable
        &&& self.base_priority_enabled ==> self.base_priority_grantable
    }

    /// How many of the required privileges the system grants to this token.
    pub open spec fn grantable_count(self) -> int {
        (if self.debug_grantable {
            1int
        } else {
            0int
        }) + (if self.base_priority_grantable {
            1int
        } else {
            0int
        })
    }

    /// A fresh context for a token that grants the given privileges;
    /// nothing is enabled yet.
    pub fn new(debug_grantable: bool, base_priority_grantable: bool) -> (c: SecurityContext)
        ensures
            c.debug_grantable == debug_grantable,
            c.base_priority_grantable == base_priority_grantable,
            !c.debug_enabled,
            !c.base_priority_enabled,
            c.wf(),
    {
        SecurityContext {
            debug_grantable,
            base_priority_grantable,
            debug_enabled: false,
            base_priority_enabled: false,
        }
    }
}

/// What one escalation attempt does to the context: every grantable
/// required privilege ends up enabled, every other stays disabled, and
/// what the system grants is untouched.
pub open spec fn escalation_post(pre: SecurityContext, post: SecurityContext) -> bool {
    &&& post.debug_grantable == pre.debug_grantable
    &&& post.base_priority_grantable == pre.base_priority_grantable
    &&& post.debug_enabled == pre.debug_grantable
    &&& post.base_priority_enabled == pre.base_priority_grantable
}

/// Attempts to enable every privilege the optimizer needs on the calling
/// process's token.  Never fails the caller: the return value is the count
/// of privileges now enabled alongside the count requested, and only a
/// count of zero means every individual privilege was unavailable.
/// Re-enabling an already-enabled privilege is a no-op, so the call is
/// idempotent.
pub fn enable_required_privileges(context: &mut SecurityContext) -> (counts: (usize, usize))
    ensures
        escalation_post(*old(context), *final(context)),
        final(context).wf(),
        counts.0 == old(context).grantable_count(),
        counts.1 == 2,
        counts.0 >= 1 <==> (old(context).debug_grantable
            || old(context).base_priority_grantable),
{
    let mut enabled: usize = 0;
    if context.debug_grantable {
        context.debug_enabled = true;
        enabled = enabled + 1;
    } else {
        context.debug_enabled = false;
    }
    if context.base_priority_grantable {
        context.base_priority_enabled = true;
        enabled = enabled + 1;
    } else {
        context.base_priority_enabled = false;
    }
    (enabled, 2)
}

/// The names of the privileges escalation requests, in the order they are
/// attempted: the access-protected-process privilege, then the
/// lower-base-priority privilege.
pub fn required_privilege_names() -> (names: Vec<String>)
    ensures
        names@.len() == 2,
        names@[0]@ == "SeDebugPrivilege"@,
        names@[1]@ == "SeIncreaseBasePriorityPrivilege"@,
{
    let mut names: Vec<String> = Vec::new();
    names.push("SeDebugPrivilege".to_owned());
    names.push("SeIncreaseBasePriorityPrivilege".to_owned());
    names
}

/// Idempotence of elevation: escalating a context that was already
/// escalated changes nothing, so a second call reports the same enabled
/// count as the first and leaves the same context behind.
pub proof fn lemma_escalation_idempotent(
    first: SecurityContext,
    second: SecurityContext,
    third: SecurityContext,
)
    requires
        escalation_post(first, second),
        escalation_post(second, third),
    ensures
        third == second,
        second.grantable_count() == first.grantable_count(),
{
}

} // verus!
