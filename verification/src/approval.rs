//! The two-party approval protocol, abstracted.
//!
//! Enabling automated commission management for a validator requires mutual
//! consent: one party (the validator authority or the block-builder
//! authority) proposes, and the other accepts. Either party may revoke
//! unilaterally at any time. The state space is exactly
//! `{Disabled, Pending(by), Enabled}`.
//!
//! The account-level operations in [`crate::multisig`] and
//! [`crate::rakurai_activation`] each carry an `ensures` clause stating that
//! the account's abstract state evolves by [`spec_approval_step`]; the proof
//! functions here state the protocol's laws once, over that step function.

use vstd::prelude::*;

verus! {

/// One of the two consenting parties.
#[derive(Clone, Copy, Debug, PartialEq, Eq, Structural)]
pub enum Party {
    Validator,
    BlockBuilder,
}

/// The abstract state of the approval protocol.
#[derive(Clone, Copy, Debug, PartialEq, Eq, Structural)]
pub enum ApprovalState {
    /// Automated management is off and no proposal is pending.
    Disabled,
    /// One party has proposed enabling and awaits the other's acceptance.
    Pending { by: Party },
    /// Both parties have consented; automated management is on.
    Enabled,
}

/// The other of the two parties.
pub open spec fn other_party(p: Party) -> Party {
    match p {
        Party::Validator => Party::BlockBuilder,
        Party::BlockBuilder => Party::Validator,
    }
}

/// One step of the approval protocol: `caller` either grants approval
/// (proposing, re-affirming, or accepting, depending on the state) or
/// revokes it.
pub open spec fn spec_approval_step(s: ApprovalState, caller: Party, grant: bool) -> ApprovalState {
    if !grant {
        ApprovalState::Disabled
    } else {
        match s {
            ApprovalState::Disabled => ApprovalState::Pending { by: caller },
            ApprovalState::Pending { by } => {
                if by == caller {
                    s
                } else {
                    ApprovalState::Enabled
                }
            },
            ApprovalState::Enabled => ApprovalState::Enabled,
        }
    }
}

/// Revocation is unconditional: a `grant = false` step by either party, in
/// any state, lands in `Disabled`.
pub proof fn lemma_revoke_always_disables(s: ApprovalState, caller: Party)
    ensures
        spec_approval_step(s, caller, false) == ApprovalState::Disabled,
{
}

/// `Enabled` is reached only by acceptance: a step ends `Enabled` exactly
/// when it grants approval and starts from a proposal pending by the other
/// party, or starts from `Enabled` itself.
pub proof fn lemma_enable_needs_acceptance(s: ApprovalState, caller: Party, grant: bool)
    ensures
        (spec_approval_step(s, caller, grant) == ApprovalState::Enabled) <==> (grant && (s
            == (ApprovalState::Pending { by: other_party(caller) }) || s
            == ApprovalState::Enabled)),
{
}

/// From `Disabled`, exactly the two-step sequences propose-then-accept by
/// distinct parties reach `Enabled`; a single step never does.
pub proof fn lemma_two_steps_from_disabled(c1: Party, g1: bool, c2: Party, g2: bool)
    ensures
        spec_approval_step(ApprovalState::Disabled, c1, g1) != ApprovalState::Enabled,
        (spec_approval_step(
            spec_approval_step(ApprovalState::Disabled, c1, g1),
            c2,
            g2,
        ) == ApprovalState::Enabled) <==> (g1 && g2 && c2 == other_party(c1)),
{
}

/// Re-affirming one's own pending proposal changes nothing.
pub proof fn lemma_reaffirm_is_noop(caller: Party)
    ensures
        spec_approval_step(ApprovalState::Pending { by: caller }, caller, true)
            == (ApprovalState::Pending { by: caller }),
{
}

} // verus!
