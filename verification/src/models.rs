use vstd::prelude::*;

verus! {

/// The kind of an institution.
#[derive(Clone, Copy, Debug, PartialEq, Eq, Structural)]
pub enum InstitutionType {
    Vocational,
    High,
    College,
    University,
    Technical,
    Other,
}

/// The kind of a project proposal.
#[derive(Clone, Copy, Debug, PartialEq, Eq, Structural)]
pub enum ProposalType {
    Proposal,
    Revised,
    Supplemental,
    Continuation,
    Notice,
    Solicited,
    Other,
}

/// The kind of a member's role in an organisation.
#[derive(Clone, Copy, Debug, PartialEq, Eq, Structural)]
pub enum RoleType {
    Owner,
    Admin,
    Staff,
    Period,
}

} // verus!
