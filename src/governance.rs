//! Upgrade-proposal governance: the voting window, the quorum of the
//! council, and the approval threshold that decide a proposal's outcome.
use vstd::prelude::*;
use std::collections::HashMap;

verus! {

broadcast use vstd::std_specs::hash::group_hash_axioms;

/// Seconds a proposal stays open for voting (seven days).
pub const VOTING_PERIOD_SECS: u64 = 604_800;

/// Share of the council that must vote, in basis points.
pub const QUORUM_BPS: u32 = 2000;

/// Share of cast votes that must be yes, in basis points.
pub const APPROVAL_BPS: u32 = 5000;

/// Lifecycle of an upgrade proposal.
#[derive(Clone, Copy, Debug, PartialEq, Eq, Structural)]
pub enum ProposalStatus {
    Active,
    Approved,
    Rejected,
    Executed,
    Cancelled,
}

/// Votes needed for quorum: `QUORUM_BPS` of the council, rounded up.
pub open spec fn quorum_of(total_voters: u32) -> int {
    ((total_voters as int) * (QUORUM_BPS as int) + 9999) / 10000
}

/// Whether `yes` of `total_cast` votes meets `APPROVAL_BPS` (the share is
/// rounded down to a whole basis point).
pub open spec fn approved_by(yes: u32, total_cast: u32) -> bool {
    total_cast > 0 && (yes as int) * 10000 / (total_cast as int) >= APPROVAL_BPS as int
}

/// Outcome of finalising a proposal with these votes and council size.
pub open spec fn outcome_of(yes: u32, no: u32, total_voters: u32) -> ProposalStatus {
    let cast = yes + no;
    if cast < quorum_of(total_voters) || !approved_by(yes, cast as u32) {
        ProposalStatus::Rejected
    } else {
        ProposalStatus::Approved
    }
}

/// Failures of the governance contract; a failing call changes nothing.
#[derive(Clone, Copy, Debug, PartialEq, Eq, Structural)]
pub enum GovernanceError {
    AlreadyInitialized,
    NotInitialized,
    Unauthorized,
    AlreadyMember,
    NotCouncilMember,
    ProposalNotFound,
    NotActive,
    VotingClosed,
    VotingOpen,
    AlreadyVoted,
    NotApproved,
    Overflow,
}

/// A proposal to upgrade the contract at `target` to a new code hash and
/// version.
#[derive(Clone, Copy, Debug, PartialEq, Eq)]
pub struct UpgradeProposal {
    pub id: u32,
    pub proposer: u64,
    pub target: u64,
    pub new_wasm: [u8; 32],
    pub new_major: u32,
    pub new_minor: u32,
    pub new_patch: u32,
    pub created_at: u64,
    pub voting_end: u64,
    pub status: ProposalStatus,
    pub yes_votes: u32,
    pub no_votes: u32,
    pub total_voters: u32,
}

/// The upgrade call that executing an approved proposal makes on `target`.
#[derive(Clone, Copy, Debug, PartialEq, Eq)]
pub struct UpgradeCall {
    pub target: u64,
    pub new_wasm: [u8; 32],
    pub new_major: u32,
    pub new_minor: u32,
    pub new_patch: u32,
}

/// Key of the vote of `voter` on proposal `proposal_id`.
pub open spec fn vote_key(proposal_id: u32, voter: u64) -> u128 {
    (proposal_id as int * 0x1_0000_0000_0000_0000 + voter as int) as u128
}

fn make_vote_key(proposal_id: u32, voter: u64) -> (k: u128)
    ensures
        k == vote_key(proposal_id, voter),
{
    proposal_id as u128 * 0x1_0000_0000_0000_0000u128 + voter as u128
}

/// Mathematical state of a governance contract.
pub struct GovernanceState {
    pub admin: Option<u64>,
    pub council: Seq<u64>,
    pub next_id: u32,
    pub proposals: Map<u32, UpgradeProposal>,
    /// Each recorded vote, keyed by `vote_key`.
    pub votes: Map<u128, bool>,
}

impl GovernanceState {
    pub open spec fn wf(self) -> bool {
        &&& self.council.len() <= u32::MAX
        &&& forall|id: u32| #[trigger] self.proposals.contains_key(id) ==> id < self.next_id
            && self.proposals[id].id == id
    }

    pub open spec fn is_member(self, who: u64) -> bool {
        self.council.contains(who)
    }

    /// The proposal with its status set to `status`.
    pub open spec fn with_status(self, id: u32, status: ProposalStatus) -> GovernanceState {
        GovernanceState {
            proposals: self.proposals.insert(id, UpgradeProposal { status, ..self.proposals[id] }),
            ..self
        }
    }
}

/// Outcome of the checks on a vote, in the order they apply.
pub open spec fn vote_check(v: GovernanceState, voter: u64, id: u32, now: u64) -> Result<(), GovernanceError> {
    if v.admin.is_none() {
        Err(GovernanceError::NotInitialized)
    } else if !v.is_member(voter) {
        Err(GovernanceError::NotCouncilMember)
    } else if !v.proposals.contains_key(id) {
        Err(GovernanceError::ProposalNotFound)
    } else if v.proposals[id].status != ProposalStatus::Active {
        Err(GovernanceError::NotActive)
    } else if now > v.proposals[id].voting_end {
        Err(GovernanceError::VotingClosed)
    } else if v.votes.contains_key(vote_key(id, voter)) {
        Err(GovernanceError::AlreadyVoted)
    } else if v.proposals[id].yes_votes + v.proposals[id].no_votes >= u32::MAX {
        Err(GovernanceError::Overflow)
    } else {
        Ok(())
    }
}

/// Outcome of the checks on finalising a proposal at `now`.
pub open spec fn finalize_check(v: GovernanceState, id: u32, now: u64) -> Result<(), GovernanceError> {
    if !v.proposals.contains_key(id) {
        Err(GovernanceError::ProposalNotFound)
    } else if v.proposals[id].status != ProposalStatus::Active {
        Err(GovernanceError::NotActive)
    } else if now <= v.proposals[id].voting_end {
        Err(GovernanceError::VotingOpen)
    } else {
        Ok(())
    }
}

pub open spec fn admin_check(v: GovernanceState, caller: u64) -> Result<(), GovernanceError> {
    match v.admin {
        None => Err(GovernanceError::NotInitialized),
        Some(a) => if a == caller {
            Ok(())
        } else {
            Err(GovernanceError::Unauthorized)
        },
    }
}

/// The council-member check on `who`.
pub open spec fn member_check(v: GovernanceState, who: u64) -> Result<(), GovernanceError> {
    if v.admin.is_none() {
        Err(GovernanceError::NotInitialized)
    } else if !v.is_member(who) {
        Err(GovernanceError::NotCouncilMember)
    } else {
        Ok(())
    }
}

/// A second vote by the same member on the same proposal is refused.
pub proof fn lemma_double_vote_guard(v: GovernanceState, voter: u64, id: u32, approve: bool, now: u64)
    requires
        vote_check(v, voter, id, now).is_ok(),
    ensures
        vote_check(
            GovernanceState { votes: v.votes.insert(vote_key(id, voter), approve), ..v },
            voter,
            id,
            now,
        ) == Err::<(), GovernanceError>(GovernanceError::AlreadyVoted),
{
}

/// Governance rules and state of upgrade proposals.
pub struct GovernanceContract {
    admin: Option<u64>,
    council: Vec<u64>,
    next_id: u32,
    proposals: HashMap<u32, UpgradeProposal>,
    votes: HashMap<u128, bool>,
}

impl View for GovernanceContract {
    type V = GovernanceState;

    closed spec fn view(&self) -> GovernanceState {
        GovernanceState {
            admin: self.admin,
            council: self.council@,
            next_id: self.next_id,
            proposals: self.proposals@,
            votes: self.votes@,
        }
    }
}

impl GovernanceContract {
    /// A contract that has not been initialised.
    pub fn new() -> (r: Self)
        ensures
            r@.wf(),
            r@.admin.is_none(),
            r@.council.len() == 0,
            r@.next_id == 0,
            r@.proposals.is_empty(),
            r@.votes.is_empty(),
    {
        GovernanceContract {
            admin: None,
            council: Vec::new(),
            next_id: 0,
            proposals: HashMap::new(),
            votes: HashMap::new(),
        }
    }

    /// Sets the admin and the council, once.
    pub fn initialize(&mut self, admin: u64, council: Vec<u64>) -> (r: Result<(), GovernanceError>)
        requires
            old(self)@.wf(),
        ensures
            final(self)@.wf(),
            old(self)@.admin.is_some() || council@.len() > u32::MAX ==> r.is_err() && final(self)@ == old(self)@,
            old(self)@.admin.is_some() ==> r == Err::<(), GovernanceError>(GovernanceError::AlreadyInitialized),
            old(self)@.admin.is_none() && council@.len() > u32::MAX ==> r == Err::<(), GovernanceError>(GovernanceError::Overflow),
            old(self)@.admin.is_none() && council@.len() <= u32::MAX ==> r.is_ok() && final(self)@ == (GovernanceState {
                admin: Some(admin),
                council: council@,
                ..old(self)@
            }),
    {
        if self.admin.is_some() {
            return Err(GovernanceError::AlreadyInitialized);
        }
        if council.len() > u32::MAX as usize {
            return Err(GovernanceError::Overflow);
        }
        self.admin = Some(admin);
        self.council = council;
        Ok(())
    }

    fn require_admin(&self, caller: u64) -> (r: Result<(), GovernanceError>)
        ensures
            r == admin_check(self@, caller),
    {
        match self.admin {
            None => Err(GovernanceError::NotInitialized),
            Some(a) => if a == caller {
                Ok(())
            } else {
                Err(GovernanceError::Unauthorized)
            },
        }
    }

    fn is_member(&self, who: u64) -> (r: bool)
        ensures
            r == self@.is_member(who),
    {
        let mut i: usize = 0;
        while i < self.council.len()
            invariant
                i <= self.council@.len(),
                forall|k: int| 0 <= k < i ==> self.council@[k] != who,
            decreases self.council@.len() - i,
        {
            if self.council[i] == who {
                assert(self.council@[i as int] == who);
                return true;
            }
            i = i + 1;
        }
        false
    }

    fn require_member(&self, who: u64) -> (r: Result<(), GovernanceError>)
        ensures
            r == member_check(self@, who),
    {
        if self.admin.is_none() {
            return Err(GovernanceError::NotInitialized);
        }
        if !self.is_member(who) {
            return Err(GovernanceError::NotCouncilMember);
        }
        Ok(())
    }

    /// Adds `member` to the council (admin only).
    pub fn add_member(&mut self, caller: u64, member: u64) -> (r: Result<(), GovernanceError>)
        requires
            old(self)@.wf(),
        ensures
            final(self)@.wf(),
            r.is_err() ==> final(self)@ == old(self)@,
            admin_check(old(self)@, caller).is_err() ==> r == admin_check(old(self)@, caller),
            admin_check(old(self)@, caller).is_ok() && old(self)@.is_member(member) ==> r == Err::<
                (),
                GovernanceError,
            >(GovernanceError::AlreadyMember),
            admin_check(old(self)@, caller).is_ok() && !old(self)@.is_member(member)
                && old(self)@.council.len() >= u32::MAX ==> r == Err::<(), GovernanceError>(
                GovernanceError::Overflow,
            ),
            admin_check(old(self)@, caller).is_ok() && !old(self)@.is_member(member)
                && old(self)@.council.len() < u32::MAX ==> r.is_ok() && final(self)@ == (
            GovernanceState { council: old(self)@.council.push(member), ..old(self)@ }),
    {
        self.require_admin(caller)?;
        if self.is_member(member) {
            return Err(GovernanceError::AlreadyMember);
        }
        if self.council.len() >= u32::MAX as usize {
            return Err(GovernanceError::Overflow);
        }
        self.council.push(member);
        Ok(())
    }

    /// Removes `member` from the council (admin only).
    pub fn remove_member(&mut self, caller: u64, member: u64) -> (r: Result<(), GovernanceError>)
        requires
            old(self)@.wf(),
        ensures
            final(self)@.wf(),
            admin_check(old(self)@, caller).is_err() ==> r == admin_check(old(self)@, caller)
                && final(self)@ == old(self)@,
            admin_check(old(self)@, caller).is_ok() ==> r.is_ok() && final(self)@ == (
            GovernanceState {
                council: old(self)@.council.filter(|m: u64| m != member),
                ..old(self)@
            }),
    {
        self.require_admin(caller)?;
        let ghost pred = |m: u64| m != member;
        let mut kept: Vec<u64> = Vec::new();
        let mut i: usize = 0;
        while i < self.council.len()
            invariant
                i <= self.council@.len(),
                pred == (|m: u64| m != member),
                kept@ == self.council@.subrange(0, i as int).filter(pred),
            decreases self.council@.len() - i,
        {
            let m = self.council[i];
            proof {
                let pre = self.council@.subrange(0, i as int);
                assert(self.council@.subrange(0, i + 1) =~= pre.push(m));
                pre.lemma_filter_push(m, pred);
            }
            if m != member {
                kept.push(m);
            }
            i = i + 1;
        }
        assert(self.council@.subrange(0, i as int) =~= self.council@);
        proof {
            self.council@.lemma_filter_len(pred);
        }
        self.council = kept;
        Ok(())
    }

    /// Opens a proposal by council member `proposer` at `now`; it takes the
    /// next id and stays open until `now + VOTING_PERIOD_SECS`, with the
    /// current council size as its electorate.
    pub fn propose_upgrade(
        &mut self,
        proposer: u64,
        target: u64,
        new_wasm: [u8; 32],
        new_major: u32,
        new_minor: u32,
        new_patch: u32,
        now: u64,
    ) -> (r: Result<u32, GovernanceError>)
        requires
            old(self)@.wf(),
        ensures
            final(self)@.wf(),
            r.is_err() ==> final(self)@ == old(self)@,
            member_check(old(self)@, proposer).is_err() ==> r == Err::<u32, GovernanceError>(
                member_check(old(self)@, proposer)->Err_0,
            ),
            member_check(old(self)@, proposer).is_ok() && (old(self)@.next_id == u32::MAX || now
                > u64::MAX - VOTING_PERIOD_SECS) ==> r == Err::<u32, GovernanceError>(
                GovernanceError::Overflow,
            ),
            member_check(old(self)@, proposer).is_ok() && old(self)@.next_id < u32::MAX && now
                <= u64::MAX - VOTING_PERIOD_SECS ==> {
                let id = old(self)@.next_id;
                &&& r == Ok::<u32, GovernanceError>(id)
                &&& final(self)@ == (GovernanceState {
                    next_id: (id + 1) as u32,
                    proposals: old(self)@.proposals.insert(
                        id,
                        UpgradeProposal {
                            id,
                            proposer,
                            target,
                            new_wasm,
                            new_major,
                            new_minor,
                            new_patch,
                            created_at: now,
                            voting_end: (now + VOTING_PERIOD_SECS) as u64,
                            status: ProposalStatus::Active,
                            yes_votes: 0,
                            no_votes: 0,
                            total_voters: old(self)@.council.len() as u32,
                        },
                    ),
                    ..old(self)@
                })
            },
    {
        self.require_member(proposer)?;
        if self.next_id == u32::MAX || now > u64::MAX - VOTING_PERIOD_SECS {
            return Err(GovernanceError::Overflow);
        }
        let id = self.next_id;
        let proposal = UpgradeProposal {
            id,
            proposer,
            target,
            new_wasm,
            new_major,
            new_minor,
            new_patch,
            created_at: now,
            voting_end: Self::voting_end(now),
            status: ProposalStatus::Active,
            yes_votes: 0,
            no_votes: 0,
            total_voters: self.council.len() as u32,
        };
        self.next_id = id + 1;
        self.proposals.insert(id, proposal);
        Ok(id)
    }

    /// Records the vote of council member `voter` on an active proposal
    /// whose window is open at `now`; each member votes once.
    pub fn vote(&mut self, voter: u64, proposal_id: u32, approve: bool, now: u64) -> (r: Result<
        (),
        GovernanceError,
    >)
        requires
            old(self)@.wf(),
        ensures
            final(self)@.wf(),
            r == vote_check(old(self)@, voter, proposal_id, now),
            r.is_err() ==> final(self)@ == old(self)@,
            r.is_ok() ==> {
                let p = old(self)@.proposals[proposal_id];
                final(self)@ == (GovernanceState {
                    votes: old(self)@.votes.insert(vote_key(proposal_id, voter), approve),
                    proposals: old(self)@.proposals.insert(
                        proposal_id,
                        if approve {
                            UpgradeProposal { yes_votes: (p.yes_votes + 1) as u32, ..p }
                        } else {
                            UpgradeProposal { no_votes: (p.no_votes + 1) as u32, ..p }
                        },
                    ),
                    ..old(self)@
                })
            },
    {
        self.require_member(voter)?;
        let mut p = match self.proposals.get(&proposal_id) {
            Some(p) => *p,
            None => {
                return Err(GovernanceError::ProposalNotFound);
            },
        };
        if p.status != ProposalStatus::Active {
            return Err(GovernanceError::NotActive);
        }
        if now > p.voting_end {
            return Err(GovernanceError::VotingClosed);
        }
        let key = make_vote_key(proposal_id, voter);
        if self.votes.contains_key(&key) {
            return Err(GovernanceError::AlreadyVoted);
        }
        if p.yes_votes as u64 + p.no_votes as u64 >= u32::MAX as u64 {
            return Err(GovernanceError::Overflow);
        }
        self.votes.insert(key, approve);
        if approve {
            p.yes_votes = p.yes_votes + 1;
        } else {
            p.no_votes = p.no_votes + 1;
        }
        self.proposals.insert(proposal_id, p);
        Ok(())
    }

    /// Closes an active proposal once its window is over: approved when the
    /// votes meet quorum and the approval threshold, else rejected. Anyone
    /// may call it.
    pub fn finalize(&mut self, proposal_id: u32, now: u64) -> (r: Result<(), GovernanceError>)
        requires
            old(self)@.wf(),
        ensures
            final(self)@.wf(),
            r.is_err() ==> final(self)@ == old(self)@,
            finalize_check(old(self)@, proposal_id, now).is_err() ==> r == finalize_check(
                old(self)@,
                proposal_id,
                now,
            ),
            finalize_check(old(self)@, proposal_id, now).is_ok() ==> {
                let p = old(self)@.proposals[proposal_id];
                p.yes_votes + p.no_votes > u32::MAX ==> r == Err::<(), GovernanceError>(
                    GovernanceError::Overflow,
                )
            },
            finalize_check(old(self)@, proposal_id, now).is_ok() ==> {
                let p = old(self)@.proposals[proposal_id];
                p.yes_votes + p.no_votes <= u32::MAX ==> r.is_ok() && final(self)@ == old(
                    self,
                )@.with_status(proposal_id, outcome_of(p.yes_votes, p.no_votes, p.total_voters))
            },
    {
        let mut p = match self.proposals.get(&proposal_id) {
            Some(p) => *p,
            None => {
                return Err(GovernanceError::ProposalNotFound);
            },
        };
        if p.status != ProposalStatus::Active {
            return Err(GovernanceError::NotActive);
        }
        if now <= p.voting_end {
            return Err(GovernanceError::VotingOpen);
        }
        if p.yes_votes as u64 + p.no_votes as u64 > u32::MAX as u64 {
            return Err(GovernanceError::Overflow);
        }
        p.status = Self::finalize_outcome(p.yes_votes, p.no_votes, p.total_voters);
        self.proposals.insert(proposal_id, p);
        Ok(())
    }

    /// Marks an approved proposal executed (council members only) and
    /// returns the upgrade call that the caller then makes on its target.
    pub fn execute(&mut self, executor: u64, proposal_id: u32) -> (r: Result<
        UpgradeCall,
        GovernanceError,
    >)
        requires
            old(self)@.wf(),
        ensures
            final(self)@.wf(),
            r.is_err() ==> final(self)@ == old(self)@,
            member_check(old(self)@, executor).is_err() ==> r == Err::<UpgradeCall, GovernanceError>(
                member_check(old(self)@, executor)->Err_0,
            ),
            member_check(old(self)@, executor).is_ok() && !old(self)@.proposals.contains_key(
                proposal_id,
            ) ==> r == Err::<UpgradeCall, GovernanceError>(GovernanceError::ProposalNotFound),
            member_check(old(self)@, executor).is_ok() && old(self)@.proposals.contains_key(
                proposal_id,
            ) ==> {
                let p = old(self)@.proposals[proposal_id];
                &&& p.status != ProposalStatus::Approved ==> r == Err::<
                    UpgradeCall,
                    GovernanceError,
                >(GovernanceError::NotApproved)
                &&& p.status == ProposalStatus::Approved ==> r == Ok::<UpgradeCall, GovernanceError>(
                    UpgradeCall {
                        target: p.target,
                        new_wasm: p.new_wasm,
                        new_major: p.new_major,
                        new_minor: p.new_minor,
                        new_patch: p.new_patch,
                    },
                ) && final(self)@ == old(self)@.with_status(proposal_id, ProposalStatus::Executed)
            },
    {
        self.require_member(executor)?;
        let mut p = match self.proposals.get(&proposal_id) {
            Some(p) => *p,
            None => {
                return Err(GovernanceError::ProposalNotFound);
            },
        };
        if p.status != ProposalStatus::Approved {
            return Err(GovernanceError::NotApproved);
        }
        p.status = ProposalStatus::Executed;
        self.proposals.insert(proposal_id, p);
        Ok(
            UpgradeCall {
                target: p.target,
                new_wasm: p.new_wasm,
                new_major: p.new_major,
                new_minor: p.new_minor,
                new_patch: p.new_patch,
            },
        )
    }

    /// Cancels an active proposal (admin only).
    pub fn cancel(&mut self, caller: u64, proposal_id: u32) -> (r: Result<(), GovernanceError>)
        requires
            old(self)@.wf(),
        ensures
            final(self)@.wf(),
            r.is_err() ==> final(self)@ == old(self)@,
            admin_check(old(self)@, caller).is_err() ==> r == admin_check(old(self)@, caller),
            admin_check(old(self)@, caller).is_ok() && !old(self)@.proposals.contains_key(
                proposal_id,
            ) ==> r == Err::<(), GovernanceError>(GovernanceError::ProposalNotFound),
            admin_check(old(self)@, caller).is_ok() && old(self)@.proposals.contains_key(
                proposal_id,
            ) ==> {
                let p = old(self)@.proposals[proposal_id];
                &&& p.status != ProposalStatus::Active ==> r == Err::<(), GovernanceError>(
                    GovernanceError::NotActive,
                )
                &&& p.status == ProposalStatus::Active ==> r.is_ok() && final(self)@ == old(
                    self,
                )@.with_status(proposal_id, ProposalStatus::Cancelled)
            },
    {
        self.require_admin(caller)?;
        let mut p = match self.proposals.get(&proposal_id) {
            Some(p) => *p,
            None => {
                return Err(GovernanceError::ProposalNotFound);
            },
        };
        if p.status != ProposalStatus::Active {
            return Err(GovernanceError::NotActive);
        }
        p.status = ProposalStatus::Cancelled;
        self.proposals.insert(proposal_id, p);
        Ok(())
    }

    /// The proposal with id `id`.
    pub fn get_proposal(&self, id: u32) -> (r: Result<UpgradeProposal, GovernanceError>)
        ensures
            self@.proposals.contains_key(id) ==> r == Ok::<UpgradeProposal, GovernanceError>(
                self@.proposals[id],
            ),
            !self@.proposals.contains_key(id) ==> r == Err::<UpgradeProposal, GovernanceError>(
                GovernanceError::ProposalNotFound,
            ),
    {
        match self.proposals.get(&id) {
            Some(p) => Ok(*p),
            None => Err(GovernanceError::ProposalNotFound),
        }
    }

    /// The council members.
    pub fn get_council(&self) -> (r: Vec<u64>)
        ensures
            r@ == self@.council,
    {
        let c = self.council.clone();
        assert(c@ =~= self.council@);
        c
    }

    /// How many proposals were opened.
    pub fn proposal_count(&self) -> (r: u32)
        ensures
            r == self@.next_id,
    {
        self.next_id
    }

    /// The vote of `voter` on `proposal_id`, if any.
    pub fn get_vote(&self, proposal_id: u32, voter: u64) -> (r: Option<bool>)
        ensures
            self@.votes.contains_key(vote_key(proposal_id, voter)) ==> r == Some(
                self@.votes[vote_key(proposal_id, voter)],
            ),
            !self@.votes.contains_key(vote_key(proposal_id, voter)) ==> r.is_none(),
    {
        let key = make_vote_key(proposal_id, voter);
        match self.votes.get(&key) {
            Some(v) => Some(*v),
            None => None,
        }
    }

    /// Votes needed for quorum in a council of `total_voters`.
    pub fn quorum_needed(total_voters: u32) -> (r: u32)
        ensures
            r == quorum_of(total_voters),
    {
        assert(total_voters as u64 * 2000 <= 0xFFFF_FFFFu64 * 2000) by (nonlinear_arith)
            requires total_voters <= u32::MAX;
        let scaled: u64 = total_voters as u64 * QUORUM_BPS as u64 + 9999;
        let q = scaled / 10000;
        assert(q <= u32::MAX) by (nonlinear_arith)
            requires
                q == scaled / 10000,
                scaled == total_voters * 2000 + 9999,
                total_voters <= u32::MAX,
        ;
        q as u32
    }

    /// Whether `yes` of `total_cast` votes approve; no votes never approve.
    pub fn is_approved(yes: u32, total_cast: u32) -> (r: bool)
        ensures
            r == approved_by(yes, total_cast),
    {
        if total_cast == 0 {
            return false;
        }
        assert(yes as u64 * 10000 <= 0xFFFF_FFFFu64 * 10000) by (nonlinear_arith)
            requires yes <= u32::MAX;
        let share: u64 = yes as u64 * 10000 / total_cast as u64;
        share >= APPROVAL_BPS as u64
    }

    /// End of the voting window of a proposal created at `created_at`.
    pub fn voting_end(created_at: u64) -> (r: u64)
        requires
            created_at <= u64::MAX - VOTING_PERIOD_SECS,
        ensures
            r == created_at + VOTING_PERIOD_SECS,
    {
        created_at + VOTING_PERIOD_SECS
    }

    /// Whether votes are still taken at `now`.
    pub fn voting_open(now: u64, voting_end: u64) -> (r: bool)
        ensures
            r == (now <= voting_end),
    {
        now <= voting_end
    }

    /// Status of a proposal finalised with `yes` and `no` votes in a council
    /// of `total_voters`: rejected below quorum or below the approval
    /// threshold, approved otherwise.
    pub fn finalize_outcome(yes: u32, no: u32, total_voters: u32) -> (r: ProposalStatus)
        requires
            yes + no <= u32::MAX,
        ensures
            r == outcome_of(yes, no, total_voters),
    {
        let cast: u32 = yes + no;
        if cast < Self::quorum_needed(total_voters) {
            ProposalStatus::Rejected
        } else if Self::is_approved(yes, cast) {
            ProposalStatus::Approved
        } else {
            ProposalStatus::Rejected
        }
    }
}

} // verus!
