use vstd::bytes::*;
use vstd::prelude::*;

use crate::block0::Discrimination;
use crate::errors::WalletError;

verus! {

/// The most options a proposal may offer: the protocol maximum.
pub const MAX_VOTE_OPTIONS: u8 = 16;

/// How a vote's payload is carried on chain.
#[derive(Clone, Copy, Debug, PartialEq, Eq, Structural)]
pub enum PayloadType {
    /// The choice is recorded in clear.
    Public,
    /// The choice is encrypted until the tally.
    Private,
}

impl PayloadType {
    /// The on-chain byte for this payload type.
    pub open spec fn byte_spec(self) -> u8 {
        match self {
            PayloadType::Public => 1,
            PayloadType::Private => 2,
        }
    }

    /// Decode a payload-type byte. Succeeds exactly on the two recognized
    /// values; every failure is [`WalletError::InvalidPayloadType`].
    pub fn from_byte(b: u8) -> (r: Result<PayloadType, WalletError>)
        ensures
            r is Ok <==> (b == 1 || b == 2),
            r matches Ok(p) ==> p.byte_spec() == b,
            r matches Err(e) ==> e == WalletError::InvalidPayloadType,
    {
        if b == 1 {
            Ok(PayloadType::Public)
        } else if b == 2 {
            Ok(PayloadType::Private)
        } else {
            Err(WalletError::InvalidPayloadType)
        }
    }

    /// Encode this payload type as its on-chain byte.
    pub fn to_byte(&self) -> (r: u8)
        ensures
            r == self.byte_spec(),
    {
        match self {
            PayloadType::Public => 1,
            PayloadType::Private => 2,
        }
    }
}

/// The closed range `[0, num_choices)` of valid choice values of a
/// proposal.
#[derive(Clone, Copy, Debug, PartialEq, Eq, Structural)]
pub struct VoteOptions {
    pub num_choices: u8,
}

impl VoteOptions {
    /// Whether a count of options is allowed by the protocol: non-zero and
    /// at most [`MAX_VOTE_OPTIONS`].
    pub open spec fn valid_count(n: u8) -> bool {
        1 <= n <= MAX_VOTE_OPTIONS
    }

    /// Build the options range of a proposal. Succeeds exactly on counts
    /// the protocol allows; every failure is
    /// [`WalletError::InvalidChoiceCount`].
    pub fn new_length(num_choices: u8) -> (r: Result<VoteOptions, WalletError>)
        ensures
            r is Ok <==> Self::valid_count(num_choices),
            r matches Ok(o) ==> o.num_choices == num_choices,
            r matches Err(e) ==> e == WalletError::InvalidChoiceCount,
    {
        if 1 <= num_choices && num_choices <= MAX_VOTE_OPTIONS {
            Ok(VoteOptions { num_choices })
        } else {
            Err(WalletError::InvalidChoiceCount)
        }
    }

    /// Whether a choice falls inside this range.
    pub open spec fn in_range_spec(self, choice: u8) -> bool {
        choice < self.num_choices
    }

    /// Test a choice against this range.
    pub fn in_range(&self, choice: u8) -> (r: bool)
        ensures
            r == self.in_range_spec(choice),
    {
        choice < self.num_choices
    }
}

/// A governance vote instance on chain: its 32-byte identifier and how its
/// payloads are carried.
pub struct VotePlan {
    pub id: Vec<u8>,
    pub payload_type: PayloadType,
}

impl VotePlan {
    pub open spec fn wf(self) -> bool {
        self.id@.len() == 32
    }

    /// Build a vote plan reference. Succeeds exactly when the identifier
    /// is 32 bytes long; every failure is
    /// [`WalletError::InvalidVotePlanId`].
    pub fn new(id: Vec<u8>, payload_type: PayloadType) -> (r: Result<VotePlan, WalletError>)
        ensures
            r is Ok <==> id@.len() == 32,
            r matches Ok(p) ==> p.id@ == id@ && p.payload_type == payload_type && p.wf(),
            r matches Err(e) ==> e == WalletError::InvalidVotePlanId,
    {
        if id.len() == 32 {
            Ok(VotePlan { id, payload_type })
        } else {
            Err(WalletError::InvalidVotePlanId)
        }
    }
}

/// One proposal within a vote plan: its position and its option range.
#[derive(Clone, Copy, Debug, PartialEq, Eq, Structural)]
pub struct Proposal {
    pub index: u8,
    pub options: VoteOptions,
}

impl Proposal {
    /// Pair a proposal index with its option range.
    pub fn new(index: u8, options: VoteOptions) -> (r: Proposal)
        ensures
            r.index == index,
            r.options == options,
    {
        Proposal { index, options }
    }
}

/// Build a vote plan from its raw parts: a 32-byte identifier and a
/// payload-type byte. Fails with [`WalletError::InvalidPayloadType`] on an
/// unrecognized byte and with [`WalletError::InvalidVotePlanId`] on a
/// wrong-sized identifier.
pub fn build_vote_plan(id: Vec<u8>, payload_type: u8) -> (r: Result<VotePlan, WalletError>)
    ensures
        r is Ok <==> (payload_type == 1 || payload_type == 2) && id@.len() == 32,
        r matches Ok(p) ==> p.wf() && p.id@ == id@ && p.payload_type.byte_spec() == payload_type,
        r matches Err(e) ==> if payload_type == 1 || payload_type == 2 {
            e == WalletError::InvalidVotePlanId
        } else {
            e == WalletError::InvalidPayloadType
        },
{
    let payload_type = match PayloadType::from_byte(payload_type) {
        Ok(p) => p,
        Err(e) => {
            return Err(e);
        },
    };
    VotePlan::new(id, payload_type)
}

/// Build a proposal from its raw parts: its index within the vote plan and
/// its option count. Fails with [`WalletError::InvalidChoiceCount`]
/// exactly when the count is zero or above the protocol maximum.
pub fn build_proposal(index: u8, num_choices: u8) -> (r: Result<Proposal, WalletError>)
    ensures
        r is Ok <==> VoteOptions::valid_count(num_choices),
        r matches Ok(p) ==> p.index == index && p.options.num_choices == num_choices,
        r matches Err(e) ==> e == WalletError::InvalidChoiceCount,
{
    let options = match VoteOptions::new_length(num_choices) {
        Ok(o) => o,
        Err(e) => {
            return Err(e);
        },
    };
    Ok(Proposal::new(index, options))
}

/// The on-chain byte of a discrimination tag.
pub open spec fn discrimination_byte(d: Discrimination) -> u8 {
    match d {
        Discrimination::Production => 0,
        Discrimination::Test => 1,
    }
}

/// The unsigned body of a vote-cast transaction: a tag byte, the genesis
/// hash, the discrimination, the vote plan id and payload type, the
/// proposal index and the chosen option, then the voting account, its
/// anti-replay counter and the fee it pays.
pub open spec fn vote_tx_payload(
    hash: Seq<u8>,
    discrimination: Discrimination,
    plan_id: Seq<u8>,
    payload_type: PayloadType,
    proposal_index: u8,
    choice: u8,
    account_pk: Seq<u8>,
    counter: u32,
    fee: u64,
) -> Seq<u8> {
    seq![2u8] + hash + seq![discrimination_byte(discrimination)] + plan_id + seq![
        payload_type.byte_spec(),
        proposal_index,
        choice,
    ] + account_pk + spec_u32_to_le_bytes(counter) + spec_u64_to_le_bytes(fee)
}

} // verus!
