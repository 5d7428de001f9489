//! The calls that the tracker authority accepts.

use crate::error::VoteError;
use vstd::prelude::*;

verus! {

/// A call to the tracker: a tag byte with no payload.
#[derive(Clone, Copy, Debug, PartialEq, Eq, Structural)]
pub enum TrackerInstruction {
    Initialize,
    Approve,
    Reject,
}

impl TrackerInstruction {
    /// The payload that stands for this call.
    pub open spec fn encoded(self) -> Seq<u8> {
        match self {
            TrackerInstruction::Initialize => seq![0u8],
            TrackerInstruction::Approve => seq![1u8],
            TrackerInstruction::Reject => seq![2u8],
        }
    }

    /// The call that a payload stands for, if it stands for one.
    pub open spec fn decoded(data: Seq<u8>) -> Option<TrackerInstruction> {
        if data.len() == 1 && data[0] == 0 {
            Some(TrackerInstruction::Initialize)
        } else if data.len() == 1 && data[0] == 1 {
            Some(TrackerInstruction::Approve)
        } else if data.len() == 1 && data[0] == 2 {
            Some(TrackerInstruction::Reject)
        } else {
            None
        }
    }

    /// Decodes a payload. It must be the tag byte and nothing more.
    pub fn try_from_slice(data: &[u8]) -> (r: Result<TrackerInstruction, VoteError>)
        ensures
            match r {
                Ok(v) => Self::decoded(data@) == Some(v),
                Err(e) => e == VoteError::MalformedInstruction && Self::decoded(data@).is_none(),
            },
    {
        if data.len() != 1 {
            Err(VoteError::MalformedInstruction)
        } else if data[0] == 0 {
            Ok(TrackerInstruction::Initialize)
        } else if data[0] == 1 {
            Ok(TrackerInstruction::Approve)
        } else if data[0] == 2 {
            Ok(TrackerInstruction::Reject)
        } else {
            Err(VoteError::MalformedInstruction)
        }
    }

    /// Encodes the call as its payload. This never fails.
    pub fn try_to_vec(&self) -> (r: Result<Vec<u8>, VoteError>)
        ensures
            r matches Ok(data) && data@ == self.encoded(),
    {
        let mut data: Vec<u8> = Vec::new();
        match self {
            TrackerInstruction::Initialize => data.push(0u8),
            TrackerInstruction::Approve => data.push(1u8),
            TrackerInstruction::Reject => data.push(2u8),
        }
        assert(data@ =~= self.encoded());
        Ok(data)
    }

    /// Decoding an encoded call gives the call again.
    pub proof fn round_trip(self)
        ensures
            Self::decoded(self.encoded()) == Some(self),
    {
    }
}

} // verus!
