//! The closed set of logical render channels.
//!
//! A channel is a tag, not data: it names one output of the pipeline and keys
//! the texture that backs it. Each channel has a small integer code, and the
//! set of all channels is handed out as the set of their codes.

use std::collections::HashSet;
use vstd::prelude::*;

verus! {

/// A logical output of the pipeline, each backed by a texture of its own.
#[derive(Clone, Copy, Debug, PartialEq, Eq, Hash, Structural)]
pub enum RenderSteps {
    Diffuse,
    Emissive,
}

impl RenderSteps {
    /// The integer under which a channel is stored and looked up.
    pub open spec fn spec_code(self) -> u8 {
        match self {
            RenderSteps::Diffuse => 0,
            RenderSteps::Emissive => 1,
        }
    }

    /// The channel that a code stands for, if it stands for one.
    pub open spec fn spec_from_code(code: u8) -> Option<RenderSteps> {
        if code == 0 {
            Some(RenderSteps::Diffuse)
        } else if code == 1 {
            Some(RenderSteps::Emissive)
        } else {
            None
        }
    }

    /// The codes of all channels.
    pub open spec fn spec_hash_set() -> Set<u8> {
        Set::new(|code: u8| Self::spec_from_code(code).is_some())
    }

    pub fn code(&self) -> (code: u8)
        ensures
            code == self.spec_code(),
    {
        match self {
            RenderSteps::Diffuse => 0,
            RenderSteps::Emissive => 1,
        }
    }

    pub fn from_code(code: u8) -> (channel: Option<RenderSteps>)
        ensures
            channel == Self::spec_from_code(code),
    {
        if code == 0 {
            Some(RenderSteps::Diffuse)
        } else if code == 1 {
            Some(RenderSteps::Emissive)
        } else {
            None
        }
    }

    /// The complete set of channels, each under its code.
    pub fn get_hash_set() -> (set: HashSet<u8>)
        ensures
            set@ == Self::spec_hash_set(),
            set@.finite(),
            set@.len() == 2,
    {
        let mut set: HashSet<u8> = HashSet::new();
        set.insert(RenderSteps::Diffuse.code());
        set.insert(RenderSteps::Emissive.code());
        proof {
            assert(set@ =~= Self::spec_hash_set());
            lemma_channel_count();
        }
        set
    }
}

/// A code and the channel it stands for determine each other.
pub proof fn lemma_code_round_trip(channel: RenderSteps, code: u8)
    ensures
        RenderSteps::spec_from_code(channel.spec_code()) == Some(channel),
        RenderSteps::spec_from_code(code) == Some(channel) <==> channel.spec_code() == code,
{
}

/// Every channel is a member of the channel set, and nothing else is: a code
/// is a member exactly when it is the code of some channel.
pub proof fn lemma_set_is_exactly_the_channels(channel: RenderSteps, code: u8)
    ensures
        RenderSteps::spec_hash_set().contains(channel.spec_code()),
        RenderSteps::spec_hash_set().contains(code) <==> (code
            == RenderSteps::Diffuse.spec_code() || code == RenderSteps::Emissive.spec_code()),
{
}

/// The channel set holds each channel once: it has as many members as there
/// are channels, and two channels with one code are the same channel.
pub proof fn lemma_channel_count()
    ensures
        RenderSteps::spec_hash_set().finite(),
        RenderSteps::spec_hash_set().len() == 2,
        forall|a: RenderSteps, b: RenderSteps| a.spec_code() == b.spec_code() ==> a == b,
{
    let codes = Set::<u8>::empty().insert(0u8).insert(1u8);
    assert(RenderSteps::spec_hash_set() =~= codes);
}

} // verus!
