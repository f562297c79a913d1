//! Which optional blocks of data a replay carries.
//!
//! Slippi added fields to its frame and item events over time. A replay
//! holds a block of fields for every format version it reaches, and a
//! version's block is only ever present when the older ones are, so each
//! kind of data is described by the newest block it carries.
use vstd::prelude::*;

verus! {

/// Newest block of pre-frame fields present.
#[derive(Clone, Copy, Debug, PartialEq, Eq, Structural)]
pub enum PreVersion {
    Base,
    /// Adds `raw_analog_x` (Slippi 1.2).
    V1_2,
    /// Adds `damage` (Slippi 1.4).
    V1_4,
}

/// Newest block of post-frame fields present.
#[derive(Clone, Copy, Debug, PartialEq, Eq, Structural)]
pub enum PostVersion {
    Base,
    /// Adds `state_age` (Slippi 0.2).
    V0_2,
    /// Adds `flags`, `misc_as`, `airborne`, `ground`, `jumps`, `l_cancel` (Slippi 2.0).
    V2_0,
    /// Adds `hurtbox_state` (Slippi 2.1).
    V2_1,
    /// Adds `velocities` (Slippi 3.5).
    V3_5,
    /// Adds `hitlag` (Slippi 3.8).
    V3_8,
}

/// Newest block of item fields present.
#[derive(Clone, Copy, Debug, PartialEq, Eq, Structural)]
pub enum ItemVersion {
    Base,
    /// Adds `misc` (Slippi 3.2).
    V3_2,
    /// Adds `owner` (Slippi 3.6).
    V3_6,
}

/// The blocks present in a replay's frame data (leader and follower share them).
#[derive(Clone, Copy, Debug, PartialEq, Eq, Structural)]
pub struct FrameVersions {
    pub pre: PreVersion,
    pub post: PostVersion,
}

impl PreVersion {
    /// Number of optional blocks present.
    pub open spec fn spec_depth(self) -> nat {
        match self {
            PreVersion::Base => 0,
            PreVersion::V1_2 => 1,
            PreVersion::V1_4 => 2,
        }
    }

    /// Number of optional blocks present.
    pub fn depth(self) -> (d: usize)
        ensures
            d == self.spec_depth(),
    {
        match self {
            PreVersion::Base => 0,
            PreVersion::V1_2 => 1,
            PreVersion::V1_4 => 2,
        }
    }
}

impl PostVersion {
    /// Number of optional blocks present.
    pub open spec fn spec_depth(self) -> nat {
        match self {
            PostVersion::Base => 0,
            PostVersion::V0_2 => 1,
            PostVersion::V2_0 => 2,
            PostVersion::V2_1 => 3,
            PostVersion::V3_5 => 4,
            PostVersion::V3_8 => 5,
        }
    }

    /// Number of optional blocks present.
    pub fn depth(self) -> (d: usize)
        ensures
            d == self.spec_depth(),
    {
        match self {
            PostVersion::Base => 0,
            PostVersion::V0_2 => 1,
            PostVersion::V2_0 => 2,
            PostVersion::V2_1 => 3,
            PostVersion::V3_5 => 4,
            PostVersion::V3_8 => 5,
        }
    }
}

impl ItemVersion {
    /// Number of optional blocks present.
    pub open spec fn spec_depth(self) -> nat {
        match self {
            ItemVersion::Base => 0,
            ItemVersion::V3_2 => 1,
            ItemVersion::V3_6 => 2,
        }
    }

    /// Number of optional blocks present.
    pub fn depth(self) -> (d: usize)
        ensures
            d == self.spec_depth(),
    {
        match self {
            ItemVersion::Base => 0,
            ItemVersion::V3_2 => 1,
            ItemVersion::V3_6 => 2,
        }
    }
}

} // verus!
