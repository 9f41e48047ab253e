//! AL status.
use vstd::prelude::*;

verus! {

/// AL Status, defined in ETG1000.6 6.4.1.
#[derive(Debug, Default, Copy, Clone, PartialEq, Eq, Structural)]
pub enum AlState {
    /// No state.
    #[default]
    NotSet,
    /// Init.
    Init,
    /// Pre-operational.
    PreOp,
    /// Bootstrap.
    Bootstrap,
    /// Safe-operational.
    SafeOp,
    /// Operational.
    Op,
}

/// The state a raw value names, if any.
pub open spec fn al_state_from_u8(v: u8) -> Option<AlState> {
    if v == 0 {
        Some(AlState::NotSet)
    } else if v == 1 {
        Some(AlState::Init)
    } else if v == 2 {
        Some(AlState::PreOp)
    } else if v == 3 {
        Some(AlState::Bootstrap)
    } else if v == 4 {
        Some(AlState::SafeOp)
    } else if v == 8 {
        Some(AlState::Op)
    } else {
        None
    }
}

/// The raw value of a state.
pub open spec fn al_state_to_u8(s: AlState) -> u8 {
    match s {
        AlState::NotSet => 0,
        AlState::Init => 1,
        AlState::PreOp => 2,
        AlState::Bootstrap => 3,
        AlState::SafeOp => 4,
        AlState::Op => 8,
    }
}

/// The name of a state.
pub open spec fn al_state_name(s: AlState) -> Seq<char> {
    match s {
        AlState::NotSet => "None"@,
        AlState::Init => "Init"@,
        AlState::PreOp => "Pre-Operational"@,
        AlState::Bootstrap => "Bootstrap"@,
        AlState::SafeOp => "Safe-Operational"@,
        AlState::Op => "Operational"@,
    }
}

impl AlState {
    /// Decode a raw state.
    pub fn try_from_u8(v: u8) -> (r: Option<Self>)
        ensures
            r == al_state_from_u8(v),
    {
        if v == 0 {
            Some(AlState::NotSet)
        } else if v == 1 {
            Some(AlState::Init)
        } else if v == 2 {
            Some(AlState::PreOp)
        } else if v == 3 {
            Some(AlState::Bootstrap)
        } else if v == 4 {
            Some(AlState::SafeOp)
        } else if v == 8 {
            Some(AlState::Op)
        } else {
            None
        }
    }

    /// The raw value of this state.
    pub fn to_u8(&self) -> (r: u8)
        ensures
            r == al_state_to_u8(*self),
    {
        match self {
            AlState::NotSet => 0,
            AlState::Init => 1,
            AlState::PreOp => 2,
            AlState::Bootstrap => 3,
            AlState::SafeOp => 4,
            AlState::Op => 8,
        }
    }

    /// The human readable name of this state.
    pub fn name(&self) -> (r: &'static str)
        ensures
            r@ == al_state_name(*self),
    {
        match self {
            AlState::NotSet => "None",
            AlState::Init => "Init",
            AlState::PreOp => "Pre-Operational",
            AlState::Bootstrap => "Bootstrap",
            AlState::SafeOp => "Safe-Operational",
            AlState::Op => "Operational",
        }
    }
}

/// Every state survives a trip through its raw value.
pub proof fn lemma_al_state_roundtrip(s: AlState)
    ensures
        al_state_from_u8(al_state_to_u8(s)) == Some(s),
{
}

} // verus!
