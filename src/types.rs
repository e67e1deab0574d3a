use vstd::prelude::*;

verus! {

/// One of the six process priority classes of the operating system.
#[derive(PartialEq, Eq, Structural, Clone, Copy, Debug)]
pub enum PriorityClass {
    Idle,
    BelowNormal,
    Normal,
    AboveNormal,
    High,
    Realtime,
}

pub const IDLE_PRIORITY_FLAG: u32 = 0x40;
pub const BELOW_NORMAL_PRIORITY_FLAG: u32 = 0x4000;
pub const NORMAL_PRIORITY_FLAG: u32 = 0x20;
pub const ABOVE_NORMAL_PRIORITY_FLAG: u32 = 0x8000;
pub const HIGH_PRIORITY_FLAG: u32 = 0x80;
pub const REALTIME_PRIORITY_FLAG: u32 = 0x100;

/// The process-creation flag the operating system uses for a class.
pub open spec fn flag_of(p: PriorityClass) -> u32 {
    match p {
        PriorityClass::Idle => IDLE_PRIORITY_FLAG,
        PriorityClass::BelowNormal => BELOW_NORMAL_PRIORITY_FLAG,
        PriorityClass::Normal => NORMAL_PRIORITY_FLAG,
        PriorityClass::AboveNormal => ABOVE_NORMAL_PRIORITY_FLAG,
        PriorityClass::High => HIGH_PRIORITY_FLAG,
        PriorityClass::Realtime => REALTIME_PRIORITY_FLAG,
    }
}

/// The class at a position of the scale, from `Idle` (0) to `Realtime` (5).
pub open spec fn class_at(n: nat) -> Option<PriorityClass> {
    if n == 0 {
        Some(PriorityClass::Idle)
    } else if n == 1 {
        Some(PriorityClass::BelowNormal)
    } else if n == 2 {
        Some(PriorityClass::Normal)
    } else if n == 3 {
        Some(PriorityClass::AboveNormal)
    } else if n == 4 {
        Some(PriorityClass::High)
    } else if n == 5 {
        Some(PriorityClass::Realtime)
    } else {
        None
    }
}

impl PriorityClass {
    /// The process-creation flag to hand to the operating system.
    pub fn flag(&self) -> (r: u32)
        ensures
            r == flag_of(*self),
            r == IDLE_PRIORITY_FLAG || r == BELOW_NORMAL_PRIORITY_FLAG || r == NORMAL_PRIORITY_FLAG
                || r == ABOVE_NORMAL_PRIORITY_FLAG || r == HIGH_PRIORITY_FLAG
                || r == REALTIME_PRIORITY_FLAG,
    {
        match self {
            PriorityClass::Idle => IDLE_PRIORITY_FLAG,
            PriorityClass::BelowNormal => BELOW_NORMAL_PRIORITY_FLAG,
            PriorityClass::Normal => NORMAL_PRIORITY_FLAG,
            PriorityClass::AboveNormal => ABOVE_NORMAL_PRIORITY_FLAG,
            PriorityClass::High => HIGH_PRIORITY_FLAG,
            PriorityClass::Realtime => REALTIME_PRIORITY_FLAG,
        }
    }
}

/// What the user asked for: whether to act, and which class to apply.
#[derive(PartialEq, Eq, Structural, Clone, Copy, Debug)]
pub struct ModSettings {
    pub enabled: bool,
    pub priority: Option<PriorityClass>,
}

/// The settings in force when nothing valid was configured.
pub open spec fn default_settings() -> ModSettings {
    ModSettings { enabled: true, priority: Some(PriorityClass::High) }
}

impl ModSettings {
    pub fn defaults() -> (r: ModSettings)
        ensures
            r == default_settings(),
    {
        ModSettings { enabled: true, priority: Some(PriorityClass::High) }
    }
}

} // verus!
