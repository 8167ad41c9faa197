use vstd::prelude::*;

verus! {

/// The resistance an incoming spell is checked against, as the host's
/// game-data layer reports it. The core reads it only to classify the
/// spell's damage; every resistance it does not map is `Other`.
#[derive(Clone, Copy, Debug, Default, PartialEq, Eq, Structural, Hash)]
pub enum ActorValue {
    ResistFire,
    ResistFrost,
    ResistShock,
    ResistMagic,
    ResistDisease,
    PoisonResist,
    #[default]
    Other,
}

/// The flavor of damage a spell deals, for icon and color hints.
#[derive(Clone, Copy, Debug, Default, PartialEq, Eq, Structural, Hash)]
pub enum MagicDamageType {
    #[default]
    Untyped,
    Arcane,
    Arclight,
    Astral,
    Bleed,
    ColdFire,
    Disease,
    Earth,
    Fire,
    Frost,
    Lunar,
    Magic,
    Necrotic,
    Poison,
    Shadow,
    Shock,
    Stamina,
    Sun,
    Water,
    Wind,
}

/// The school a spell belongs to.
#[derive(Clone, Copy, Debug, Default, PartialEq, Eq, Structural, Hash)]
pub enum School {
    Alteration,
    Conjuration,
    Destruction,
    Illusion,
    Restoration,
    #[default]
    Unknown,
}

/// The skill tier of a spell.
#[derive(Clone, Copy, Debug, Default, PartialEq, Eq, Structural, Hash)]
pub enum MagicSpellLevel {
    #[default]
    Novice,
    Apprentice,
    Adept,
    Master,
    Expert,
}

/// How a spell is cast.
#[derive(Clone, Copy, Debug, PartialEq, Eq, Structural, Hash)]
pub enum CastingType {
    ConstantEffect,
    FireAndForget,
    Concentration,
    Scroll,
}

/// How a spell reaches its target.
#[derive(Clone, Copy, Debug, PartialEq, Eq, Structural, Hash)]
pub enum Delivery {
    Player,
    Touch,
    Aimed,
    TargetActor,
    TargetLocation,
}

/// The school encoded by the game's raw school number.
pub open spec fn school_for_value(value: i32) -> School {
    if value == 18 {
        School::Alteration
    } else if value == 19 {
        School::Conjuration
    } else if value == 20 {
        School::Destruction
    } else if value == 21 {
        School::Illusion
    } else if value == 22 {
        School::Restoration
    } else {
        School::Unknown
    }
}

/// The spell tier a raw skill level falls into.
pub open spec fn level_for_skill(skill_level: u32) -> MagicSpellLevel {
    if skill_level >= 100 {
        MagicSpellLevel::Master
    } else if skill_level >= 75 {
        MagicSpellLevel::Expert
    } else if skill_level >= 50 {
        MagicSpellLevel::Adept
    } else if skill_level >= 25 {
        MagicSpellLevel::Apprentice
    } else {
        MagicSpellLevel::Novice
    }
}

/// The damage flavor implied by the resistance a spell checks.
pub open spec fn damage_for_resist(resist: ActorValue) -> MagicDamageType {
    match resist {
        ActorValue::ResistFire => MagicDamageType::Fire,
        ActorValue::ResistFrost => MagicDamageType::Frost,
        ActorValue::ResistShock => MagicDamageType::Shock,
        ActorValue::ResistMagic => MagicDamageType::Arcane,
        ActorValue::ResistDisease => MagicDamageType::Disease,
        ActorValue::PoisonResist => MagicDamageType::Poison,
        ActorValue::Other => MagicDamageType::Untyped,
    }
}

/// The casting type encoded by the game's raw casting number.
pub open spec fn casting_for_value(value: u32) -> CastingType {
    if value == 0 {
        CastingType::ConstantEffect
    } else if value == 1 {
        CastingType::FireAndForget
    } else if value == 2 {
        CastingType::Concentration
    } else {
        CastingType::Scroll
    }
}

/// The delivery encoded by the game's raw delivery number.
pub open spec fn delivery_for_value(value: u32) -> Delivery {
    if value == 0 {
        Delivery::Player
    } else if value == 1 {
        Delivery::Touch
    } else if value == 2 {
        Delivery::Aimed
    } else if value == 3 {
        Delivery::TargetActor
    } else {
        Delivery::TargetLocation
    }
}

impl From<i32> for School {
    /// Decode the game's raw school number; unmapped numbers read as
    /// `Unknown`.
    fn from(value: i32) -> (r: Self) {
        if value == 18 {
            School::Alteration
        } else if value == 19 {
            School::Conjuration
        } else if value == 20 {
            School::Destruction
        } else if value == 21 {
            School::Illusion
        } else if value == 22 {
            School::Restoration
        } else {
            School::Unknown
        }
    }
}

impl vstd::std_specs::convert::FromSpecImpl<i32> for School {
    open spec fn obeys_from_spec() -> bool {
        true
    }

    open spec fn from_spec(value: i32) -> Self {
        school_for_value(value)
    }
}

impl From<u32> for MagicSpellLevel {
    /// The tier a raw skill level falls into.
    fn from(skill_level: u32) -> (r: Self) {
        if skill_level >= 100 {
            MagicSpellLevel::Master
        } else if skill_level >= 75 {
            MagicSpellLevel::Expert
        } else if skill_level >= 50 {
            MagicSpellLevel::Adept
        } else if skill_level >= 25 {
            MagicSpellLevel::Apprentice
        } else {
            MagicSpellLevel::Novice
        }
    }
}

impl vstd::std_specs::convert::FromSpecImpl<u32> for MagicSpellLevel {
    open spec fn obeys_from_spec() -> bool {
        true
    }

    open spec fn from_spec(skill_level: u32) -> Self {
        level_for_skill(skill_level)
    }
}

impl From<u32> for CastingType {
    /// Decode the game's raw casting number; unmapped numbers read as
    /// `Scroll`.
    fn from(value: u32) -> (r: Self) {
        if value == 0 {
            CastingType::ConstantEffect
        } else if value == 1 {
            CastingType::FireAndForget
        } else if value == 2 {
            CastingType::Concentration
        } else {
            CastingType::Scroll
        }
    }
}

impl vstd::std_specs::convert::FromSpecImpl<u32> for CastingType {
    open spec fn obeys_from_spec() -> bool {
        true
    }

    open spec fn from_spec(value: u32) -> Self {
        casting_for_value(value)
    }
}

impl From<u32> for Delivery {
    /// Decode the game's raw delivery number; unmapped numbers read as
    /// `TargetLocation`.
    fn from(value: u32) -> (r: Self) {
        if value == 0 {
            Delivery::Player
        } else if value == 1 {
            Delivery::Touch
        } else if value == 2 {
            Delivery::Aimed
        } else if value == 3 {
            Delivery::TargetActor
        } else {
            Delivery::TargetLocation
        }
    }
}

impl vstd::std_specs::convert::FromSpecImpl<u32> for Delivery {
    open spec fn obeys_from_spec() -> bool {
        true
    }

    open spec fn from_spec(value: u32) -> Self {
        delivery_for_value(value)
    }
}

/// The gameplay facts about a spell that the HUD keeps beside a cycle
/// entry: hostility, handedness, school, tier, the game's raw archetype
/// number, and the damage flavor derived from the resistance the spell
/// checks.
#[derive(Clone, Copy, Debug, Default, PartialEq, Eq, Structural, Hash)]
pub struct SpellData {
    pub hostile: bool,
    pub twohanded: bool,
    pub school: School,
    pub level: MagicSpellLevel,
    pub archetype: i32,
    pub damage: MagicDamageType,
}

impl SpellData {
    /// Classify a spell from the raw numbers the game hands over: the
    /// school and skill level are decoded, and the resistance fixes the
    /// damage flavor.
    pub fn new(
        hostile: bool,
        resist: ActorValue,
        twohanded: bool,
        school: i32,
        level: u32,
        archetype: i32,
    ) -> (r: Self)
        ensures
            r == (SpellData {
                hostile,
                twohanded,
                school: school_for_value(school),
                level: level_for_skill(level),
                archetype,
                damage: damage_for_resist(resist),
            }),
    {
        let school = School::from(school);

        let damage = match resist {
            ActorValue::ResistFire => MagicDamageType::Fire,
            ActorValue::ResistFrost => MagicDamageType::Frost,
            ActorValue::ResistShock => MagicDamageType::Shock,
            ActorValue::ResistMagic => MagicDamageType::Arcane,
            ActorValue::ResistDisease => MagicDamageType::Disease,
            ActorValue::PoisonResist => MagicDamageType::Poison,
            ActorValue::Other => MagicDamageType::Untyped,
        };

        Self { hostile, twohanded, school, archetype, level: MagicSpellLevel::from(level), damage }
    }
}

} // verus!
