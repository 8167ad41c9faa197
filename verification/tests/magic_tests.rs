use cycle_hud::magic::{
    ActorValue, CastingType, Delivery, MagicDamageType, MagicSpellLevel, School, SpellData,
};

#[test]
fn school_decodes_raw_values() {
    assert_eq!(School::from(18), School::Alteration);
    assert_eq!(School::from(19), School::Conjuration);
    assert_eq!(School::from(20), School::Destruction);
    assert_eq!(School::from(21), School::Illusion);
    assert_eq!(School::from(22), School::Restoration);
    assert_eq!(School::from(0), School::Unknown);
    assert_eq!(School::from(-3), School::Unknown);
    assert_eq!(School::from(23), School::Unknown);
}

#[test]
fn spell_level_thresholds() {
    assert_eq!(MagicSpellLevel::from(0u32), MagicSpellLevel::Novice);
    assert_eq!(MagicSpellLevel::from(24u32), MagicSpellLevel::Novice);
    assert_eq!(MagicSpellLevel::from(25u32), MagicSpellLevel::Apprentice);
    assert_eq!(MagicSpellLevel::from(49u32), MagicSpellLevel::Apprentice);
    assert_eq!(MagicSpellLevel::from(50u32), MagicSpellLevel::Adept);
    assert_eq!(MagicSpellLevel::from(74u32), MagicSpellLevel::Adept);
    assert_eq!(MagicSpellLevel::from(75u32), MagicSpellLevel::Expert);
    assert_eq!(MagicSpellLevel::from(99u32), MagicSpellLevel::Expert);
    assert_eq!(MagicSpellLevel::from(100u32), MagicSpellLevel::Master);
    assert_eq!(MagicSpellLevel::from(255u32), MagicSpellLevel::Master);
}

#[test]
fn casting_type_decodes_raw_values() {
    assert_eq!(CastingType::from(0u32), CastingType::ConstantEffect);
    assert_eq!(CastingType::from(1u32), CastingType::FireAndForget);
    assert_eq!(CastingType::from(2u32), CastingType::Concentration);
    assert_eq!(CastingType::from(3u32), CastingType::Scroll);
    assert_eq!(CastingType::from(77u32), CastingType::Scroll);
}

#[test]
fn delivery_decodes_raw_values() {
    assert_eq!(Delivery::from(0u32), Delivery::Player);
    assert_eq!(Delivery::from(1u32), Delivery::Touch);
    assert_eq!(Delivery::from(2u32), Delivery::Aimed);
    assert_eq!(Delivery::from(3u32), Delivery::TargetActor);
    assert_eq!(Delivery::from(4u32), Delivery::TargetLocation);
    assert_eq!(Delivery::from(200u32), Delivery::TargetLocation);
}

#[test]
fn damage_follows_resistance() {
    let fire = SpellData::new(true, ActorValue::ResistFire, false, 20, 50, 7);
    assert_eq!(fire.damage, MagicDamageType::Fire);
    assert_eq!(
        SpellData::new(true, ActorValue::ResistFrost, false, 20, 0, 0).damage,
        MagicDamageType::Frost
    );
    assert_eq!(
        SpellData::new(true, ActorValue::ResistShock, false, 20, 0, 0).damage,
        MagicDamageType::Shock
    );
    assert_eq!(
        SpellData::new(true, ActorValue::ResistMagic, false, 20, 0, 0).damage,
        MagicDamageType::Arcane
    );
    assert_eq!(
        SpellData::new(true, ActorValue::ResistDisease, false, 20, 0, 0).damage,
        MagicDamageType::Disease
    );
    assert_eq!(
        SpellData::new(true, ActorValue::PoisonResist, false, 20, 0, 0).damage,
        MagicDamageType::Poison
    );
    assert_eq!(
        SpellData::new(true, ActorValue::Other, false, 20, 0, 0).damage,
        MagicDamageType::Untyped
    );
}

#[test]
fn spell_data_keeps_all_fields() {
    let spell = SpellData::new(true, ActorValue::ResistFire, true, 20, 80, 42);
    assert_eq!(
        spell,
        SpellData {
            hostile: true,
            twohanded: true,
            school: School::Destruction,
            level: MagicSpellLevel::Expert,
            archetype: 42,
            damage: MagicDamageType::Fire,
        }
    );
}

#[test]
fn spell_data_default_is_benign() {
    let spell = SpellData::default();
    assert!(!spell.hostile);
    assert!(!spell.twohanded);
    assert_eq!(spell.school, School::Unknown);
    assert_eq!(spell.level, MagicSpellLevel::Novice);
    assert_eq!(spell.damage, MagicDamageType::Untyped);
}
