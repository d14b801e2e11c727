//! The spells that a world knows.

use vstd::prelude::*;
use vstd::hash_map::StringHashMap;

verus! {

/// What a spell does to whom it hits.
#[derive(Clone, Copy, Debug, PartialEq, Eq, Structural)]
pub enum SpellEffectType {
    Damage,
    Healing,
}

/// A kind of spell: its effect and how strong it is before anything is added.
#[derive(Clone, Copy, Debug, PartialEq, Eq, Structural)]
pub struct Spell {
    pub effect_type: SpellEffectType,
    pub effect_base_power: u8,
}

impl Spell {
    /// The effect of the spell.
    pub fn get_type(&self) -> (effect_type: &SpellEffectType)
        ensures
            *effect_type == self.effect_type,
    {
        &self.effect_type
    }

    /// The strength of the spell.
    pub fn get_base_power(&self) -> (power: u8)
        ensures
            power == self.effect_base_power,
    {
        self.effect_base_power
    }
}

/// The name of the healing spell.
pub open spec fn healing_spell_name() -> Seq<char> {
    "Wololo"@
}

/// The name of the damage spell.
pub open spec fn damage_spell_name() -> Seq<char> {
    "Awo you you"@
}

/// The spells of a world, by the words that cast them.
pub struct WorldDefinition {
    spell_types: StringHashMap<Spell>,
}

impl View for WorldDefinition {
    type V = Map<Seq<char>, Spell>;

    closed spec fn view(&self) -> Map<Seq<char>, Spell> {
        self.spell_types@
    }
}

impl WorldDefinition {
    /// A world without spells.
    pub fn new() -> (world: Self)
        ensures
            world@ == Map::<Seq<char>, Spell>::empty(),
    {
        Self { spell_types: StringHashMap::new() }
    }

    /// The spells, by name.
    pub fn get_spell_types(&self) -> (spell_types: &StringHashMap<Spell>)
        ensures
            spell_types@ == self@,
    {
        &self.spell_types
    }

    /// Teaches the world its two spells: one that heals by 25 and one that does 12 of
    /// damage. A spell that went by one of the two names before is replaced; all others
    /// stay.
    pub fn initialize_spell_types(&mut self)
        ensures
            final(self)@ == old(self)@.insert(
                healing_spell_name(),
                Spell { effect_type: SpellEffectType::Healing, effect_base_power: 25 },
            ).insert(
                damage_spell_name(),
                Spell { effect_type: SpellEffectType::Damage, effect_base_power: 12 },
            ),
    {
        self.spell_types.insert(
            "Wololo".to_owned(),
            Spell { effect_type: SpellEffectType::Healing, effect_base_power: 25 },
        );

        self.spell_types.insert(
            "Awo you you".to_owned(),
            Spell { effect_type: SpellEffectType::Damage, effect_base_power: 12 },
        );
    }
}

} // verus!
