//! The closed value sets of a skill record and their canonical wire strings.
use vstd::prelude::*;
use crate::text::text_eq;

verus! {

/// The kind of a skill.
#[derive(Clone, Copy, Debug, PartialEq, Eq, Structural)]
pub enum SkillCategory {
    Melee,
    Ranged,
    Utility,
    Spell,
    Healing,
}

/// The kind of damage a skill deals.
#[derive(Clone, Copy, Debug, PartialEq, Eq, Structural)]
pub enum DamageType {
    PhysicalSlashing,
    Magical,
}

/// A consumable that a skill needs.
#[derive(Clone, Copy, Debug, PartialEq, Eq, Structural)]
pub enum Reagent {
    SparklingPowder,
    Blood,
}

/// How far a character has mastered a skill.
#[derive(Clone, Copy, Debug, PartialEq, Eq, Structural)]
pub enum ProficiencyLevel {
    Novice,
    Adept,
    Master,
}

/// The unit of a measurement.
#[derive(Clone, Copy, Debug, PartialEq, Eq, Structural)]
pub enum Unit {
    Meters,
    Degrees,
}

/// A lasting drawback of using a skill.
#[derive(Clone, Copy, Debug, PartialEq, Eq, Structural)]
pub enum Debuff {
    RiskOfCounterAttack,
}

impl SkillCategory {
    pub open spec fn wire_spec(self) -> Seq<char> {
        match self {
            SkillCategory::Melee => "MeleeCombatSkill"@,
            SkillCategory::Ranged => "RangedCombatSkill"@,
            SkillCategory::Utility => "UtilitySkill"@,
            SkillCategory::Spell => "SpellSkill"@,
            SkillCategory::Healing => "HealingSkill"@,
        }
    }

    pub open spec fn from_wire_spec(s: Seq<char>) -> Option<Self> {
        if s == "MeleeCombatSkill"@ {
            Some(SkillCategory::Melee)
        } else if s == "RangedCombatSkill"@ {
            Some(SkillCategory::Ranged)
        } else if s == "UtilitySkill"@ {
            Some(SkillCategory::Utility)
        } else if s == "SpellSkill"@ {
            Some(SkillCategory::Spell)
        } else if s == "HealingSkill"@ {
            Some(SkillCategory::Healing)
        } else {
            None
        }
    }

    /// The canonical wire string.
    pub fn wire(&self) -> (r: &'static str)
        ensures
            r@ == self.wire_spec(),
    {
        match self {
            SkillCategory::Melee => "MeleeCombatSkill",
            SkillCategory::Ranged => "RangedCombatSkill",
            SkillCategory::Utility => "UtilitySkill",
            SkillCategory::Spell => "SpellSkill",
            SkillCategory::Healing => "HealingSkill",
        }
    }

    /// The category whose wire string is `s`, if any.
    pub fn from_wire(s: &str) -> (r: Option<Self>)
        ensures
            r == Self::from_wire_spec(s@),
    {
        if text_eq(s, "MeleeCombatSkill") {
            Some(SkillCategory::Melee)
        } else if text_eq(s, "RangedCombatSkill") {
            Some(SkillCategory::Ranged)
        } else if text_eq(s, "UtilitySkill") {
            Some(SkillCategory::Utility)
        } else if text_eq(s, "SpellSkill") {
            Some(SkillCategory::Spell)
        } else if text_eq(s, "HealingSkill") {
            Some(SkillCategory::Healing)
        } else {
            None
        }
    }
}

impl DamageType {
    pub open spec fn wire_spec(self) -> Seq<char> {
        match self {
            DamageType::PhysicalSlashing => "Physical/Slashing"@,
            DamageType::Magical => "Magical"@,
        }
    }

    pub open spec fn from_wire_spec(s: Seq<char>) -> Option<Self> {
        if s == "Physical/Slashing"@ {
            Some(DamageType::PhysicalSlashing)
        } else if s == "Magical"@ {
            Some(DamageType::Magical)
        } else {
            None
        }
    }

    /// The canonical wire string.
    pub fn wire(&self) -> (r: &'static str)
        ensures
            r@ == self.wire_spec(),
    {
        match self {
            DamageType::PhysicalSlashing => "Physical/Slashing",
            DamageType::Magical => "Magical",
        }
    }

    /// The damage type whose wire string is `s`, if any.
    pub fn from_wire(s: &str) -> (r: Option<Self>)
        ensures
            r == Self::from_wire_spec(s@),
    {
        if text_eq(s, "Physical/Slashing") {
            Some(DamageType::PhysicalSlashing)
        } else if text_eq(s, "Magical") {
            Some(DamageType::Magical)
        } else {
            None
        }
    }
}

impl Reagent {
    pub open spec fn wire_spec(self) -> Seq<char> {
        match self {
            Reagent::SparklingPowder => "SparklingPowder"@,
            Reagent::Blood => "Blood"@,
        }
    }

    /// The lower-case, underscore-separated form used in a table column.
    pub open spec fn column_spec(self) -> Seq<char> {
        match self {
            Reagent::SparklingPowder => "sparkling_powder"@,
            Reagent::Blood => "blood"@,
        }
    }

    pub open spec fn from_wire_spec(s: Seq<char>) -> Option<Self> {
        if s == "SparklingPowder"@ {
            Some(Reagent::SparklingPowder)
        } else if s == "Blood"@ {
            Some(Reagent::Blood)
        } else {
            None
        }
    }

    pub open spec fn from_column_spec(s: Seq<char>) -> Option<Self> {
        if s == "sparkling_powder"@ {
            Some(Reagent::SparklingPowder)
        } else if s == "blood"@ {
            Some(Reagent::Blood)
        } else {
            None
        }
    }

    /// The canonical wire string.
    pub fn wire(&self) -> (r: &'static str)
        ensures
            r@ == self.wire_spec(),
    {
        match self {
            Reagent::SparklingPowder => "SparklingPowder",
            Reagent::Blood => "Blood",
        }
    }

    /// The column form.
    pub fn column(&self) -> (r: &'static str)
        ensures
            r@ == self.column_spec(),
    {
        match self {
            Reagent::SparklingPowder => "sparkling_powder",
            Reagent::Blood => "blood",
        }
    }

    /// The reagent whose wire string is `s`, if any.
    pub fn from_wire(s: &str) -> (r: Option<Self>)
        ensures
            r == Self::from_wire_spec(s@),
    {
        if text_eq(s, "SparklingPowder") {
            Some(Reagent::SparklingPowder)
        } else if text_eq(s, "Blood") {
            Some(Reagent::Blood)
        } else {
            None
        }
    }

    /// The reagent whose column form is `s`, if any.
    pub fn from_column(s: &str) -> (r: Option<Self>)
        ensures
            r == Self::from_column_spec(s@),
    {
        if text_eq(s, "sparkling_powder") {
            Some(Reagent::SparklingPowder)
        } else if text_eq(s, "blood") {
            Some(Reagent::Blood)
        } else {
            None
        }
    }
}

impl ProficiencyLevel {
    pub open spec fn wire_spec(self) -> Seq<char> {
        match self {
            ProficiencyLevel::Novice => "novice"@,
            ProficiencyLevel::Adept => "adept"@,
            ProficiencyLevel::Master => "master"@,
        }
    }

    pub open spec fn from_wire_spec(s: Seq<char>) -> Option<Self> {
        if s == "novice"@ {
            Some(ProficiencyLevel::Novice)
        } else if s == "adept"@ {
            Some(ProficiencyLevel::Adept)
        } else if s == "master"@ {
            Some(ProficiencyLevel::Master)
        } else {
            None
        }
    }

    /// The canonical wire string.
    pub fn wire(&self) -> (r: &'static str)
        ensures
            r@ == self.wire_spec(),
    {
        match self {
            ProficiencyLevel::Novice => "novice",
            ProficiencyLevel::Adept => "adept",
            ProficiencyLevel::Master => "master",
        }
    }

    /// The level whose wire string is `s`, if any.
    pub fn from_wire(s: &str) -> (r: Option<Self>)
        ensures
            r == Self::from_wire_spec(s@),
    {
        if text_eq(s, "novice") {
            Some(ProficiencyLevel::Novice)
        } else if text_eq(s, "adept") {
            Some(ProficiencyLevel::Adept)
        } else if text_eq(s, "master") {
            Some(ProficiencyLevel::Master)
        } else {
            None
        }
    }
}

impl Unit {
    pub open spec fn wire_spec(self) -> Seq<char> {
        match self {
            Unit::Meters => "meters"@,
            Unit::Degrees => "degrees"@,
        }
    }

    pub open spec fn from_wire_spec(s: Seq<char>) -> Option<Self> {
        if s == "meters"@ {
            Some(Unit::Meters)
        } else if s == "degrees"@ {
            Some(Unit::Degrees)
        } else {
            None
        }
    }

    /// The canonical wire string.
    pub fn wire(&self) -> (r: &'static str)
        ensures
            r@ == self.wire_spec(),
    {
        match self {
            Unit::Meters => "meters",
            Unit::Degrees => "degrees",
        }
    }

    /// The unit whose wire string is `s`, if any.
    pub fn from_wire(s: &str) -> (r: Option<Self>)
        ensures
            r == Self::from_wire_spec(s@),
    {
        if text_eq(s, "meters") {
            Some(Unit::Meters)
        } else if text_eq(s, "degrees") {
            Some(Unit::Degrees)
        } else {
            None
        }
    }
}

impl Debuff {
    pub open spec fn wire_spec(self) -> Seq<char> {
        match self {
            Debuff::RiskOfCounterAttack => "RiskOfCounterAttack"@,
        }
    }

    pub open spec fn from_wire_spec(s: Seq<char>) -> Option<Self> {
        if s == "RiskOfCounterAttack"@ {
            Some(Debuff::RiskOfCounterAttack)
        } else {
            None
        }
    }

    /// The canonical wire string.
    pub fn wire(&self) -> (r: &'static str)
        ensures
            r@ == self.wire_spec(),
    {
        match self {
            Debuff::RiskOfCounterAttack => "RiskOfCounterAttack",
        }
    }

    /// The debuff whose wire string is `s`, if any.
    pub fn from_wire(s: &str) -> (r: Option<Self>)
        ensures
            r == Self::from_wire_spec(s@),
    {
        if text_eq(s, "RiskOfCounterAttack") {
            Some(Debuff::RiskOfCounterAttack)
        } else {
            None
        }
    }
}

/// Decoding the wire string of any skill category gives that category back,
/// and a wire string decodes only to the category it names.
pub proof fn lemma_category_round_trip(c: SkillCategory, s: Seq<char>)
    ensures
        SkillCategory::from_wire_spec(c.wire_spec()) == Some(c),
        SkillCategory::from_wire_spec(s) == Some(c) ==> c.wire_spec() == s,
{
    reveal_strlit("MeleeCombatSkill");
    assert("MeleeCombatSkill"@.len() == 16);
    reveal_strlit("RangedCombatSkill");
    assert("RangedCombatSkill"@.len() == 17);
    reveal_strlit("UtilitySkill");
    assert("UtilitySkill"@.len() == 12);
    reveal_strlit("SpellSkill");
    assert("SpellSkill"@.len() == 10);
    reveal_strlit("HealingSkill");
    assert("HealingSkill"@.len() == 12);
    assert("UtilitySkill"@[0] != "HealingSkill"@[0]);
}

/// Decoding the wire string of any damage type gives that damage type back,
/// and a wire string decodes only to the damage type it names.
pub proof fn lemma_damage_type_round_trip(d: DamageType, s: Seq<char>)
    ensures
        DamageType::from_wire_spec(d.wire_spec()) == Some(d),
        DamageType::from_wire_spec(s) == Some(d) ==> d.wire_spec() == s,
{
    reveal_strlit("Physical/Slashing");
    assert("Physical/Slashing"@.len() == 17);
    reveal_strlit("Magical");
    assert("Magical"@.len() == 7);
}

/// Decoding the wire string of any reagent gives that reagent back, and so
/// does decoding its column form.
pub proof fn lemma_reagent_round_trip(g: Reagent, s: Seq<char>)
    ensures
        Reagent::from_wire_spec(g.wire_spec()) == Some(g),
        Reagent::from_column_spec(g.column_spec()) == Some(g),
        Reagent::from_wire_spec(s) == Some(g) ==> g.wire_spec() == s,
        Reagent::from_column_spec(s) == Some(g) ==> g.column_spec() == s,
{
    reveal_strlit("SparklingPowder");
    assert("SparklingPowder"@.len() == 15);
    reveal_strlit("Blood");
    assert("Blood"@.len() == 5);
    reveal_strlit("sparkling_powder");
    assert("sparkling_powder"@.len() == 16);
    reveal_strlit("blood");
    assert("blood"@.len() == 5);
}

/// Decoding the wire string of any proficiency level gives that level back,
/// and a wire string decodes only to the level it names.
pub proof fn lemma_proficiency_level_round_trip(p: ProficiencyLevel, s: Seq<char>)
    ensures
        ProficiencyLevel::from_wire_spec(p.wire_spec()) == Some(p),
        ProficiencyLevel::from_wire_spec(s) == Some(p) ==> p.wire_spec() == s,
{
    reveal_strlit("novice");
    assert("novice"@.len() == 6);
    reveal_strlit("adept");
    assert("adept"@.len() == 5);
    reveal_strlit("master");
    assert("master"@.len() == 6);
    assert("novice"@[0] != "master"@[0]);
}

/// Decoding the wire string of any unit gives that unit back, and a wire
/// string decodes only to the unit it names.
pub proof fn lemma_unit_round_trip(u: Unit, s: Seq<char>)
    ensures
        Unit::from_wire_spec(u.wire_spec()) == Some(u),
        Unit::from_wire_spec(s) == Some(u) ==> u.wire_spec() == s,
{
    reveal_strlit("meters");
    assert("meters"@.len() == 6);
    reveal_strlit("degrees");
    assert("degrees"@.len() == 7);
}

/// Decoding the wire string of a debuff gives that debuff back, and a wire
/// string decodes only to the debuff it names.
pub proof fn lemma_debuff_round_trip(d: Debuff, s: Seq<char>)
    ensures
        Debuff::from_wire_spec(d.wire_spec()) == Some(d),
        Debuff::from_wire_spec(s) == Some(d) ==> d.wire_spec() == s,
{
}

} // verus!
