//! The skill record and its composites, with their mathematical views.
use vstd::prelude::*;
use crate::schema::{Debuff, DamageType, ProficiencyLevel, Reagent, SkillCategory, Unit};
use crate::text::views;

verus! {

/// A measured quantity: a number kept as its decimal text, what it means,
/// and its unit where one applies.
#[derive(Debug)]
pub struct Measurement {
    pub value: String,
    pub explanation: String,
    pub unit: Option<Unit>,
}

pub struct MeasurementView {
    pub value: Seq<char>,
    pub explanation: Seq<char>,
    pub unit: Option<Unit>,
}

/// What a skill demands before it can be used.
#[derive(Debug)]
pub struct Requirements {
    pub actions: u8,
    pub conditions: String,
}

pub struct RequirementsView {
    pub actions: u8,
    pub conditions: Seq<char>,
}

/// How a skill behaves at one proficiency level.
#[derive(Debug)]
pub struct Proficiency {
    pub description: String,
    pub damage_multiplier: String,
    pub cooldown_factors: u8,
}

pub struct ProficiencyView {
    pub description: Seq<char>,
    pub damage_multiplier: Seq<char>,
    pub cooldown_factors: u8,
}

/// The effect of one debuff.
#[derive(Debug)]
pub struct DebuffEffect {
    pub description: String,
    pub multiplier: String,
    pub tick_duration: u8,
}

pub struct DebuffEffectView {
    pub description: Seq<char>,
    pub multiplier: Seq<char>,
    pub tick_duration: u8,
}

/// One skill record.
#[derive(Debug)]
pub struct Skill {
    pub ability_name: String,
    pub category: SkillCategory,
    pub short_description: String,
    pub extended_description: String,
    pub narrative: String,
    pub cooldown_seconds: u8,
    pub damage_type: DamageType,
    pub required_skill: String,
    pub requirements: Requirements,
    pub base_damage_multiplier: Measurement,
    pub immediate_damage_per_use: Measurement,
    pub effect_range: Measurement,
    pub area_damage_arc: Measurement,
    pub proficiency_levels: Vec<(ProficiencyLevel, Proficiency)>,
    pub debuffs: Vec<(Debuff, DebuffEffect)>,
    pub required_reagents: Vec<Reagent>,
    pub aspects: Vec<String>,
}

pub struct SkillView {
    pub ability_name: Seq<char>,
    pub category: SkillCategory,
    pub short_description: Seq<char>,
    pub extended_description: Seq<char>,
    pub narrative: Seq<char>,
    pub cooldown_seconds: u8,
    pub damage_type: DamageType,
    pub required_skill: Seq<char>,
    pub requirements: RequirementsView,
    pub base_damage_multiplier: MeasurementView,
    pub immediate_damage_per_use: MeasurementView,
    pub effect_range: MeasurementView,
    pub area_damage_arc: MeasurementView,
    pub proficiency_levels: Seq<(ProficiencyLevel, ProficiencyView)>,
    pub debuffs: Seq<(Debuff, DebuffEffectView)>,
    pub required_reagents: Seq<Reagent>,
    pub aspects: Seq<Seq<char>>,
}

impl View for Measurement {
    type V = MeasurementView;

    open spec fn view(&self) -> MeasurementView {
        MeasurementView { value: self.value@, explanation: self.explanation@, unit: self.unit }
    }
}

impl View for Requirements {
    type V = RequirementsView;

    open spec fn view(&self) -> RequirementsView {
        RequirementsView { actions: self.actions, conditions: self.conditions@ }
    }
}

impl View for Proficiency {
    type V = ProficiencyView;

    open spec fn view(&self) -> ProficiencyView {
        ProficiencyView {
            description: self.description@,
            damage_multiplier: self.damage_multiplier@,
            cooldown_factors: self.cooldown_factors,
        }
    }
}

impl View for DebuffEffect {
    type V = DebuffEffectView;

    open spec fn view(&self) -> DebuffEffectView {
        DebuffEffectView {
            description: self.description@,
            multiplier: self.multiplier@,
            tick_duration: self.tick_duration,
        }
    }
}

pub open spec fn proficiency_views(v: Seq<(ProficiencyLevel, Proficiency)>) -> Seq<
    (ProficiencyLevel, ProficiencyView),
> {
    v.map_values(|e: (ProficiencyLevel, Proficiency)| (e.0, e.1@))
}

pub open spec fn debuff_views(v: Seq<(Debuff, DebuffEffect)>) -> Seq<(Debuff, DebuffEffectView)> {
    v.map_values(|e: (Debuff, DebuffEffect)| (e.0, e.1@))
}

impl View for Skill {
    type V = SkillView;

    open spec fn view(&self) -> SkillView {
        SkillView {
            ability_name: self.ability_name@,
            category: self.category,
            short_description: self.short_description@,
            extended_description: self.extended_description@,
            narrative: self.narrative@,
            cooldown_seconds: self.cooldown_seconds,
            damage_type: self.damage_type,
            required_skill: self.required_skill@,
            requirements: self.requirements@,
            base_damage_multiplier: self.base_damage_multiplier@,
            immediate_damage_per_use: self.immediate_damage_per_use@,
            effect_range: self.effect_range@,
            area_damage_arc: self.area_damage_arc@,
            proficiency_levels: proficiency_views(self.proficiency_levels@),
            debuffs: debuff_views(self.debuffs@),
            required_reagents: self.required_reagents@,
            aspects: views(self.aspects@),
        }
    }
}

} // verus!
