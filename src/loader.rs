//! Reads a skill record out of a nested document, stopping at the first
//! field that does not fit the schema.
use vstd::prelude::*;
use crate::document::{lookup, lookup_spec, Doc};
use crate::error::{ConvertError, ErrorKind, Fault};
use vstd::string::*;
use crate::fields::{
    byte_spec, category_spec, damage_type_spec, dot, dotted, parse_byte, plain_result, read_byte, read_category, read_damage_type, read_real,
    read_text, read_unit, real_spec, result_view, text_spec, unit_spec,
};
use crate::model::{
    Skill, SkillView,
    debuff_views, proficiency_views, DebuffEffect, DebuffEffectView, Measurement, MeasurementView,
    Proficiency, ProficiencyView, Requirements, RequirementsView,
};
use crate::schema::{Debuff, ProficiencyLevel, Reagent, SkillCategory, Unit};
use crate::text::views;

verus! {

/// A measurement stored under `path`: an object with a number `value`, a
/// text `explanation` and an optional `unit`.
pub open spec fn measurement_spec(d: Option<Doc>, path: Seq<char>) -> Result<MeasurementView, Fault> {
    match d {
        None => Err((ErrorKind::MissingRequiredField, path)),
        Some(Doc::Object(m)) => {
            let v = real_spec(lookup_spec(m@, "value"@), dot(path, "value"@));
            let x = text_spec(lookup_spec(m@, "explanation"@), dot(path, "explanation"@));
            let u = unit_spec(lookup_spec(m@, "unit"@), dot(path, "unit"@));
            if v is Err {
                Err(v->Err_0)
            } else if x is Err {
                Err(x->Err_0)
            } else if u is Err {
                Err(u->Err_0)
            } else {
                Ok(MeasurementView { value: v->Ok_0, explanation: x->Ok_0, unit: u->Ok_0 })
            }
        },
        Some(_) => Err((ErrorKind::TypeMismatch, path)),
    }
}

/// A member that may be written under either of two keys; the first wins.
pub open spec fn lookup_alias_spec(m: Seq<(String, Doc)>, key: Seq<char>, alias: Seq<char>) -> Option<Doc> {
    match lookup_spec(m, key) {
        Some(d) => Some(d),
        None => lookup_spec(m, alias),
    }
}

/// The member of `m` that holds the requirement field `key`: inside the
/// nested object, `key` itself or its dotted alias; among the top-level
/// members, the dotted key alone.
pub open spec fn requirement_member(m: Seq<(String, Doc)>, key: Seq<char>, nested: bool) -> Option<Doc> {
    if nested {
        lookup_alias_spec(m, key, dot("requirements"@, key))
    } else {
        lookup_spec(m, dot("requirements"@, key))
    }
}

/// The two requirement fields read from the members `m` of the nested
/// object (`nested`) or of the document itself.
pub open spec fn requirement_fields_spec(m: Seq<(String, Doc)>, nested: bool) -> Result<RequirementsView, Fault> {
    let a = byte_spec(requirement_member(m, "actions"@, nested), "requirements.actions"@);
    let c = text_spec(requirement_member(m, "conditions"@, nested), "requirements.conditions"@);
    if a is Err {
        Err(a->Err_0)
    } else if c is Err {
        Err(c->Err_0)
    } else {
        Ok(RequirementsView { actions: a->Ok_0, conditions: c->Ok_0 })
    }
}

/// The requirements of a record with top-level members `f`: read from the
/// `requirements` object where there is one, and otherwise from the
/// pre-flattened members `requirements.actions` and
/// `requirements.conditions`.
pub open spec fn requirements_spec(f: Seq<(String, Doc)>) -> Result<RequirementsView, Fault> {
    match lookup_spec(f, "requirements"@) {
        None => requirement_fields_spec(f, false),
        Some(Doc::Object(m)) => requirement_fields_spec(m@, true),
        Some(_) => Err((ErrorKind::TypeMismatch, "requirements"@)),
    }
}

/// One member of the proficiency map: a level's wire string and its object.
pub open spec fn proficiency_entry_spec(e: (String, Doc)) -> Result<(ProficiencyLevel, ProficiencyView), Fault> {
    let path = dot("proficiencyLevels"@, e.0@);
    match ProficiencyLevel::from_wire_spec(e.0@) {
        None => Err((ErrorKind::InvalidEnumValue, path)),
        Some(level) => match e.1 {
            Doc::Object(m) => {
                let d = text_spec(lookup_spec(m@, "description"@), dot(path, "description"@));
                let k = real_spec(
                    lookup_spec(m@, "damageMultiplier"@),
                    dot(path, "damageMultiplier"@),
                );
                let c = byte_spec(lookup_spec(m@, "cooldownFactors"@), dot(path, "cooldownFactors"@));
                if d is Err {
                    Err(d->Err_0)
                } else if k is Err {
                    Err(k->Err_0)
                } else if c is Err {
                    Err(c->Err_0)
                } else {
                    Ok(
                        (
                            level,
                            ProficiencyView {
                                description: d->Ok_0,
                                damage_multiplier: k->Ok_0,
                                cooldown_factors: c->Ok_0,
                            },
                        ),
                    )
                }
            },
            _ => Err((ErrorKind::TypeMismatch, path)),
        },
    }
}

/// The members of the proficiency map, decoded in order.
pub open spec fn proficiency_entries_spec(es: Seq<(String, Doc)>) -> Result<Seq<(ProficiencyLevel, ProficiencyView)>, Fault>
    decreases es.len(),
{
    if es.len() == 0 {
        Ok(Seq::empty())
    } else {
        match proficiency_entries_spec(es.drop_last()) {
            Err(f) => Err(f),
            Ok(done) => match proficiency_entry_spec(es.last()) {
                Err(f) => Err(f),
                Ok(x) => if exists|k: int| 0 <= k < done.len() && (#[trigger] done[k]).0 == x.0 {
                    Err((ErrorKind::TypeMismatch, dot("proficiencyLevels"@, es.last().0@)))
                } else {
                    Ok(done.push(x))
                },
            },
        }
    }
}

pub open spec fn proficiencies_spec(d: Option<Doc>) -> Result<Seq<(ProficiencyLevel, ProficiencyView)>, Fault> {
    match d {
        None => Err((ErrorKind::MissingRequiredField, "proficiencyLevels"@)),
        Some(Doc::Object(m)) => proficiency_entries_spec(m@),
        Some(_) => Err((ErrorKind::TypeMismatch, "proficiencyLevels"@)),
    }
}

/// One member of the debuff map: a debuff's wire string and its object.
pub open spec fn debuff_entry_spec(e: (String, Doc)) -> Result<(Debuff, DebuffEffectView), Fault> {
    let path = dot("debuffs"@, e.0@);
    match Debuff::from_wire_spec(e.0@) {
        None => Err((ErrorKind::InvalidEnumValue, path)),
        Some(debuff) => match e.1 {
            Doc::Object(m) => {
                let d = text_spec(lookup_spec(m@, "description"@), dot(path, "description"@));
                let k = real_spec(lookup_spec(m@, "multiplier"@), dot(path, "multiplier"@));
                let t = byte_spec(lookup_spec(m@, "tickDuration"@), dot(path, "tickDuration"@));
                if d is Err {
                    Err(d->Err_0)
                } else if k is Err {
                    Err(k->Err_0)
                } else if t is Err {
                    Err(t->Err_0)
                } else {
                    Ok(
                        (
                            debuff,
                            DebuffEffectView {
                                description: d->Ok_0,
                                multiplier: k->Ok_0,
                                tick_duration: t->Ok_0,
                            },
                        ),
                    )
                }
            },
            _ => Err((ErrorKind::TypeMismatch, path)),
        },
    }
}

/// The members of the debuff map, decoded in order.
pub open spec fn debuff_entries_spec(es: Seq<(String, Doc)>) -> Result<Seq<(Debuff, DebuffEffectView)>, Fault>
    decreases es.len(),
{
    if es.len() == 0 {
        Ok(Seq::empty())
    } else {
        match debuff_entries_spec(es.drop_last()) {
            Err(f) => Err(f),
            Ok(done) => match debuff_entry_spec(es.last()) {
                Err(f) => Err(f),
                Ok(x) => if exists|k: int| 0 <= k < done.len() && (#[trigger] done[k]).0 == x.0 {
                    Err((ErrorKind::TypeMismatch, dot("debuffs"@, es.last().0@)))
                } else {
                    Ok(done.push(x))
                },
            },
        }
    }
}

pub open spec fn debuffs_spec(d: Option<Doc>) -> Result<Seq<(Debuff, DebuffEffectView)>, Fault> {
    match d {
        None => Err((ErrorKind::MissingRequiredField, "debuffs"@)),
        Some(Doc::Object(m)) => debuff_entries_spec(m@),
        Some(_) => Err((ErrorKind::TypeMismatch, "debuffs"@)),
    }
}

/// One reagent of the list, written as its wire string.
pub open spec fn reagent_item_spec(d: Doc) -> Result<Reagent, Fault> {
    match d {
        Doc::Text(s) => match Reagent::from_wire_spec(s@) {
            Some(g) => Ok(g),
            None => Err((ErrorKind::InvalidEnumValue, "requiredReagents"@)),
        },
        _ => Err((ErrorKind::TypeMismatch, "requiredReagents"@)),
    }
}

pub open spec fn reagent_items_spec(items: Seq<Doc>) -> Result<Seq<Reagent>, Fault>
    decreases items.len(),
{
    if items.len() == 0 {
        Ok(Seq::empty())
    } else {
        match reagent_items_spec(items.drop_last()) {
            Err(f) => Err(f),
            Ok(done) => match reagent_item_spec(items.last()) {
                Err(f) => Err(f),
                Ok(x) => Ok(done.push(x)),
            },
        }
    }
}

pub open spec fn reagents_spec(d: Option<Doc>) -> Result<Seq<Reagent>, Fault> {
    match d {
        None => Err((ErrorKind::MissingRequiredField, "requiredReagents"@)),
        Some(Doc::List(items)) => reagent_items_spec(items@),
        Some(_) => Err((ErrorKind::TypeMismatch, "requiredReagents"@)),
    }
}

pub open spec fn aspect_items_spec(items: Seq<Doc>) -> Result<Seq<Seq<char>>, Fault>
    decreases items.len(),
{
    if items.len() == 0 {
        Ok(Seq::empty())
    } else {
        match aspect_items_spec(items.drop_last()) {
            Err(f) => Err(f),
            Ok(done) => match items.last() {
                Doc::Text(s) => Ok(done.push(s@)),
                _ => Err((ErrorKind::TypeMismatch, "aspects"@)),
            },
        }
    }
}

pub open spec fn aspects_spec(d: Option<Doc>) -> Result<Seq<Seq<char>>, Fault> {
    match d {
        None => Err((ErrorKind::MissingRequiredField, "aspects"@)),
        Some(Doc::List(items)) => aspect_items_spec(items@),
        Some(_) => Err((ErrorKind::TypeMismatch, "aspects"@)),
    }
}

proof fn lemma_proficiency_error_stays(s: Seq<(String, Doc)>, k: int)
    requires
        0 <= k <= s.len(),
        proficiency_entries_spec(s.take(k)) is Err,
    ensures
        proficiency_entries_spec(s) == proficiency_entries_spec(s.take(k)),
    decreases s.len() - k,
{
    if k < s.len() {
        assert(s.take(k + 1).drop_last() =~= s.take(k));
        lemma_proficiency_error_stays(s, k + 1);
    } else {
        assert(s.take(k) =~= s);
    }
}

proof fn lemma_debuff_error_stays(s: Seq<(String, Doc)>, k: int)
    requires
        0 <= k <= s.len(),
        debuff_entries_spec(s.take(k)) is Err,
    ensures
        debuff_entries_spec(s) == debuff_entries_spec(s.take(k)),
    decreases s.len() - k,
{
    if k < s.len() {
        assert(s.take(k + 1).drop_last() =~= s.take(k));
        lemma_debuff_error_stays(s, k + 1);
    } else {
        assert(s.take(k) =~= s);
    }
}

proof fn lemma_reagent_error_stays(s: Seq<Doc>, k: int)
    requires
        0 <= k <= s.len(),
        reagent_items_spec(s.take(k)) is Err,
    ensures
        reagent_items_spec(s) == reagent_items_spec(s.take(k)),
    decreases s.len() - k,
{
    if k < s.len() {
        assert(s.take(k + 1).drop_last() =~= s.take(k));
        lemma_reagent_error_stays(s, k + 1);
    } else {
        assert(s.take(k) =~= s);
    }
}

proof fn lemma_aspect_error_stays(s: Seq<Doc>, k: int)
    requires
        0 <= k <= s.len(),
        aspect_items_spec(s.take(k)) is Err,
    ensures
        aspect_items_spec(s) == aspect_items_spec(s.take(k)),
    decreases s.len() - k,
{
    if k < s.len() {
        assert(s.take(k + 1).drop_last() =~= s.take(k));
        lemma_aspect_error_stays(s, k + 1);
    } else {
        assert(s.take(k) =~= s);
    }
}

fn read_measurement(fields: &Vec<(String, Doc)>, key: &str) -> (r: Result<Measurement, ConvertError>)
    ensures
        result_view(r) == measurement_spec(lookup_spec(fields@, key@), key@),
{
    match lookup(fields, key) {
        None => Err(ConvertError::new(ErrorKind::MissingRequiredField, key)),
        Some(Doc::Object(m)) => {
            let value = match read_real(m, "value", dotted(key, "value").as_str()) {
                Ok(v) => v,
                Err(e) => return Err(e),
            };
            let explanation = match read_text(
                m,
                "explanation",
                dotted(key, "explanation").as_str(),
            ) {
                Ok(v) => v,
                Err(e) => return Err(e),
            };
            let unit = match read_unit(m, "unit", dotted(key, "unit").as_str()) {
                Ok(v) => v,
                Err(e) => return Err(e),
            };
            Ok(Measurement { value, explanation, unit })
        },
        Some(_) => Err(ConvertError::new(ErrorKind::TypeMismatch, key)),
    }
}

fn lookup_alias<'a>(m: &'a Vec<(String, Doc)>, key: &str, alias: &str) -> (r: Option<&'a Doc>)
    ensures
        match r {
            Some(d) => lookup_alias_spec(m@, key@, alias@) == Some(*d),
            None => lookup_alias_spec(m@, key@, alias@) is None,
        },
{
    match lookup(m, key) {
        Some(d) => Some(d),
        None => lookup(m, alias),
    }
}

fn requirement_lookup<'a>(m: &'a Vec<(String, Doc)>, key: &str, nested: bool) -> (r: Option<&'a Doc>)
    ensures
        match r {
            Some(d) => requirement_member(m@, key@, nested) == Some(*d),
            None => requirement_member(m@, key@, nested) is None,
        },
{
    let dotted_key = dotted("requirements", key);
    if nested {
        lookup_alias(m, key, dotted_key.as_str())
    } else {
        lookup(m, dotted_key.as_str())
    }
}

fn read_requirement_fields(m: &Vec<(String, Doc)>, nested: bool) -> (r: Result<Requirements, ConvertError>)
    ensures
        result_view(r) == requirement_fields_spec(m@, nested),
{
    let actions = match requirement_lookup(m, "actions", nested) {
        None => {
            return Err(ConvertError::new(ErrorKind::MissingRequiredField, "requirements.actions"))
        },
        Some(Doc::Number(s)) => match parse_byte(s.as_str()) {
            Some(b) => b,
            None => {
                return Err(ConvertError::new(ErrorKind::InvalidNumericValue, "requirements.actions"))
            },
        },
        Some(_) => return Err(ConvertError::new(ErrorKind::TypeMismatch, "requirements.actions")),
    };
    let conditions = match requirement_lookup(m, "conditions", nested) {
        None => {
            return Err(
                ConvertError::new(ErrorKind::MissingRequiredField, "requirements.conditions"),
            )
        },
        Some(Doc::Text(s)) => s.clone(),
        Some(_) => {
            return Err(ConvertError::new(ErrorKind::TypeMismatch, "requirements.conditions"))
        },
    };
    Ok(Requirements { actions, conditions })
}

fn read_requirements(fields: &Vec<(String, Doc)>) -> (r: Result<Requirements, ConvertError>)
    ensures
        result_view(r) == requirements_spec(fields@),
{
    match lookup(fields, "requirements") {
        None => read_requirement_fields(fields, false),
        Some(Doc::Object(m)) => read_requirement_fields(m, true),
        Some(_) => Err(ConvertError::new(ErrorKind::TypeMismatch, "requirements")),
    }
}

fn read_proficiency_entry(e: &(String, Doc)) -> (r: Result<(ProficiencyLevel, Proficiency), ConvertError>)
    ensures
        match r {
            Ok(v) => proficiency_entry_spec(*e) == Ok::<_, Fault>((v.0, v.1@)),
            Err(f) => proficiency_entry_spec(*e) == Err::<(ProficiencyLevel, ProficiencyView), Fault>(f@),
        },
{
    let path = dotted("proficiencyLevels", e.0.as_str());
    match ProficiencyLevel::from_wire(e.0.as_str()) {
        None => Err(ConvertError::at(ErrorKind::InvalidEnumValue, path)),
        Some(level) => match &e.1 {
            Doc::Object(m) => {
                let p = path.as_str();
                let description = match read_text(
                    m,
                    "description",
                    dotted(p, "description").as_str(),
                ) {
                    Ok(v) => v,
                    Err(f) => return Err(f),
                };
                let damage_multiplier = match read_real(
                    m,
                    "damageMultiplier",
                    dotted(p, "damageMultiplier").as_str(),
                ) {
                    Ok(v) => v,
                    Err(f) => return Err(f),
                };
                let cooldown_factors = match read_byte(
                    m,
                    "cooldownFactors",
                    dotted(p, "cooldownFactors").as_str(),
                ) {
                    Ok(v) => v,
                    Err(f) => return Err(f),
                };
                Ok((level, Proficiency { description, damage_multiplier, cooldown_factors }))
            },
            _ => Err(ConvertError::at(ErrorKind::TypeMismatch, path)),
        },
    }
}

fn holds_level(out: &Vec<(ProficiencyLevel, Proficiency)>, l: ProficiencyLevel) -> (r: bool)
    ensures
        r == exists|k: int| 0 <= k < out@.len() && (#[trigger] proficiency_views(out@)[k]).0 == l,
{
    let mut j: usize = 0;
    while j < out.len()
        invariant
            j <= out@.len(),
            forall|k: int| 0 <= k < j ==> (#[trigger] proficiency_views(out@)[k]).0 != l,
        decreases out@.len() - j,
    {
        if out[j].0 == l {
            assert(proficiency_views(out@)[j as int].0 == l);
            return true;
        }
        j += 1;
    }
    false
}

fn holds_debuff(out: &Vec<(Debuff, DebuffEffect)>, d: Debuff) -> (r: bool)
    ensures
        r == exists|k: int| 0 <= k < out@.len() && (#[trigger] debuff_views(out@)[k]).0 == d,
{
    let mut j: usize = 0;
    while j < out.len()
        invariant
            j <= out@.len(),
            forall|k: int| 0 <= k < j ==> (#[trigger] debuff_views(out@)[k]).0 != d,
        decreases out@.len() - j,
    {
        if out[j].0 == d {
            assert(debuff_views(out@)[j as int].0 == d);
            return true;
        }
        j += 1;
    }
    false
}

fn read_proficiencies(fields: &Vec<(String, Doc)>) -> (r: Result<Vec<(ProficiencyLevel, Proficiency)>, ConvertError>)
    ensures
        match r {
            Ok(v) => proficiencies_spec(lookup_spec(fields@, "proficiencyLevels"@)) == Ok::<_, Fault>(proficiency_views(v@)),
            Err(f) => proficiencies_spec(lookup_spec(fields@, "proficiencyLevels"@)) == Err::<Seq<(ProficiencyLevel, ProficiencyView)>, Fault>(f@),
        },
{
    match lookup(fields, "proficiencyLevels") {
        None => Err(ConvertError::new(ErrorKind::MissingRequiredField, "proficiencyLevels")),
        Some(Doc::Object(m)) => {
            let mut out: Vec<(ProficiencyLevel, Proficiency)> = Vec::new();
            let mut i: usize = 0;
            assert(m@.take(0) =~= Seq::<(String, Doc)>::empty());
            assert(proficiency_views(out@) =~= Seq::empty());
            while i < m.len()
                invariant
                    i <= m@.len(),
                    proficiency_entries_spec(m@.take(i as int)) == Ok::<_, Fault>(proficiency_views(out@)),
                    proficiencies_spec(lookup_spec(fields@, "proficiencyLevels"@)) == proficiency_entries_spec(m@),
                decreases m@.len() - i,
            {
                assert(m@.take(i + 1).drop_last() =~= m@.take(i as int));
                assert(m@.take(i + 1).last() == m@[i as int]);
                let res = read_proficiency_entry(&m[i]);
                if res.is_err() {
                    proof {
                        lemma_proficiency_error_stays(m@, i + 1);
                    }
                }
                match res {
                    Ok(x) => {
                        let ghost before = out@;
                        if holds_level(&out, x.0) {
                            proof {
                                lemma_proficiency_error_stays(m@, i + 1);
                            }
                            return Err(
                                ConvertError::at(
                                    ErrorKind::TypeMismatch,
                                    dotted("proficiencyLevels", m[i].0.as_str()),
                                ),
                            );
                        }
                        out.push(x);
                        assert(proficiency_views(out@) =~= proficiency_views(before).push((x.0, x.1@)));
                    },
                    Err(f) => return Err(f),
                }
                i += 1;
            }
            assert(m@.take(m@.len() as int) =~= m@);
            Ok(out)
        },
        Some(_) => Err(ConvertError::new(ErrorKind::TypeMismatch, "proficiencyLevels")),
    }
}

fn read_debuff_entry(e: &(String, Doc)) -> (r: Result<(Debuff, DebuffEffect), ConvertError>)
    ensures
        match r {
            Ok(v) => debuff_entry_spec(*e) == Ok::<_, Fault>((v.0, v.1@)),
            Err(f) => debuff_entry_spec(*e) == Err::<(Debuff, DebuffEffectView), Fault>(f@),
        },
{
    let path = dotted("debuffs", e.0.as_str());
    match Debuff::from_wire(e.0.as_str()) {
        None => Err(ConvertError::at(ErrorKind::InvalidEnumValue, path)),
        Some(debuff) => match &e.1 {
            Doc::Object(m) => {
                let p = path.as_str();
                let description = match read_text(
                    m,
                    "description",
                    dotted(p, "description").as_str(),
                ) {
                    Ok(v) => v,
                    Err(f) => return Err(f),
                };
                let multiplier = match read_real(m, "multiplier", dotted(p, "multiplier").as_str()) {
                    Ok(v) => v,
                    Err(f) => return Err(f),
                };
                let tick_duration = match read_byte(
                    m,
                    "tickDuration",
                    dotted(p, "tickDuration").as_str(),
                ) {
                    Ok(v) => v,
                    Err(f) => return Err(f),
                };
                Ok((debuff, DebuffEffect { description, multiplier, tick_duration }))
            },
            _ => Err(ConvertError::at(ErrorKind::TypeMismatch, path)),
        },
    }
}

fn read_debuffs(fields: &Vec<(String, Doc)>) -> (r: Result<Vec<(Debuff, DebuffEffect)>, ConvertError>)
    ensures
        match r {
            Ok(v) => debuffs_spec(lookup_spec(fields@, "debuffs"@)) == Ok::<_, Fault>(debuff_views(v@)),
            Err(f) => debuffs_spec(lookup_spec(fields@, "debuffs"@)) == Err::<Seq<(Debuff, DebuffEffectView)>, Fault>(f@),
        },
{
    match lookup(fields, "debuffs") {
        None => Err(ConvertError::new(ErrorKind::MissingRequiredField, "debuffs")),
        Some(Doc::Object(m)) => {
            let mut out: Vec<(Debuff, DebuffEffect)> = Vec::new();
            let mut i: usize = 0;
            assert(m@.take(0) =~= Seq::<(String, Doc)>::empty());
            assert(debuff_views(out@) =~= Seq::empty());
            while i < m.len()
                invariant
                    i <= m@.len(),
                    debuff_entries_spec(m@.take(i as int)) == Ok::<_, Fault>(debuff_views(out@)),
                    debuffs_spec(lookup_spec(fields@, "debuffs"@)) == debuff_entries_spec(m@),
                decreases m@.len() - i,
            {
                assert(m@.take(i + 1).drop_last() =~= m@.take(i as int));
                assert(m@.take(i + 1).last() == m@[i as int]);
                let res = read_debuff_entry(&m[i]);
                if res.is_err() {
                    proof {
                        lemma_debuff_error_stays(m@, i + 1);
                    }
                }
                match res {
                    Ok(x) => {
                        let ghost before = out@;
                        if holds_debuff(&out, x.0) {
                            proof {
                                lemma_debuff_error_stays(m@, i + 1);
                            }
                            return Err(
                                ConvertError::at(
                                    ErrorKind::TypeMismatch,
                                    dotted("debuffs", m[i].0.as_str()),
                                ),
                            );
                        }
                        out.push(x);
                        assert(debuff_views(out@) =~= debuff_views(before).push((x.0, x.1@)));
                    },
                    Err(f) => return Err(f),
                }
                i += 1;
            }
            assert(m@.take(m@.len() as int) =~= m@);
            Ok(out)
        },
        Some(_) => Err(ConvertError::new(ErrorKind::TypeMismatch, "debuffs")),
    }
}

fn read_reagents(fields: &Vec<(String, Doc)>) -> (r: Result<Vec<Reagent>, ConvertError>)
    ensures
        result_view(r) == reagents_spec(lookup_spec(fields@, "requiredReagents"@)),
{
    match lookup(fields, "requiredReagents") {
        None => Err(ConvertError::new(ErrorKind::MissingRequiredField, "requiredReagents")),
        Some(Doc::List(items)) => {
            let mut out: Vec<Reagent> = Vec::new();
            let mut i: usize = 0;
            assert(items@.take(0) =~= Seq::<Doc>::empty());
            while i < items.len()
                invariant
                    i <= items@.len(),
                    reagent_items_spec(items@.take(i as int)) == Ok::<_, Fault>(out@),
                    reagents_spec(lookup_spec(fields@, "requiredReagents"@)) == reagent_items_spec(items@),
                decreases items@.len() - i,
            {
                assert(items@.take(i + 1).drop_last() =~= items@.take(i as int));
                assert(items@.take(i + 1).last() == items@[i as int]);
                match &items[i] {
                    Doc::Text(s) => match Reagent::from_wire(s.as_str()) {
                        Some(g) => out.push(g),
                        None => {
                            proof {
                                lemma_reagent_error_stays(items@, i + 1);
                            }
                            return Err(
                                ConvertError::new(ErrorKind::InvalidEnumValue, "requiredReagents"),
                            );
                        },
                    },
                    _ => {
                        proof {
                            lemma_reagent_error_stays(items@, i + 1);
                        }
                        return Err(ConvertError::new(ErrorKind::TypeMismatch, "requiredReagents"));
                    },
                }
                i += 1;
            }
            assert(items@.take(items@.len() as int) =~= items@);
            Ok(out)
        },
        Some(_) => Err(ConvertError::new(ErrorKind::TypeMismatch, "requiredReagents")),
    }
}

fn read_aspects(fields: &Vec<(String, Doc)>) -> (r: Result<Vec<String>, ConvertError>)
    ensures
        match r {
            Ok(v) => aspects_spec(lookup_spec(fields@, "aspects"@)) == Ok::<_, Fault>(views(v@)),
            Err(f) => aspects_spec(lookup_spec(fields@, "aspects"@)) == Err::<Seq<Seq<char>>, Fault>(f@),
        },
{
    match lookup(fields, "aspects") {
        None => Err(ConvertError::new(ErrorKind::MissingRequiredField, "aspects")),
        Some(Doc::List(items)) => {
            let mut out: Vec<String> = Vec::new();
            let mut i: usize = 0;
            assert(items@.take(0) =~= Seq::<Doc>::empty());
            assert(views(out@) =~= Seq::empty());
            while i < items.len()
                invariant
                    i <= items@.len(),
                    aspect_items_spec(items@.take(i as int)) == Ok::<_, Fault>(views(out@)),
                    aspects_spec(lookup_spec(fields@, "aspects"@)) == aspect_items_spec(items@),
                decreases items@.len() - i,
            {
                assert(items@.take(i + 1).drop_last() =~= items@.take(i as int));
                assert(items@.take(i + 1).last() == items@[i as int]);
                match &items[i] {
                    Doc::Text(s) => {
                        let ghost before = out@;
                        out.push(s.clone());
                        assert(views(out@) =~= views(before).push(s@));
                    },
                    _ => {
                        proof {
                            lemma_aspect_error_stays(items@, i + 1);
                        }
                        return Err(ConvertError::new(ErrorKind::TypeMismatch, "aspects"));
                    },
                }
                i += 1;
            }
            assert(items@.take(items@.len() as int) =~= items@);
            Ok(out)
        },
        Some(_) => Err(ConvertError::new(ErrorKind::TypeMismatch, "aspects")),
    }
}

/// The record that document `d` describes, or the first field, in schema
/// order, that does not fit. The document must be an object.
pub open spec fn load_spec(d: Doc) -> Result<SkillView, Fault> {
    match d {
        Doc::Object(root) => {
            let f = root@;
            let ability_name = text_spec(lookup_spec(f, "abilityName"@), "abilityName"@);
            let category = category_spec(lookup_spec(f, "type"@), "type"@);
            let short_description = text_spec(
                lookup_spec(f, "shortDescription"@),
                "shortDescription"@,
            );
            let extended_description = text_spec(
                lookup_spec(f, "extendedDescription"@),
                "extendedDescription"@,
            );
            let narrative = text_spec(lookup_spec(f, "narrative"@), "narrative"@);
            let cooldown_seconds = byte_spec(lookup_spec(f, "cooldownSeconds"@), "cooldownSeconds"@);
            let damage_type = damage_type_spec(lookup_spec(f, "damageType"@), "damageType"@);
            let required_skill = text_spec(lookup_spec(f, "requiredSkill"@), "requiredSkill"@);
            let requirements = requirements_spec(f);
            let base_damage_multiplier = measurement_spec(
                lookup_spec(f, "baseDamageMultiplier"@),
                "baseDamageMultiplier"@,
            );
            let immediate_damage_per_use = measurement_spec(
                lookup_spec(f, "immediateDamagePerUse"@),
                "immediateDamagePerUse"@,
            );
            let effect_range = measurement_spec(lookup_spec(f, "effectRange"@), "effectRange"@);
            let area_damage_arc = measurement_spec(
                lookup_spec(f, "areaDamageArc"@),
                "areaDamageArc"@,
            );
            let proficiency_levels = proficiencies_spec(lookup_spec(f, "proficiencyLevels"@));
            let debuffs = debuffs_spec(lookup_spec(f, "debuffs"@));
            let required_reagents = reagents_spec(lookup_spec(f, "requiredReagents"@));
            let aspects = aspects_spec(lookup_spec(f, "aspects"@));
            if ability_name is Err {
                Err(ability_name->Err_0)
            } else if category is Err {
                Err(category->Err_0)
            } else if short_description is Err {
                Err(short_description->Err_0)
            } else if extended_description is Err {
                Err(extended_description->Err_0)
            } else if narrative is Err {
                Err(narrative->Err_0)
            } else if cooldown_seconds is Err {
                Err(cooldown_seconds->Err_0)
            } else if damage_type is Err {
                Err(damage_type->Err_0)
            } else if required_skill is Err {
                Err(required_skill->Err_0)
            } else if requirements is Err {
                Err(requirements->Err_0)
            } else if base_damage_multiplier is Err {
                Err(base_damage_multiplier->Err_0)
            } else if immediate_damage_per_use is Err {
                Err(immediate_damage_per_use->Err_0)
            } else if effect_range is Err {
                Err(effect_range->Err_0)
            } else if area_damage_arc is Err {
                Err(area_damage_arc->Err_0)
            } else if proficiency_levels is Err {
                Err(proficiency_levels->Err_0)
            } else if debuffs is Err {
                Err(debuffs->Err_0)
            } else if required_reagents is Err {
                Err(required_reagents->Err_0)
            } else if aspects is Err {
                Err(aspects->Err_0)
            } else {
                Ok(
                    SkillView {
                        ability_name: ability_name->Ok_0,
                        category: category->Ok_0,
                        short_description: short_description->Ok_0,
                        extended_description: extended_description->Ok_0,
                        narrative: narrative->Ok_0,
                        cooldown_seconds: cooldown_seconds->Ok_0,
                        damage_type: damage_type->Ok_0,
                        required_skill: required_skill->Ok_0,
                        requirements: requirements->Ok_0,
                        base_damage_multiplier: base_damage_multiplier->Ok_0,
                        immediate_damage_per_use: immediate_damage_per_use->Ok_0,
                        effect_range: effect_range->Ok_0,
                        area_damage_arc: area_damage_arc->Ok_0,
                        proficiency_levels: proficiency_levels->Ok_0,
                        debuffs: debuffs->Ok_0,
                        required_reagents: required_reagents->Ok_0,
                        aspects: aspects->Ok_0,
                    },
                )
            }
        },
        _ => Err((ErrorKind::TypeMismatch, Seq::empty())),
    }
}

/// Reads a skill record from a document. A document that is not an object
/// fails with a type mismatch at the empty path; otherwise the fields are
/// read in schema order and the first that is absent, has the wrong shape,
/// names no enumerator or holds a number out of range ends the load.
#[verifier::rlimit(50)]
pub fn load(doc: &Doc) -> (r: Result<Skill, ConvertError>)
    ensures
        result_view(r) == load_spec(*doc),
{
    let f = match doc {
        Doc::Object(root) => root,
        _ => {
            proof {
                reveal_strlit("");
                assert(""@.len() == 0);
                assert(""@ =~= Seq::<char>::empty());
            }
            return Err(ConvertError::new(ErrorKind::TypeMismatch, ""));
        },
    };
    let ability_name = match read_text(f, "abilityName", "abilityName") {
        Ok(v) => v,
        Err(e) => return Err(e),
    };
    let category = match read_category(f, "type", "type") {
        Ok(v) => v,
        Err(e) => return Err(e),
    };
    let short_description = match read_text(f, "shortDescription", "shortDescription") {
        Ok(v) => v,
        Err(e) => return Err(e),
    };
    let extended_description = match read_text(f, "extendedDescription", "extendedDescription") {
        Ok(v) => v,
        Err(e) => return Err(e),
    };
    let narrative = match read_text(f, "narrative", "narrative") {
        Ok(v) => v,
        Err(e) => return Err(e),
    };
    let cooldown_seconds = match read_byte(f, "cooldownSeconds", "cooldownSeconds") {
        Ok(v) => v,
        Err(e) => return Err(e),
    };
    let damage_type = match read_damage_type(f, "damageType", "damageType") {
        Ok(v) => v,
        Err(e) => return Err(e),
    };
    let required_skill = match read_text(f, "requiredSkill", "requiredSkill") {
        Ok(v) => v,
        Err(e) => return Err(e),
    };
    let requirements = match read_requirements(f) {
        Ok(v) => v,
        Err(e) => return Err(e),
    };
    let base_damage_multiplier = match read_measurement(f, "baseDamageMultiplier") {
        Ok(v) => v,
        Err(e) => return Err(e),
    };
    let immediate_damage_per_use = match read_measurement(f, "immediateDamagePerUse") {
        Ok(v) => v,
        Err(e) => return Err(e),
    };
    let effect_range = match read_measurement(f, "effectRange") {
        Ok(v) => v,
        Err(e) => return Err(e),
    };
    let area_damage_arc = match read_measurement(f, "areaDamageArc") {
        Ok(v) => v,
        Err(e) => return Err(e),
    };
    let proficiency_levels = match read_proficiencies(f) {
        Ok(v) => v,
        Err(e) => return Err(e),
    };
    let debuffs = match read_debuffs(f) {
        Ok(v) => v,
        Err(e) => return Err(e),
    };
    let required_reagents = match read_reagents(f) {
        Ok(v) => v,
        Err(e) => return Err(e),
    };
    let aspects = match read_aspects(f) {
        Ok(v) => v,
        Err(e) => return Err(e),
    };
    Ok(
        Skill {
            ability_name,
            category,
            short_description,
            extended_description,
            narrative,
            cooldown_seconds,
            damage_type,
            required_skill,
            requirements,
            base_damage_multiplier,
            immediate_damage_per_use,
            effect_range,
            area_damage_arc,
            proficiency_levels,
            debuffs,
            required_reagents,
            aspects,
        },
    )
}

/// Loading is a function of the document: two loads of the same document
/// give the same record, or the same failure.
pub proof fn lemma_load_deterministic(
    doc: Doc,
    first: Result<Skill, ConvertError>,
    second: Result<Skill, ConvertError>,
)
    requires
        result_view(first) == load_spec(doc),
        result_view(second) == load_spec(doc),
    ensures
        result_view(first) == result_view(second),
{
}

/// A loaded proficiency map holds each level at most once: a repeated member is
/// refused.
pub proof fn lemma_proficiency_keys_unique(es: Seq<(String, Doc)>)
    requires
        proficiency_entries_spec(es) is Ok,
    ensures
        forall|i: int, j: int|
            0 <= i < j < proficiency_entries_spec(es)->Ok_0.len() ==> proficiency_entries_spec(es)->Ok_0[i].0
                != proficiency_entries_spec(es)->Ok_0[j].0,
    decreases es.len(),
{
    if es.len() > 0 {
        lemma_proficiency_keys_unique(es.drop_last());
    }
}

/// A loaded debuff map holds each debuff at most once: a repeated member is
/// refused.
pub proof fn lemma_debuff_keys_unique(es: Seq<(String, Doc)>)
    requires
        debuff_entries_spec(es) is Ok,
    ensures
        forall|i: int, j: int|
            0 <= i < j < debuff_entries_spec(es)->Ok_0.len() ==> debuff_entries_spec(es)->Ok_0[i].0
                != debuff_entries_spec(es)->Ok_0[j].0,
    decreases es.len(),
{
    if es.len() > 0 {
        lemma_debuff_keys_unique(es.drop_last());
    }
}

/// A document whose ability name reads and whose `type` is a string naming
/// no skill category fails to load, with an invalid enumerator at `type`.
pub proof fn lemma_unknown_category_refused(root: Vec<(String, Doc)>, s: String)
    requires
        text_spec(lookup_spec(root@, "abilityName"@), "abilityName"@) is Ok,
        lookup_spec(root@, "type"@) == Some(Doc::Text(s)),
        SkillCategory::from_wire_spec(s@) is None,
    ensures
        load_spec(Doc::Object(root)) == Err::<SkillView, Fault>(
            (ErrorKind::InvalidEnumValue, "type"@),
        ),
{
}

/// A reagent list that holds a string naming no reagent fails, with an
/// invalid enumerator at `requiredReagents`, unless an earlier item fails.
pub proof fn lemma_unknown_reagent_refused(items: Seq<Doc>, k: int, s: String)
    requires
        0 <= k < items.len(),
        items[k] == Doc::Text(s),
        Reagent::from_wire_spec(s@) is None,
        reagent_items_spec(items.take(k)) is Ok,
    ensures
        reagent_items_spec(items) == Err::<Seq<Reagent>, Fault>(
            (ErrorKind::InvalidEnumValue, "requiredReagents"@),
        ),
{
    assert(items.take(k + 1).drop_last() =~= items.take(k));
    assert(items.take(k + 1).last() == items[k]);
    lemma_reagent_error_stays(items, k + 1);
}

/// The two forms of the requirements agree: a document without a
/// `requirements` object whose dotted members `requirements.actions` and
/// `requirements.conditions` hold what the object's `actions` and
/// `conditions` hold reads the same requirements as the object does.
pub proof fn lemma_requirement_forms_agree(f: Seq<(String, Doc)>, m: Seq<(String, Doc)>)
    requires
        lookup_spec(f, "requirements"@) is None,
        lookup_spec(m, "actions"@) is Some,
        lookup_spec(m, "conditions"@) is Some,
        lookup_spec(f, "requirements.actions"@) == lookup_spec(m, "actions"@),
        lookup_spec(f, "requirements.conditions"@) == lookup_spec(m, "conditions"@),
    ensures
        requirements_spec(f) == requirement_fields_spec(m, true),
{
    reveal_strlit("requirements");
    reveal_strlit(".");
    reveal_strlit("actions");
    reveal_strlit("conditions");
    reveal_strlit("requirements.actions");
    reveal_strlit("requirements.conditions");
    assert(dot("requirements"@, "actions"@) =~= "requirements.actions"@);
    assert(dot("requirements"@, "conditions"@) =~= "requirements.conditions"@);
}

/// A measurement whose value and explanation read and whose `unit` is a
/// string naming no unit fails, with an invalid enumerator at its `unit`.
pub proof fn lemma_unknown_unit_refused(m: Vec<(String, Doc)>, path: Seq<char>, s: String)
    requires
        real_spec(lookup_spec(m@, "value"@), dot(path, "value"@)) is Ok,
        text_spec(lookup_spec(m@, "explanation"@), dot(path, "explanation"@)) is Ok,
        lookup_spec(m@, "unit"@) == Some(Doc::Text(s)),
        Unit::from_wire_spec(s@) is None,
    ensures
        measurement_spec(Some(Doc::Object(m)), path) == Err::<MeasurementView, Fault>(
            (ErrorKind::InvalidEnumValue, dot(path, "unit"@)),
        ),
{
}

/// A proficiency map with a member whose name is no level's wire string
/// fails, with an invalid enumerator at that member, unless an earlier
/// member fails.
pub proof fn lemma_unknown_level_refused(es: Seq<(String, Doc)>, k: int)
    requires
        0 <= k < es.len(),
        ProficiencyLevel::from_wire_spec(es[k].0@) is None,
        proficiency_entries_spec(es.take(k)) is Ok,
    ensures
        proficiency_entries_spec(es) == Err::<Seq<(ProficiencyLevel, ProficiencyView)>, Fault>(
            (ErrorKind::InvalidEnumValue, dot("proficiencyLevels"@, es[k].0@)),
        ),
{
    assert(es.take(k + 1).drop_last() =~= es.take(k));
    assert(es.take(k + 1).last() == es[k]);
    lemma_proficiency_error_stays(es, k + 1);
}

/// A debuff map with a member whose name is no debuff's wire string fails,
/// with an invalid enumerator at that member, unless an earlier member
/// fails.
pub proof fn lemma_unknown_debuff_refused(es: Seq<(String, Doc)>, k: int)
    requires
        0 <= k < es.len(),
        Debuff::from_wire_spec(es[k].0@) is None,
        debuff_entries_spec(es.take(k)) is Ok,
    ensures
        debuff_entries_spec(es) == Err::<Seq<(Debuff, DebuffEffectView)>, Fault>(
            (ErrorKind::InvalidEnumValue, dot("debuffs"@, es[k].0@)),
        ),
{
    assert(es.take(k + 1).drop_last() =~= es.take(k));
    assert(es.take(k + 1).last() == es[k]);
    lemma_debuff_error_stays(es, k + 1);
}

} // verus!
