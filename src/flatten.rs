//! Projects a skill record onto one header row and one value row: the
//! scalar section (nested composites under dotted paths), then the reagent
//! column, then the aspect column.
use vstd::prelude::*;
use vstd::string::*;
use crate::fields::{dot, dotted};
use crate::model::{Measurement, MeasurementView, Skill, SkillView};
use crate::schema::{Reagent, Unit};
use crate::text::{join, join_spec, views};

verus! {

/// The column delimiter inside a joined list value.
pub open spec fn list_sep() -> Seq<char> {
    "|"@
}

pub open spec fn digit_char(d: int) -> char {
    if d == 0 {
        '0'
    } else if d == 1 {
        '1'
    } else if d == 2 {
        '2'
    } else if d == 3 {
        '3'
    } else if d == 4 {
        '4'
    } else if d == 5 {
        '5'
    } else if d == 6 {
        '6'
    } else if d == 7 {
        '7'
    } else if d == 8 {
        '8'
    } else {
        '9'
    }
}

/// The decimal text of a byte, without leading zeros.
pub open spec fn byte_text(b: u8) -> Seq<char> {
    if b < 10 {
        seq![digit_char(b as int)]
    } else if b < 100 {
        seq![digit_char(b as int / 10), digit_char(b as int % 10)]
    } else {
        seq![digit_char(b as int / 100), digit_char((b as int / 10) % 10), digit_char(b as int % 10)]
    }
}

/// The cell of an optional unit: its wire string, or nothing.
pub open spec fn unit_text(u: Option<Unit>) -> Seq<char> {
    match u {
        Some(u) => u.wire_spec(),
        None => Seq::empty(),
    }
}

pub open spec fn measurement_header(path: Seq<char>) -> Seq<Seq<char>> {
    seq![dot(path, "value"@), dot(path, "explanation"@), dot(path, "unit"@)]
}

pub open spec fn measurement_cells(m: MeasurementView) -> Seq<Seq<char>> {
    seq![m.value, m.explanation, unit_text(m.unit)]
}

/// The column names of the scalar section.
pub open spec fn scalar_header_spec() -> Seq<Seq<char>> {
    seq![
        "abilityName"@,
        "type"@,
        "shortDescription"@,
        "extendedDescription"@,
        "narrative"@,
        "cooldownSeconds"@,
        "damageType"@,
        "requiredSkill"@,
        "requirements.actions"@,
        "requirements.conditions"@,
    ] + measurement_header("baseDamageMultiplier"@) + measurement_header("immediateDamagePerUse"@)
        + measurement_header("effectRange"@) + measurement_header("areaDamageArc"@)
}

/// The cells of the scalar section.
pub open spec fn scalar_cells_spec(s: SkillView) -> Seq<Seq<char>> {
    seq![
        s.ability_name,
        s.category.wire_spec(),
        s.short_description,
        s.extended_description,
        s.narrative,
        byte_text(s.cooldown_seconds),
        s.damage_type.wire_spec(),
        s.required_skill,
        byte_text(s.requirements.actions),
        s.requirements.conditions,
    ] + measurement_cells(s.base_damage_multiplier) + measurement_cells(
        s.immediate_damage_per_use,
    ) + measurement_cells(s.effect_range) + measurement_cells(s.area_damage_arc)
}

/// The column forms of a list of reagents, in order.
pub open spec fn reagent_columns(list: Seq<Reagent>) -> Seq<Seq<char>> {
    list.map_values(|g: Reagent| g.column_spec())
}

/// The reagent cell: each reagent's column form, joined with `|`.
pub open spec fn reagents_cell(list: Seq<Reagent>) -> Seq<char> {
    join_spec(reagent_columns(list), list_sep())
}

/// The aspect cell: the tags joined with `|`.
pub open spec fn aspects_cell(tags: Seq<Seq<char>>) -> Seq<char> {
    join_spec(tags, list_sep())
}

/// The header row: scalar section, then reagents, then aspects.
pub open spec fn row_header_spec() -> Seq<Seq<char>> {
    scalar_header_spec() + seq!["requiredReagents"@] + seq!["aspects"@]
}

/// The value row, aligned with the header row.
pub open spec fn row_cells_spec(s: SkillView) -> Seq<Seq<char>> {
    scalar_cells_spec(s) + seq![reagents_cell(s.required_reagents)] + seq![
        aspects_cell(s.aspects),
    ]
}

/// One flat table row: column names and the cells under them.
#[derive(Debug)]
pub struct Row {
    pub header: Vec<String>,
    pub values: Vec<String>,
}

fn digit(d: u8) -> (r: &'static str)
    requires
        d < 10,
    ensures
        r@ == seq![digit_char(d as int)],
{
    proof {
        reveal_strlit("0");
        reveal_strlit("1");
        reveal_strlit("2");
        reveal_strlit("3");
        reveal_strlit("4");
        reveal_strlit("5");
        reveal_strlit("6");
        reveal_strlit("7");
        reveal_strlit("8");
        reveal_strlit("9");
    }
    let r = if d == 0 {
        "0"
    } else if d == 1 {
        "1"
    } else if d == 2 {
        "2"
    } else if d == 3 {
        "3"
    } else if d == 4 {
        "4"
    } else if d == 5 {
        "5"
    } else if d == 6 {
        "6"
    } else if d == 7 {
        "7"
    } else if d == 8 {
        "8"
    } else {
        "9"
    };
    assert(r@ =~= seq![digit_char(d as int)]);
    r
}

/// The decimal text of a byte.
pub fn byte_to_text(b: u8) -> (r: String)
    ensures
        r@ == byte_text(b),
{
    let mut s = String::new();
    if b >= 100 {
        s.append(digit(b / 100));
    }
    if b >= 10 {
        s.append(digit((b / 10) % 10));
    }
    s.append(digit(b % 10));
    assert(s@ =~= byte_text(b));
    s
}

fn push_text(v: &mut Vec<String>, s: &str)
    ensures
        views(final(v)@) == views(old(v)@).push(s@),
{
    let ghost before = v@;
    v.push(String::from_str(s));
    assert(views(v@) =~= views(before).push(s@));
}

fn push_owned(v: &mut Vec<String>, s: String)
    ensures
        views(final(v)@) == views(old(v)@).push(s@),
{
    let ghost before = v@;
    let ghost sv = s@;
    v.push(s);
    assert(views(v@) =~= views(before).push(sv));
}

fn push_measurement_header(v: &mut Vec<String>, path: &str)
    ensures
        views(final(v)@) == views(old(v)@) + measurement_header(path@),
{
    let ghost before = views(v@);
    push_owned(v, dotted(path, "value"));
    push_owned(v, dotted(path, "explanation"));
    push_owned(v, dotted(path, "unit"));
    assert(views(v@) =~= before + measurement_header(path@));
}

fn unit_cell(u: &Option<Unit>) -> (r: String)
    ensures
        r@ == unit_text(*u),
{
    match u {
        Some(u) => String::from_str(u.wire()),
        None => String::new(),
    }
}

fn push_measurement_cells(v: &mut Vec<String>, m: &Measurement)
    ensures
        views(final(v)@) == views(old(v)@) + measurement_cells(m@),
{
    let ghost before = views(v@);
    push_owned(v, m.value.clone());
    push_owned(v, m.explanation.clone());
    push_owned(v, unit_cell(&m.unit));
    assert(views(v@) =~= before + measurement_cells(m@));
}

/// The column names of the scalar section.
pub fn scalar_header() -> (r: Vec<String>)
    ensures
        views(r@) == scalar_header_spec(),
{
    let mut h: Vec<String> = Vec::new();
    assert(views(h@) =~= Seq::empty());
    push_text(&mut h, "abilityName");
    push_text(&mut h, "type");
    push_text(&mut h, "shortDescription");
    push_text(&mut h, "extendedDescription");
    push_text(&mut h, "narrative");
    push_text(&mut h, "cooldownSeconds");
    push_text(&mut h, "damageType");
    push_text(&mut h, "requiredSkill");
    push_text(&mut h, "requirements.actions");
    push_text(&mut h, "requirements.conditions");
    push_measurement_header(&mut h, "baseDamageMultiplier");
    push_measurement_header(&mut h, "immediateDamagePerUse");
    push_measurement_header(&mut h, "effectRange");
    push_measurement_header(&mut h, "areaDamageArc");
    assert(views(h@) =~= scalar_header_spec());
    h
}

/// The cells of the scalar section of `s`.
pub fn scalar_cells(s: &Skill) -> (r: Vec<String>)
    ensures
        views(r@) == scalar_cells_spec(s@),
{
    let mut c: Vec<String> = Vec::new();
    assert(views(c@) =~= Seq::empty());
    push_owned(&mut c, s.ability_name.clone());
    push_text(&mut c, s.category.wire());
    push_owned(&mut c, s.short_description.clone());
    push_owned(&mut c, s.extended_description.clone());
    push_owned(&mut c, s.narrative.clone());
    push_owned(&mut c, byte_to_text(s.cooldown_seconds));
    push_text(&mut c, s.damage_type.wire());
    push_owned(&mut c, s.required_skill.clone());
    push_owned(&mut c, byte_to_text(s.requirements.actions));
    push_owned(&mut c, s.requirements.conditions.clone());
    push_measurement_cells(&mut c, &s.base_damage_multiplier);
    push_measurement_cells(&mut c, &s.immediate_damage_per_use);
    push_measurement_cells(&mut c, &s.effect_range);
    push_measurement_cells(&mut c, &s.area_damage_arc);
    assert(views(c@) =~= scalar_cells_spec(s@));
    c
}

/// The reagent cell: each reagent's column form, in list order, joined
/// with `|`. An empty list gives an empty cell.
pub fn encode_reagents(list: &Vec<Reagent>) -> (r: String)
    ensures
        r@ == reagents_cell(list@),
{
    let mut cols: Vec<String> = Vec::new();
    let mut i: usize = 0;
    while i < list.len()
        invariant
            i <= list@.len(),
            views(cols@) =~= reagent_columns(list@.take(i as int)),
        decreases list@.len() - i,
    {
        push_text(&mut cols, list[i].column());
        assert(list@.take(i + 1) =~= list@.take(i as int).push(list@[i as int]));
        i += 1;
    }
    assert(list@.take(list@.len() as int) =~= list@);
    join(&cols, "|")
}

/// The aspect cell: the tags in order, joined with `|`.
pub fn encode_aspects(tags: &Vec<String>) -> (r: String)
    ensures
        r@ == aspects_cell(views(tags@)),
{
    join(tags, "|")
}

/// Flattens a record into its header row and value row.
pub fn flatten(s: &Skill) -> (r: Row)
    ensures
        views(r.header@) == row_header_spec(),
        views(r.values@) == row_cells_spec(s@),
        r.header@.len() == r.values@.len(),
{
    let mut header = scalar_header();
    push_text(&mut header, "requiredReagents");
    push_text(&mut header, "aspects");
    let mut values = scalar_cells(s);
    push_owned(&mut values, encode_reagents(&s.required_reagents));
    push_owned(&mut values, encode_aspects(&s.aspects));
    assert(views(header@) =~= row_header_spec());
    assert(views(values@) =~= row_cells_spec(s@));
    proof {
        lemma_row_aligned(s@);
    }
    Row { header, values }
}

/// For every record the header row and the value row have the same number
/// of columns.
pub proof fn lemma_row_aligned(s: SkillView)
    ensures
        row_header_spec().len() == row_cells_spec(s).len(),
        row_header_spec().len() == 24,
{
}

/// The value row does not depend on the proficiency levels or the debuffs
/// of a record: records that differ only there flatten alike.
pub proof fn lemma_maps_not_flattened(s: SkillView, t: SkillView)
    requires
        s.ability_name == t.ability_name,
        s.category == t.category,
        s.short_description == t.short_description,
        s.extended_description == t.extended_description,
        s.narrative == t.narrative,
        s.cooldown_seconds == t.cooldown_seconds,
        s.damage_type == t.damage_type,
        s.required_skill == t.required_skill,
        s.requirements == t.requirements,
        s.base_damage_multiplier == t.base_damage_multiplier,
        s.immediate_damage_per_use == t.immediate_damage_per_use,
        s.effect_range == t.effect_range,
        s.area_damage_arc == t.area_damage_arc,
        s.required_reagents == t.required_reagents,
        s.aspects == t.aspects,
    ensures
        row_cells_spec(s) == row_cells_spec(t),
{
}

} // verus!
