use skill_converter::document::Doc;
use skill_converter::error::ErrorKind;
use skill_converter::flatten::{byte_to_text, encode_aspects, encode_reagents, flatten};
use skill_converter::loader::load;
use skill_converter::schema::{Debuff, DamageType, ProficiencyLevel, Reagent, SkillCategory, Unit};
use skill_converter::table::{convert, csv_path, to_table_text};

fn text(s: &str) -> Doc {
    Doc::Text(s.to_string())
}

fn num(s: &str) -> Doc {
    Doc::Number(s.to_string())
}

fn obj(members: Vec<(&str, Doc)>) -> Doc {
    Doc::Object(members.into_iter().map(|(k, v)| (k.to_string(), v)).collect())
}

fn measurement(value: &str, explanation: &str, unit: Option<&str>) -> Doc {
    let mut m = vec![("value", num(value)), ("explanation", text(explanation))];
    if let Some(u) = unit {
        m.push(("unit", text(u)));
    }
    obj(m)
}

fn members(with_maps: bool) -> Vec<(&'static str, Doc)> {
    let proficiencies = if with_maps {
        obj(vec![(
            "novice",
            obj(vec![
                ("description", text("first steps")),
                ("damageMultiplier", num("0.5")),
                ("cooldownFactors", num("2")),
            ]),
        )])
    } else {
        obj(vec![])
    };
    let debuffs = if with_maps {
        obj(vec![(
            "RiskOfCounterAttack",
            obj(vec![
                ("description", text("opens a guard")),
                ("multiplier", num("1.5")),
                ("tickDuration", num("3")),
            ]),
        )])
    } else {
        obj(vec![])
    };
    vec![
        ("abilityName", text("Cleave")),
        ("type", text("MeleeCombatSkill")),
        ("shortDescription", text("A wide swing")),
        ("extendedDescription", text("Hits everything in front")),
        ("narrative", text("Old as steel")),
        ("cooldownSeconds", num("12")),
        ("damageType", text("Physical/Slashing")),
        ("requiredSkill", text("Slash")),
        (
            "requirements",
            obj(vec![("actions", num("2")), ("conditions", text("standing"))]),
        ),
        ("baseDamageMultiplier", measurement("1.25", "per hit", None)),
        ("immediateDamagePerUse", measurement("40", "flat", None)),
        ("effectRange", measurement("3", "reach", Some("meters"))),
        ("areaDamageArc", measurement("120", "arc", Some("degrees"))),
        ("proficiencyLevels", proficiencies),
        ("debuffs", debuffs),
        ("requiredReagents", Doc::List(vec![text("Blood"), text("SparklingPowder")])),
        ("aspects", Doc::List(vec![text("fast"), text("loud")])),
    ]
}

fn skill_doc() -> Doc {
    obj(members(false))
}

fn replaced(key: &str, value: Option<Doc>) -> Doc {
    let mut m: Vec<(&str, Doc)> = members(false).into_iter().filter(|(k, _)| *k != key).collect();
    if let Some(v) = value {
        m.push((key_static(key), v));
    }
    obj(m)
}

fn key_static(key: &str) -> &'static str {
    members(false).into_iter().map(|(k, _)| k).find(|k| *k == key).unwrap()
}

fn expected_header() -> Vec<&'static str> {
    vec![
        "abilityName",
        "type",
        "shortDescription",
        "extendedDescription",
        "narrative",
        "cooldownSeconds",
        "damageType",
        "requiredSkill",
        "requirements.actions",
        "requirements.conditions",
        "baseDamageMultiplier.value",
        "baseDamageMultiplier.explanation",
        "baseDamageMultiplier.unit",
        "immediateDamagePerUse.value",
        "immediateDamagePerUse.explanation",
        "immediateDamagePerUse.unit",
        "effectRange.value",
        "effectRange.explanation",
        "effectRange.unit",
        "areaDamageArc.value",
        "areaDamageArc.explanation",
        "areaDamageArc.unit",
        "requiredReagents",
        "aspects",
    ]
}

#[test]
fn header_and_values_align() {
    let skill = load(&skill_doc()).unwrap();
    let row = flatten(&skill);
    assert_eq!(row.header.len(), row.values.len());
    assert_eq!(row.header, expected_header());
    assert_eq!(
        row.values,
        vec![
            "Cleave",
            "MeleeCombatSkill",
            "A wide swing",
            "Hits everything in front",
            "Old as steel",
            "12",
            "Physical/Slashing",
            "Slash",
            "2",
            "standing",
            "1.25",
            "per hit",
            "",
            "40",
            "flat",
            "",
            "3",
            "reach",
            "meters",
            "120",
            "arc",
            "degrees",
            "blood|sparkling_powder",
            "fast|loud",
        ]
    );
}

#[test]
fn enum_wire_forms_round_trip() {
    for c in [
        SkillCategory::Melee,
        SkillCategory::Ranged,
        SkillCategory::Utility,
        SkillCategory::Spell,
        SkillCategory::Healing,
    ] {
        assert_eq!(SkillCategory::from_wire(c.wire()), Some(c));
    }
    assert_eq!(SkillCategory::Melee.wire(), "MeleeCombatSkill");
    assert_eq!(SkillCategory::Healing.wire(), "HealingSkill");
    for d in [DamageType::PhysicalSlashing, DamageType::Magical] {
        assert_eq!(DamageType::from_wire(d.wire()), Some(d));
    }
    assert_eq!(DamageType::PhysicalSlashing.wire(), "Physical/Slashing");
    for p in [ProficiencyLevel::Novice, ProficiencyLevel::Adept, ProficiencyLevel::Master] {
        assert_eq!(ProficiencyLevel::from_wire(p.wire()), Some(p));
    }
    assert_eq!(ProficiencyLevel::Adept.wire(), "adept");
    assert_eq!(Debuff::from_wire(Debuff::RiskOfCounterAttack.wire()), Some(Debuff::RiskOfCounterAttack));
    for g in [Reagent::SparklingPowder, Reagent::Blood] {
        assert_eq!(Reagent::from_wire(g.wire()), Some(g));
        assert_eq!(Reagent::from_column(g.column()), Some(g));
    }
    assert_eq!(Reagent::SparklingPowder.column(), "sparkling_powder");
    for u in [Unit::Meters, Unit::Degrees] {
        assert_eq!(Unit::from_wire(u.wire()), Some(u));
    }
    assert_eq!(Unit::from_wire("Meters"), None);
    assert_eq!(SkillCategory::from_wire("Melee"), None);
}

#[test]
fn reagents_join_in_order() {
    assert_eq!(encode_reagents(&vec![Reagent::Blood, Reagent::SparklingPowder]), "blood|sparkling_powder");
    assert_eq!(encode_reagents(&vec![Reagent::SparklingPowder]), "sparkling_powder");
    assert_eq!(encode_reagents(&vec![]), "");
    assert_eq!(encode_aspects(&vec!["a".to_string(), "b c".to_string()]), "a|b c");
    assert_eq!(encode_aspects(&vec![]), "");
}

#[test]
fn unknown_category_is_invalid_enum() {
    let e = load(&replaced("type", Some(text("FireballSkill")))).unwrap_err();
    assert_eq!(e.kind, ErrorKind::InvalidEnumValue);
    assert_eq!(e.path, "type");
}

#[test]
fn missing_ability_name_is_reported() {
    let e = load(&replaced("abilityName", None)).unwrap_err();
    assert_eq!(e.kind, ErrorKind::MissingRequiredField);
    assert_eq!(e.path, "abilityName");
}

#[test]
fn maps_are_left_out_of_the_row() {
    let with_maps = load(&obj(members(true))).unwrap();
    assert_eq!(with_maps.proficiency_levels.len(), 1);
    assert_eq!(with_maps.proficiency_levels[0].0, ProficiencyLevel::Novice);
    assert_eq!(with_maps.proficiency_levels[0].1.cooldown_factors, 2);
    assert_eq!(with_maps.debuffs.len(), 1);
    assert_eq!(with_maps.debuffs[0].1.tick_duration, 3);
    let without = load(&skill_doc()).unwrap();
    let a = flatten(&with_maps);
    let b = flatten(&without);
    assert_eq!(a.header, b.header);
    assert_eq!(a.values, b.values);
    assert!(a.header.iter().all(|h| !h.starts_with("proficiency") && !h.starts_with("debuff")));
}

#[test]
fn loading_twice_gives_the_same_record() {
    let doc = obj(members(true));
    let a = load(&doc).unwrap();
    let b = load(&doc).unwrap();
    assert_eq!(format!("{:?}", a), format!("{:?}", b));
}

#[test]
fn type_mismatch_and_numeric_errors() {
    let e = load(&replaced("narrative", Some(num("3")))).unwrap_err();
    assert_eq!((e.kind, e.path.as_str()), (ErrorKind::TypeMismatch, "narrative"));
    let e = load(&replaced("cooldownSeconds", Some(num("256")))).unwrap_err();
    assert_eq!((e.kind, e.path.as_str()), (ErrorKind::InvalidNumericValue, "cooldownSeconds"));
    let e = load(&replaced("cooldownSeconds", Some(num("1.5")))).unwrap_err();
    assert_eq!((e.kind, e.path.as_str()), (ErrorKind::InvalidNumericValue, "cooldownSeconds"));
    let e = load(&replaced("aspects", Some(text("fast")))).unwrap_err();
    assert_eq!((e.kind, e.path.as_str()), (ErrorKind::TypeMismatch, "aspects"));
    let e = load(&text("not an object")).unwrap_err();
    assert_eq!((e.kind, e.path.as_str()), (ErrorKind::TypeMismatch, ""));
    let ok = load(&replaced("cooldownSeconds", Some(num("255")))).unwrap();
    assert_eq!(ok.cooldown_seconds, 255);
}

#[test]
fn nested_errors_name_the_field_path() {
    let e = load(&replaced("effectRange", Some(measurement("3", "reach", Some("feet"))))).unwrap_err();
    assert_eq!((e.kind, e.path.as_str()), (ErrorKind::InvalidEnumValue, "effectRange.unit"));
    let e = load(&replaced("baseDamageMultiplier", Some(obj(vec![("value", num("1"))])))).unwrap_err();
    assert_eq!(
        (e.kind, e.path.as_str()),
        (ErrorKind::MissingRequiredField, "baseDamageMultiplier.explanation")
    );
    let bad_level = obj(vec![("expert", obj(vec![]))]);
    let e = load(&replaced("proficiencyLevels", Some(bad_level))).unwrap_err();
    assert_eq!((e.kind, e.path.as_str()), (ErrorKind::InvalidEnumValue, "proficiencyLevels.expert"));
    let bad_debuff = obj(vec![(
        "RiskOfCounterAttack",
        obj(vec![("description", text("x")), ("multiplier", num("1")), ("tickDuration", text("3"))]),
    )]);
    let e = load(&replaced("debuffs", Some(bad_debuff))).unwrap_err();
    assert_eq!((e.kind, e.path.as_str()), (ErrorKind::TypeMismatch, "debuffs.RiskOfCounterAttack.tickDuration"));
    let e = load(&replaced("requiredReagents", Some(Doc::List(vec![text("Salt")])))).unwrap_err();
    assert_eq!((e.kind, e.path.as_str()), (ErrorKind::InvalidEnumValue, "requiredReagents"));
}

#[test]
fn requirements_accept_dotted_alias() {
    let req = obj(vec![("requirements.actions", num("4")), ("requirements.conditions", text("airborne"))]);
    let s = load(&replaced("requirements", Some(req))).unwrap();
    assert_eq!(s.requirements.actions, 4);
    assert_eq!(s.requirements.conditions, "airborne");
    let req = obj(vec![("actions", num("300")), ("conditions", text("x"))]);
    let e = load(&replaced("requirements", Some(req))).unwrap_err();
    assert_eq!((e.kind, e.path.as_str()), (ErrorKind::InvalidNumericValue, "requirements.actions"));
}

#[test]
fn null_unit_means_none() {
    let m = obj(vec![("value", num("2")), ("explanation", text("x")), ("unit", Doc::Null)]);
    let s = load(&replaced("effectRange", Some(m))).unwrap();
    assert_eq!(s.effect_range.unit, None);
}

#[test]
fn table_text_is_two_records() {
    let out = convert(&skill_doc()).unwrap();
    let header = expected_header().join(",");
    let values = "Cleave,MeleeCombatSkill,A wide swing,Hits everything in front,Old as steel,12,\
Physical/Slashing,Slash,2,standing,1.25,per hit,,40,flat,,3,reach,meters,120,arc,degrees,\
blood|sparkling_powder,fast|loud";
    assert_eq!(out, format!("{}\n{}\n", header, values));
    let quoted = load(&replaced("narrative", Some(text("a, b")))).unwrap();
    let line = to_table_text(&flatten(&quoted));
    assert!(line.contains(",\"a, b\","));
    let e = convert(&replaced("type", Some(text("FireballSkill")))).unwrap_err();
    assert_eq!(e.kind, ErrorKind::InvalidEnumValue);
}

#[test]
fn bytes_print_in_decimal() {
    assert_eq!(byte_to_text(0), "0");
    assert_eq!(byte_to_text(7), "7");
    assert_eq!(byte_to_text(42), "42");
    assert_eq!(byte_to_text(100), "100");
    assert_eq!(byte_to_text(255), "255");
}

#[test]
fn output_path_takes_csv_extension() {
    assert_eq!(csv_path("skills/cleave.json"), "skills/cleave.csv");
    assert_eq!(csv_path("cleave"), "cleave.csv");
    assert_eq!(csv_path("a.b/cleave"), "a.b/cleave.csv");
    assert_eq!(csv_path(".hidden"), ".hidden.csv");
    assert_eq!(csv_path("x.tar.gz"), "x.tar.csv");
    assert_eq!(csv_path("dir/"), "dir.csv");
    assert_eq!(csv_path("dir/a.json/"), "dir/a.csv");
    assert_eq!(csv_path(".."), "..");
    assert_eq!(csv_path("a/."), "a/.");
    assert_eq!(csv_path("/"), "/");
    assert_eq!(csv_path(""), "");
}

#[test]
fn requirements_accept_top_level_dotted_keys() {
    let mut m: Vec<(&str, Doc)> =
        members(false).into_iter().filter(|(k, _)| *k != "requirements").collect();
    m.push(("requirements.actions", num("5")));
    m.push(("requirements.conditions", text("mounted")));
    let s = load(&obj(m)).unwrap();
    assert_eq!(s.requirements.actions, 5);
    assert_eq!(s.requirements.conditions, "mounted");
    let e = load(&replaced("requirements", None)).unwrap_err();
    assert_eq!((e.kind, e.path.as_str()), (ErrorKind::MissingRequiredField, "requirements.actions"));
    let e = load(&replaced("requirements", Some(text("none")))).unwrap_err();
    assert_eq!((e.kind, e.path.as_str()), (ErrorKind::TypeMismatch, "requirements"));
}

#[test]
fn proficiency_levels_keep_document_order() {
    let level = |d: &str| {
        obj(vec![
            ("description", text(d)),
            ("damageMultiplier", num("1")),
            ("cooldownFactors", num("0")),
        ])
    };
    let levels = obj(vec![("master", level("m")), ("novice", level("n"))]);
    let s = load(&replaced("proficiencyLevels", Some(levels))).unwrap();
    assert_eq!(s.proficiency_levels.len(), 2);
    assert_eq!(s.proficiency_levels[0].0, ProficiencyLevel::Master);
    assert_eq!(s.proficiency_levels[1].0, ProficiencyLevel::Novice);
    assert_eq!(s.proficiency_levels[1].1.description, "n");
}

#[test]
fn repeated_map_key_is_refused() {
    let level = || {
        obj(vec![
            ("description", text("d")),
            ("damageMultiplier", num("1")),
            ("cooldownFactors", num("0")),
        ])
    };
    let levels = obj(vec![("adept", level()), ("adept", level())]);
    let e = load(&replaced("proficiencyLevels", Some(levels))).unwrap_err();
    assert_eq!((e.kind, e.path.as_str()), (ErrorKind::TypeMismatch, "proficiencyLevels.adept"));
    let effect = || obj(vec![("description", text("x")), ("multiplier", num("1")), ("tickDuration", num("1"))]);
    let debuffs = obj(vec![("RiskOfCounterAttack", effect()), ("RiskOfCounterAttack", effect())]);
    let e = load(&replaced("debuffs", Some(debuffs))).unwrap_err();
    assert_eq!((e.kind, e.path.as_str()), (ErrorKind::TypeMismatch, "debuffs.RiskOfCounterAttack"));
}

#[test]
fn fields_with_special_characters_are_quoted() {
    let s = load(&replaced("narrative", Some(text("say \"hi\"\nnow")))).unwrap();
    let line = to_table_text(&flatten(&s));
    assert!(line.contains(",\"say \"\"hi\"\"\nnow\","));
    let converted = convert(&replaced("narrative", Some(text("say \"hi\"\nnow")))).unwrap();
    assert_eq!(converted, line);
}

#[test]
fn requirement_forms_convert_alike() {
    let nested = convert(&skill_doc()).unwrap();
    let mut m: Vec<(&str, Doc)> =
        members(false).into_iter().filter(|(k, _)| *k != "requirements").collect();
    m.push(("requirements.actions", num("2")));
    m.push(("requirements.conditions", text("standing")));
    assert_eq!(convert(&obj(m)).unwrap(), nested);

    let mut stray: Vec<(&str, Doc)> =
        members(false).into_iter().filter(|(k, _)| *k != "requirements").collect();
    stray.push(("actions", text("ignored")));
    stray.push(("conditions", num("9")));
    stray.push(("requirements.actions", num("2")));
    stray.push(("requirements.conditions", text("standing")));
    assert_eq!(convert(&obj(stray)).unwrap(), nested);

    let mut only_short: Vec<(&str, Doc)> =
        members(false).into_iter().filter(|(k, _)| *k != "requirements").collect();
    only_short.push(("actions", num("2")));
    only_short.push(("conditions", text("standing")));
    let e = convert(&obj(only_short)).unwrap_err();
    assert_eq!((e.kind, e.path.as_str()), (ErrorKind::MissingRequiredField, "requirements.actions"));
}
