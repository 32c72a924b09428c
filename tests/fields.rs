use tracker::data::{PageRequest, PageRequestRaw, Sort};
use tracker::field::Field;
use tracker::game_save::{GameSaveColumns, SaveFields};
use tracker::join::{add_join_for_field, add_sorts, JoinTracker};
use tracker::solar_system::{name_filter_pattern, SolarSystemColumns, SolarSystemFields};
use tracker::star::{SpectralClass, StarColumns, StarFields};

fn round_trips<F: Field + PartialEq + std::fmt::Debug>() -> usize {
    let values = F::values();
    for (i, f) in values.iter().enumerate() {
        let parsed = F::from_str(&f.name()).ok().unwrap();
        assert_eq!(parsed, *f);
        for g in values.iter().skip(i + 1) {
            assert_ne!(f, g);
        }
    }
    values.len()
}

#[test]
fn every_field_round_trips() {
    assert_eq!(round_trips::<SaveFields>(), 4);
    assert_eq!(round_trips::<SolarSystemFields>(), 8);
    assert_eq!(round_trips::<StarFields>(), 13);
}

#[test]
fn values_include_nested_fields() {
    let v = SolarSystemFields::values();
    assert_eq!(
        v,
        vec![
            SolarSystemFields::Id,
            SolarSystemFields::Save(SaveFields::Id),
            SolarSystemFields::Save(SaveFields::CreatedAt),
            SolarSystemFields::Save(SaveFields::Name),
            SolarSystemFields::Save(SaveFields::Notes),
            SolarSystemFields::CreatedAt,
            SolarSystemFields::Name,
            SolarSystemFields::Notes,
        ]
    );
}

#[test]
fn nested_names() {
    assert_eq!(SolarSystemFields::Save(SaveFields::Name).name(), "save.name");
    assert_eq!(
        StarFields::SolarSystem(SolarSystemFields::Save(SaveFields::Id)).name(),
        "solar_system.save.id"
    );
    assert_eq!(StarFields::SpectralClass.name(), "notes");
}

#[test]
fn parsing_ignores_case() {
    assert_eq!(SaveFields::from_str("Created_AT").ok(), Some(SaveFields::CreatedAt));
    assert_eq!(
        SolarSystemFields::from_str("SAVE.NAME").ok(),
        Some(SolarSystemFields::Save(SaveFields::Name))
    );
}

#[test]
fn bare_prefix_gives_nested_default() {
    assert_eq!(
        SolarSystemFields::from_str("save.").ok(),
        Some(SolarSystemFields::Save(SaveFields::CreatedAt))
    );
    assert_eq!(
        SolarSystemFields::from_str("save").ok(),
        Some(SolarSystemFields::Save(SaveFields::CreatedAt))
    );
    assert_eq!(
        StarFields::from_str("solar_system.save.").ok(),
        Some(StarFields::SolarSystem(SolarSystemFields::Save(SaveFields::CreatedAt)))
    );
}

#[test]
fn unknown_nested_field_reports_remainder() {
    let e = SolarSystemFields::from_str("save.bogus").err().unwrap();
    assert_eq!(e.0, "bogus");
    assert_eq!(e.message(), "`bogus` is invalid.");
    let e = SaveFields::from_str("planet").err().unwrap();
    assert_eq!(e.0, "planet");
}

#[test]
fn defaults() {
    assert_eq!(SaveFields::default_field(), SaveFields::CreatedAt);
    assert_eq!(SolarSystemFields::default_field(), SolarSystemFields::CreatedAt);
    assert_eq!(StarFields::default_field(), StarFields::CreatedAt);
    let s = Sort::<StarFields>::default_sort();
    assert_eq!(s.field, StarFields::CreatedAt);
    assert_eq!(SaveFields::default(), SaveFields::CreatedAt);
    assert_eq!(SolarSystemFields::default(), SolarSystemFields::CreatedAt);
    assert_eq!(StarFields::default(), StarFields::CreatedAt);
    let d: Sort<SolarSystemFields> = Default::default();
    assert_eq!(d.field, SolarSystemFields::CreatedAt);
    assert_eq!(d.direction, tracker::data::SortDirection::Asc);
}

#[test]
fn columns() {
    let c = SolarSystemFields::Save(SaveFields::Name).column();
    assert_eq!((c.table.as_str(), c.column.as_str()), ("saves", "name"));
    let c = SolarSystemFields::CreatedAt.column();
    assert_eq!((c.table.as_str(), c.column.as_str()), ("solar_systems", "created_at"));
    let c = StarFields::SpectralClass.column();
    assert_eq!((c.table.as_str(), c.column.as_str()), ("stars", "spectral_class"));
    assert_eq!(GameSaveColumns::Table.as_str(), "saves");
    assert_eq!(GameSaveColumns::MiningSpeed.to_text(), "mining_speed");
    assert_eq!(SolarSystemColumns::SaveId.as_str(), "save_id");
    assert_eq!(StarColumns::SolarSystemId.as_str(), "solar_system_id");
    assert_eq!(SpectralClass::RedGiant.as_str(), "red_giant");
}

#[test]
fn one_join_for_shared_relation() {
    let raw = PageRequestRaw {
        page: None,
        size: None,
        sorts: vec!["save.name:asc".to_string(), "save.created_at:desc".to_string()],
    };
    let req = PageRequest::<SolarSystemFields>::try_from(raw).unwrap();
    let plan = add_sorts(&req.sorts);
    assert_eq!(plan.joins.len(), 1);
    let j = &plan.joins[0];
    assert_eq!(j.path, "save");
    assert_eq!(j.table, "saves");
    assert_eq!((j.column.table.as_str(), j.column.column.as_str()), ("saves", "id"));
    assert_eq!(
        (j.foreign_key.table.as_str(), j.foreign_key.column.as_str()),
        ("solar_systems", "save_id")
    );
    assert_eq!(plan.order_by.len(), 2);
    assert_eq!(plan.order_by[0].column.column, "name");
    assert_eq!(plan.order_by[1].column.column, "created_at");
}

#[test]
fn leaf_sorts_need_no_join() {
    let mut tracker = JoinTracker::new();
    assert!(add_join_for_field(SolarSystemFields::Name, &mut tracker).is_empty());
    assert!(tracker.added.is_empty());
    let first = add_join_for_field(SolarSystemFields::Save(SaveFields::Id), &mut tracker);
    assert_eq!(first.len(), 1);
    let again = add_join_for_field(SolarSystemFields::Save(SaveFields::Notes), &mut tracker);
    assert!(again.is_empty());
    assert_eq!(tracker.added, vec!["save".to_string()]);
}

#[test]
fn two_hop_joins_keyed_by_path() {
    let sorts = vec![
        Sort { field: StarFields::SolarSystem(SolarSystemFields::Name), direction: Default::default() },
        Sort {
            field: StarFields::SolarSystem(SolarSystemFields::Save(SaveFields::Name)),
            direction: Default::default(),
        },
    ];
    let plan = add_sorts(&sorts);
    let paths: Vec<&str> = plan.joins.iter().map(|j| j.path.as_str()).collect();
    assert_eq!(paths, vec!["solar_system", "solar_system.save"]);
    assert_eq!(plan.joins[1].table, "saves");
    assert_eq!(plan.order_by[1].column.table, "saves");
}

#[test]
fn name_filter_escapes_meta_characters() {
    assert_eq!(name_filter_pattern("Sol"), "(^|\\s+)Sol");
    assert_eq!(name_filter_pattern("a.b(c)"), "(^|\\s+)a\\.b\\(c\\)");
}
