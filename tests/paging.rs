use tracker::data::{
    Page, PageMetadata, PageRequest, PageRequestRaw, Sort, SortDirection, DEFAULT_PAGE_SIZE,
    MAX_PAGE_SIZE,
};
use tracker::error::TrackerError;
use tracker::game_save::SaveFields;
use tracker::solar_system::{SearchRequest, SearchRequestRaw, SolarSystemFields};
use tracker::value::{AllowedValues, Value};

fn raw(page: Option<&str>, size: Option<&str>, sorts: &[&str]) -> PageRequestRaw {
    PageRequestRaw {
        page: page.map(|p| p.to_string()),
        size: size.map(|s| s.to_string()),
        sorts: sorts.iter().map(|s| s.to_string()).collect(),
    }
}

fn page_request(page: Option<&str>, size: Option<&str>, sorts: &[&str]) -> PageRequest<SaveFields> {
    PageRequest::<SaveFields>::try_from(raw(page, size, sorts)).unwrap()
}

#[test]
fn metadata_without_results() {
    let m = PageMetadata::new(1, 10, 0);
    assert_eq!(m.total_pages, 0);
    assert_eq!(m.total_results, 0);
    assert_eq!(m.current_page, 1);
    assert_eq!(m.next_page, None);
    assert_eq!(m.prev_page, None);
}

#[test]
fn metadata_of_last_partial_page() {
    let m = PageMetadata::new(3, 10, 25);
    assert_eq!(m.total_pages, 3);
    assert_eq!(m.next_page, None);
    assert_eq!(m.prev_page, Some(2));
}

#[test]
fn metadata_of_middle_page() {
    let m = PageMetadata::new(2, 10, 25);
    assert_eq!(m.total_pages, 3);
    assert_eq!(m.next_page, Some(3));
    assert_eq!(m.prev_page, Some(1));
}

#[test]
fn metadata_of_exact_pages() {
    let m = PageMetadata::new(1, 10, 30);
    assert_eq!(m.total_pages, 3);
    assert_eq!(m.next_page, Some(2));
    let big = PageMetadata::new(1, 1, u64::MAX);
    assert_eq!(big.total_pages, u64::MAX);
}

#[test]
fn metadata_with_zero_size() {
    assert_eq!(PageMetadata::new(1, 0, 0).total_pages, 0);
    assert_eq!(PageMetadata::new(1, 0, 5).total_pages, u64::MAX);
}

#[test]
fn request_defaults() {
    let r = page_request(None, None, &[]);
    assert_eq!(r.page, 1);
    assert_eq!(r.size, DEFAULT_PAGE_SIZE);
    assert_eq!(r.sorts.len(), 1);
    assert_eq!(r.sorts[0].field, SaveFields::CreatedAt);
    assert_eq!(r.sorts[0].direction, SortDirection::Asc);
    assert_eq!(r.offset(), 0);
}

#[test]
fn size_is_clamped_to_maximum() {
    assert_eq!(page_request(None, Some("10000"), &[]).size, MAX_PAGE_SIZE);
    assert_eq!(page_request(None, Some("500"), &[]).size, 500);
    assert_eq!(page_request(None, Some("1"), &[]).size, 1);
}

#[test]
fn size_zero_is_kept() {
    assert_eq!(page_request(None, Some("0"), &[]).size, 0);
}

#[test]
fn page_is_raised_to_first() {
    assert_eq!(page_request(Some("0"), None, &[]).page, 1);
    assert_eq!(page_request(Some("+7"), None, &[]).page, 7);
}

#[test]
fn offset_counts_earlier_pages() {
    let r = page_request(Some("3"), Some("10"), &[]);
    assert_eq!(r.offset(), 20);
    let r = page_request(Some("1"), Some("500"), &[]);
    assert_eq!(r.offset(), 0);
}

#[test]
fn unparseable_page_is_rejected() {
    let e = PageRequest::<SaveFields>::try_from(raw(Some("abc"), None, &[])).unwrap_err();
    match e {
        TrackerError::InvalidFieldValue(fv, av) => {
            assert_eq!(fv.name, "page");
            assert_eq!(fv.value, Some(Value::String("abc".to_string())));
            match av {
                AllowedValues::Integer { min: Some(b), max: None } => {
                    assert!(b.inclusive);
                    assert_eq!(b.value, Value::Int32(1));
                }
                other => panic!("unexpected {:?}", other),
            }
        }
        other => panic!("unexpected {:?}", other),
    }
}

#[test]
fn unparseable_size_is_rejected() {
    for bad in ["-1", "", "+", "1.5", "18446744073709551616", " 5"] {
        let e = PageRequest::<SaveFields>::try_from(raw(None, Some(bad), &[])).unwrap_err();
        match e {
            TrackerError::InvalidFieldValue(fv, _) => assert_eq!(fv.name, "size"),
            other => panic!("unexpected {:?}", other),
        }
    }
    assert_eq!(page_request(None, Some("18446744073709551615"), &[]).size, 500);
}

#[test]
fn sort_errors_come_before_page_errors() {
    let e = PageRequest::<SaveFields>::try_from(raw(Some("x"), None, &["id", "bogus"])).unwrap_err();
    match e {
        TrackerError::InvalidFieldValue(fv, _) => assert_eq!(fv.name, "sort:field"),
        other => panic!("unexpected {:?}", other),
    }
}

#[test]
fn sorts_keep_token_order() {
    let r = page_request(None, None, &["name:desc", "id"]);
    assert_eq!(r.sorts.len(), 2);
    assert_eq!(r.sorts[0].field, SaveFields::Name);
    assert_eq!(r.sorts[0].direction, SortDirection::Desc);
    assert_eq!(r.sorts[1].field, SaveFields::Id);
    assert_eq!(r.sorts[1].direction, SortDirection::Asc);
}

#[test]
fn sort_token_with_direction() {
    let s = Sort::<SaveFields>::try_from("name:desc".to_string()).unwrap();
    assert_eq!(s.field, SaveFields::Name);
    assert_eq!(s.direction, SortDirection::Desc);
    let s = Sort::<SaveFields>::try_from("NAME:DeSc".to_string()).unwrap();
    assert_eq!(s.field, SaveFields::Name);
    assert_eq!(s.direction, SortDirection::Desc);
}

#[test]
fn sort_token_with_unknown_field() {
    let e = Sort::<SaveFields>::try_from("bogus".to_string()).unwrap_err();
    match e {
        TrackerError::InvalidFieldValue(fv, AllowedValues::Choice { values }) => {
            assert_eq!(fv.name, "sort:field");
            assert_eq!(fv.value, Some(Value::String("bogus".to_string())));
            let names: Vec<Value> = ["id", "created_at", "name", "notes"]
                .iter()
                .map(|n| Value::String(n.to_string()))
                .collect();
            assert_eq!(values, names);
        }
        other => panic!("unexpected {:?}", other),
    }
}

#[test]
fn sort_token_with_unknown_direction() {
    let e = Sort::<SaveFields>::try_from("name:up".to_string()).unwrap_err();
    match e {
        TrackerError::InvalidFieldValue(fv, AllowedValues::Choice { values }) => {
            assert_eq!(fv.name, "sort:direction");
            assert_eq!(fv.value, Some(Value::String("up".to_string())));
            assert_eq!(
                values,
                vec![Value::String("asc".to_string()), Value::String("desc".to_string())]
            );
        }
        other => panic!("unexpected {:?}", other),
    }
}

#[test]
fn sort_direction_texts() {
    assert_eq!(SortDirection::Asc.as_str(), "asc");
    assert_eq!(SortDirection::Desc.to_text(), "desc");
    assert_eq!(SortDirection::parse("ASC"), Some(SortDirection::Asc));
    assert_eq!(SortDirection::parse("down"), None);
    assert_eq!(SortDirection::default(), SortDirection::Asc);
    assert_eq!(SortDirection::values(), vec![SortDirection::Asc, SortDirection::Desc]);
}

#[test]
fn search_request_keeps_name() {
    let r = SearchRequest::try_from(SearchRequestRaw {
        page_request: raw(Some("2"), Some("5"), &["save.name"]),
        name: Some("Sol".to_string()),
    })
    .unwrap();
    assert_eq!(r.name.as_deref(), Some("Sol"));
    assert_eq!(r.page_request.page, 2);
    assert_eq!(r.page_request.size, 5);
    assert_eq!(r.page_request.sorts[0].field, SolarSystemFields::Save(SaveFields::Name));
}

#[test]
fn page_map_and_convert() {
    let p = Page::new(vec![1u32, 2, 3], PageMetadata::new(1, 3, 3));
    let q = p.map(|x| x * 10);
    assert_eq!(q.data, vec![10, 20, 30]);
    assert_eq!(q.metadata.total_pages, 1);
    let c: Page<u64> = q.convert();
    assert_eq!(c.data, vec![10u64, 20, 30]);
}

#[test]
fn sort_tokens_ignore_case() {
    for token in ["save.name:desc", "SAVE.NAME:DESC", "Save.Name:dEsC"] {
        let s = Sort::<SolarSystemFields>::try_from(token.to_string()).unwrap();
        assert_eq!(s.field, SolarSystemFields::Save(SaveFields::Name));
        assert_eq!(s.direction, SortDirection::Desc);
    }
}
