use nomina::error::AppError;
use nomina::ids::EntityId;
use nomina::organization::{CreateOrganizationParams, OrganizationService, UpdateOrganizationParams};

fn create(service: &mut OrganizationService, name: &str) -> nomina::organization::Organization {
    service
        .create(CreateOrganizationParams { name: name.to_string() })
        .expect("organization created")
}

#[test]
fn creating_an_organization_returns_created_payload() {
    let mut service = OrganizationService::new();
    let created = create(&mut service, "Acme");
    assert_eq!(created.name, "Acme");
    assert!(!created.id.is_nil());
}

#[test]
fn listing_organizations_returns_sorted_results() {
    let mut service = OrganizationService::new();
    create(&mut service, "Zed");
    create(&mut service, "Acme");
    let list = service.list().expect("list");
    assert_eq!(list.len(), 2);
    assert_eq!(list[0].name, "Acme");
    assert_eq!(list[1].name, "Zed");
}

#[test]
fn can_update_and_delete_an_organization() {
    let mut service = OrganizationService::new();
    let created = create(&mut service, "Acme");
    let updated = service
        .update(created.id, UpdateOrganizationParams { name: Some("Acme Two".to_string()) })
        .expect("update")
        .expect("present");
    assert_eq!(updated.name, "Acme Two");
    assert_eq!(updated.id, created.id);
    assert!(service.delete(created.id).expect("delete"));
    assert!(service.get(created.id).expect("get").is_none());
}

#[test]
fn rejecting_empty_names() {
    let mut service = OrganizationService::new();
    let result = service.create(CreateOrganizationParams { name: "   ".to_string() });
    assert!(matches!(result, Err(AppError::Validation { .. })));
    assert!(service.list().expect("list").is_empty());
}

#[test]
fn organization_name_is_trimmed() {
    let mut service = OrganizationService::new();
    let created = create(&mut service, "  Acme Corp \t");
    assert_eq!(created.name, "Acme Corp");
}

#[test]
fn organization_round_trip_keeps_every_field() {
    let mut service = OrganizationService::new();
    let created = create(&mut service, "Acme");
    let fetched = service.get(created.id).expect("get").expect("present");
    assert_eq!(fetched, created);
}

#[test]
fn organization_update_without_fields_is_rejected() {
    let mut service = OrganizationService::new();
    let created = create(&mut service, "Acme");
    let result = service.update(created.id, UpdateOrganizationParams::default());
    assert!(matches!(result, Err(AppError::Validation { .. })));
    let missing = service.update(EntityId::from_u128(5), UpdateOrganizationParams::default());
    assert!(matches!(missing, Err(AppError::Validation { .. })));
}

#[test]
fn organization_update_of_unknown_id_is_absent() {
    let mut service = OrganizationService::new();
    let result = service
        .update(EntityId::from_u128(42), UpdateOrganizationParams { name: Some("X".to_string()) })
        .expect("update");
    assert!(result.is_none());
}

#[test]
fn organization_update_with_blank_name_is_rejected() {
    let mut service = OrganizationService::new();
    let created = create(&mut service, "Acme");
    let result = service.update(created.id, UpdateOrganizationParams { name: Some(" ".to_string()) });
    assert!(matches!(result, Err(AppError::Validation { .. })));
    assert_eq!(service.get(created.id).unwrap().unwrap().name, "Acme");
}

#[test]
fn deleting_unknown_organization_returns_false() {
    let mut service = OrganizationService::new();
    assert!(!service.delete(EntityId::from_u128(7)).expect("delete"));
}

#[test]
fn organization_identifier_collision_is_a_storage_error() {
    let mut service = OrganizationService::new();
    let id = EntityId::from_u128(9);
    service
        .create_with_id(id, CreateOrganizationParams { name: "One".to_string() })
        .expect("first");
    let second = service.create_with_id(id, CreateOrganizationParams { name: "Two".to_string() });
    assert!(matches!(second, Err(AppError::Database { .. })));
    assert_eq!(service.list().unwrap().len(), 1);
}

#[test]
fn listing_twice_gives_the_same_order() {
    let mut service = OrganizationService::new();
    for (value, name) in [(3u128, "Same"), (1, "Same"), (2, "Alpha"), (4, "beta"), (5, "Beta")] {
        service
            .create_with_id(
                EntityId::from_u128(value),
                CreateOrganizationParams { name: name.to_string() },
            )
            .unwrap();
    }
    let first = service.list().unwrap();
    let second = service.list().unwrap();
    assert_eq!(first, second);
    let order: Vec<(String, u128)> = first.iter().map(|o| (o.name.clone(), o.id.as_u128())).collect();
    assert_eq!(
        order,
        vec![
            ("Alpha".to_string(), 2),
            ("Beta".to_string(), 5),
            ("Same".to_string(), 1),
            ("Same".to_string(), 3),
            ("beta".to_string(), 4),
        ]
    );
}
