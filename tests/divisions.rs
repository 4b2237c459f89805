use nomina::division::{CreateDivisionParams, Division, DivisionService, UpdateDivisionParams};
use nomina::error::AppError;
use nomina::ids::EntityId;
use nomina::nullable::NullableUpdate;
use nomina::organization::{CreateOrganizationParams, OrganizationService};
use nomina::payroll::{CreatePayrollParams, PayrollService};
use nomina::requests::UpdateDivisionRequest;

struct Fixture {
    payrolls: PayrollService,
    divisions: DivisionService,
    org: EntityId,
    payroll_a: EntityId,
    payroll_b: EntityId,
}

fn setup() -> Fixture {
    let mut organizations = OrganizationService::new();
    let mut payrolls = PayrollService::new();
    let org = organizations
        .create(CreateOrganizationParams { name: "Acme".to_string() })
        .unwrap()
        .id;
    let mut payroll = |name: &str| {
        payrolls
            .create(
                &organizations,
                org,
                CreatePayrollParams { name: name.to_string(), description: "desc".to_string() },
            )
            .unwrap()
            .id
    };
    let payroll_a = payroll("A");
    let payroll_b = payroll("B");
    Fixture { payrolls, divisions: DivisionService::new(), org, payroll_a, payroll_b }
}

fn params(name: &str, parent: Option<EntityId>) -> CreateDivisionParams {
    CreateDivisionParams {
        name: name.to_string(),
        description: "desc".to_string(),
        budget_code: "BC".to_string(),
        parent_division_id: parent,
    }
}

fn create(f: &mut Fixture, payroll: EntityId, name: &str, parent: Option<EntityId>) -> Division {
    f.divisions.create(&f.payrolls, f.org, payroll, params(name, parent)).expect("division")
}

fn parent_update(parent: NullableUpdate<EntityId>) -> UpdateDivisionParams {
    UpdateDivisionParams { name: None, description: None, budget_code: None, parent_division_id: parent }
}

#[test]
fn can_create_and_list_divisions() {
    let mut f = setup();
    let pa = f.payroll_a;
    let parent = create(&mut f, pa, "Parent", None);
    let child = create(&mut f, pa, "Child", Some(parent.id));
    assert_eq!(child.parent_division_id, Some(parent.id));
    let list = f.divisions.list(&f.payrolls, f.org, pa).expect("list");
    assert_eq!(list.len(), 2);
    assert_eq!(list[0].name, "Child");
    assert_eq!(list[1].name, "Parent");
}

#[test]
fn rejects_invalid_parent_or_payroll() {
    let mut f = setup();
    let missing_payroll = f.divisions.create(&f.payrolls, f.org, EntityId::from_u128(31337), params("Invalid", None));
    assert!(matches!(missing_payroll, Err(AppError::NotFound { .. })));
    let (pa, pb) = (f.payroll_a, f.payroll_b);
    let parent = create(&mut f, pa, "Parent", None);
    let bad = f.divisions.create(&f.payrolls, f.org, pb, params("Bad", Some(parent.id)));
    assert!(matches!(bad, Err(AppError::Validation { .. })));
}

#[test]
fn can_update_and_clear_parent() {
    let mut f = setup();
    let pa = f.payroll_a;
    let parent = create(&mut f, pa, "Parent", None);
    let child = create(&mut f, pa, "Child", Some(parent.id));
    let request = UpdateDivisionRequest {
        name: None,
        description: None,
        budget_code: None,
        parent_division_id: Some(None),
    };
    let updated = f
        .divisions
        .update(&f.payrolls, f.org, pa, child.id, request.into_params())
        .expect("update")
        .expect("present");
    assert!(updated.parent_division_id.is_none());
    assert!(f.divisions.delete(&f.payrolls, f.org, pa, child.id).expect("delete"));
    assert!(f.divisions.get(&f.payrolls, f.org, pa, child.id).expect("get").is_none());
}

#[test]
fn division_cannot_be_its_own_parent() {
    let mut f = setup();
    let pa = f.payroll_a;
    let id = EntityId::from_u128(500);
    let on_create = f.divisions.create_with_id(&f.payrolls, f.org, pa, id, params("Loop", Some(id)));
    assert!(matches!(on_create, Err(AppError::Validation { .. })));
    let division = create(&mut f, pa, "Solo", None);
    let on_update = f.divisions.update(
        &f.payrolls,
        f.org,
        pa,
        division.id,
        parent_update(NullableUpdate::Value(division.id)),
    );
    assert!(matches!(on_update, Err(AppError::Validation { .. })));
}

#[test]
fn missing_parent_is_not_found() {
    let mut f = setup();
    let pa = f.payroll_a;
    let result = f.divisions.create(&f.payrolls, f.org, pa, params("Orphan", Some(EntityId::from_u128(77))));
    assert!(matches!(result, Err(AppError::NotFound { .. })));
}

#[test]
fn parent_from_another_payroll_is_rejected_on_update() {
    let mut f = setup();
    let (pa, pb) = (f.payroll_a, f.payroll_b);
    let foreign = create(&mut f, pb, "Foreign", None);
    let local = create(&mut f, pa, "Local", None);
    let result = f.divisions.update(
        &f.payrolls,
        f.org,
        pa,
        local.id,
        parent_update(NullableUpdate::Value(foreign.id)),
    );
    assert!(matches!(result, Err(AppError::Validation { .. })));
}

#[test]
fn parent_update_forms_are_distinct() {
    let mut f = setup();
    let pa = f.payroll_a;
    let first = create(&mut f, pa, "First", None);
    let second = create(&mut f, pa, "Second", None);
    let child = create(&mut f, pa, "Child", Some(first.id));
    let kept = f
        .divisions
        .update(
            &f.payrolls,
            f.org,
            pa,
            child.id,
            UpdateDivisionParams {
                name: Some("Renamed".to_string()),
                description: None,
                budget_code: None,
                parent_division_id: NullableUpdate::Unchanged,
            },
        )
        .unwrap()
        .unwrap();
    assert_eq!(kept.parent_division_id, Some(first.id));
    assert_eq!(kept.name, "Renamed");
    let replaced = f
        .divisions
        .update(&f.payrolls, f.org, pa, child.id, parent_update(NullableUpdate::Value(second.id)))
        .unwrap()
        .unwrap();
    assert_eq!(replaced.parent_division_id, Some(second.id));
    let cleared = f
        .divisions
        .update(&f.payrolls, f.org, pa, child.id, parent_update(NullableUpdate::Clear))
        .unwrap()
        .unwrap();
    assert_eq!(cleared.parent_division_id, None);
    let stored = f.divisions.get(&f.payrolls, f.org, pa, child.id).unwrap().unwrap();
    assert_eq!(stored, cleared);
}

#[test]
fn division_request_reads_parent_field_in_three_ways() {
    let absent = UpdateDivisionRequest {
        name: Some("N".to_string()),
        description: None,
        budget_code: None,
        parent_division_id: None,
    };
    assert_eq!(absent.into_params().parent_division_id, NullableUpdate::Unchanged);
    let null = UpdateDivisionRequest {
        name: None,
        description: None,
        budget_code: None,
        parent_division_id: Some(None),
    };
    assert_eq!(null.into_params().parent_division_id, NullableUpdate::Clear);
    let id = EntityId::from_u128(3);
    let value = UpdateDivisionRequest {
        name: None,
        description: None,
        budget_code: None,
        parent_division_id: Some(Some(id)),
    };
    assert_eq!(value.into_params().parent_division_id, NullableUpdate::Value(id));
}

#[test]
fn division_update_without_fields_is_rejected() {
    let mut f = setup();
    let pa = f.payroll_a;
    let division = create(&mut f, pa, "Solo", None);
    let result = f.divisions.update(&f.payrolls, f.org, pa, division.id, parent_update(NullableUpdate::Unchanged));
    assert!(matches!(result, Err(AppError::Validation { .. })));
}

#[test]
fn division_of_another_payroll_is_absent() {
    let mut f = setup();
    let (pa, pb) = (f.payroll_a, f.payroll_b);
    let division = create(&mut f, pa, "Solo", None);
    assert!(f.divisions.get(&f.payrolls, f.org, pb, division.id).unwrap().is_none());
    assert!(!f.divisions.delete(&f.payrolls, f.org, pb, division.id).unwrap());
    assert!(f.divisions.list(&f.payrolls, f.org, pb).unwrap().is_empty());
    assert_eq!(f.divisions.get(&f.payrolls, f.org, pa, division.id).unwrap(), Some(division));
}

#[test]
fn division_fields_are_normalized_before_references() {
    let mut f = setup();
    let result = f.divisions.create(
        &f.payrolls,
        f.org,
        EntityId::from_u128(1),
        CreateDivisionParams {
            name: " ".to_string(),
            description: "d".to_string(),
            budget_code: "b".to_string(),
            parent_division_id: None,
        },
    );
    assert!(matches!(result, Err(AppError::Validation { .. })));
}

#[test]
fn deleting_unknown_division_returns_false() {
    let mut f = setup();
    let pa = f.payroll_a;
    assert!(!f.divisions.delete(&f.payrolls, f.org, pa, EntityId::from_u128(4)).unwrap());
}
