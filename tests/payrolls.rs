use nomina::error::AppError;
use nomina::ids::EntityId;
use nomina::organization::{CreateOrganizationParams, OrganizationService};
use nomina::payroll::{CreatePayrollParams, PayrollService, UpdatePayrollParams};

fn organization(organizations: &mut OrganizationService, name: &str) -> EntityId {
    organizations
        .create(CreateOrganizationParams { name: name.to_string() })
        .expect("organization")
        .id
}

fn payroll_params(name: &str, description: &str) -> CreatePayrollParams {
    CreatePayrollParams { name: name.to_string(), description: description.to_string() }
}

#[test]
fn can_create_and_list_payrolls() {
    let mut organizations = OrganizationService::new();
    let mut payrolls = PayrollService::new();
    let org = organization(&mut organizations, "Acme");
    let created = payrolls
        .create(&organizations, org, payroll_params("May 2024", "Monthly payroll"))
        .expect("payroll");
    assert_eq!(created.name, "May 2024");
    assert_eq!(created.description, "Monthly payroll");
    assert_eq!(created.organization_id, org);
    let list = payrolls.list(&organizations, org).expect("list");
    assert_eq!(list.len(), 1);
    assert_eq!(list[0], created);
}

#[test]
fn rejects_invalid_organization_reference() {
    let organizations = OrganizationService::new();
    let mut payrolls = PayrollService::new();
    let result = payrolls.create(
        &organizations,
        EntityId::from_u128(77),
        payroll_params("Invalid", "bad"),
    );
    assert!(matches!(result, Err(AppError::NotFound { .. })));
}

#[test]
fn can_update_and_delete_payroll() {
    let mut organizations = OrganizationService::new();
    let mut payrolls = PayrollService::new();
    let org = organization(&mut organizations, "Acme");
    let created = payrolls
        .create(&organizations, org, payroll_params("June", "June payroll"))
        .expect("payroll");
    let updated = payrolls
        .update(
            &organizations,
            org,
            created.id,
            UpdatePayrollParams {
                name: Some("June Updated".to_string()),
                description: Some("Updated".to_string()),
            },
        )
        .expect("update")
        .expect("present");
    assert_eq!(updated.name, "June Updated");
    assert_eq!(updated.description, "Updated");
    assert!(payrolls.delete(&organizations, org, created.id).expect("delete"));
    assert!(payrolls.get(org, created.id).expect("get").is_none());
}

#[test]
fn payroll_under_another_organization_is_absent() {
    let mut organizations = OrganizationService::new();
    let mut payrolls = PayrollService::new();
    let org = organization(&mut organizations, "Acme");
    let other = organization(&mut organizations, "Other");
    let created = payrolls
        .create(&organizations, org, payroll_params("June", "June payroll"))
        .expect("payroll");
    assert!(payrolls.get(other, created.id).expect("get").is_none());
    assert!(payrolls.get(other, EntityId::from_u128(1)).expect("get").is_none());
    assert!(!payrolls.delete(&organizations, other, created.id).expect("delete"));
    assert!(payrolls.get(org, created.id).expect("get").is_some());
    let update = payrolls
        .update(
            &organizations,
            other,
            created.id,
            UpdatePayrollParams { name: Some("X".to_string()), description: None },
        )
        .expect("update");
    assert!(update.is_none());
}

#[test]
fn payroll_update_keeps_unsupplied_fields() {
    let mut organizations = OrganizationService::new();
    let mut payrolls = PayrollService::new();
    let org = organization(&mut organizations, "Acme");
    let created = payrolls
        .create(&organizations, org, payroll_params(" June ", " June payroll "))
        .expect("payroll");
    assert_eq!(created.name, "June");
    let updated = payrolls
        .update(
            &organizations,
            org,
            created.id,
            UpdatePayrollParams { name: None, description: Some("  Second  ".to_string()) },
        )
        .unwrap()
        .unwrap();
    assert_eq!(updated.name, "June");
    assert_eq!(updated.description, "Second");
}

#[test]
fn payroll_update_without_fields_is_rejected() {
    let mut organizations = OrganizationService::new();
    let mut payrolls = PayrollService::new();
    let org = organization(&mut organizations, "Acme");
    let result = payrolls.update(&organizations, org, EntityId::from_u128(3), UpdatePayrollParams::default());
    assert!(matches!(result, Err(AppError::Validation { .. })));
}

#[test]
fn payroll_blank_description_is_rejected() {
    let mut organizations = OrganizationService::new();
    let mut payrolls = PayrollService::new();
    let org = organization(&mut organizations, "Acme");
    let result = payrolls.create(&organizations, org, payroll_params("June", "  "));
    assert!(matches!(result, Err(AppError::Validation { .. })));
}

#[test]
fn payroll_calls_under_missing_organization_are_not_found() {
    let organizations = OrganizationService::new();
    let mut payrolls = PayrollService::new();
    let missing = EntityId::from_u128(8);
    assert!(matches!(payrolls.list(&organizations, missing), Err(AppError::NotFound { .. })));
    assert!(matches!(
        payrolls.delete(&organizations, missing, EntityId::from_u128(1)),
        Err(AppError::NotFound { .. })
    ));
    assert!(matches!(
        payrolls.ensure_belongs_to_organization(missing, EntityId::from_u128(1)),
        Err(AppError::NotFound { .. })
    ));
}

#[test]
fn deleting_unknown_payroll_returns_false() {
    let mut organizations = OrganizationService::new();
    let mut payrolls = PayrollService::new();
    let org = organization(&mut organizations, "Acme");
    assert!(!payrolls.delete(&organizations, org, EntityId::from_u128(99)).expect("delete"));
}
