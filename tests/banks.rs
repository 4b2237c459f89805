use nomina::bank::{BankService, CreateBankParams, UpdateBankParams};
use nomina::error::AppError;
use nomina::ids::EntityId;
use nomina::organization::{CreateOrganizationParams, OrganizationService};

fn organization(organizations: &mut OrganizationService, name: &str) -> EntityId {
    organizations
        .create(CreateOrganizationParams { name: name.to_string() })
        .expect("organization")
        .id
}

fn bank(name: &str) -> CreateBankParams {
    CreateBankParams { name: name.to_string() }
}

#[test]
fn can_create_and_list_banks() {
    let mut organizations = OrganizationService::new();
    let mut banks = BankService::new();
    let org = organization(&mut organizations, "Acme");
    banks.create(&organizations, org, bank("Zed Bank")).expect("bank");
    banks.create(&organizations, org, bank("Acme Bank")).expect("bank");
    let list = banks.list(&organizations, org).expect("list");
    assert_eq!(list.len(), 2);
    assert_eq!(list[0].name, "Acme Bank");
    assert_eq!(list[1].name, "Zed Bank");
    assert!(list.iter().all(|b| b.organization_id == org));
}

#[test]
fn can_update_and_delete_bank() {
    let mut organizations = OrganizationService::new();
    let mut banks = BankService::new();
    let org = organization(&mut organizations, "Acme");
    let created = banks.create(&organizations, org, bank("Acme Bank")).expect("bank");
    let updated = banks
        .update(org, created.id, UpdateBankParams { name: Some("Acme Bank Intl".to_string()) })
        .expect("update")
        .expect("present");
    assert_eq!(updated.name, "Acme Bank Intl");
    assert!(banks.delete(org, created.id).expect("delete"));
    assert!(banks.get(org, created.id).expect("get").is_none());
}

#[test]
fn rejects_invalid_payloads_and_ownership() {
    let mut organizations = OrganizationService::new();
    let mut banks = BankService::new();
    let org = organization(&mut organizations, "Acme");
    let blank = banks.create(&organizations, org, bank("   "));
    assert!(matches!(blank, Err(AppError::Validation { .. })));
    let other_org = EntityId::from_u128(12345);
    let ghost = banks.create(&organizations, other_org, bank("Ghost Bank"));
    assert!(matches!(ghost, Err(AppError::NotFound { .. })));
}

#[test]
fn bank_of_another_organization_is_absent() {
    let mut organizations = OrganizationService::new();
    let mut banks = BankService::new();
    let org = organization(&mut organizations, "Acme");
    let other = organization(&mut organizations, "Other");
    let created = banks.create(&organizations, org, bank("Acme Bank")).expect("bank");
    assert!(banks.get(other, created.id).expect("get").is_none());
    assert!(!banks.delete(other, created.id).expect("delete"));
    assert_eq!(banks.get(org, created.id).expect("get"), Some(created));
    assert!(banks.list(&organizations, other).expect("list").is_empty());
}

#[test]
fn bank_update_without_fields_is_rejected() {
    let mut banks = BankService::new();
    let result = banks.update(EntityId::from_u128(1), EntityId::from_u128(2), UpdateBankParams::default());
    assert!(matches!(result, Err(AppError::Validation { .. })));
}

#[test]
fn deleting_unknown_bank_returns_false() {
    let mut banks = BankService::new();
    assert!(!banks.delete(EntityId::from_u128(1), EntityId::from_u128(2)).expect("delete"));
}
