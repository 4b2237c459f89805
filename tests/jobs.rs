use nomina::error::AppError;
use nomina::ids::EntityId;
use nomina::job::{validate_salary, CreateJobParams, JobService, UpdateJobParams};
use nomina::organization::{CreateOrganizationParams, OrganizationService};
use nomina::payroll::{CreatePayrollParams, PayrollService};

fn setup() -> (OrganizationService, PayrollService, EntityId, EntityId) {
    let mut organizations = OrganizationService::new();
    let mut payrolls = PayrollService::new();
    let org = organizations
        .create(CreateOrganizationParams { name: "Acme".to_string() })
        .unwrap()
        .id;
    let payroll = payrolls
        .create(
            &organizations,
            org,
            CreatePayrollParams { name: "June".to_string(), description: "June payroll".to_string() },
        )
        .unwrap()
        .id;
    (organizations, payrolls, org, payroll)
}

fn job(title: &str, salary: i64) -> CreateJobParams {
    CreateJobParams { job_title: title.to_string(), salary }
}

#[test]
fn can_create_and_list_jobs() {
    let (_organizations, payrolls, org, payroll) = setup();
    let mut jobs = JobService::new();
    let created = jobs
        .create(&payrolls, org, payroll, job("Software Engineer", 10_000_000))
        .expect("job");
    assert_eq!(created.job_title, "Software Engineer");
    assert_eq!(created.salary, 10_000_000);
    assert_eq!(created.payroll_id, payroll);
    let list = jobs.list(&payrolls, org, payroll).expect("list");
    assert_eq!(list.len(), 1);
    assert_eq!(list[0].payroll_id, payroll);
}

#[test]
fn rejects_invalid_payroll_reference() {
    let (_organizations, payrolls, org, _payroll) = setup();
    let mut jobs = JobService::new();
    let result = jobs.create(&payrolls, org, EntityId::from_u128(4242), job("Ghost Job", 5_000_000));
    assert!(matches!(result, Err(AppError::NotFound { .. })));
}

#[test]
fn can_update_and_delete_job() {
    let (_organizations, payrolls, org, payroll) = setup();
    let mut jobs = JobService::new();
    let created = jobs.create(&payrolls, org, payroll, job("Designer", 8_000_000)).expect("job");
    let updated = jobs
        .update(
            &payrolls,
            org,
            payroll,
            created.id,
            UpdateJobParams { job_title: Some("Senior Designer".to_string()), salary: Some(9_000_000) },
        )
        .expect("update")
        .expect("present");
    assert_eq!(updated.job_title, "Senior Designer");
    assert_eq!(updated.salary, 9_000_000);
    assert!(jobs.delete(&payrolls, org, payroll, created.id).expect("delete"));
    assert!(jobs.get(&payrolls, org, payroll, created.id).expect("get").is_none());
}

#[test]
fn job_salary_must_be_positive() {
    let (_organizations, payrolls, org, payroll) = setup();
    let mut jobs = JobService::new();
    assert!(matches!(
        jobs.create(&payrolls, org, payroll, job("Intern", 0)),
        Err(AppError::Validation { .. })
    ));
    assert!(matches!(
        jobs.create(&payrolls, org, payroll, job("Intern", -5)),
        Err(AppError::Validation { .. })
    ));
    assert!(matches!(validate_salary(0), Err(AppError::Validation { .. })));
    assert_eq!(validate_salary(1).unwrap(), 1);
}

#[test]
fn jobs_are_listed_by_title() {
    let (_organizations, payrolls, org, payroll) = setup();
    let mut jobs = JobService::new();
    jobs.create(&payrolls, org, payroll, job("Zookeeper", 10)).unwrap();
    jobs.create(&payrolls, org, payroll, job("Accountant", 20)).unwrap();
    jobs.create(&payrolls, org, payroll, job("Mechanic", 30)).unwrap();
    let titles: Vec<String> = jobs
        .list(&payrolls, org, payroll)
        .unwrap()
        .into_iter()
        .map(|j| j.job_title)
        .collect();
    assert_eq!(titles, vec!["Accountant", "Mechanic", "Zookeeper"]);
}

#[test]
fn job_of_another_payroll_is_absent() {
    let (organizations, mut payrolls, org, payroll) = setup();
    let other = payrolls
        .create(
            &organizations,
            org,
            CreatePayrollParams { name: "July".to_string(), description: "July payroll".to_string() },
        )
        .unwrap()
        .id;
    let mut jobs = JobService::new();
    let created = jobs.create(&payrolls, org, payroll, job("Designer", 8_000_000)).unwrap();
    assert!(jobs.get(&payrolls, org, other, created.id).unwrap().is_none());
    assert!(!jobs.delete(&payrolls, org, other, created.id).unwrap());
    let wrong_org = jobs.get(&payrolls, EntityId::from_u128(1), payroll, created.id);
    assert!(matches!(wrong_org, Err(AppError::NotFound { .. })));
}

#[test]
fn job_update_keeps_salary_when_absent() {
    let (_organizations, payrolls, org, payroll) = setup();
    let mut jobs = JobService::new();
    let created = jobs.create(&payrolls, org, payroll, job("Designer", 8_000_000)).unwrap();
    let updated = jobs
        .update(
            &payrolls,
            org,
            payroll,
            created.id,
            UpdateJobParams { job_title: Some(" Lead ".to_string()), salary: None },
        )
        .unwrap()
        .unwrap();
    assert_eq!(updated.job_title, "Lead");
    assert_eq!(updated.salary, 8_000_000);
    let empty = jobs.update(&payrolls, org, payroll, created.id, UpdateJobParams::default());
    assert!(matches!(empty, Err(AppError::Validation { .. })));
}

#[test]
fn deleting_unknown_job_returns_false() {
    let (_organizations, payrolls, org, payroll) = setup();
    let mut jobs = JobService::new();
    assert!(!jobs.delete(&payrolls, org, payroll, EntityId::from_u128(5)).unwrap());
}
