use vstd::prelude::*;

use crate::bank::{CreateBankParams, UpdateBankParams};
use crate::date::Date;
use crate::division::{CreateDivisionParams, UpdateDivisionParams};
use crate::employee::{CreateEmployeeParams, UpdateEmployeeParams};
use crate::ids::EntityId;
use crate::job::{CreateJobParams, UpdateJobParams};
use crate::nullable::NullableUpdate;
use crate::organization::{CreateOrganizationParams, UpdateOrganizationParams};
use crate::payroll::{CreatePayrollParams, UpdatePayrollParams};

verus! {

/// Body of a request that creates an organization.
#[derive(Debug)]
pub struct CreateOrganizationRequest {
    pub name: String,
}

/// Body of a request that updates an organization; absent fields stay as they are.
#[derive(Debug)]
pub struct UpdateOrganizationRequest {
    pub name: Option<String>,
}

impl CreateOrganizationRequest {
    pub fn into_params(self) -> (r: CreateOrganizationParams)
        ensures
            r.name == self.name,
    {
        CreateOrganizationParams { name: self.name }
    }
}

impl UpdateOrganizationRequest {
    pub fn into_params(self) -> (r: UpdateOrganizationParams)
        ensures
            r.name == self.name,
    {
        UpdateOrganizationParams { name: self.name }
    }
}

/// Body of a request that creates a payroll.
#[derive(Debug)]
pub struct CreatePayrollRequest {
    pub name: String,
    pub description: String,
}

/// Body of a request that updates a payroll.
#[derive(Debug)]
pub struct UpdatePayrollRequest {
    pub name: Option<String>,
    pub description: Option<String>,
}

impl CreatePayrollRequest {
    pub fn into_params(self) -> (r: CreatePayrollParams)
        ensures
            r.name == self.name,
            r.description == self.description,
    {
        CreatePayrollParams { name: self.name, description: self.description }
    }
}

impl UpdatePayrollRequest {
    pub fn into_params(self) -> (r: UpdatePayrollParams)
        ensures
            r.name == self.name,
            r.description == self.description,
    {
        UpdatePayrollParams { name: self.name, description: self.description }
    }
}

/// Body of a request that creates a bank.
#[derive(Debug)]
pub struct CreateBankRequest {
    pub name: String,
}

/// Body of a request that updates a bank.
#[derive(Debug)]
pub struct UpdateBankRequest {
    pub name: Option<String>,
}

impl CreateBankRequest {
    pub fn into_params(self) -> (r: CreateBankParams)
        ensures
            r.name == self.name,
    {
        CreateBankParams { name: self.name }
    }
}

impl UpdateBankRequest {
    pub fn into_params(self) -> (r: UpdateBankParams)
        ensures
            r.name == self.name,
    {
        UpdateBankParams { name: self.name }
    }
}

/// Body of a request that creates a division.
#[derive(Debug)]
pub struct CreateDivisionRequest {
    pub name: String,
    pub description: String,
    pub budget_code: String,
    pub parent_division_id: Option<EntityId>,
}

/// Body of a request that updates a division. The parent is absent (`None`),
/// null (`Some(None)`) or a division (`Some(Some(id))`).
#[derive(Debug)]
pub struct UpdateDivisionRequest {
    pub name: Option<String>,
    pub description: Option<String>,
    pub budget_code: Option<String>,
    pub parent_division_id: Option<Option<EntityId>>,
}

impl CreateDivisionRequest {
    pub fn into_params(self) -> (r: CreateDivisionParams)
        ensures
            r.name == self.name,
            r.description == self.description,
            r.budget_code == self.budget_code,
            r.parent_division_id == self.parent_division_id,
    {
        CreateDivisionParams {
            name: self.name,
            description: self.description,
            budget_code: self.budget_code,
            parent_division_id: self.parent_division_id,
        }
    }
}

impl UpdateDivisionRequest {
    pub fn into_params(self) -> (r: UpdateDivisionParams)
        ensures
            r.name == self.name,
            r.description == self.description,
            r.budget_code == self.budget_code,
            self.parent_division_id is None ==> r.parent_division_id is Unchanged,
            self.parent_division_id == Some(None::<EntityId>) ==> r.parent_division_id is Clear,
            self.parent_division_id is Some && self.parent_division_id->0 is Some
                ==> r.parent_division_id == NullableUpdate::Value(self.parent_division_id->0->0),
    {
        UpdateDivisionParams {
            name: self.name,
            description: self.description,
            budget_code: self.budget_code,
            parent_division_id: NullableUpdate::from_nested(self.parent_division_id),
        }
    }
}

/// Body of a request that creates a job; the salary is in cents.
#[derive(Debug)]
pub struct CreateJobRequest {
    pub job_title: String,
    pub salary: i64,
}

/// Body of a request that updates a job.
#[derive(Debug)]
pub struct UpdateJobRequest {
    pub job_title: Option<String>,
    pub salary: Option<i64>,
}

impl CreateJobRequest {
    pub fn into_params(self) -> (r: CreateJobParams)
        ensures
            r.job_title == self.job_title,
            r.salary == self.salary,
    {
        CreateJobParams { job_title: self.job_title, salary: self.salary }
    }
}

impl UpdateJobRequest {
    pub fn into_params(self) -> (r: UpdateJobParams)
        ensures
            r.job_title == self.job_title,
            r.salary == self.salary,
    {
        UpdateJobParams { job_title: self.job_title, salary: self.salary }
    }
}

/// Body of a request that creates an employee; `leaving_date` is the
/// termination date.
#[derive(Debug)]
pub struct CreateEmployeeRequest {
    pub id_number: String,
    pub last_name: String,
    pub first_name: String,
    pub address: String,
    pub phone: String,
    pub place_of_birth: String,
    pub date_of_birth: Date,
    pub nationality: String,
    pub marital_status: String,
    pub gender: String,
    pub hire_date: Date,
    pub leaving_date: Option<Date>,
    pub clasification: String,
    pub job_id: EntityId,
    pub bank_id: EntityId,
    pub bank_account: String,
    pub status: String,
    pub hours: i32,
}

/// Body of a request that updates an employee. The leaving date is absent
/// (`None`), null (`Some(None)`) or a date (`Some(Some(d))`).
#[derive(Debug)]
pub struct UpdateEmployeeRequest {
    pub id_number: Option<String>,
    pub last_name: Option<String>,
    pub first_name: Option<String>,
    pub address: Option<String>,
    pub phone: Option<String>,
    pub place_of_birth: Option<String>,
    pub date_of_birth: Option<Date>,
    pub nationality: Option<String>,
    pub marital_status: Option<String>,
    pub gender: Option<String>,
    pub hire_date: Option<Date>,
    pub leaving_date: Option<Option<Date>>,
    pub clasification: Option<String>,
    pub job_id: Option<EntityId>,
    pub bank_id: Option<EntityId>,
    pub bank_account: Option<String>,
    pub status: Option<String>,
    pub hours: Option<i32>,
}

impl CreateEmployeeRequest {
    pub fn into_params(self) -> (r: CreateEmployeeParams)
        ensures
            r == (CreateEmployeeParams {
                id_number: self.id_number,
                last_name: self.last_name,
                first_name: self.first_name,
                address: self.address,
                phone: self.phone,
                place_of_birth: self.place_of_birth,
                date_of_birth: self.date_of_birth,
                nationality: self.nationality,
                marital_status: self.marital_status,
                gender: self.gender,
                hire_date: self.hire_date,
                termination_date: self.leaving_date,
                clasification: self.clasification,
                job_id: self.job_id,
                bank_id: self.bank_id,
                bank_account: self.bank_account,
                status: self.status,
                hours: self.hours,
            }),
    {
        CreateEmployeeParams {
            id_number: self.id_number,
            last_name: self.last_name,
            first_name: self.first_name,
            address: self.address,
            phone: self.phone,
            place_of_birth: self.place_of_birth,
            date_of_birth: self.date_of_birth,
            nationality: self.nationality,
            marital_status: self.marital_status,
            gender: self.gender,
            hire_date: self.hire_date,
            termination_date: self.leaving_date,
            clasification: self.clasification,
            job_id: self.job_id,
            bank_id: self.bank_id,
            bank_account: self.bank_account,
            status: self.status,
            hours: self.hours,
        }
    }
}

impl UpdateEmployeeRequest {
    pub fn into_params(self) -> (r: UpdateEmployeeParams)
        ensures
            r == (UpdateEmployeeParams {
                id_number: self.id_number,
                last_name: self.last_name,
                first_name: self.first_name,
                address: self.address,
                phone: self.phone,
                place_of_birth: self.place_of_birth,
                date_of_birth: self.date_of_birth,
                nationality: self.nationality,
                marital_status: self.marital_status,
                gender: self.gender,
                hire_date: self.hire_date,
                termination_date: match self.leaving_date {
                    None => NullableUpdate::<Date>::Unchanged,
                    Some(None) => NullableUpdate::<Date>::Clear,
                    Some(Some(d)) => NullableUpdate::Value(d),
                },
                clasification: self.clasification,
                job_id: self.job_id,
                bank_id: self.bank_id,
                bank_account: self.bank_account,
                status: self.status,
                hours: self.hours,
            }),
    {
        UpdateEmployeeParams {
            id_number: self.id_number,
            last_name: self.last_name,
            first_name: self.first_name,
            address: self.address,
            phone: self.phone,
            place_of_birth: self.place_of_birth,
            date_of_birth: self.date_of_birth,
            nationality: self.nationality,
            marital_status: self.marital_status,
            gender: self.gender,
            hire_date: self.hire_date,
            termination_date: NullableUpdate::from_nested(self.leaving_date),
            clasification: self.clasification,
            job_id: self.job_id,
            bank_id: self.bank_id,
            bank_account: self.bank_account,
            status: self.status,
            hours: self.hours,
        }
    }
}

} // verus!
