use vstd::prelude::*;

use crate::bank::BankService;
use crate::date::Date;
use crate::division::DivisionService;
use crate::error::{is_database, is_not_found, is_validation, AppError, AppResult};
use crate::ids::EntityId;
use crate::job::JobService;
use crate::nullable::NullableUpdate;
use crate::payroll::PayrollService;
use crate::table::{has_key, index_of, listed, lookup_in_scope, Rank, Record, Scope, Table};
use crate::text::{
    compare_text, normalize_field, normalize_optional, optional_text_ok, patched_text, text_ok,
    trim_of, TextOrder,
};

verus! {

/// A person employed in a division, paid from its payroll.
#[derive(Debug, PartialEq, Eq)]
pub struct Employee {
    pub id: EntityId,
    pub id_number: String,
    pub last_name: String,
    pub first_name: String,
    pub address: String,
    pub phone: String,
    pub place_of_birth: String,
    pub date_of_birth: Date,
    pub nationality: String,
    pub marital_status: String,
    pub gender: String,
    pub hire_date: Date,
    pub termination_date: Option<Date>,
    pub clasification: String,
    pub job_id: EntityId,
    pub bank_id: EntityId,
    pub bank_account: String,
    pub status: String,
    pub hours: i32,
    pub division_id: EntityId,
    pub payroll_id: EntityId,
}

impl Employee {
    pub fn new(
        id: EntityId,
        id_number: String,
        last_name: String,
        first_name: String,
        address: String,
        phone: String,
        place_of_birth: String,
        date_of_birth: Date,
        nationality: String,
        marital_status: String,
        gender: String,
        hire_date: Date,
        termination_date: Option<Date>,
        clasification: String,
        job_id: EntityId,
        bank_id: EntityId,
        bank_account: String,
        status: String,
        hours: i32,
        division_id: EntityId,
        payroll_id: EntityId,
    ) -> (r: Employee)
        ensures
            r == (Employee {
                id,
                id_number,
                last_name,
                first_name,
                address,
                phone,
                place_of_birth,
                date_of_birth,
                nationality,
                marital_status,
                gender,
                hire_date,
                termination_date,
                clasification,
                job_id,
                bank_id,
                bank_account,
                status,
                hours,
                division_id,
                payroll_id,
            }),
    {
        Employee {
            id,
            id_number,
            last_name,
            first_name,
            address,
            phone,
            place_of_birth,
            date_of_birth,
            nationality,
            marital_status,
            gender,
            hire_date,
            termination_date,
            clasification,
            job_id,
            bank_id,
            bank_account,
            status,
            hours,
            division_id,
            payroll_id,
        }
    }
}

impl Record for Employee {
    open spec fn key(&self) -> u128 {
        self.id.value
    }

    open spec fn rank(&self) -> Rank {
        (self.last_name@, self.first_name@)
    }

    /// The scope names the division first and the payroll second.
    open spec fn in_scope(&self, scope: Scope) -> bool {
        self.division_id == scope.0 && self.payroll_id == scope.1
    }

    fn id(&self) -> (r: EntityId) {
        self.id
    }

    fn duplicate(&self) -> (r: Self) {
        Employee {
            id: self.id,
            id_number: self.id_number.clone(),
            last_name: self.last_name.clone(),
            first_name: self.first_name.clone(),
            address: self.address.clone(),
            phone: self.phone.clone(),
            place_of_birth: self.place_of_birth.clone(),
            date_of_birth: self.date_of_birth,
            nationality: self.nationality.clone(),
            marital_status: self.marital_status.clone(),
            gender: self.gender.clone(),
            hire_date: self.hire_date,
            termination_date: self.termination_date,
            clasification: self.clasification.clone(),
            job_id: self.job_id,
            bank_id: self.bank_id,
            bank_account: self.bank_account.clone(),
            status: self.status.clone(),
            hours: self.hours,
            division_id: self.division_id,
            payroll_id: self.payroll_id,
        }
    }

    fn ranks_before(&self, other: &Self) -> (r: bool) {
        match compare_text(self.last_name.as_str(), other.last_name.as_str()) {
            TextOrder::Before => true,
            TextOrder::After => false,
            TextOrder::Same => compare_text(self.first_name.as_str(), other.first_name.as_str())
                == TextOrder::Before,
        }
    }

    fn is_in_scope(&self, scope: Scope) -> (r: bool) {
        self.division_id == scope.0 && self.payroll_id == scope.1
    }
}

#[derive(Debug)]
pub struct CreateEmployeeParams {
    pub id_number: String,
    pub last_name: String,
    pub first_name: String,
    pub address: String,
    pub phone: String,
    pub place_of_birth: String,
    pub date_of_birth: Date,
    pub nationality: String,
    pub marital_status: String,
    pub gender: String,
    pub hire_date: Date,
    pub termination_date: Option<Date>,
    pub clasification: String,
    pub job_id: EntityId,
    pub bank_id: EntityId,
    pub bank_account: String,
    pub status: String,
    pub hours: i32,
}

/// A termination date, if any, is not earlier than the hire date.
pub open spec fn termination_ok(hire_date: Date, termination_date: Option<Date>) -> bool {
    termination_date is None || !termination_date->0.earlier_than(hire_date)
}

impl CreateEmployeeParams {
    /// Every text field is acceptable.
    pub open spec fn texts_ok(&self) -> bool {
        &&& text_ok(self.id_number@)
        &&& text_ok(self.last_name@)
        &&& text_ok(self.first_name@)
        &&& text_ok(self.address@)
        &&& text_ok(self.phone@)
        &&& text_ok(self.place_of_birth@)
        &&& text_ok(self.nationality@)
        &&& text_ok(self.marital_status@)
        &&& text_ok(self.gender@)
        &&& text_ok(self.clasification@)
        &&& text_ok(self.bank_account@)
        &&& text_ok(self.status@)
    }

    /// Every field is acceptable: texts, hours, and the dates.
    pub open spec fn fields_ok(&self) -> bool {
        self.texts_ok() && self.hours >= 0 && termination_ok(self.hire_date, self.termination_date)
    }
}

/// `e` is the employee that the parameters describe, normalized, in the given
/// division and payroll.
pub open spec fn created_from(
    e: Employee,
    p: CreateEmployeeParams,
    division_id: EntityId,
    payroll_id: EntityId,
) -> bool {
    &&& e.id_number@ == trim_of(p.id_number@)
    &&& e.last_name@ == trim_of(p.last_name@)
    &&& e.first_name@ == trim_of(p.first_name@)
    &&& e.address@ == trim_of(p.address@)
    &&& e.phone@ == trim_of(p.phone@)
    &&& e.place_of_birth@ == trim_of(p.place_of_birth@)
    &&& e.date_of_birth == p.date_of_birth
    &&& e.nationality@ == trim_of(p.nationality@)
    &&& e.marital_status@ == trim_of(p.marital_status@)
    &&& e.gender@ == trim_of(p.gender@)
    &&& e.hire_date == p.hire_date
    &&& e.termination_date == p.termination_date
    &&& e.clasification@ == trim_of(p.clasification@)
    &&& e.job_id == p.job_id
    &&& e.bank_id == p.bank_id
    &&& e.bank_account@ == trim_of(p.bank_account@)
    &&& e.status@ == trim_of(p.status@)
    &&& e.hours == p.hours
    &&& e.division_id == division_id
    &&& e.payroll_id == payroll_id
}

#[derive(Debug)]
pub struct UpdateEmployeeParams {
    pub id_number: Option<String>,
    pub last_name: Option<String>,
    pub first_name: Option<String>,
    pub address: Option<String>,
    pub phone: Option<String>,
    pub place_of_birth: Option<String>,
    pub date_of_birth: Option<Date>,
    pub nationality: Option<String>,
    pub marital_status: Option<String>,
    pub gender: Option<String>,
    pub hire_date: Option<Date>,
    pub termination_date: NullableUpdate<Date>,
    pub clasification: Option<String>,
    pub job_id: Option<EntityId>,
    pub bank_id: Option<EntityId>,
    pub bank_account: Option<String>,
    pub status: Option<String>,
    pub hours: Option<i32>,
}

impl UpdateEmployeeParams {
    /// No field is supplied.
    pub open spec fn is_empty(&self) -> bool {
        &&& self.id_number is None
        &&& self.last_name is None
        &&& self.first_name is None
        &&& self.address is None
        &&& self.phone is None
        &&& self.place_of_birth is None
        &&& self.date_of_birth is None
        &&& self.nationality is None
        &&& self.marital_status is None
        &&& self.gender is None
        &&& self.hire_date is None
        &&& self.termination_date is Unchanged
        &&& self.clasification is None
        &&& self.job_id is None
        &&& self.bank_id is None
        &&& self.bank_account is None
        &&& self.status is None
        &&& self.hours is None
    }

    /// Every supplied text field is acceptable.
    pub open spec fn texts_ok(&self) -> bool {
        &&& optional_text_ok(self.id_number)
        &&& optional_text_ok(self.last_name)
        &&& optional_text_ok(self.first_name)
        &&& optional_text_ok(self.address)
        &&& optional_text_ok(self.phone)
        &&& optional_text_ok(self.place_of_birth)
        &&& optional_text_ok(self.nationality)
        &&& optional_text_ok(self.marital_status)
        &&& optional_text_ok(self.gender)
        &&& optional_text_ok(self.clasification)
        &&& optional_text_ok(self.bank_account)
        &&& optional_text_ok(self.status)
    }

    /// The hire date after the update of `before`.
    pub open spec fn hire_date_after(&self, before: Employee) -> Date {
        match self.hire_date {
            Some(d) => d,
            None => before.hire_date,
        }
    }

    /// The update supplies the hire date or the termination date.
    pub open spec fn touches_dates(&self) -> bool {
        self.hire_date is Some || self.termination_date.is_present()
    }

    /// When the update touches either date, the termination date after the
    /// update is not earlier than the hire date after the update.
    pub open spec fn termination_ok(&self, before: Employee) -> bool {
        self.touches_dates() ==> termination_ok(
            self.hire_date_after(before),
            self.termination_date.applied_to(before.termination_date),
        )
    }

    /// Every supplied field is acceptable for an update of `before`.
    pub open spec fn fields_ok(&self, before: Employee) -> bool {
        self.termination_ok(before) && self.texts_ok() && (self.hours is None || self.hours->0 >= 0)
    }
}

/// `after` is `before` with the supplied fields, normalized, put in.
pub open spec fn updated_from(after: Employee, before: Employee, p: UpdateEmployeeParams) -> bool {
    &&& after.id == before.id
    &&& after.id_number@ == patched_text(p.id_number, before.id_number@)
    &&& after.last_name@ == patched_text(p.last_name, before.last_name@)
    &&& after.first_name@ == patched_text(p.first_name, before.first_name@)
    &&& after.address@ == patched_text(p.address, before.address@)
    &&& after.phone@ == patched_text(p.phone, before.phone@)
    &&& after.place_of_birth@ == patched_text(p.place_of_birth, before.place_of_birth@)
    &&& after.date_of_birth == (if p.date_of_birth is Some {
        p.date_of_birth->0
    } else {
        before.date_of_birth
    })
    &&& after.nationality@ == patched_text(p.nationality, before.nationality@)
    &&& after.marital_status@ == patched_text(p.marital_status, before.marital_status@)
    &&& after.gender@ == patched_text(p.gender, before.gender@)
    &&& after.hire_date == p.hire_date_after(before)
    &&& after.termination_date == p.termination_date.applied_to(before.termination_date)
    &&& after.clasification@ == patched_text(p.clasification, before.clasification@)
    &&& after.job_id == (if p.job_id is Some {
        p.job_id->0
    } else {
        before.job_id
    })
    &&& after.bank_id == (if p.bank_id is Some {
        p.bank_id->0
    } else {
        before.bank_id
    })
    &&& after.bank_account@ == patched_text(p.bank_account, before.bank_account@)
    &&& after.status@ == patched_text(p.status, before.status@)
    &&& after.hours == (if p.hours is Some {
        p.hours->0
    } else {
        before.hours
    })
    &&& after.division_id == before.division_id
    &&& after.payroll_id == before.payroll_id
}

/// An update that `update` accepts keeps the termination date, if any, no
/// earlier than the hire date: dates that the update touches are checked
/// after the update, and dates it leaves alone stay as they were.
pub proof fn lemma_update_keeps_dates_ordered(before: Employee, after: Employee, p: UpdateEmployeeParams)
    requires
        termination_ok(before.hire_date, before.termination_date),
        p.fields_ok(before),
        updated_from(after, before, p),
    ensures
        termination_ok(after.hire_date, after.termination_date),
{
}

/// The scope of the employees of a division of a payroll.
pub open spec fn employee_scope(division_id: EntityId, payroll_id: EntityId) -> Scope {
    (division_id, payroll_id)
}

/// The payroll belongs to the organization and the division to the payroll.
pub open spec fn division_accessible(
    payrolls: &PayrollService,
    divisions: &DivisionService,
    organization_id: EntityId,
    payroll_id: EntityId,
    division_id: EntityId,
) -> bool {
    payrolls.find(organization_id, payroll_id) is Some && divisions.find(payroll_id, division_id) is Some
}

/// Accepts a number of hours unless it is negative.
pub fn validate_hours(value: i32) -> (r: AppResult<i32>)
    ensures
        value >= 0 <==> r is Ok,
        r is Ok ==> r->Ok_0 == value,
        r is Err ==> r->Err_0 is Validation,
{
    if value < 0 {
        return Err(AppError::validation("hours cannot be negative"));
    }
    Ok(value)
}

/// Accepts a termination date unless it is earlier than the hire date.
pub fn validate_termination_date(hire_date: Date, termination_date: Option<Date>) -> (r: AppResult<
    Option<Date>,
>)
    ensures
        termination_ok(hire_date, termination_date) <==> r is Ok,
        r is Ok ==> r->Ok_0 == termination_date,
        r is Err ==> r->Err_0 is Validation,
{
    match termination_date {
        Some(date) => {
            if date.is_before(&hire_date) {
                return Err(AppError::validation("termination date cannot be before hire date"));
            }
            Ok(Some(date))
        },
        None => Ok(None),
    }
}

fn take_or(update: Option<String>, current: String) -> (r: String)
    ensures
        r@ == (if update is Some {
            update->0@
        } else {
            current@
        }),
{
    match update {
        Some(v) => v,
        None => current,
    }
}

/// Employees, each in a division of a payroll.
pub struct EmployeeService {
    repository: Table<Employee>,
}

impl View for EmployeeService {
    type V = Seq<Employee>;

    closed spec fn view(&self) -> Seq<Employee> {
        self.repository@
    }
}


impl EmployeeService {
    pub closed spec fn wf(&self) -> bool {
        self.repository.wf()
    }

    /// The employee with the given id, if it belongs to the division and the payroll.
    pub open spec fn find(&self, division_id: EntityId, payroll_id: EntityId, employee_id: EntityId)
        -> Option<Employee> {
        lookup_in_scope(self@, employee_id.value, employee_scope(division_id, payroll_id))
    }

    pub fn new() -> (r: EmployeeService)
        ensures
            r.wf(),
            r@ == Seq::<Employee>::empty(),
    {
        EmployeeService { repository: Table::new() }
    }

    /// Creates an employee under a freshly drawn identifier.
    pub fn create(
        &mut self,
        payrolls: &PayrollService,
        divisions: &DivisionService,
        jobs: &JobService,
        banks: &BankService,
        organization_id: EntityId,
        payroll_id: EntityId,
        division_id: EntityId,
        params: CreateEmployeeParams,
    ) -> (r: AppResult<Employee>)
        requires
            old(self).wf(),
            payrolls.wf(),
            divisions.wf(),
            jobs.wf(),
            banks.wf(),
        ensures
            final(self).wf(),
            r is Err ==> final(self)@ == old(self)@,
            !(division_accessible(payrolls, divisions, organization_id, payroll_id, division_id)
                && jobs.find(payroll_id, params.job_id) is Some && banks.find(
                organization_id,
                params.bank_id,
            ) is Some) ==> is_not_found(r),
            division_accessible(payrolls, divisions, organization_id, payroll_id, division_id)
                && jobs.find(payroll_id, params.job_id) is Some && banks.find(
                organization_id,
                params.bank_id,
            ) is Some && !params.fields_ok() ==> is_validation(r),
            r is Err && division_accessible(payrolls, divisions, organization_id, payroll_id, division_id)
                && jobs.find(payroll_id, params.job_id) is Some && banks.find(
                organization_id,
                params.bank_id,
            ) is Some && params.fields_ok() ==> is_database(r),
            r is Err && division_accessible(payrolls, divisions, organization_id, payroll_id, division_id)
                && jobs.find(payroll_id, params.job_id) is Some && banks.find(
                organization_id,
                params.bank_id,
            ) is Some && params.fields_ok() ==> old(self)@.len() > 0,
            r is Ok ==> {
                let e = r->Ok_0;
                &&& e.id.value != 0
                &&& created_from(e, params, division_id, payroll_id)
                &&& !has_key(old(self)@, e.id.value)
                &&& final(self)@ == old(self)@.push(e)
            },
    {
        let id = EntityId::generate();
        self.create_with_id(
            payrolls,
            divisions,
            jobs,
            banks,
            organization_id,
            payroll_id,
            division_id,
            id,
            params,
        )
    }

    /// Creates an employee under the given identifier. The division must lie
    /// in the payroll of the organization, the job in the same payroll, and the
    /// bank in the same organization.
    pub fn create_with_id(
        &mut self,
        payrolls: &PayrollService,
        divisions: &DivisionService,
        jobs: &JobService,
        banks: &BankService,
        organization_id: EntityId,
        payroll_id: EntityId,
        division_id: EntityId,
        id: EntityId,
        params: CreateEmployeeParams,
    ) -> (r: AppResult<Employee>)
        requires
            old(self).wf(),
            payrolls.wf(),
            divisions.wf(),
            jobs.wf(),
            banks.wf(),
        ensures
            final(self).wf(),
            r is Err ==> final(self)@ == old(self)@,
            !(division_accessible(payrolls, divisions, organization_id, payroll_id, division_id)
                && jobs.find(payroll_id, params.job_id) is Some && banks.find(
                organization_id,
                params.bank_id,
            ) is Some) ==> is_not_found(r),
            division_accessible(payrolls, divisions, organization_id, payroll_id, division_id)
                && jobs.find(payroll_id, params.job_id) is Some && banks.find(
                organization_id,
                params.bank_id,
            ) is Some && !params.fields_ok() ==> is_validation(r),
            division_accessible(payrolls, divisions, organization_id, payroll_id, division_id)
                && jobs.find(payroll_id, params.job_id) is Some && banks.find(
                organization_id,
                params.bank_id,
            ) is Some && params.fields_ok() && has_key(old(self)@, id.value) ==> is_database(r),
            division_accessible(payrolls, divisions, organization_id, payroll_id, division_id)
                && jobs.find(payroll_id, params.job_id) is Some && banks.find(
                organization_id,
                params.bank_id,
            ) is Some && params.fields_ok() && !has_key(old(self)@, id.value) ==> {
                let e = r->Ok_0;
                &&& r is Ok
                &&& e.id == id
                &&& created_from(e, params, division_id, payroll_id)
                &&& final(self)@ == old(self)@.push(e)
            },
    {
        Self::ensure_division_accessible(payrolls, divisions, organization_id, payroll_id, division_id)?;
        Self::ensure_job_belongs(payrolls, jobs, organization_id, payroll_id, params.job_id)?;
        Self::ensure_bank_belongs(banks, organization_id, params.bank_id)?;
        let id_number = normalize_field(params.id_number.as_str(), "id number")?;
        let last_name = normalize_field(params.last_name.as_str(), "last name")?;
        let first_name = normalize_field(params.first_name.as_str(), "first name")?;
        let address = normalize_field(params.address.as_str(), "address")?;
        let phone = normalize_field(params.phone.as_str(), "phone")?;
        let place_of_birth = normalize_field(params.place_of_birth.as_str(), "place of birth")?;
        let nationality = normalize_field(params.nationality.as_str(), "nationality")?;
        let marital_status = normalize_field(params.marital_status.as_str(), "marital status")?;
        let gender = normalize_field(params.gender.as_str(), "gender")?;
        let clasification = normalize_field(params.clasification.as_str(), "clasification")?;
        let bank_account = normalize_field(params.bank_account.as_str(), "bank account")?;
        let status = normalize_field(params.status.as_str(), "status")?;
        let hours = validate_hours(params.hours)?;
        let termination_date = validate_termination_date(params.hire_date, params.termination_date)?;
        self.repository.insert(
            Employee::new(
                id,
                id_number,
                last_name,
                first_name,
                address,
                phone,
                place_of_birth,
                params.date_of_birth,
                nationality,
                marital_status,
                gender,
                params.hire_date,
                termination_date,
                clasification,
                params.job_id,
                params.bank_id,
                bank_account,
                status,
                hours,
                division_id,
                payroll_id,
            ),
        )
    }

    /// The employee, if the division is reachable in the scope and the
    /// employee belongs to both the division and the payroll.
    pub fn get(
        &self,
        payrolls: &PayrollService,
        divisions: &DivisionService,
        organization_id: EntityId,
        payroll_id: EntityId,
        division_id: EntityId,
        employee_id: EntityId,
    ) -> (r: AppResult<Option<Employee>>)
        requires
            self.wf(),
            payrolls.wf(),
            divisions.wf(),
        ensures
            !division_accessible(payrolls, divisions, organization_id, payroll_id, division_id)
                ==> is_not_found(r),
            division_accessible(payrolls, divisions, organization_id, payroll_id, division_id)
                ==> r == Ok::<Option<Employee>, AppError>(
                self.find(division_id, payroll_id, employee_id),
            ),
    {
        Self::ensure_division_accessible(payrolls, divisions, organization_id, payroll_id, division_id)?;
        Ok(self.repository.fetch_in_scope(employee_id, (division_id, payroll_id)))
    }

    /// The employees of the division, by last name and then first name.
    pub fn list(
        &self,
        payrolls: &PayrollService,
        divisions: &DivisionService,
        organization_id: EntityId,
        payroll_id: EntityId,
        division_id: EntityId,
    ) -> (r: AppResult<Vec<Employee>>)
        requires
            self.wf(),
            payrolls.wf(),
            divisions.wf(),
        ensures
            !division_accessible(payrolls, divisions, organization_id, payroll_id, division_id)
                ==> is_not_found(r),
            division_accessible(payrolls, divisions, organization_id, payroll_id, division_id)
                ==> r is Ok && listed(self@, employee_scope(division_id, payroll_id), r->Ok_0@),
    {
        Self::ensure_division_accessible(payrolls, divisions, organization_id, payroll_id, division_id)?;
        Ok(self.repository.select((division_id, payroll_id)))
    }

    /// Updates the supplied fields. A new job or bank must belong to the same
    /// payroll or organization; when either date is supplied, the termination
    /// date after the update may not be earlier than the hire date after the
    /// update; the termination date may be kept, cleared or set.
    pub fn update(
        &mut self,
        payrolls: &PayrollService,
        divisions: &DivisionService,
        jobs: &JobService,
        banks: &BankService,
        organization_id: EntityId,
        payroll_id: EntityId,
        division_id: EntityId,
        employee_id: EntityId,
        params: UpdateEmployeeParams,
    ) -> (r: AppResult<Option<Employee>>)
        requires
            old(self).wf(),
            payrolls.wf(),
            divisions.wf(),
            jobs.wf(),
            banks.wf(),
        ensures
            final(self).wf(),
            r is Err || r == Ok::<Option<Employee>, AppError>(None) ==> final(self)@ == old(self)@,
            params.is_empty() ==> is_validation(r),
            !params.is_empty() && !division_accessible(
                payrolls,
                divisions,
                organization_id,
                payroll_id,
                division_id,
            ) ==> is_not_found(r),
            !params.is_empty() && division_accessible(
                payrolls,
                divisions,
                organization_id,
                payroll_id,
                division_id,
            ) && old(self).find(division_id, payroll_id, employee_id) is None ==> r == Ok::<
                Option<Employee>,
                AppError,
            >(None),
            !params.is_empty() && division_accessible(
                payrolls,
                divisions,
                organization_id,
                payroll_id,
                division_id,
            ) && old(self).find(division_id, payroll_id, employee_id) is Some && !((
            params.job_id is None || jobs.find(payroll_id, params.job_id->0) is Some) && (
            params.bank_id is None || banks.find(organization_id, params.bank_id->0) is Some))
                ==> is_not_found(r),
            !params.is_empty() && division_accessible(
                payrolls,
                divisions,
                organization_id,
                payroll_id,
                division_id,
            ) && old(self).find(division_id, payroll_id, employee_id) is Some && (params.job_id is None
                || jobs.find(payroll_id, params.job_id->0) is Some) && (params.bank_id is None
                || banks.find(organization_id, params.bank_id->0) is Some) ==> {
                let before = old(self).find(division_id, payroll_id, employee_id)->0;
                let after = r->Ok_0->0;
                &&& !params.fields_ok(before) ==> is_validation(r)
                &&& params.fields_ok(before) ==> {
                    &&& r is Ok && r->Ok_0 is Some
                    &&& updated_from(after, before, params)
                    &&& final(self)@ == old(self)@.update(
                        index_of(old(self)@, employee_id.value),
                        after,
                    )
                }
            },
    {
        if params.id_number.is_none() && params.last_name.is_none() && params.first_name.is_none()
            && params.address.is_none() && params.phone.is_none() && params.place_of_birth.is_none()
            && params.date_of_birth.is_none() && params.nationality.is_none()
            && params.marital_status.is_none() && params.gender.is_none()
            && params.hire_date.is_none() && params.termination_date.is_unchanged()
            && params.clasification.is_none() && params.job_id.is_none()
            && params.bank_id.is_none() && params.bank_account.is_none() && params.status.is_none()
            && params.hours.is_none() {
            return Err(AppError::validation("no fields supplied for update"));
        }
        let current = match self.get(
            payrolls,
            divisions,
            organization_id,
            payroll_id,
            division_id,
            employee_id,
        )? {
            Some(e) => e,
            None => return Ok(None),
        };
        if let Some(job_id) = params.job_id {
            Self::ensure_job_belongs(payrolls, jobs, organization_id, payroll_id, job_id)?;
        }
        if let Some(bank_id) = params.bank_id {
            Self::ensure_bank_belongs(banks, organization_id, bank_id)?;
        }
        let hire_date = match params.hire_date {
            Some(d) => d,
            None => current.hire_date,
        };
        let touches_dates = params.hire_date.is_some() || !params.termination_date.is_unchanged();
        let termination_date = match params.termination_date {
            NullableUpdate::Unchanged => current.termination_date,
            NullableUpdate::Clear => None,
            NullableUpdate::Value(d) => Some(d),
        };
        if touches_dates {
            validate_termination_date(hire_date, termination_date)?;
        }
        let id_number = normalize_optional(&params.id_number, "id number")?;
        let last_name = normalize_optional(&params.last_name, "last name")?;
        let first_name = normalize_optional(&params.first_name, "first name")?;
        let address = normalize_optional(&params.address, "address")?;
        let phone = normalize_optional(&params.phone, "phone")?;
        let place_of_birth = normalize_optional(&params.place_of_birth, "place of birth")?;
        let nationality = normalize_optional(&params.nationality, "nationality")?;
        let marital_status = normalize_optional(&params.marital_status, "marital status")?;
        let gender = normalize_optional(&params.gender, "gender")?;
        let clasification = normalize_optional(&params.clasification, "clasification")?;
        let bank_account = normalize_optional(&params.bank_account, "bank account")?;
        let status = normalize_optional(&params.status, "status")?;
        let hours = match params.hours {
            Some(h) => validate_hours(h)?,
            None => current.hours,
        };
        let updated = Employee {
            id: current.id,
            id_number: take_or(id_number, current.id_number),
            last_name: take_or(last_name, current.last_name),
            first_name: take_or(first_name, current.first_name),
            address: take_or(address, current.address),
            phone: take_or(phone, current.phone),
            place_of_birth: take_or(place_of_birth, current.place_of_birth),
            date_of_birth: match params.date_of_birth {
                Some(d) => d,
                None => current.date_of_birth,
            },
            nationality: take_or(nationality, current.nationality),
            marital_status: take_or(marital_status, current.marital_status),
            gender: take_or(gender, current.gender),
            hire_date,
            termination_date,
            clasification: take_or(clasification, current.clasification),
            job_id: match params.job_id {
                Some(j) => j,
                None => current.job_id,
            },
            bank_id: match params.bank_id {
                Some(b) => b,
                None => current.bank_id,
            },
            bank_account: take_or(bank_account, current.bank_account),
            status: take_or(status, current.status),
            hours,
            division_id: current.division_id,
            payroll_id: current.payroll_id,
        };
        self.repository.replace(updated.duplicate());
        Ok(Some(updated))
    }

    /// Removes an employee of the division; tells whether there was one.
    pub fn delete(
        &mut self,
        payrolls: &PayrollService,
        divisions: &DivisionService,
        organization_id: EntityId,
        payroll_id: EntityId,
        division_id: EntityId,
        employee_id: EntityId,
    ) -> (r: AppResult<bool>)
        requires
            old(self).wf(),
            payrolls.wf(),
            divisions.wf(),
        ensures
            final(self).wf(),
            !division_accessible(payrolls, divisions, organization_id, payroll_id, division_id)
                ==> is_not_found(r),
            division_accessible(payrolls, divisions, organization_id, payroll_id, division_id)
                ==> r == Ok::<bool, AppError>(
                old(self).find(division_id, payroll_id, employee_id) is Some,
            ),
            r == Ok::<bool, AppError>(true) ==> final(self)@ == old(self)@.remove(
                index_of(old(self)@, employee_id.value),
            ),
            r != Ok::<bool, AppError>(true) ==> final(self)@ == old(self)@,
    {
        Self::ensure_division_accessible(payrolls, divisions, organization_id, payroll_id, division_id)?;
        if self.repository.fetch_in_scope(employee_id, (division_id, payroll_id)).is_none() {
            return Ok(false);
        }
        Ok(self.repository.remove(employee_id))
    }

    fn ensure_division_accessible(
        payrolls: &PayrollService,
        divisions: &DivisionService,
        organization_id: EntityId,
        payroll_id: EntityId,
        division_id: EntityId,
    ) -> (r: AppResult<()>)
        requires
            payrolls.wf(),
            divisions.wf(),
        ensures
            r is Ok <==> division_accessible(
                payrolls,
                divisions,
                organization_id,
                payroll_id,
                division_id,
            ),
            r is Err ==> is_not_found(r),
    {
        match divisions.get(payrolls, organization_id, payroll_id, division_id)? {
            Some(_) => Ok(()),
            None => Err(AppError::not_found("division not found for payroll in organization")),
        }
    }

    fn ensure_job_belongs(
        payrolls: &PayrollService,
        jobs: &JobService,
        organization_id: EntityId,
        payroll_id: EntityId,
        job_id: EntityId,
    ) -> (r: AppResult<()>)
        requires
            payrolls.wf(),
            jobs.wf(),
        ensures
            r is Ok <==> payrolls.find(organization_id, payroll_id) is Some && jobs.find(
                payroll_id,
                job_id,
            ) is Some,
            r is Err ==> is_not_found(r),
    {
        match jobs.get(payrolls, organization_id, payroll_id, job_id)? {
            Some(job) => if job.payroll_id == payroll_id {
                Ok(())
            } else {
                Err(AppError::not_found("job not found for payroll"))
            },
            None => Err(AppError::not_found("job not found for payroll")),
        }
    }

    fn ensure_bank_belongs(banks: &BankService, organization_id: EntityId, bank_id: EntityId) -> (r:
        AppResult<()>)
        requires
            banks.wf(),
        ensures
            r is Ok <==> banks.find(organization_id, bank_id) is Some,
            r is Err ==> is_not_found(r),
    {
        match banks.get(organization_id, bank_id)? {
            Some(bank) => if bank.organization_id == organization_id {
                Ok(())
            } else {
                Err(AppError::not_found("bank not found for organization"))
            },
            None => Err(AppError::not_found("bank not found for organization")),
        }
    }
}

} // verus!
