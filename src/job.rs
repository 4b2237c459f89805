use vstd::prelude::*;

use crate::error::{is_database, is_not_found, is_validation, AppError, AppResult};
use crate::ids::EntityId;
use crate::payroll::PayrollService;
use crate::table::{has_key, index_of, listed, lookup_in_scope, Rank, Record, Scope, Table};
use crate::text::{
    compare_text, normalize_field, normalize_optional, optional_text_ok, patched_text, text_ok,
    trim_of, TextOrder,
};

verus! {

/// A position paid from one payroll. The salary is in cents.
#[derive(Debug, PartialEq, Eq)]
pub struct Job {
    pub id: EntityId,
    pub job_title: String,
    pub salary: i64,
    pub payroll_id: EntityId,
}

impl Job {
    pub fn new(id: EntityId, job_title: String, salary: i64, payroll_id: EntityId) -> (r: Job)
        ensures
            r.id == id,
            r.job_title == job_title,
            r.salary == salary,
            r.payroll_id == payroll_id,
    {
        Job { id, job_title, salary, payroll_id }
    }
}

impl Record for Job {
    open spec fn key(&self) -> u128 {
        self.id.value
    }

    open spec fn rank(&self) -> Rank {
        (self.job_title@, Seq::empty())
    }

    /// The scope names the owning payroll first.
    open spec fn in_scope(&self, scope: Scope) -> bool {
        self.payroll_id == scope.0
    }

    fn id(&self) -> (r: EntityId) {
        self.id
    }

    fn duplicate(&self) -> (r: Self) {
        Job {
            id: self.id,
            job_title: self.job_title.clone(),
            salary: self.salary,
            payroll_id: self.payroll_id,
        }
    }

    fn ranks_before(&self, other: &Self) -> (r: bool) {
        compare_text(self.job_title.as_str(), other.job_title.as_str()) == TextOrder::Before
    }

    fn is_in_scope(&self, scope: Scope) -> (r: bool) {
        self.payroll_id == scope.0
    }
}

#[derive(Debug)]
pub struct CreateJobParams {
    pub job_title: String,
    pub salary: i64,
}

#[derive(Debug, Default)]
pub struct UpdateJobParams {
    pub job_title: Option<String>,
    pub salary: Option<i64>,
}

impl UpdateJobParams {
    /// No field is supplied.
    pub open spec fn is_empty(&self) -> bool {
        self.job_title is None && self.salary is None
    }

    /// Every supplied field is acceptable.
    pub open spec fn fields_ok(&self) -> bool {
        optional_text_ok(self.job_title) && (self.salary is None || self.salary->0 > 0)
    }
}

/// The scope of the jobs of a payroll.
pub open spec fn job_scope(payroll_id: EntityId) -> Scope {
    (payroll_id, EntityId { value: 0 })
}

/// Accepts a salary only when it is greater than zero.
pub fn validate_salary(value: i64) -> (r: AppResult<i64>)
    ensures
        value > 0 <==> r is Ok,
        r is Ok ==> r->Ok_0 == value,
        r is Err ==> r->Err_0 is Validation,
{
    if value <= 0 {
        return Err(AppError::validation("salary must be greater than zero"));
    }
    Ok(value)
}

/// Jobs, each owned by a payroll.
pub struct JobService {
    repository: Table<Job>,
}

impl View for JobService {
    type V = Seq<Job>;

    closed spec fn view(&self) -> Seq<Job> {
        self.repository@
    }
}

impl JobService {
    pub closed spec fn wf(&self) -> bool {
        self.repository.wf()
    }

    /// The job with the given id, if it belongs to the payroll.
    pub open spec fn find(&self, payroll_id: EntityId, job_id: EntityId) -> Option<Job> {
        lookup_in_scope(self@, job_id.value, job_scope(payroll_id))
    }

    pub fn new() -> (r: JobService)
        ensures
            r.wf(),
            r@ == Seq::<Job>::empty(),
    {
        JobService { repository: Table::new() }
    }

    /// Creates a job under a freshly drawn identifier.
    pub fn create(
        &mut self,
        payrolls: &PayrollService,
        organization_id: EntityId,
        payroll_id: EntityId,
        params: CreateJobParams,
    ) -> (r: AppResult<Job>)
        requires
            old(self).wf(),
            payrolls.wf(),
        ensures
            final(self).wf(),
            payrolls.find(organization_id, payroll_id) is None ==> is_not_found(r),
            payrolls.find(organization_id, payroll_id) is Some && !(text_ok(params.job_title@)
                && params.salary > 0) ==> is_validation(r),
            r is Err ==> final(self)@ == old(self)@,
            r is Err && payrolls.find(organization_id, payroll_id) is Some && text_ok(
                params.job_title@,
            ) && params.salary > 0 ==> is_database(r),
            r is Err && payrolls.find(organization_id, payroll_id) is Some && text_ok(
                params.job_title@,
            ) && params.salary > 0 ==> old(self)@.len() > 0,
            r is Ok ==> {
                let j = r->Ok_0;
                &&& j.id.value != 0
                &&& j.job_title@ == trim_of(params.job_title@)
                &&& j.salary == params.salary
                &&& j.payroll_id == payroll_id
                &&& !has_key(old(self)@, j.id.value)
                &&& final(self)@ == old(self)@.push(j)
            },
    {
        let id = EntityId::generate();
        self.create_with_id(payrolls, organization_id, payroll_id, id, params)
    }

    /// Creates a job under the given identifier.
    pub fn create_with_id(
        &mut self,
        payrolls: &PayrollService,
        organization_id: EntityId,
        payroll_id: EntityId,
        id: EntityId,
        params: CreateJobParams,
    ) -> (r: AppResult<Job>)
        requires
            old(self).wf(),
            payrolls.wf(),
        ensures
            final(self).wf(),
            r is Err ==> final(self)@ == old(self)@,
            payrolls.find(organization_id, payroll_id) is None ==> is_not_found(r),
            payrolls.find(organization_id, payroll_id) is Some && !(text_ok(params.job_title@)
                && params.salary > 0) ==> is_validation(r),
            payrolls.find(organization_id, payroll_id) is Some && text_ok(params.job_title@)
                && params.salary > 0 && has_key(old(self)@, id.value) ==> is_database(r),
            payrolls.find(organization_id, payroll_id) is Some && text_ok(params.job_title@)
                && params.salary > 0 && !has_key(old(self)@, id.value) ==> {
                let j = r->Ok_0;
                &&& r is Ok
                &&& j.id == id
                &&& j.job_title@ == trim_of(params.job_title@)
                &&& j.salary == params.salary
                &&& j.payroll_id == payroll_id
                &&& final(self)@ == old(self)@.push(j)
            },
    {
        payrolls.ensure_belongs_to_organization(organization_id, payroll_id)?;
        let job_title = normalize_field(params.job_title.as_str(), "job title")?;
        let salary = validate_salary(params.salary)?;
        self.repository.insert(Job::new(id, job_title, salary, payroll_id))
    }

    /// The job, if the payroll belongs to the organization and the job to the payroll.
    pub fn get(
        &self,
        payrolls: &PayrollService,
        organization_id: EntityId,
        payroll_id: EntityId,
        job_id: EntityId,
    ) -> (r: AppResult<Option<Job>>)
        requires
            self.wf(),
            payrolls.wf(),
        ensures
            payrolls.find(organization_id, payroll_id) is None ==> is_not_found(r),
            payrolls.find(organization_id, payroll_id) is Some ==> r == Ok::<Option<Job>, AppError>(
                self.find(payroll_id, job_id),
            ),
    {
        payrolls.ensure_belongs_to_organization(organization_id, payroll_id)?;
        Ok(self.repository.fetch_in_scope(job_id, (payroll_id, EntityId::nil())))
    }

    /// The jobs of the payroll, by title.
    pub fn list(&self, payrolls: &PayrollService, organization_id: EntityId, payroll_id: EntityId)
        -> (r: AppResult<Vec<Job>>)
        requires
            self.wf(),
            payrolls.wf(),
        ensures
            payrolls.find(organization_id, payroll_id) is None ==> is_not_found(r),
            payrolls.find(organization_id, payroll_id) is Some ==> r is Ok && listed(
                self@,
                job_scope(payroll_id),
                r->Ok_0@,
            ),
    {
        payrolls.ensure_belongs_to_organization(organization_id, payroll_id)?;
        Ok(self.repository.select((payroll_id, EntityId::nil())))
    }

    pub fn update(
        &mut self,
        payrolls: &PayrollService,
        organization_id: EntityId,
        payroll_id: EntityId,
        job_id: EntityId,
        params: UpdateJobParams,
    ) -> (r: AppResult<Option<Job>>)
        requires
            old(self).wf(),
            payrolls.wf(),
        ensures
            final(self).wf(),
            r is Err || r == Ok::<Option<Job>, AppError>(None) ==> final(self)@ == old(self)@,
            params.is_empty() ==> is_validation(r),
            !params.is_empty() && payrolls.find(organization_id, payroll_id) is None
                ==> is_not_found(r),
            !params.is_empty() && payrolls.find(organization_id, payroll_id) is Some && old(
                self,
            ).find(payroll_id, job_id) is None ==> r == Ok::<Option<Job>, AppError>(None),
            !params.is_empty() && payrolls.find(organization_id, payroll_id) is Some && old(
                self,
            ).find(payroll_id, job_id) is Some && !params.fields_ok() ==> is_validation(r),
            !params.is_empty() && payrolls.find(organization_id, payroll_id) is Some && old(
                self,
            ).find(payroll_id, job_id) is Some && params.fields_ok() ==> {
                let before = old(self).find(payroll_id, job_id)->0;
                let after = r->Ok_0->0;
                &&& r is Ok && r->Ok_0 is Some
                &&& after.id == job_id
                &&& after.job_title@ == patched_text(params.job_title, before.job_title@)
                &&& after.salary == (if params.salary is Some {
                    params.salary->0
                } else {
                    before.salary
                })
                &&& after.payroll_id == before.payroll_id
                &&& final(self)@ == old(self)@.update(index_of(old(self)@, job_id.value), after)
            },
    {
        if params.job_title.is_none() && params.salary.is_none() {
            return Err(AppError::validation("no fields supplied for update"));
        }
        payrolls.ensure_belongs_to_organization(organization_id, payroll_id)?;
        let current = match self.repository.fetch_in_scope(job_id, (payroll_id, EntityId::nil())) {
            Some(j) => j,
            None => return Ok(None),
        };
        let job_title = normalize_optional(&params.job_title, "job title")?;
        let salary = match params.salary {
            Some(s) => validate_salary(s)?,
            None => current.salary,
        };
        let updated = Job {
            id: current.id,
            job_title: match job_title {
                Some(t) => t,
                None => current.job_title,
            },
            salary,
            payroll_id: current.payroll_id,
        };
        self.repository.replace(updated.duplicate());
        Ok(Some(updated))
    }

    /// Removes a job of the payroll; tells whether there was one.
    pub fn delete(
        &mut self,
        payrolls: &PayrollService,
        organization_id: EntityId,
        payroll_id: EntityId,
        job_id: EntityId,
    ) -> (r: AppResult<bool>)
        requires
            old(self).wf(),
            payrolls.wf(),
        ensures
            final(self).wf(),
            payrolls.find(organization_id, payroll_id) is None ==> is_not_found(r),
            payrolls.find(organization_id, payroll_id) is Some ==> r == Ok::<bool, AppError>(
                old(self).find(payroll_id, job_id) is Some,
            ),
            r == Ok::<bool, AppError>(true) ==> final(self)@ == old(self)@.remove(
                index_of(old(self)@, job_id.value),
            ),
            r != Ok::<bool, AppError>(true) ==> final(self)@ == old(self)@,
    {
        payrolls.ensure_belongs_to_organization(organization_id, payroll_id)?;
        if self.repository.fetch_in_scope(job_id, (payroll_id, EntityId::nil())).is_none() {
            return Ok(false);
        }
        Ok(self.repository.remove(job_id))
    }
}

} // verus!
