use vstd::prelude::*;

use crate::error::{is_database, is_not_found, is_validation, AppError, AppResult};
use crate::ids::EntityId;
use crate::organization::OrganizationService;
use crate::table::{has_key, index_of, listed, lookup_in_scope, Rank, Record, Scope, Table};
use crate::text::{
    compare_text, normalize_field, normalize_optional, optional_text_ok, patched_text, text_ok,
    trim_of, TextOrder,
};

verus! {

/// A payroll of one organization.
#[derive(Debug, PartialEq, Eq)]
pub struct Payroll {
    pub id: EntityId,
    pub name: String,
    pub description: String,
    pub organization_id: EntityId,
}

impl Payroll {
    pub fn new(id: EntityId, name: String, description: String, organization_id: EntityId) -> (r:
        Payroll)
        ensures
            r.id == id,
            r.name == name,
            r.description == description,
            r.organization_id == organization_id,
    {
        Payroll { id, name, description, organization_id }
    }
}

impl Record for Payroll {
    open spec fn key(&self) -> u128 {
        self.id.value
    }

    open spec fn rank(&self) -> Rank {
        (self.name@, Seq::empty())
    }

    /// The scope names the owning organization first.
    open spec fn in_scope(&self, scope: Scope) -> bool {
        self.organization_id == scope.0
    }

    fn id(&self) -> (r: EntityId) {
        self.id
    }

    fn duplicate(&self) -> (r: Self) {
        Payroll {
            id: self.id,
            name: self.name.clone(),
            description: self.description.clone(),
            organization_id: self.organization_id,
        }
    }

    fn ranks_before(&self, other: &Self) -> (r: bool) {
        compare_text(self.name.as_str(), other.name.as_str()) == TextOrder::Before
    }

    fn is_in_scope(&self, scope: Scope) -> (r: bool) {
        self.organization_id == scope.0
    }
}

#[derive(Debug)]
pub struct CreatePayrollParams {
    pub name: String,
    pub description: String,
}

#[derive(Debug, Default)]
pub struct UpdatePayrollParams {
    pub name: Option<String>,
    pub description: Option<String>,
}

impl UpdatePayrollParams {
    /// No field is supplied.
    pub open spec fn is_empty(&self) -> bool {
        self.name is None && self.description is None
    }

    /// Every supplied field is acceptable.
    pub open spec fn fields_ok(&self) -> bool {
        optional_text_ok(self.name) && optional_text_ok(self.description)
    }
}

/// The scope of the payrolls of an organization.
pub open spec fn payroll_scope(organization_id: EntityId) -> Scope {
    (organization_id, EntityId { value: 0 })
}

/// Payrolls, each owned by an organization.
pub struct PayrollService {
    repository: Table<Payroll>,
}

impl View for PayrollService {
    type V = Seq<Payroll>;

    closed spec fn view(&self) -> Seq<Payroll> {
        self.repository@
    }
}

impl PayrollService {
    pub closed spec fn wf(&self) -> bool {
        self.repository.wf()
    }

    /// The payroll with the given id, if it belongs to the organization.
    pub open spec fn find(&self, organization_id: EntityId, payroll_id: EntityId) -> Option<Payroll> {
        lookup_in_scope(self@, payroll_id.value, payroll_scope(organization_id))
    }

    pub fn new() -> (r: PayrollService)
        ensures
            r.wf(),
            r@ == Seq::<Payroll>::empty(),
    {
        PayrollService { repository: Table::new() }
    }

    /// Creates a payroll under a freshly drawn identifier.
    pub fn create(
        &mut self,
        organizations: &OrganizationService,
        organization_id: EntityId,
        params: CreatePayrollParams,
    ) -> (r: AppResult<Payroll>)
        requires
            old(self).wf(),
            organizations.wf(),
        ensures
            final(self).wf(),
            !(text_ok(params.name@) && text_ok(params.description@)) ==> is_validation(r),
            text_ok(params.name@) && text_ok(params.description@) && !has_key(
                organizations@,
                organization_id.value,
            ) ==> is_not_found(r),
            r is Err ==> final(self)@ == old(self)@,
            r is Err && text_ok(params.name@) && text_ok(params.description@) && has_key(
                organizations@,
                organization_id.value,
            ) ==> is_database(r),
            r is Err && text_ok(params.name@) && text_ok(params.description@) && has_key(
                organizations@,
                organization_id.value,
            ) ==> old(self)@.len() > 0,
            r is Ok ==> {
                let p = r->Ok_0;
                &&& p.id.value != 0
                &&& p.name@ == trim_of(params.name@)
                &&& p.description@ == trim_of(params.description@)
                &&& p.organization_id == organization_id
                &&& !has_key(old(self)@, p.id.value)
                &&& final(self)@ == old(self)@.push(p)
            },
    {
        let id = EntityId::generate();
        self.create_with_id(organizations, organization_id, id, params)
    }

    /// Creates a payroll under the given identifier.
    pub fn create_with_id(
        &mut self,
        organizations: &OrganizationService,
        organization_id: EntityId,
        id: EntityId,
        params: CreatePayrollParams,
    ) -> (r: AppResult<Payroll>)
        requires
            old(self).wf(),
            organizations.wf(),
        ensures
            final(self).wf(),
            r is Err ==> final(self)@ == old(self)@,
            !(text_ok(params.name@) && text_ok(params.description@)) ==> is_validation(r),
            text_ok(params.name@) && text_ok(params.description@) && !has_key(
                organizations@,
                organization_id.value,
            ) ==> is_not_found(r),
            text_ok(params.name@) && text_ok(params.description@) && has_key(
                organizations@,
                organization_id.value,
            ) && has_key(old(self)@, id.value) ==> is_database(r),
            text_ok(params.name@) && text_ok(params.description@) && has_key(
                organizations@,
                organization_id.value,
            ) && !has_key(old(self)@, id.value) ==> {
                let p = r->Ok_0;
                &&& r is Ok
                &&& p.id == id
                &&& p.name@ == trim_of(params.name@)
                &&& p.description@ == trim_of(params.description@)
                &&& p.organization_id == organization_id
                &&& final(self)@ == old(self)@.push(p)
            },
    {
        let name = normalize_field(params.name.as_str(), "payroll name")?;
        let description = normalize_field(params.description.as_str(), "payroll description")?;
        Self::ensure_organization_exists(organizations, organization_id)?;
        self.repository.insert(Payroll::new(id, name, description, organization_id))
    }

    /// The payroll, if it exists and belongs to the organization.
    pub fn get(&self, organization_id: EntityId, payroll_id: EntityId) -> (r: AppResult<
        Option<Payroll>,
    >)
        requires
            self.wf(),
        ensures
            r == Ok::<Option<Payroll>, AppError>(self.find(organization_id, payroll_id)),
    {
        Ok(self.repository.fetch_in_scope(payroll_id, (organization_id, EntityId::nil())))
    }

    /// The payrolls of an existing organization, by name.
    pub fn list(&self, organizations: &OrganizationService, organization_id: EntityId) -> (r:
        AppResult<Vec<Payroll>>)
        requires
            self.wf(),
            organizations.wf(),
        ensures
            !has_key(organizations@, organization_id.value) ==> is_not_found(r),
            has_key(organizations@, organization_id.value) ==> r is Ok && listed(
                self@,
                payroll_scope(organization_id),
                r->Ok_0@,
            ),
    {
        Self::ensure_organization_exists(organizations, organization_id)?;
        Ok(self.repository.select((organization_id, EntityId::nil())))
    }

    pub fn update(
        &mut self,
        organizations: &OrganizationService,
        organization_id: EntityId,
        payroll_id: EntityId,
        params: UpdatePayrollParams,
    ) -> (r: AppResult<Option<Payroll>>)
        requires
            old(self).wf(),
            organizations.wf(),
        ensures
            final(self).wf(),
            r is Err || r == Ok::<Option<Payroll>, AppError>(None) ==> final(self)@ == old(self)@,
            params.is_empty() ==> is_validation(r),
            !params.is_empty() && !has_key(organizations@, organization_id.value) ==> is_not_found(
                r,
            ),
            !params.is_empty() && has_key(organizations@, organization_id.value) && old(self).find(
                organization_id,
                payroll_id,
            ) is None ==> r == Ok::<Option<Payroll>, AppError>(None),
            !params.is_empty() && has_key(organizations@, organization_id.value) && old(self).find(
                organization_id,
                payroll_id,
            ) is Some && !params.fields_ok() ==> is_validation(r),
            !params.is_empty() && has_key(organizations@, organization_id.value) && old(self).find(
                organization_id,
                payroll_id,
            ) is Some && params.fields_ok() ==> {
                let before = old(self).find(organization_id, payroll_id)->0;
                let after = r->Ok_0->0;
                &&& r is Ok && r->Ok_0 is Some
                &&& after.id == payroll_id
                &&& after.name@ == patched_text(params.name, before.name@)
                &&& after.description@ == patched_text(params.description, before.description@)
                &&& after.organization_id == before.organization_id
                &&& final(self)@ == old(self)@.update(index_of(old(self)@, payroll_id.value), after)
            },
    {
        if params.name.is_none() && params.description.is_none() {
            return Err(AppError::validation("no fields supplied for update"));
        }
        Self::ensure_organization_exists(organizations, organization_id)?;
        let current = match self.repository.fetch_in_scope(
            payroll_id,
            (organization_id, EntityId::nil()),
        ) {
            Some(p) => p,
            None => return Ok(None),
        };
        let name = normalize_optional(&params.name, "payroll name")?;
        let description = normalize_optional(&params.description, "payroll description")?;
        let updated = Payroll {
            id: current.id,
            name: match name {
                Some(n) => n,
                None => current.name,
            },
            description: match description {
                Some(d) => d,
                None => current.description,
            },
            organization_id: current.organization_id,
        };
        self.repository.replace(updated.duplicate());
        Ok(Some(updated))
    }

    /// Removes a payroll of an existing organization; tells whether there was one.
    pub fn delete(
        &mut self,
        organizations: &OrganizationService,
        organization_id: EntityId,
        payroll_id: EntityId,
    ) -> (r: AppResult<bool>)
        requires
            old(self).wf(),
            organizations.wf(),
        ensures
            final(self).wf(),
            !has_key(organizations@, organization_id.value) ==> is_not_found(r) && final(self)@
                == old(self)@,
            has_key(organizations@, organization_id.value) ==> r == Ok::<bool, AppError>(
                old(self).find(organization_id, payroll_id) is Some,
            ),
            r == Ok::<bool, AppError>(true) ==> final(self)@ == old(self)@.remove(
                index_of(old(self)@, payroll_id.value),
            ),
            r != Ok::<bool, AppError>(true) ==> final(self)@ == old(self)@,
    {
        Self::ensure_organization_exists(organizations, organization_id)?;
        if self.repository.fetch_in_scope(payroll_id, (organization_id, EntityId::nil())).is_none() {
            return Ok(false);
        }
        Ok(self.repository.remove(payroll_id))
    }

    /// Succeeds when the payroll exists and belongs to the organization;
    /// anything else is not found.
    pub fn ensure_belongs_to_organization(
        &self,
        organization_id: EntityId,
        payroll_id: EntityId,
    ) -> (r: AppResult<()>)
        requires
            self.wf(),
        ensures
            r is Ok <==> self.find(organization_id, payroll_id) is Some,
            r is Err ==> is_not_found(r),
    {
        if self.repository.fetch_in_scope(payroll_id, (organization_id, EntityId::nil())).is_some() {
            Ok(())
        } else {
            Err(AppError::not_found("payroll not found for organization"))
        }
    }

    fn ensure_organization_exists(
        organizations: &OrganizationService,
        organization_id: EntityId,
    ) -> (r: AppResult<()>)
        requires
            organizations.wf(),
        ensures
            r is Ok <==> has_key(organizations@, organization_id.value),
            r is Err ==> is_not_found(r),
    {
        let found = organizations.get(organization_id)?;
        if found.is_some() {
            Ok(())
        } else {
            Err(AppError::not_found("organization not found"))
        }
    }
}

} // verus!
