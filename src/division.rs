use vstd::prelude::*;

use crate::error::{is_database, is_not_found, is_validation, AppError, AppResult};
use crate::ids::EntityId;
use crate::nullable::NullableUpdate;
use crate::payroll::PayrollService;
use crate::table::{has_key, index_of, listed, lookup, lookup_in_scope, Rank, Record, Scope, Table};
use crate::text::{
    compare_text, normalize_field, normalize_optional, optional_text_ok, patched_text, text_ok,
    trim_of, TextOrder,
};

verus! {

/// A division of a payroll; divisions of one payroll form a tree through
/// their parents.
#[derive(Debug, PartialEq, Eq)]
pub struct Division {
    pub id: EntityId,
    pub name: String,
    pub description: String,
    pub budget_code: String,
    pub payroll_id: EntityId,
    pub parent_division_id: Option<EntityId>,
}

impl Division {
    pub fn new(
        id: EntityId,
        name: String,
        description: String,
        budget_code: String,
        payroll_id: EntityId,
        parent_division_id: Option<EntityId>,
    ) -> (r: Division)
        ensures
            r.id == id,
            r.name == name,
            r.description == description,
            r.budget_code == budget_code,
            r.payroll_id == payroll_id,
            r.parent_division_id == parent_division_id,
    {
        Division { id, name, description, budget_code, payroll_id, parent_division_id }
    }
}

impl Record for Division {
    open spec fn key(&self) -> u128 {
        self.id.value
    }

    open spec fn rank(&self) -> Rank {
        (self.name@, Seq::empty())
    }

    /// The scope names the owning payroll first.
    open spec fn in_scope(&self, scope: Scope) -> bool {
        self.payroll_id == scope.0
    }

    fn id(&self) -> (r: EntityId) {
        self.id
    }

    fn duplicate(&self) -> (r: Self) {
        Division {
            id: self.id,
            name: self.name.clone(),
            description: self.description.clone(),
            budget_code: self.budget_code.clone(),
            payroll_id: self.payroll_id,
            parent_division_id: self.parent_division_id,
        }
    }

    fn ranks_before(&self, other: &Self) -> (r: bool) {
        compare_text(self.name.as_str(), other.name.as_str()) == TextOrder::Before
    }

    fn is_in_scope(&self, scope: Scope) -> (r: bool) {
        self.payroll_id == scope.0
    }
}

#[derive(Debug)]
pub struct CreateDivisionParams {
    pub name: String,
    pub description: String,
    pub budget_code: String,
    pub parent_division_id: Option<EntityId>,
}

impl CreateDivisionParams {
    /// Every text field is acceptable.
    pub open spec fn fields_ok(&self) -> bool {
        text_ok(self.name@) && text_ok(self.description@) && text_ok(self.budget_code@)
    }
}

#[derive(Debug)]
pub struct UpdateDivisionParams {
    pub name: Option<String>,
    pub description: Option<String>,
    pub budget_code: Option<String>,
    pub parent_division_id: NullableUpdate<EntityId>,
}

impl UpdateDivisionParams {
    /// No field is supplied.
    pub open spec fn is_empty(&self) -> bool {
        self.name is None && self.description is None && self.budget_code is None
            && self.parent_division_id is Unchanged
    }

    /// Every supplied text field is acceptable.
    pub open spec fn fields_ok(&self) -> bool {
        optional_text_ok(self.name) && optional_text_ok(self.description) && optional_text_ok(
            self.budget_code,
        )
    }
}

/// The scope of the divisions of a payroll.
pub open spec fn division_scope(payroll_id: EntityId) -> Scope {
    (payroll_id, EntityId { value: 0 })
}

/// The parent named is the division itself.
pub open spec fn is_own_parent(parent: EntityId, own: Option<EntityId>) -> bool {
    own == Some(parent)
}

/// The parent exists but belongs to another payroll.
pub open spec fn parent_elsewhere(rows: Seq<Division>, parent: EntityId, payroll_id: EntityId) -> bool {
    has_key(rows, parent.value) && lookup(rows, parent.value)->0.payroll_id != payroll_id
}

/// The parent may be set: it is not the division itself, it exists, and it
/// belongs to the same payroll.
pub open spec fn parent_acceptable(
    rows: Seq<Division>,
    parent: EntityId,
    payroll_id: EntityId,
    own: Option<EntityId>,
) -> bool {
    !is_own_parent(parent, own) && has_key(rows, parent.value) && !parent_elsewhere(
        rows,
        parent,
        payroll_id,
    )
}

/// The parent, if any, may be set.
pub open spec fn optional_parent_acceptable(
    rows: Seq<Division>,
    parent: Option<EntityId>,
    payroll_id: EntityId,
    own: Option<EntityId>,
) -> bool {
    parent is None || parent_acceptable(rows, parent->0, payroll_id, own)
}

/// How a rejected parent fails: naming itself or a parent of another payroll
/// is a validation error, a missing parent is not found.
pub open spec fn parent_rejection_ok<T>(
    rows: Seq<Division>,
    parent: EntityId,
    payroll_id: EntityId,
    own: Option<EntityId>,
    r: AppResult<T>,
) -> bool {
    &&& is_own_parent(parent, own) ==> is_validation(r)
    &&& !is_own_parent(parent, own) && !has_key(rows, parent.value) ==> is_not_found(r)
    &&& !is_own_parent(parent, own) && parent_elsewhere(rows, parent, payroll_id) ==> is_validation(r)
}

/// Divisions, each owned by a payroll.
pub struct DivisionService {
    repository: Table<Division>,
}

impl View for DivisionService {
    type V = Seq<Division>;

    closed spec fn view(&self) -> Seq<Division> {
        self.repository@
    }
}

impl DivisionService {
    pub closed spec fn wf(&self) -> bool {
        self.repository.wf()
    }

    /// The division with the given id, if it belongs to the payroll.
    pub open spec fn find(&self, payroll_id: EntityId, division_id: EntityId) -> Option<Division> {
        lookup_in_scope(self@, division_id.value, division_scope(payroll_id))
    }

    pub fn new() -> (r: DivisionService)
        ensures
            r.wf(),
            r@ == Seq::<Division>::empty(),
    {
        DivisionService { repository: Table::new() }
    }

    /// Creates a division under a freshly drawn identifier.
    pub fn create(
        &mut self,
        payrolls: &PayrollService,
        organization_id: EntityId,
        payroll_id: EntityId,
        params: CreateDivisionParams,
    ) -> (r: AppResult<Division>)
        requires
            old(self).wf(),
            payrolls.wf(),
        ensures
            final(self).wf(),
            r is Err ==> final(self)@ == old(self)@,
            !params.fields_ok() ==> is_validation(r),
            params.fields_ok() && payrolls.find(organization_id, payroll_id) is None ==> is_not_found(
                r,
            ),
            params.fields_ok() && payrolls.find(organization_id, payroll_id) is Some
                && params.parent_division_id is Some && parent_elsewhere(
                old(self)@,
                params.parent_division_id->0,
                payroll_id,
            ) ==> is_validation(r),
            params.fields_ok() && payrolls.find(organization_id, payroll_id) is Some
                && params.parent_division_id is Some && !has_key(
                old(self)@,
                params.parent_division_id->0.value,
            ) ==> is_not_found(r) || is_validation(r),
            r is Err && params.fields_ok() && payrolls.find(organization_id, payroll_id) is Some
                && optional_parent_acceptable(
                old(self)@,
                params.parent_division_id,
                payroll_id,
                None,
            ) ==> old(self)@.len() > 0,
            r is Ok ==> {
                let d = r->Ok_0;
                &&& d.id.value != 0
                &&& d.name@ == trim_of(params.name@)
                &&& d.description@ == trim_of(params.description@)
                &&& d.budget_code@ == trim_of(params.budget_code@)
                &&& d.payroll_id == payroll_id
                &&& d.parent_division_id == params.parent_division_id
                &&& optional_parent_acceptable(
                    old(self)@,
                    params.parent_division_id,
                    payroll_id,
                    Some(d.id),
                )
                &&& !has_key(old(self)@, d.id.value)
                &&& final(self)@ == old(self)@.push(d)
            },
    {
        let id = EntityId::generate();
        self.create_with_id(payrolls, organization_id, payroll_id, id, params)
    }

    /// Creates a division under the given identifier.
    pub fn create_with_id(
        &mut self,
        payrolls: &PayrollService,
        organization_id: EntityId,
        payroll_id: EntityId,
        id: EntityId,
        params: CreateDivisionParams,
    ) -> (r: AppResult<Division>)
        requires
            old(self).wf(),
            payrolls.wf(),
        ensures
            final(self).wf(),
            r is Err ==> final(self)@ == old(self)@,
            !params.fields_ok() ==> is_validation(r),
            params.fields_ok() && payrolls.find(organization_id, payroll_id) is None ==> is_not_found(
                r,
            ),
            params.fields_ok() && payrolls.find(organization_id, payroll_id) is Some
                && params.parent_division_id is Some ==> parent_rejection_ok(
                old(self)@,
                params.parent_division_id->0,
                payroll_id,
                Some(id),
                r,
            ),
            params.fields_ok() && payrolls.find(organization_id, payroll_id) is Some
                && optional_parent_acceptable(
                old(self)@,
                params.parent_division_id,
                payroll_id,
                Some(id),
            ) && has_key(old(self)@, id.value) ==> is_database(r),
            params.fields_ok() && payrolls.find(organization_id, payroll_id) is Some
                && optional_parent_acceptable(
                old(self)@,
                params.parent_division_id,
                payroll_id,
                Some(id),
            ) && !has_key(old(self)@, id.value) ==> {
                let d = r->Ok_0;
                &&& r is Ok
                &&& d.id == id
                &&& d.name@ == trim_of(params.name@)
                &&& d.description@ == trim_of(params.description@)
                &&& d.budget_code@ == trim_of(params.budget_code@)
                &&& d.payroll_id == payroll_id
                &&& d.parent_division_id == params.parent_division_id
                &&& final(self)@ == old(self)@.push(d)
            },
    {
        let name = normalize_field(params.name.as_str(), "division name")?;
        let description = normalize_field(params.description.as_str(), "division description")?;
        let budget_code = normalize_field(params.budget_code.as_str(), "division budget code")?;
        payrolls.ensure_belongs_to_organization(organization_id, payroll_id)?;
        let parent = self.validate_parent(params.parent_division_id, payroll_id, Some(id))?;
        self.repository.insert(
            Division::new(id, name, description, budget_code, payroll_id, parent),
        )
    }

    /// The division, if the payroll belongs to the organization and the
    /// division to the payroll.
    pub fn get(
        &self,
        payrolls: &PayrollService,
        organization_id: EntityId,
        payroll_id: EntityId,
        division_id: EntityId,
    ) -> (r: AppResult<Option<Division>>)
        requires
            self.wf(),
            payrolls.wf(),
        ensures
            payrolls.find(organization_id, payroll_id) is None ==> is_not_found(r),
            payrolls.find(organization_id, payroll_id) is Some ==> r == Ok::<
                Option<Division>,
                AppError,
            >(self.find(payroll_id, division_id)),
    {
        payrolls.ensure_belongs_to_organization(organization_id, payroll_id)?;
        Ok(self.repository.fetch_in_scope(division_id, (payroll_id, EntityId::nil())))
    }

    /// The divisions of the payroll, by name.
    pub fn list(&self, payrolls: &PayrollService, organization_id: EntityId, payroll_id: EntityId)
        -> (r: AppResult<Vec<Division>>)
        requires
            self.wf(),
            payrolls.wf(),
        ensures
            payrolls.find(organization_id, payroll_id) is None ==> is_not_found(r),
            payrolls.find(organization_id, payroll_id) is Some ==> r is Ok && listed(
                self@,
                division_scope(payroll_id),
                r->Ok_0@,
            ),
    {
        payrolls.ensure_belongs_to_organization(organization_id, payroll_id)?;
        Ok(self.repository.select((payroll_id, EntityId::nil())))
    }

    /// Updates the supplied fields; the parent may be kept, cleared or set.
    pub fn update(
        &mut self,
        payrolls: &PayrollService,
        organization_id: EntityId,
        payroll_id: EntityId,
        division_id: EntityId,
        params: UpdateDivisionParams,
    ) -> (r: AppResult<Option<Division>>)
        requires
            old(self).wf(),
            payrolls.wf(),
        ensures
            final(self).wf(),
            r is Err || r == Ok::<Option<Division>, AppError>(None) ==> final(self)@ == old(self)@,
            params.is_empty() ==> is_validation(r),
            !params.is_empty() && !params.fields_ok() ==> is_validation(r),
            !params.is_empty() && params.fields_ok() && payrolls.find(organization_id, payroll_id)
                is None ==> is_not_found(r),
            !params.is_empty() && params.fields_ok() && payrolls.find(organization_id, payroll_id)
                is Some && old(self).find(payroll_id, division_id) is None ==> r == Ok::<
                Option<Division>,
                AppError,
            >(None),
            !params.is_empty() && params.fields_ok() && payrolls.find(organization_id, payroll_id)
                is Some && old(self).find(payroll_id, division_id) is Some
                && params.parent_division_id is Value ==> parent_rejection_ok(
                old(self)@,
                params.parent_division_id->0,
                payroll_id,
                Some(division_id),
                r,
            ),
            !params.is_empty() && params.fields_ok() && payrolls.find(organization_id, payroll_id)
                is Some && old(self).find(payroll_id, division_id) is Some && (
            params.parent_division_id is Value ==> parent_acceptable(
                old(self)@,
                params.parent_division_id->0,
                payroll_id,
                Some(division_id),
            )) ==> {
                let before = old(self).find(payroll_id, division_id)->0;
                let after = r->Ok_0->0;
                &&& r is Ok && r->Ok_0 is Some
                &&& after.id == division_id
                &&& after.name@ == patched_text(params.name, before.name@)
                &&& after.description@ == patched_text(params.description, before.description@)
                &&& after.budget_code@ == patched_text(params.budget_code, before.budget_code@)
                &&& after.payroll_id == before.payroll_id
                &&& after.parent_division_id == params.parent_division_id.applied_to(
                    before.parent_division_id,
                )
                &&& final(self)@ == old(self)@.update(
                    index_of(old(self)@, division_id.value),
                    after,
                )
            },
    {
        if params.name.is_none() && params.description.is_none() && params.budget_code.is_none()
            && params.parent_division_id.is_unchanged() {
            return Err(AppError::validation("no fields supplied for update"));
        }
        let name = normalize_optional(&params.name, "division name")?;
        let description = normalize_optional(&params.description, "division description")?;
        let budget_code = normalize_optional(&params.budget_code, "division budget code")?;
        payrolls.ensure_belongs_to_organization(organization_id, payroll_id)?;
        let current = match self.repository.fetch_in_scope(
            division_id,
            (payroll_id, EntityId::nil()),
        ) {
            Some(d) => d,
            None => return Ok(None),
        };
        let parent = match params.parent_division_id {
            NullableUpdate::Unchanged => current.parent_division_id,
            NullableUpdate::Clear => None,
            NullableUpdate::Value(p) => self.validate_parent(Some(p), payroll_id, Some(division_id))?,
        };
        let updated = Division {
            id: current.id,
            name: match name {
                Some(v) => v,
                None => current.name,
            },
            description: match description {
                Some(v) => v,
                None => current.description,
            },
            budget_code: match budget_code {
                Some(v) => v,
                None => current.budget_code,
            },
            payroll_id: current.payroll_id,
            parent_division_id: parent,
        };
        self.repository.replace(updated.duplicate());
        Ok(Some(updated))
    }

    /// Removes a division of the payroll; tells whether there was one.
    pub fn delete(
        &mut self,
        payrolls: &PayrollService,
        organization_id: EntityId,
        payroll_id: EntityId,
        division_id: EntityId,
    ) -> (r: AppResult<bool>)
        requires
            old(self).wf(),
            payrolls.wf(),
        ensures
            final(self).wf(),
            payrolls.find(organization_id, payroll_id) is None ==> is_not_found(r),
            payrolls.find(organization_id, payroll_id) is Some ==> r == Ok::<bool, AppError>(
                old(self).find(payroll_id, division_id) is Some,
            ),
            r == Ok::<bool, AppError>(true) ==> final(self)@ == old(self)@.remove(
                index_of(old(self)@, division_id.value),
            ),
            r != Ok::<bool, AppError>(true) ==> final(self)@ == old(self)@,
    {
        payrolls.ensure_belongs_to_organization(organization_id, payroll_id)?;
        if self.repository.fetch_in_scope(division_id, (payroll_id, EntityId::nil())).is_none() {
            return Ok(false);
        }
        Ok(self.repository.remove(division_id))
    }

    /// Checks a parent for a division of the given payroll: it may not be the
    /// division itself, it must exist, and it must belong to the same payroll.
    pub fn validate_parent(
        &self,
        parent_division_id: Option<EntityId>,
        payroll_id: EntityId,
        division_id: Option<EntityId>,
    ) -> (r: AppResult<Option<EntityId>>)
        requires
            self.wf(),
        ensures
            parent_division_id is None ==> r == Ok::<Option<EntityId>, AppError>(None),
            parent_division_id is Some ==> parent_rejection_ok(
                self@,
                parent_division_id->0,
                payroll_id,
                division_id,
                r,
            ),
            r is Ok <==> optional_parent_acceptable(self@, parent_division_id, payroll_id, division_id),
            r is Ok ==> r->Ok_0 == parent_division_id,
    {
        match parent_division_id {
            None => Ok(None),
            Some(parent_id) => {
                if division_id == Some(parent_id) {
                    return Err(AppError::validation("division cannot be its own parent"));
                }
                let parent = match self.repository.fetch(parent_id) {
                    Some(p) => p,
                    None => return Err(AppError::not_found("parent division not found")),
                };
                if parent.payroll_id != payroll_id {
                    return Err(
                        AppError::validation("parent division must belong to the same payroll"),
                    );
                }
                Ok(Some(parent_id))
            },
        }
    }
}

} // verus!
