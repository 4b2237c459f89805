use vstd::prelude::*;

use crate::error::{is_database, is_not_found, is_validation, AppError, AppResult};
use crate::ids::EntityId;
use crate::organization::OrganizationService;
use crate::table::{has_key, index_of, listed, lookup_in_scope, Rank, Record, Scope, Table};
use crate::text::{compare_text, normalize_field, text_ok, trim_of, TextOrder};

verus! {

/// A bank known to one organization.
#[derive(Debug, PartialEq, Eq)]
pub struct Bank {
    pub id: EntityId,
    pub name: String,
    pub organization_id: EntityId,
}

impl Bank {
    pub fn new(id: EntityId, name: String, organization_id: EntityId) -> (r: Bank)
        ensures
            r.id == id,
            r.name == name,
            r.organization_id == organization_id,
    {
        Bank { id, name, organization_id }
    }
}

impl Record for Bank {
    open spec fn key(&self) -> u128 {
        self.id.value
    }

    open spec fn rank(&self) -> Rank {
        (self.name@, Seq::empty())
    }

    /// The scope names the owning organization first.
    open spec fn in_scope(&self, scope: Scope) -> bool {
        self.organization_id == scope.0
    }

    fn id(&self) -> (r: EntityId) {
        self.id
    }

    fn duplicate(&self) -> (r: Self) {
        Bank { id: self.id, name: self.name.clone(), organization_id: self.organization_id }
    }

    fn ranks_before(&self, other: &Self) -> (r: bool) {
        compare_text(self.name.as_str(), other.name.as_str()) == TextOrder::Before
    }

    fn is_in_scope(&self, scope: Scope) -> (r: bool) {
        self.organization_id == scope.0
    }
}

#[derive(Debug)]
pub struct CreateBankParams {
    pub name: String,
}

#[derive(Debug, Default)]
pub struct UpdateBankParams {
    pub name: Option<String>,
}

impl UpdateBankParams {
    /// No field is supplied.
    pub open spec fn is_empty(&self) -> bool {
        self.name is None
    }
}

/// The scope of the banks of an organization.
pub open spec fn bank_scope(organization_id: EntityId) -> Scope {
    (organization_id, EntityId { value: 0 })
}

/// Banks, each owned by an organization.
pub struct BankService {
    repository: Table<Bank>,
}

impl View for BankService {
    type V = Seq<Bank>;

    closed spec fn view(&self) -> Seq<Bank> {
        self.repository@
    }
}

impl BankService {
    pub closed spec fn wf(&self) -> bool {
        self.repository.wf()
    }

    /// The bank with the given id, if it belongs to the organization.
    pub open spec fn find(&self, organization_id: EntityId, bank_id: EntityId) -> Option<Bank> {
        lookup_in_scope(self@, bank_id.value, bank_scope(organization_id))
    }

    pub fn new() -> (r: BankService)
        ensures
            r.wf(),
            r@ == Seq::<Bank>::empty(),
    {
        BankService { repository: Table::new() }
    }

    /// Creates a bank under a freshly drawn identifier.
    pub fn create(
        &mut self,
        organizations: &OrganizationService,
        organization_id: EntityId,
        params: CreateBankParams,
    ) -> (r: AppResult<Bank>)
        requires
            old(self).wf(),
            organizations.wf(),
        ensures
            final(self).wf(),
            !text_ok(params.name@) ==> is_validation(r),
            text_ok(params.name@) && !has_key(organizations@, organization_id.value)
                ==> is_not_found(r),
            r is Err ==> final(self)@ == old(self)@,
            r is Err && text_ok(params.name@) && has_key(organizations@, organization_id.value)
                ==> is_database(r),
            r is Err && text_ok(params.name@) && has_key(organizations@, organization_id.value)
                ==> old(self)@.len() > 0,
            r is Ok ==> {
                let b = r->Ok_0;
                &&& b.id.value != 0
                &&& b.name@ == trim_of(params.name@)
                &&& b.organization_id == organization_id
                &&& !has_key(old(self)@, b.id.value)
                &&& final(self)@ == old(self)@.push(b)
            },
    {
        let id = EntityId::generate();
        self.create_with_id(organizations, organization_id, id, params)
    }

    /// Creates a bank under the given identifier.
    pub fn create_with_id(
        &mut self,
        organizations: &OrganizationService,
        organization_id: EntityId,
        id: EntityId,
        params: CreateBankParams,
    ) -> (r: AppResult<Bank>)
        requires
            old(self).wf(),
            organizations.wf(),
        ensures
            final(self).wf(),
            r is Err ==> final(self)@ == old(self)@,
            !text_ok(params.name@) ==> is_validation(r),
            text_ok(params.name@) && !has_key(organizations@, organization_id.value)
                ==> is_not_found(r),
            text_ok(params.name@) && has_key(organizations@, organization_id.value) && has_key(
                old(self)@,
                id.value,
            ) ==> is_database(r),
            text_ok(params.name@) && has_key(organizations@, organization_id.value) && !has_key(
                old(self)@,
                id.value,
            ) ==> {
                let b = r->Ok_0;
                &&& r is Ok
                &&& b.id == id
                &&& b.name@ == trim_of(params.name@)
                &&& b.organization_id == organization_id
                &&& final(self)@ == old(self)@.push(b)
            },
    {
        let name = normalize_field(params.name.as_str(), "bank name")?;
        Self::ensure_organization_exists(organizations, organization_id)?;
        self.repository.insert(Bank::new(id, name, organization_id))
    }

    /// The bank, if it exists and belongs to the organization.
    pub fn get(&self, organization_id: EntityId, bank_id: EntityId) -> (r: AppResult<Option<Bank>>)
        requires
            self.wf(),
        ensures
            r == Ok::<Option<Bank>, AppError>(self.find(organization_id, bank_id)),
    {
        Ok(self.repository.fetch_in_scope(bank_id, (organization_id, EntityId::nil())))
    }

    /// The banks of an existing organization, by name.
    pub fn list(&self, organizations: &OrganizationService, organization_id: EntityId) -> (r:
        AppResult<Vec<Bank>>)
        requires
            self.wf(),
            organizations.wf(),
        ensures
            !has_key(organizations@, organization_id.value) ==> is_not_found(r),
            has_key(organizations@, organization_id.value) ==> r is Ok && listed(
                self@,
                bank_scope(organization_id),
                r->Ok_0@,
            ),
    {
        Self::ensure_organization_exists(organizations, organization_id)?;
        Ok(self.repository.select((organization_id, EntityId::nil())))
    }

    pub fn update(&mut self, organization_id: EntityId, bank_id: EntityId, params: UpdateBankParams)
        -> (r: AppResult<Option<Bank>>)
        requires
            old(self).wf(),
        ensures
            final(self).wf(),
            r is Err || r == Ok::<Option<Bank>, AppError>(None) ==> final(self)@ == old(self)@,
            params.is_empty() ==> is_validation(r),
            !params.is_empty() && old(self).find(organization_id, bank_id) is None ==> r == Ok::<
                Option<Bank>,
                AppError,
            >(None),
            !params.is_empty() && old(self).find(organization_id, bank_id) is Some && !text_ok(
                params.name->0@,
            ) ==> is_validation(r),
            !params.is_empty() && old(self).find(organization_id, bank_id) is Some && text_ok(
                params.name->0@,
            ) ==> {
                let before = old(self).find(organization_id, bank_id)->0;
                let after = r->Ok_0->0;
                &&& r is Ok && r->Ok_0 is Some
                &&& after.id == bank_id
                &&& after.name@ == trim_of(params.name->0@)
                &&& after.organization_id == before.organization_id
                &&& final(self)@ == old(self)@.update(index_of(old(self)@, bank_id.value), after)
            },
    {
        if params.name.is_none() {
            return Err(AppError::validation("no fields supplied for update"));
        }
        let current = match self.repository.fetch_in_scope(
            bank_id,
            (organization_id, EntityId::nil()),
        ) {
            Some(b) => b,
            None => return Ok(None),
        };
        let name = normalize_field(params.name.as_ref().unwrap().as_str(), "bank name")?;
        let updated = Bank { id: current.id, name, organization_id: current.organization_id };
        self.repository.replace(updated.duplicate());
        Ok(Some(updated))
    }

    /// Removes a bank of the organization; tells whether there was one.
    pub fn delete(&mut self, organization_id: EntityId, bank_id: EntityId) -> (r: AppResult<bool>)
        requires
            old(self).wf(),
        ensures
            final(self).wf(),
            r == Ok::<bool, AppError>(old(self).find(organization_id, bank_id) is Some),
            r == Ok::<bool, AppError>(true) ==> final(self)@ == old(self)@.remove(
                index_of(old(self)@, bank_id.value),
            ),
            r != Ok::<bool, AppError>(true) ==> final(self)@ == old(self)@,
    {
        if self.repository.fetch_in_scope(bank_id, (organization_id, EntityId::nil())).is_none() {
            return Ok(false);
        }
        Ok(self.repository.remove(bank_id))
    }

    fn ensure_organization_exists(
        organizations: &OrganizationService,
        organization_id: EntityId,
    ) -> (r: AppResult<()>)
        requires
            organizations.wf(),
        ensures
            r is Ok <==> has_key(organizations@, organization_id.value),
            r is Err ==> is_not_found(r),
    {
        let found = organizations.get(organization_id)?;
        if found.is_some() {
            Ok(())
        } else {
            Err(AppError::not_found("organization not found"))
        }
    }
}

} // verus!
