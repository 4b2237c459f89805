use vstd::prelude::*;

use crate::error::{is_database, is_validation, AppError, AppResult};
use crate::ids::EntityId;
use crate::table::{has_key, index_of, listed, lookup, Rank, Record, Scope, Table};
use crate::text::{compare_text, normalize_field, text_ok, trim_of, TextOrder};

verus! {

/// Root tenant of the hierarchy.
#[derive(Debug, PartialEq, Eq)]
pub struct Organization {
    pub id: EntityId,
    pub name: String,
}

impl Organization {
    pub fn new(id: EntityId, name: String) -> (r: Organization)
        ensures
            r.id == id,
            r.name == name,
    {
        Organization { id, name }
    }
}

impl Record for Organization {
    open spec fn key(&self) -> u128 {
        self.id.value
    }

    open spec fn rank(&self) -> Rank {
        (self.name@, Seq::empty())
    }

    /// Organizations have no owner: every scope holds them all.
    open spec fn in_scope(&self, scope: Scope) -> bool {
        true
    }

    fn id(&self) -> (r: EntityId) {
        self.id
    }

    fn duplicate(&self) -> (r: Self) {
        Organization { id: self.id, name: self.name.clone() }
    }

    fn ranks_before(&self, other: &Self) -> (r: bool) {
        compare_text(self.name.as_str(), other.name.as_str()) == TextOrder::Before
    }

    fn is_in_scope(&self, scope: Scope) -> (r: bool) {
        true
    }
}

#[derive(Debug)]
pub struct CreateOrganizationParams {
    pub name: String,
}

#[derive(Debug, Default)]
pub struct UpdateOrganizationParams {
    pub name: Option<String>,
}

impl UpdateOrganizationParams {
    /// No field is supplied.
    pub open spec fn is_empty(&self) -> bool {
        self.name is None
    }
}

/// The scope in which organizations are listed: they have no owner.
pub open spec fn all_organizations() -> Scope {
    (EntityId { value: 0 }, EntityId { value: 0 })
}

/// Organizations, each under its own identifier.
pub struct OrganizationService {
    repository: Table<Organization>,
}

impl View for OrganizationService {
    type V = Seq<Organization>;

    closed spec fn view(&self) -> Seq<Organization> {
        self.repository@
    }
}

impl OrganizationService {
    pub closed spec fn wf(&self) -> bool {
        self.repository.wf()
    }

    pub fn new() -> (r: OrganizationService)
        ensures
            r.wf(),
            r@ == Seq::<Organization>::empty(),
    {
        OrganizationService { repository: Table::new() }
    }

    /// Creates an organization under a freshly drawn identifier.
    pub fn create(&mut self, params: CreateOrganizationParams) -> (r: AppResult<Organization>)
        requires
            old(self).wf(),
        ensures
            final(self).wf(),
            !text_ok(params.name@) ==> is_validation(r),
            r is Err ==> final(self)@ == old(self)@,
            r is Err && text_ok(params.name@) ==> is_database(r),
            r is Err && text_ok(params.name@) ==> old(self)@.len() > 0,
            r is Ok ==> {
                let o = r->Ok_0;
                &&& o.id.value != 0
                &&& o.name@ == trim_of(params.name@)
                &&& !has_key(old(self)@, o.id.value)
                &&& final(self)@ == old(self)@.push(o)
            },
    {
        let id = EntityId::generate();
        self.create_with_id(id, params)
    }

    /// Creates an organization under the given identifier.
    pub fn create_with_id(&mut self, id: EntityId, params: CreateOrganizationParams) -> (r:
        AppResult<Organization>)
        requires
            old(self).wf(),
        ensures
            final(self).wf(),
            !text_ok(params.name@) ==> is_validation(r) && final(self)@ == old(self)@,
            text_ok(params.name@) && has_key(old(self)@, id.value) ==> is_database(r) && final(self)@ == old(self)@,
            text_ok(params.name@) && !has_key(old(self)@, id.value) ==> r is Ok && r->Ok_0.id == id
                && r->Ok_0.name@ == trim_of(params.name@) && final(self)@ == old(self)@.push(
                r->Ok_0,
            ),
    {
        let name = normalize_field(params.name.as_str(), "organization name")?;
        self.repository.insert(Organization::new(id, name))
    }

    pub fn get(&self, id: EntityId) -> (r: AppResult<Option<Organization>>)
        requires
            self.wf(),
        ensures
            r == Ok::<Option<Organization>, AppError>(lookup(self@, id.value)),
    {
        Ok(self.repository.fetch(id))
    }

    /// All organizations, by name.
    pub fn list(&self) -> (r: AppResult<Vec<Organization>>)
        requires
            self.wf(),
        ensures
            r is Ok,
            listed(self@, all_organizations(), r->Ok_0@),
    {
        Ok(self.repository.select((EntityId::nil(), EntityId::nil())))
    }

    pub fn update(&mut self, id: EntityId, params: UpdateOrganizationParams) -> (r: AppResult<
        Option<Organization>,
    >)
        requires
            old(self).wf(),
        ensures
            final(self).wf(),
            params.is_empty() ==> is_validation(r),
            params.name is Some && !text_ok(params.name->0@) ==> is_validation(r),
            r is Err ==> final(self)@ == old(self)@,
            params.name is Some && text_ok(params.name->0@) && !has_key(old(self)@, id.value) ==> r
                == Ok::<Option<Organization>, AppError>(None) && final(self)@ == old(self)@,
            params.name is Some && text_ok(params.name->0@) && has_key(old(self)@, id.value) ==> {
                &&& r is Ok && r->Ok_0 is Some
                &&& r->Ok_0->0.id == id
                &&& r->Ok_0->0.name@ == trim_of(params.name->0@)
                &&& final(self)@ == old(self)@.update(index_of(old(self)@, id.value), r->Ok_0->0)
            },
    {
        if params.name.is_none() {
            return Err(AppError::validation("no fields supplied for update"));
        }
        let name = normalize_field(params.name.as_ref().unwrap().as_str(), "organization name")?;
        let existing = self.repository.fetch(id);
        match existing {
            None => Ok(None),
            Some(current) => {
                let updated = Organization { id: current.id, name };
                let copy = updated.duplicate();
                self.repository.replace(copy);
                Ok(Some(updated))
            },
        }
    }

    /// Removes an organization; tells whether there was one.
    pub fn delete(&mut self, id: EntityId) -> (r: AppResult<bool>)
        requires
            old(self).wf(),
        ensures
            final(self).wf(),
            r == Ok::<bool, AppError>(has_key(old(self)@, id.value)),
            has_key(old(self)@, id.value) ==> final(self)@ == old(self)@.remove(
                index_of(old(self)@, id.value),
            ),
            !has_key(old(self)@, id.value) ==> final(self)@ == old(self)@,
    {
        Ok(self.repository.remove(id))
    }
}

} // verus!
