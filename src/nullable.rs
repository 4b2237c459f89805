use vstd::prelude::*;

verus! {

/// Update of a nullable field: leave it as it is, clear it, or set it.
#[derive(Debug, PartialEq, Eq)]
pub enum NullableUpdate<T> {
    Unchanged,
    Clear,
    Value(T),
}

impl<T> NullableUpdate<T> {
    /// The value the field holds after the update, given the value before.
    pub open spec fn applied_to(self, current: Option<T>) -> Option<T> {
        match self {
            NullableUpdate::Unchanged => current,
            NullableUpdate::Clear => None,
            NullableUpdate::Value(v) => Some(v),
        }
    }

    /// The update supplies the field, as a value or as null.
    pub open spec fn is_present(self) -> bool {
        !(self is Unchanged)
    }

    /// Reads a field that may be absent, null, or hold a value.
    pub fn from_nested(field: Option<Option<T>>) -> (r: NullableUpdate<T>)
        ensures
            r == match field {
                None => NullableUpdate::<T>::Unchanged,
                Some(None) => NullableUpdate::<T>::Clear,
                Some(Some(v)) => NullableUpdate::Value(v),
            },
    {
        match field {
            None => NullableUpdate::Unchanged,
            Some(None) => NullableUpdate::Clear,
            Some(Some(v)) => NullableUpdate::Value(v),
        }
    }

    pub fn is_unchanged(&self) -> (r: bool)
        ensures
            r == (*self is Unchanged),
    {
        match self {
            NullableUpdate::Unchanged => true,
            _ => false,
        }
    }
}

/// The three forms of a nullable update are told apart in what they leave:
/// an absent field keeps the stored value, a null clears it, and a value
/// replaces it.
pub proof fn lemma_nullable_update_forms<T>(current: Option<T>, value: T)
    ensures
        NullableUpdate::<T>::Unchanged.applied_to(current) == current,
        NullableUpdate::<T>::Clear.applied_to(current) == None::<T>,
        NullableUpdate::Value(value).applied_to(current) == Some(value),
        current is Some ==> NullableUpdate::<T>::Unchanged.applied_to(current)
            != NullableUpdate::<T>::Clear.applied_to(current),
        current != Some(value) ==> NullableUpdate::<T>::Unchanged.applied_to(current)
            != NullableUpdate::Value(value).applied_to(current),
        NullableUpdate::<T>::Clear.applied_to(current) != NullableUpdate::Value(value).applied_to(
            current,
        ),
{
}

} // verus!
