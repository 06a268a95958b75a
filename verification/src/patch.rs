use crate::error::PointercrateError;
use crate::permissions::PermissionsSet;
use vstd::prelude::*;

verus! {

/// What a partial update says of one field that can be empty.
#[derive(Debug, PartialEq, Eq)]
pub enum PatchField<T> {
    /// The update does not speak of the field: it stays as it is.
    Absent,
    /// The field is to be emptied.
    Null,
    /// The field is to hold this value.
    Value(T),
}

impl<T> PatchField<T> {
    /// What a field that holds `current` holds after the update.
    pub open spec fn spec_onto(self, current: Option<T>) -> Option<T> {
        match self {
            PatchField::Absent => current,
            PatchField::Null => None,
            PatchField::Value(value) => Some(value),
        }
    }

    #[verifier::when_used_as_spec(spec_onto)]
    pub fn onto(self, current: Option<T>) -> (field: Option<T>)
        ensures
            field == self.spec_onto(current),
    {
        match self {
            PatchField::Absent => current,
            PatchField::Null => None,
            PatchField::Value(value) => Some(value),
        }
    }
}

/// A partial update: for each field either a new value or nothing.
pub trait Patch {
    /// The capabilities of which the one who sends this update must hold at least
    /// one. They depend on the fields that the update speaks of. An update that
    /// needs none is open to everyone.
    spec fn required(&self) -> PermissionsSet;

    fn required_permissions(&self) -> (required: PermissionsSet)
        ensures
            required == self.required(),
    ;
}

/// Something that a partial update of type `P` can be applied to.
pub trait Patchable<P: Patch>: Sized {
    /// What the value is once `patch` has been applied to it, or the first thing
    /// that one of the fields of the patch is turned down for.
    spec fn patched(self, patch: P) -> Result<Self, PointercrateError>;

    /// Checks each field that `patch` speaks of and, if all of them stand up, sets
    /// them. A patch with a field that is turned down changes nothing.
    fn apply_patch(&mut self, patch: P) -> (result: Result<(), PointercrateError>)
        ensures
            match old(self).patched(patch) {
                Ok(value) => result == Ok::<(), PointercrateError>(()) && *final(self) == value,
                Err(error) => result == Err::<(), PointercrateError>(error) && *final(self) == *old(
                    self,
                ),
            },
    ;
}

} // verus!
