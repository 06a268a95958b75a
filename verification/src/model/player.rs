use crate::error::PointercrateError;
use crate::middleware::cond::{i32_bytes, text_bytes, write_i32, write_text, Canonical};
use crate::patch::{Patch, Patchable};
use crate::permissions::{Permission, PermissionsSet};
use vstd::prelude::*;

verus! {

/// Someone whose records stand on the list.
#[derive(Debug, PartialEq, Eq)]
pub struct Player {
    pub id: i32,
    pub name: String,
    pub banned: bool,
}

impl Clone for Player {
    fn clone(&self) -> (copy: Self)
        ensures
            copy == *self,
    {
        Player { id: self.id, name: self.name.clone(), banned: self.banned }
    }
}

impl Canonical for Player {
    /// A player counts as unchanged while the id, the name and the ban are the
    /// same.
    open spec fn canonical(&self) -> Seq<u8> {
        i32_bytes(self.id) + text_bytes(self.name@) + seq![if self.banned { 1u8 } else { 0u8 }]
    }

    fn canonical_bytes(&self) -> (bytes: Vec<u8>) {
        let mut bytes: Vec<u8> = Vec::new();
        write_i32(&mut bytes, self.id);
        write_text(&mut bytes, &self.name);
        bytes.push(if self.banned { 1 } else { 0 });
        assert(bytes@ =~= self.canonical());
        bytes
    }
}

/// A partial update of a player.
#[derive(Debug, PartialEq, Eq)]
pub struct PatchPlayer {
    /// Whether the player is to be banned from the list.
    pub banned: Option<bool>,
}

impl Patch for PatchPlayer {
    /// To ban a player or to lift a ban takes the capability to moderate or to
    /// administer the list.
    open spec fn required(&self) -> PermissionsSet {
        if self.banned is Some {
            PermissionsSet::of(
                Set::<Permission>::empty().insert(Permission::ListModerator).insert(
                    Permission::ListAdministrator,
                ),
            )
        } else {
            PermissionsSet::of(Set::<Permission>::empty())
        }
    }

    fn required_permissions(&self) -> (required: PermissionsSet) {
        let required = if self.banned.is_some() {
            PermissionsSet::one(Permission::ListModerator).with(Permission::ListAdministrator)
        } else {
            PermissionsSet::new()
        };
        proof {
            use_type_invariant(&required);
            required.lemma_canonical();
        }
        required
    }
}

impl Patchable<PatchPlayer> for Player {
    open spec fn patched(self, patch: PatchPlayer) -> Result<Self, PointercrateError> {
        match patch.banned {
            Some(banned) => Ok(Player { banned, ..self }),
            None => Ok(self),
        }
    }

    fn apply_patch(&mut self, patch: PatchPlayer) -> (result: Result<(), PointercrateError>) {
        match patch.banned {
            Some(banned) => {
                self.banned = banned;
            },
            None => {},
        }
        Ok(())
    }
}

} // verus!
