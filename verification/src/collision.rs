//! The collision classifier: each tick, the contact pairs the physics
//! collaborator reports for the player are classified into a ground-contact
//! signal and an at-most-one respawn request.

use vstd::prelude::*;

use crate::level::BlockKind;
use crate::player::RespawnPlayerEvent;

verus! {

/// What one tick's contact pairs amount to.
#[derive(Clone, Copy, Debug, PartialEq, Eq, Structural)]
pub struct ContactEvents {
    /// The player touches at least one ground block.
    pub ground_contact: bool,
    /// The player touches at least one hazard; one event per tick, however
    /// many hazards overlap at once.
    pub respawn: Option<RespawnPlayerEvent>,
}

/// Whether some contacted block has the given kind.
pub open spec fn spec_has_kind(kinds: Seq<BlockKind>, k: BlockKind) -> bool {
    exists|i: int| 0 <= i < kinds.len() && kinds[i] == k
}

/// What one tick's contact kinds classify to: a ground contact exactly when
/// some touched block is ground, and one respawn request exactly when some
/// touched block is a hazard.
pub open spec fn spec_classify_contacts(kinds: Seq<BlockKind>) -> ContactEvents {
    ContactEvents {
        ground_contact: spec_has_kind(kinds, BlockKind::Ground),
        respawn: if spec_has_kind(kinds, BlockKind::Hazard) {
            Some(RespawnPlayerEvent)
        } else {
            None
        },
    }
}

/// Classify the kinds of the blocks the player currently touches. A ground
/// contact is reported exactly when some touched block is ground, and one
/// respawn request exactly when some touched block is a hazard — never more
/// than one, however many hazards overlap the player at once.
pub fn classify_contacts(kinds: &Vec<BlockKind>) -> (e: ContactEvents)
    ensures
        e == spec_classify_contacts(kinds@),
        e.ground_contact <==> (exists|i: int|
            0 <= i < kinds@.len() && kinds@[i] == BlockKind::Ground),
        (e.respawn is Some) <==> (exists|i: int|
            0 <= i < kinds@.len() && kinds@[i] == BlockKind::Hazard),
{
    let mut ground_contact = false;
    let mut hazard_contact = false;
    let mut i: usize = 0;
    while i < kinds.len()
        invariant
            0 <= i <= kinds@.len(),
            ground_contact <==> (exists|j: int| 0 <= j < i && kinds@[j] == BlockKind::Ground),
            hazard_contact <==> (exists|j: int| 0 <= j < i && kinds@[j] == BlockKind::Hazard),
        decreases kinds@.len() - i,
    {
        match kinds[i] {
            BlockKind::Ground => {
                ground_contact = true;
            },
            BlockKind::Hazard => {
                hazard_contact = true;
            },
            BlockKind::Clipped => {},
        }
        i += 1;
    }
    ContactEvents {
        ground_contact,
        respawn: if hazard_contact {
            Some(RespawnPlayerEvent)
        } else {
            None
        },
    }
}

} // verus!
