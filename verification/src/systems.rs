//! The subsystem contract the frame driver composes: four independently
//! owned subsystems (physics, animation, game, AI) sharing one per-frame
//! update interface.  Their internals are external collaborators; the
//! driver only relies on the calling order, which it owns.

use vstd::prelude::*;
use crate::geometry::Position;
use crate::world::World;

verus! {

/// One independently updatable simulation component.  `dt` is the smoothed
/// frame time in milliseconds.
///
/// One-time `init` may populate the world.  Per-frame `update_world` may
/// adjust the entities it finds — positions, velocities, its own private
/// state — but the entity roster itself (which identities exist, and of
/// which kind) changes only through the frame driver's domain events, so
/// an update preserves it.
pub trait System: Sized {
    fn init(&mut self, world: &mut World)
        requires
            old(world).wf(),
        ensures
            final(world).wf(),
    ;

    fn update_world(&mut self, dt: u64, world: &mut World)
        requires
            old(world).wf(),
        ensures
            final(world).wf(),
            final(world).next_id == old(world).next_id,
            final(world).minions@.len() == old(world).minions@.len(),
            final(world).resources@.len() == old(world).resources@.len(),
            forall|i: int| 0 <= i < old(world).minions@.len()
                ==> (#[trigger] final(world).minions@[i]).id == old(world).minions@[i].id,
            forall|i: int| 0 <= i < old(world).resources@.len()
                ==> (#[trigger] final(world).resources@[i]).id == old(world).resources@[i].id,
    ;
}

/// The physics subsystem additionally has entities registered with it as
/// they are created.
pub trait Physics: System {
    fn register(&mut self, id: u64);
}

/// The AI subsystem additionally takes a steering target, which must be
/// set before its per-frame update.
pub trait Ai: System {
    fn follow_me(&mut self, target: Position);
}

} // verus!
