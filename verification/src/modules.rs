use vstd::prelude::*;

pub mod draw;
pub mod gameplay;

verus! {

/// Window and runtime configuration, read once at startup to create the
/// rendering surface; not mutable at runtime in this core.
#[derive(Clone)]
pub struct WindowOptions {
    pub width: u32,
    pub height: u32,
    pub title: String,
}

/// Host-supplied game state handed to every module. The core only asks it
/// for the window configuration.
pub trait GameState {
    fn window_options(&self) -> WindowOptions;
}

impl GameState for WindowOptions {
    fn window_options(&self) -> WindowOptions {
        self.clone()
    }
}

/// A pluggable subsystem driven through the four frame phases, each
/// optional. A module sees the host-side game state, the input tracker and
/// the draw queue, and the current frame number; the entity registry, the
/// time source and the hook journal stay with the core. A phase may ask
/// for termination by returning the failure that the frame boundary
/// classifies.
pub trait EngineModule<G> where G: GameState {
    fn init(&mut self, game_state: &mut G) -> Result<(), crate::engine::UpdateError> {
        Ok(())
    }

    fn pre_update(
        &mut self,
        game_state: &mut G,
        input: &mut crate::modules::gameplay::input::InputInner,
        draw: &mut crate::modules::draw::queue::DrawQueueInner,
        frame: u64,
    ) -> Result<(), crate::engine::UpdateError> {
        Ok(())
    }

    fn update(
        &mut self,
        game_state: &mut G,
        input: &mut crate::modules::gameplay::input::InputInner,
        draw: &mut crate::modules::draw::queue::DrawQueueInner,
        frame: u64,
    ) -> Result<(), crate::engine::UpdateError> {
        Ok(())
    }

    fn post_update(
        &mut self,
        game_state: &mut G,
        input: &mut crate::modules::gameplay::input::InputInner,
        draw: &mut crate::modules::draw::queue::DrawQueueInner,
        frame: u64,
    ) -> Result<(), crate::engine::UpdateError> {
        Ok(())
    }
}

} // verus!
