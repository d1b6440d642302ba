use vstd::prelude::*;

verus! {

/// The screens of the application.
#[derive(Clone, Debug)]
pub enum Route {
    Register,
    Menu,
    Create,
    Manage { game_id: String },
    Play { game_id: String },
}

} // verus!
