use vstd::prelude::*;

use crate::game_model::ApiError;
use crate::routes::Route;

verus! {

/// Number of characters in a game id.
pub const GAME_ID_LEN: usize = 24;

/// An event for the menu.
pub enum MenuMsg {
    /// The game id field was edited.
    Input(String),
    /// Play was pressed.
    Submit,
    SubmitResponse(Result<(), ApiError>),
}

/// What the menu asks its runner to do after an event.
pub enum MenuAction {
    Nothing,
    /// Ask the server to join the game with this id.
    JoinGame(String),
    Navigate(Route),
}

/// The menu: create a game, or join one by its id.
pub struct Menu {
    game_id: String,
    toast_msg: Option<String>,
}

impl Menu {
    pub closed spec fn spec_game_id(&self) -> Seq<char> {
        self.game_id@
    }

    pub closed spec fn toast(&self) -> Option<Seq<char>> {
        match self.toast_msg {
            Some(t) => Some(t@),
            None => None,
        }
    }

    /// A menu with an empty game id.
    pub fn create() -> (r: Self)
        ensures
            r.spec_game_id() == Seq::<char>::empty(),
            r.toast() is None,
    {
        Menu { game_id: String::new(), toast_msg: None }
    }

    /// Handles one event and says whether the view changed and what to do next.
    pub fn update(&mut self, msg: MenuMsg) -> (r: (bool, MenuAction))
        ensures
            match msg {
                MenuMsg::Input(s) => {
                    &&& final(self).spec_game_id() == s@
                    &&& final(self).toast() == old(self).toast()
                    &&& !r.0
                    &&& r.1 is Nothing
                },
                MenuMsg::Submit => {
                    &&& final(self).spec_game_id() == old(self).spec_game_id()
                    &&& r.0
                    &&& old(self).spec_game_id().len() == GAME_ID_LEN ==> {
                        &&& final(self).toast() == old(self).toast()
                        &&& r.1 matches MenuAction::JoinGame(id) && id@ == old(self).spec_game_id()
                    }
                    &&& old(self).spec_game_id().len() != GAME_ID_LEN ==> {
                        &&& final(self).toast() == Some("Game ID must be 24 characters long"@)
                        &&& r.1 is Nothing
                    }
                },
                MenuMsg::SubmitResponse(Ok(_)) => {
                    &&& final(self).spec_game_id() == old(self).spec_game_id()
                    &&& final(self).toast() == old(self).toast()
                    &&& !r.0
                    &&& r.1 matches MenuAction::Navigate(Route::Play { game_id }) && game_id@
                        == old(self).spec_game_id()
                },
                MenuMsg::SubmitResponse(Err(_)) => {
                    &&& final(self).spec_game_id() == old(self).spec_game_id()
                    &&& final(self).toast() == Some("Error joining the game"@)
                    &&& !r.0
                    &&& r.1 is Nothing
                },
            },
    {
        match msg {
            MenuMsg::Input(s) => {
                self.game_id = s;
                (false, MenuAction::Nothing)
            },
            MenuMsg::Submit => {
                if self.game_id.as_str().unicode_len() == GAME_ID_LEN {
                    (true, MenuAction::JoinGame(self.game_id.clone()))
                } else {
                    self.toast_msg = Some("Game ID must be 24 characters long".to_owned());
                    (true, MenuAction::Nothing)
                }
            },
            MenuMsg::SubmitResponse(Ok(_)) => {
                (false, MenuAction::Navigate(Route::Play { game_id: self.game_id.clone() }))
            },
            MenuMsg::SubmitResponse(Err(_)) => {
                self.toast_msg = Some("Error joining the game".to_owned());
                (false, MenuAction::Nothing)
            },
        }
    }

    pub fn game_id(&self) -> (r: &String)
        ensures
            r@ == self.spec_game_id(),
    {
        &self.game_id
    }

    pub fn toast_msg(&self) -> (r: &Option<String>)
        ensures
            match *r {
                Some(t) => self.toast() == Some(t@),
                None => self.toast() is None,
            },
    {
        &self.toast_msg
    }
}

} // verus!
