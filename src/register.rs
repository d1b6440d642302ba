use vstd::prelude::*;

use crate::game_model::ApiError;
use crate::keyboard::{key_letter, KeyboardMsg};
use crate::routes::Route;
use crate::strings::string_of;
use crate::user_model::CreateUserIdRequest;

verus! {

/// Letters a name may hold before further letters are ignored, less one: a letter is
/// added while the name has at most this many.
pub const MAX_NAME_LEN: usize = 20;

/// An event for the registration screen.
pub enum RegisterMsg {
    KeyboardInput(KeyboardMsg),
    RegisterUserResponse(Result<(), ApiError>),
}

/// What the registration screen asks its runner to do after an event.
pub enum RegisterAction {
    Nothing,
    /// Ask the server for a user id under this name.
    RegisterUser(CreateUserIdRequest),
    Navigate(Route),
}

/// The registration screen takes no properties.
#[derive(Clone, Copy, Debug, PartialEq, Eq, Structural)]
pub struct RegisterProps;

/// The screen on which a player types their name.
pub struct Register {
    user_name: Vec<char>,
    toast_msg: Option<String>,
}

/// The text shown in place of an empty name.
pub open spec fn prompt() -> Seq<char> {
    seq!['E', 'n', 't', 'e', 'r', ' ', 'n', 'a', 'm', 'e']
}

fn prompt_chars() -> (r: Vec<char>)
    ensures
        r@ == prompt(),
{
    let r = vec!['E', 'n', 't', 'e', 'r', ' ', 'n', 'a', 'm', 'e'];
    assert(r@ =~= prompt());
    r
}

fn same_chars(a: &Vec<char>, b: &Vec<char>) -> (r: bool)
    ensures
        r == (a@ == b@),
{
    if a.len() != b.len() {
        return false;
    }
    let mut i: usize = 0;
    while i < a.len()
        invariant
            i <= a@.len(),
            a@.len() == b@.len(),
            forall|j: int| 0 <= j < i ==> a@[j] == b@[j],
        decreases a@.len() - i,
    {
        if a[i] != b[i] {
            return false;
        }
        i = i + 1;
    }
    assert(a@ =~= b@);
    true
}

/// The name as typed: nothing while the prompt shows.
pub open spec fn typed_name(shown: Seq<char>) -> Seq<char> {
    if shown == prompt() {
        Seq::empty()
    } else {
        shown
    }
}

/// What shows after a key: backspace on one letter or none brings the prompt back;
/// enter on an empty name too; a letter is added while the name has at most
/// `MAX_NAME_LEN` letters.
pub open spec fn shown_after_key(shown: Seq<char>, k: KeyboardMsg) -> Seq<char> {
    let name = typed_name(shown);
    match k {
        KeyboardMsg::Backspace => if name.len() <= 1 {
            prompt()
        } else {
            name.drop_last()
        },
        KeyboardMsg::Enter => if name.len() > 0 {
            name
        } else {
            prompt()
        },
        _ => if name.len() <= MAX_NAME_LEN {
            name.push(key_letter(k)->0)
        } else {
            name
        },
    }
}

impl Register {
    pub closed spec fn shown(&self) -> Seq<char> {
        self.user_name@
    }

    pub closed spec fn toast(&self) -> Option<Seq<char>> {
        match self.toast_msg {
            Some(t) => Some(t@),
            None => None,
        }
    }

    /// A registration screen showing the prompt and a greeting toast.
    pub fn create() -> (r: Self)
        ensures
            r.shown() == prompt(),
            r.toast() == Some("Please register to begin"@),
    {
        Register { user_name: prompt_chars(), toast_msg: Some("Please register to begin".to_owned()) }
    }

    /// Handles one key of the keyboard.
    fn keydown_handler(&mut self, msg: KeyboardMsg) -> (r: (bool, RegisterAction))
        ensures
            final(self).shown() == shown_after_key(old(self).shown(), msg),
            final(self).toast() == old(self).toast(),
            r.0 == !(msg == KeyboardMsg::Enter && typed_name(old(self).shown()).len() == 0),
            (msg == KeyboardMsg::Enter && typed_name(old(self).shown()).len() > 0) ==> (r.1 matches RegisterAction::RegisterUser(req)
                && req.name@ == typed_name(old(self).shown())),
            !(msg == KeyboardMsg::Enter && typed_name(old(self).shown()).len() > 0) ==> r.1 is Nothing,
    {
        let prompt_now = prompt_chars();
        if same_chars(&self.user_name, &prompt_now) {
            self.user_name.clear();
        }
        assert(self.user_name@ =~= typed_name(old(self).shown()));
        match msg {
            KeyboardMsg::Backspace => {
                if self.user_name.len() <= 1 {
                    self.user_name = prompt_chars();
                } else {
                    self.user_name.pop();
                }
                (true, RegisterAction::Nothing)
            },
            KeyboardMsg::Enter => {
                if self.user_name.len() > 0 {
                    let name = string_of(&self.user_name);
                    (true, RegisterAction::RegisterUser(CreateUserIdRequest { name }))
                } else {
                    self.user_name = prompt_chars();
                    (false, RegisterAction::Nothing)
                }
            },
            k => {
                if self.user_name.len() <= MAX_NAME_LEN {
                    let ch = match k.letter() {
                        Some(ch) => ch,
                        None => 'A',
                    };
                    self.user_name.push(ch);
                }
                (true, RegisterAction::Nothing)
            },
        }
    }

    /// Handles one event and says whether the view changed and what to do next.
    pub fn update(&mut self, msg: RegisterMsg) -> (r: (bool, RegisterAction))
        ensures
            match msg {
                RegisterMsg::KeyboardInput(k) => {
                    &&& final(self).shown() == shown_after_key(old(self).shown(), k)
                    &&& final(self).toast() is None
                    &&& r.0 == !(k == KeyboardMsg::Enter && typed_name(old(self).shown()).len() == 0)
                    &&& (k == KeyboardMsg::Enter && typed_name(old(self).shown()).len() > 0) ==> (r.1 matches RegisterAction::RegisterUser(req)
                        && req.name@ == typed_name(old(self).shown()))
                    &&& !(k == KeyboardMsg::Enter && typed_name(old(self).shown()).len() > 0) ==> r.1 is Nothing
                },
                RegisterMsg::RegisterUserResponse(Ok(_)) => {
                    &&& final(self).shown() == old(self).shown()
                    &&& final(self).toast() == old(self).toast()
                    &&& !r.0
                    &&& r.1 matches RegisterAction::Navigate(Route::Menu)
                },
                RegisterMsg::RegisterUserResponse(Err(_)) => {
                    &&& final(self).shown() == old(self).shown()
                    &&& final(self).toast() == Some("Error registering user"@)
                    &&& r.0
                    &&& r.1 is Nothing
                },
            },
    {
        match msg {
            RegisterMsg::KeyboardInput(k) => {
                self.toast_msg = None;
                self.keydown_handler(k)
            },
            RegisterMsg::RegisterUserResponse(Ok(_)) => (false, RegisterAction::Navigate(Route::Menu)),
            RegisterMsg::RegisterUserResponse(Err(_)) => {
                self.toast_msg = Some("Error registering user".to_owned());
                (true, RegisterAction::Nothing)
            },
        }
    }

    /// The text shown as the name: the typed name, or the prompt.
    pub fn user_name(&self) -> (r: &Vec<char>)
        ensures
            r@ == self.shown(),
    {
        &self.user_name
    }

    pub fn toast_msg(&self) -> (r: &Option<String>)
        ensures
            match *r {
                Some(t) => self.toast() == Some(t@),
                None => self.toast() is None,
            },
    {
        &self.toast_msg
    }
}

} // verus!
