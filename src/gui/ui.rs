//! The standalone uploader's screens and the background work they wait on.
use vstd::prelude::*;

use crate::app_data::lock_recovering;
use crate::gui::config::Config;

verus! {

/// Relies on `Option::take` through the guard's `DerefMut`: the value in the
/// locked slot is moved out, leaving nothing.
#[verifier::external_body]
fn take_locked<R>(guard: &mut std::sync::MutexGuard<'_, Option<R>>) -> Option<R> {
    guard.take()
}

/// The slot that a worker puts its result into.
pub type Shared<T, E> = std::sync::Arc<std::sync::Mutex<Option<Result<T, E>>>>;

/// The result of work running elsewhere, read at most once.
#[verifier::reject_recursive_types(T)]
#[verifier::reject_recursive_types(E)]
pub struct AsyncTask<T, E> {
    result: std::sync::Arc<std::sync::Mutex<Option<Result<T, E>>>>,
    taken: bool,
}

impl<T, E> AsyncTask<T, E> {
    pub closed spec fn spec_taken(self) -> bool {
        self.taken
    }

    /// A task whose worker puts its result into `result` when it is done.
    pub fn from_shared(result: std::sync::Arc<std::sync::Mutex<Option<Result<T, E>>>>) -> (t:
        AsyncTask<T, E>)
        ensures
            !t.spec_taken(),
    {
        AsyncTask { result, taken: false }
    }

    /// A task that has already ended with `result`.
    pub fn finished(result: Result<T, E>) -> (t: AsyncTask<T, E>)
        ensures
            !t.spec_taken(),
    {
        AsyncTask {
            result: std::sync::Arc::new(std::sync::Mutex::new(Some(result))),
            taken: false,
        }
    }

    /// Whether the result has been read.
    pub fn is_taken(&self) -> (b: bool)
        ensures
            b == self.spec_taken(),
    {
        self.taken
    }

    /// The result, the first time it is there; `None` while the work runs.
    pub fn seek(&mut self) -> (r: Option<Result<T, E>>)
        requires
            !old(self).spec_taken(),
        ensures
            final(self).spec_taken() == r is Some,
    {
        let mut guard = lock_recovering(&*self.result);
        let r = take_locked(&mut guard);
        if r.is_some() {
            self.taken = true;
        }
        r
    }
}

pub enum GuiState {
    Init,
    Uploading(AsyncTask<(), String>),
    Uploaded,
    Config(Config, bool),
    Login { user_name: String, password: String, task: AsyncTask<String, String> },
    Error(String),
}

impl GuiState {
    /// A task that the state waits on has not been read yet.
    pub open spec fn wf(self) -> bool {
        match self {
            GuiState::Uploading(t) => !t.spec_taken(),
            GuiState::Login { task, .. } => !task.spec_taken(),
            _ => true,
        }
    }

    /// From the start screen, starts uploading the file at `path` with
    /// `vrchat_api_key`: `spawn` starts the work and hands back the slot its
    /// result will be put in. On any other screen nothing happens and `spawn`
    /// is not called.
    pub fn upload<F>(&mut self, path: &str, vrchat_api_key: String, spawn: F)
        where F: FnOnce(String, String) -> Shared<(), String>
        requires
            old(self).wf(),
            forall|p: String, k: String| spawn.requires((p, k)),
        ensures
            final(self).wf(),
            *old(self) is Init ==> *final(self) is Uploading,
            !(*old(self) is Init) ==> *final(self) == *old(self),
    {
        match self {
            GuiState::Init => {},
            _ => {
                return ;
            },
        }
        let slot = spawn(String::from_str(path), vrchat_api_key);
        *self = GuiState::Uploading(AsyncTask::from_shared(slot));
    }

    /// Opens the settings screen on `config`, not yet saved.
    pub fn config(&mut self, config: Config)
        ensures
            *final(self) == GuiState::Config(config, false),
    {
        *self = GuiState::Config(config, false);
    }

    /// From the start screen, opens the login screen with empty fields; on
    /// any other screen nothing happens.
    pub fn login(&mut self)
        requires
            old(self).wf(),
        ensures
            final(self).wf(),
            *old(self) is Init ==> (*final(self) matches GuiState::Login { user_name, password, .. }
                && user_name@.len() == 0 && password@.len() == 0),
            !(*old(self) is Init) ==> *final(self) == *old(self),
    {
        match self {
            GuiState::Init => {},
            _ => {
                return ;
            },
        }
        *self = GuiState::Login {
            user_name: String::new(),
            password: String::new(),
            task: AsyncTask::finished(Err(String::from_str("Not started"))),
        };
    }

    /// Reads the result of the work that the screen waits on, if it is
    /// there: an upload that succeeded shows its confirmation, a login that
    /// succeeded goes back to the start screen, and a failure shows its
    /// message. Other screens are left as they are.
    pub fn poll(&mut self)
        requires
            old(self).wf(),
        ensures
            final(self).wf(),
            *old(self) is Uploading ==> (*final(self) is Uploading || *final(self) is Uploaded
                || *final(self) is Error),
            *old(self) is Login ==> (*final(self) is Login || *final(self) is Init
                || *final(self) is Error),
            !(*old(self) is Uploading) && !(*old(self) is Login) ==> *final(self) == *old(self),
    {
        let next = match self {
            GuiState::Uploading(task) => match task.seek() {
                Some(Ok(_)) => Some(GuiState::Uploaded),
                Some(Err(e)) => Some(GuiState::Error(e)),
                None => None,
            },
            GuiState::Login { task, .. } => match task.seek() {
                Some(Ok(_)) => Some(GuiState::Init),
                Some(Err(e)) => Some(GuiState::Error(e)),
                None => None,
            },
            _ => None,
        };
        match next {
            Some(state) => {
                *self = state;
            },
            None => {},
        }
    }

    /// On the login screen, starts signing in with the names typed: `spawn`
    /// starts the work and hands back the slot its result will be put in.
    /// On any other screen nothing happens and `spawn` is not called.
    pub fn start_login<F>(&mut self, spawn: F)
        where F: FnOnce(String, String) -> Shared<String, String>
        requires
            old(self).wf(),
            forall|u: String, p: String| spawn.requires((u, p)),
        ensures
            final(self).wf(),
            *old(self) is Login ==> *final(self) is Login,
            !(*old(self) is Login) ==> *final(self) == *old(self),
    {
        match self {
            GuiState::Login { user_name, password, task } => {
                let slot = spawn(user_name.clone(), password.clone());
                *task = AsyncTask::from_shared(slot);
            },
            _ => {},
        }
    }
}

pub struct Gui {
    state: GuiState,
    config: Config,
}

impl Gui {
    pub closed spec fn spec_state(self) -> GuiState {
        self.state
    }

    pub closed spec fn spec_config(self) -> Config {
        self.config
    }

    pub open spec fn wf(self) -> bool {
        self.spec_state().wf()
    }

    /// The start screen, with the settings `config`.
    pub fn with_config(config: Config) -> (g: Gui)
        ensures
            g.wf(),
            g.spec_state() is Init,
            g.spec_config() == config,
    {
        Gui { state: GuiState::Init, config }
    }

    pub fn state(&self) -> (s: &GuiState)
        ensures
            *s == self.spec_state(),
    {
        &self.state
    }

    /// The settings in use.
    pub fn current_config(&self) -> (c: &Config)
        ensures
            *c == self.spec_config(),
    {
        &self.config
    }

    /// From the start screen, uploads the file at `path` with the API key of
    /// the settings; without a key, shows an error instead.
    pub fn upload<F>(&mut self, path: &str, spawn: F)
        where F: FnOnce(String, String) -> Shared<(), String>
        requires
            old(self).wf(),
            forall|p: String, k: String| spawn.requires((p, k)),
        ensures
            final(self).wf(),
            final(self).spec_config() == old(self).spec_config(),
            old(self).spec_config().spec_vrchat_api_key() is None ==> final(self).spec_state() is Error,
            old(self).spec_config().spec_vrchat_api_key() is Some && old(self).spec_state() is Init
                ==> final(self).spec_state() is Uploading,
            old(self).spec_config().spec_vrchat_api_key() is Some && !(old(self).spec_state() is Init) ==> final(self).spec_state() == old(self).spec_state(),
    {
        match self.config.get_vrchat_api_key() {
            None => {
                self.error(String::from_str("VRChat API Key is not set in config."));
            },
            Some(key) => {
                let key = String::from_str(key);
                self.state.upload(path, key, spawn);
            },
        }
    }

    /// Opens the settings screen on a copy of the settings in use.
    pub fn config(&mut self)
        ensures
            final(self).spec_config() == old(self).spec_config(),
            final(self).spec_state() matches GuiState::Config(c, saved) && !saved
                && c.spec_version() == old(self).spec_config().spec_version()
                && c.spec_vrchat_api_key() == old(self).spec_config().spec_vrchat_api_key(),
            final(self).wf(),
    {
        let copy = self.config.duplicate();
        self.state.config(copy);
    }

    /// From the start screen, opens the login screen.
    pub fn login(&mut self)
        requires
            old(self).wf(),
        ensures
            final(self).wf(),
            final(self).spec_config() == old(self).spec_config(),
            old(self).spec_state() is Init ==> final(self).spec_state() is Login,
            !(old(self).spec_state() is Init) ==> final(self).spec_state() == old(self).spec_state(),
    {
        self.state.login();
    }

    /// Shows the error `msg`.
    pub fn error(&mut self, msg: String)
        ensures
            final(self).wf(),
            final(self).spec_config() == old(self).spec_config(),
            final(self).spec_state() == GuiState::Error(msg),
    {
        self.state = GuiState::Error(msg);
    }

    /// On the settings screen, replaces the API key being edited.
    pub fn edit_api_key(&mut self, api_key: String)
        requires
            old(self).wf(),
        ensures
            final(self).wf(),
            final(self).spec_config() == old(self).spec_config(),
            old(self).spec_state() matches GuiState::Config(_, saved) ==> (final(self).spec_state() matches GuiState::Config(c, s) && s == saved
                && c.spec_vrchat_api_key() == Some(api_key@)),
            !(old(self).spec_state() is Config) ==> final(self).spec_state() == old(self).spec_state(),
    {
        match &mut self.state {
            GuiState::Config(c, _) => {
                c.set_vrchat_api_key(api_key);
            },
            _ => {},
        }
    }

    /// On the login screen, replaces the names being typed.
    pub fn edit_login(&mut self, user_name: String, password: String)
        requires
            old(self).wf(),
        ensures
            final(self).wf(),
            final(self).spec_config() == old(self).spec_config(),
            old(self).spec_state() is Login ==> (final(self).spec_state() matches GuiState::Login {
                user_name: u,
                password: p,
                ..
            } && u@ == user_name@ && p@ == password@),
            !(old(self).spec_state() is Login) ==> final(self).spec_state() == old(
                self).spec_state(),
    {
        match &mut self.state {
            GuiState::Login { user_name: u, password: p, .. } => {
                *u = user_name;
                *p = password;
            },
            _ => {},
        }
    }

    /// On the login screen, starts signing in; see `GuiState::start_login`.
    pub fn start_login<F>(&mut self, spawn: F)
        where F: FnOnce(String, String) -> Shared<String, String>
        requires
            old(self).wf(),
            forall|u: String, p: String| spawn.requires((u, p)),
        ensures
            final(self).wf(),
            final(self).spec_config() == old(self).spec_config(),
            old(self).spec_state() is Login ==> final(self).spec_state() is Login,
            !(old(self).spec_state() is Login) ==> final(self).spec_state() == old(
                self).spec_state(),
    {
        self.state.start_login(spawn);
    }

    /// On the settings screen, once the edited settings were written: they
    /// become the settings in use, and the screen says they are saved.
    pub fn config_saved(&mut self)
        requires
            old(self).wf(),
        ensures
            final(self).wf(),
            old(self).spec_state() matches GuiState::Config(c, _) ==> (final(self).spec_state() matches GuiState::Config(d, saved) && saved && d == c
                && final(self).spec_config().spec_vrchat_api_key() == c.spec_vrchat_api_key()
                && final(self).spec_config().spec_version() == c.spec_version()),
            !(old(self).spec_state() is Config) ==> *final(self) == *old(self),
    {
        match &mut self.state {
            GuiState::Config(c, saved) => {
                self.config = c.duplicate();
                *saved = true;
            },
            _ => {},
        }
    }

    /// Reads the result of the work that the screen waits on; see
    /// `GuiState::poll`.
    pub fn poll(&mut self)
        requires
            old(self).wf(),
        ensures
            final(self).wf(),
            final(self).spec_config() == old(self).spec_config(),
    {
        self.state.poll();
    }
}

} // verus!
