//! The state that the application shares between its commands: the settings
//! behind a lock, or the error that kept them from loading.
use vstd::prelude::*;

use crate::config::Config;
use crate::error::AppError;

verus! {

#[verifier::external_type_specification]
#[verifier::external_body]
#[verifier::reject_recursive_types(T)]
pub struct ExMutex<T: ?Sized>(std::sync::Mutex<T>);

#[verifier::external_type_specification]
#[verifier::external_body]
#[verifier::reject_recursive_types(T)]
pub struct ExMutexGuard<'a, T: ?Sized + 'a>(std::sync::MutexGuard<'a, T>);

/// Relies on std's `Mutex::new`, which wraps a value in an unlocked mutex.
pub assume_specification<T>[ std::sync::Mutex::<T>::new ](t: T) -> std::sync::Mutex<T>;

/// Relies on std's `Mutex::lock`, which blocks until the lock is held; a lock
/// that a panicking holder poisoned still hands out its data.
#[verifier::external_body]
pub(crate) fn lock_recovering<T>(m: &std::sync::Mutex<T>) -> std::sync::MutexGuard<'_, T> {
    match m.lock() {
        Ok(guard) => guard,
        Err(poisoned) => poisoned.into_inner(),
    }
}

/// Relies on `Arc::clone`, which hands out another handle to the same value.
#[verifier::external_body]
fn share<T>(a: &std::sync::Arc<T>) -> std::sync::Arc<T> {
    std::sync::Arc::clone(a)
}

pub struct AppData {
    config: Result<std::sync::Arc<std::sync::Mutex<Config>>, AppError>,
}

impl AppData {
    pub closed spec fn spec_is_healthy(self) -> bool {
        self.config is Ok
    }

    /// Shares `config` between commands, or keeps the error that loading it
    /// gave.
    pub fn from_config(config: Result<Config, AppError>) -> (d: AppData)
        ensures
            d.spec_is_healthy() == config is Ok,
    {
        match config {
            Ok(c) => AppData { config: Ok(std::sync::Arc::new(std::sync::Mutex::new(c))) },
            Err(e) => AppData { config: Err(e) },
        }
    }

    /// A handle to the shared settings.
    pub fn config(&self) -> std::sync::Arc<std::sync::Mutex<Config>>
        requires
            self.spec_is_healthy(),
    {
        match &self.config {
            Ok(c) => share(c),
            Err(_) => {
                assert(false);
                unreached()
            },
        }
    }

    /// The settings, locked until the guard is dropped.
    pub fn lock_config(&self) -> std::sync::MutexGuard<'_, Config>
        requires
            self.spec_is_healthy(),
    {
        match &self.config {
            Ok(c) => lock_recovering(&**c),
            Err(_) => {
                assert(false);
                unreached()
            },
        }
    }

    /// Whether the settings loaded.
    pub fn is_healthy(&self) -> (b: bool)
        ensures
            b == self.spec_is_healthy(),
    {
        self.config.is_ok()
    }
}

} // verus!
