//! In-memory copy of the configuration.

use crate::config::schema::AppConfig;
use crate::error::AppError;
use std::sync::Arc;
use vstd::prelude::*;

verus! {

/// In-memory configuration: read often, replaced only once a new one has been saved.
pub struct ConfigCache {
    snapshot: Arc<AppConfig>,
}

impl View for ConfigCache {
    type V = AppConfig;

    closed spec fn view(&self) -> AppConfig {
        *self.snapshot
    }
}

impl ConfigCache {
    /// Create a cache with the given configuration.
    pub fn new(initial: AppConfig) -> (c: Self)
        ensures
            c@ == initial,
    {
        ConfigCache { snapshot: Arc::new(initial) }
    }

    /// The cached configuration.
    pub fn read_cached(&self) -> (c: Arc<AppConfig>)
        ensures
            *c == self@,
    {
        self.snapshot.clone()
    }

    /// Take over a configuration after an attempt to save it: only a saved one replaces the cached
    /// one.
    pub fn save_cached(&mut self, config: &AppConfig, saved: Result<(), AppError>) -> (r: Result<
        (),
        AppError,
    >)
        ensures
            r == saved,
            final(self)@ == (if saved is Ok {
                *config
            } else {
                old(self)@
            }),
    {
        match saved {
            Ok(done) => {
                self.snapshot = Arc::new(config.clone());
                Ok(done)
            },
            Err(e) => Err(e),
        }
    }
}

/// Only a configuration that was saved replaces the cached one, which is what is read from then on.
pub proof fn only_a_saved_configuration_counts(
    cache: &mut ConfigCache,
    config: AppConfig,
    saved: Result<(), AppError>,
    r: Result<(), AppError>,
    read: Arc<AppConfig>,
)
    requires
        call_ensures(ConfigCache::save_cached, (cache, &config, saved), r),
        call_ensures(ConfigCache::read_cached, (&*final(cache),), read),
    ensures
        r is Ok <==> saved is Ok,
        saved is Ok ==> *read == config,
        saved is Err ==> *read == old(cache)@,
{
}

} // verus!
