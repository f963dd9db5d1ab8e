//! The configuration store behind a cell that every thread can read and
//! replace without waiting.
//!
//! What the cell holds at any moment depends on the other threads, so nothing
//! here says what a read returns beyond what holds of every store. The exact
//! contracts are those of [`crate::store`], on a store that the caller owns.

use vstd::prelude::*;
use std::sync::Arc;
use arc_swap::ArcSwap;
use crate::errors::ConfigError;
use crate::schema::{Config, ConfigView, default_config};
use crate::store::{Change, ConfigStore, accepted, parse, reload_config, source_text};
use crate::validate::{Credential, structure_ok};

verus! {

/// A [`ConfigStore`] in an `arc_swap::ArcSwap`: a read takes the store that
/// was put there last, and a write replaces it whole. No contract speaks of
/// what the cell holds once it has been written.
#[verifier::external_body]
pub struct SharedStore {
    cell: ArcSwap<ConfigStore>,
}

/// The configuration of the store that a cell was made with: what the cell
/// holds until the first write. Of what it holds after that, this says
/// nothing.
pub uninterp spec fn made_with(shared: SharedStore) -> ConfigView;

impl SharedStore {
    /// Calls `ArcSwap::from_pointee`, which makes a cell that holds the value
    /// it is given. The contract names that first value; nothing is claimed of
    /// what the cell holds once it has been written.
    #[verifier::external_body]
    fn holding(store: ConfigStore) -> (shared: SharedStore)
        ensures
            made_with(shared) == store@,
    {
        SharedStore { cell: ArcSwap::from_pointee(store) }
    }

    /// Calls `ArcSwapAny::load_full`. Nothing is claimed of the store that
    /// comes back. It is one that `holding` or `install` was handed, so it
    /// holds what every [`ConfigStore`] holds: a configuration that meets the
    /// structural rules.
    #[verifier::external_body]
    fn load(&self) -> (held: Arc<ConfigStore>) {
        self.cell.load_full()
    }

    /// Calls `ArcSwapAny::store`. Nothing is claimed of the cell.
    #[verifier::external_body]
    fn install(&self, store: Arc<ConfigStore>) {
        self.cell.store(store)
    }

    /// A cell that starts with a store that holds the default configuration.
    pub fn new() -> (shared: SharedStore)
        ensures
            made_with(shared) == default_config(),
    {
        SharedStore::holding(ConfigStore::new())
    }

    /// A copy of the store that the cell holds at this moment. Whatever the
    /// other threads do, its configuration meets the structural rules.
    pub fn snapshot(&self) -> (store: ConfigStore)
        ensures
            structure_ok(store@),
    {
        let held = self.load();
        (*held).clone()
    }

    /// Puts `store` in the cell, in place of the store that was there.
    pub fn replace(&self, store: ConfigStore) {
        self.install(Arc::new(store));
    }

    /// A copy of the configuration that is active at this moment. Whatever the
    /// other threads do, it meets the structural rules.
    pub fn get_config(&self) -> (config: Config)
        ensures
            structure_ok(config@),
    {
        let held = self.load();
        (*held).current()
    }

    /// Loads the configuration that was read from `path` and makes it the
    /// active one, as [`parse`] does on a copy of the store that the cell
    /// holds. The cell is written only on success.
    pub fn parse(
        &self,
        path: &str,
        source: Option<&str>,
        certificate: Credential,
        private_key: Credential,
    ) -> (outcome: Result<(), ConfigError>)
        ensures
            outcome is Ok <==> accepted(path@, source_text(source), certificate, private_key) is Some,
    {
        let mut store = self.snapshot();
        parse(&mut store, path, source, certificate, private_key)?;
        self.replace(store);
        Ok(())
    }

    /// Loads the active configuration's source again, as [`reload_config`]
    /// does on a copy of the store that the cell holds, and says how the new
    /// configuration differs from the one in that copy. The cell is written
    /// only on success. Whether it succeeds hangs on the source and the
    /// credentials alone, not on the path.
    pub fn reload_config(
        &self,
        source: Option<&str>,
        certificate: Credential,
        private_key: Credential,
    ) -> (outcome: Result<Change, ConfigError>)
        ensures
            forall|path: Seq<char>|
                outcome is Ok <==> #[trigger] accepted(
                    path,
                    source_text(source),
                    certificate,
                    private_key,
                ) is Some,
    {
        let mut store = self.snapshot();
        let change = reload_config(&mut store, source, certificate, private_key)?;
        self.replace(store);
        Ok(change)
    }
}

} // verus!
