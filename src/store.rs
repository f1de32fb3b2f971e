use vstd::prelude::*;

use crate::config::{BotConfigView, Config};

verus! {

/// What a store holds: the live configuration and the number of
/// replacements it has seen, which stops at the largest `u64`.
pub struct StoreView {
    pub config: BotConfigView,
    pub version: u64,
}

/// The version that follows `v`: one more, held at the largest `u64`.
pub open spec fn next_version(v: u64) -> u64 {
    if v < u64::MAX {
        (v + 1) as u64
    } else {
        v
    }
}

/// What a store holds after `new` is installed in it.
pub open spec fn replaced(v: StoreView, new: BotConfigView) -> StoreView {
    StoreView { config: new, version: next_version(v.version) }
}

/// The slot that holds exactly one complete configuration snapshot.
///
/// A reader gets a copy of the snapshot, so a later `replace` does not change
/// what an earlier `read` returned.
#[derive(Debug)]
pub struct ConfigStore {
    current: Config,
    version: u64,
}

impl View for ConfigStore {
    type V = StoreView;

    closed spec fn view(&self) -> StoreView {
        StoreView { config: self.current@, version: self.version }
    }
}

impl ConfigStore {
    /// A store that holds `initial`, at version zero.
    pub fn new(initial: Config) -> (r: ConfigStore)
        ensures
            r@.config == initial@,
            r@.version == 0,
    {
        ConfigStore { current: initial, version: 0 }
    }

    /// A copy of the live snapshot.
    pub fn read(&self) -> (r: Config)
        ensures
            r@ == self@.config,
    {
        self.current.duplicate()
    }

    /// The number of replacements so far.
    pub fn version(&self) -> (r: u64)
        ensures
            r == self@.version,
    {
        self.version
    }

    /// Installs `new` as the live snapshot, in one step.
    pub fn replace(&mut self, new: Config)
        ensures
            final(self)@ == replaced(old(self)@, new@),
    {
        self.current = new;
        if self.version < u64::MAX {
            self.version = self.version + 1;
        }
    }
}

/// A read after a replacement never gives an older snapshot than a read
/// before it: the version does not go down, and goes up unless it is at its
/// largest value already.
pub proof fn lemma_replace_is_monotonic(before: StoreView, new: BotConfigView)
    ensures
        replaced(before, new).config == new,
        replaced(before, new).version >= before.version,
        before.version < u64::MAX ==> replaced(before, new).version > before.version,
{
}

} // verus!
