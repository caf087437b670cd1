use vstd::prelude::*;

use crate::error::ConfigError;
use crate::host::{eval_with_poll, PollerEntry};
use crate::model::{doc_clone, CustomWidget, DocValue, MainConfig, Windows};
use crate::project::{env_find, project, spec_customs_map, spec_windows_map, table_of};
use crate::strmap::{assoc_map, StrMap};

verus! {

/// The lock predicate of the `boo` store: the namespace may hold any
/// entries, so every state satisfies it.
pub struct BooPred;

impl vstd::rwlock::RwLockPredicate<Vec<(String, DocValue)>> for BooPred {
    open spec fn inv(self, v: Vec<(String, DocValue)>) -> bool {
        true
    }
}

/// The user-owned scratch namespace, guarded by one exclusion lock so
/// that pollers may mutate it while the renderer reads it.
pub struct BooStore {
    lock: vstd::rwlock::RwLock<Vec<(String, DocValue)>, BooPred>,
}

impl BooStore {
    /// Wrap the projected `boo` entries behind the lock.
    pub fn new(entries: Vec<(String, DocValue)>) -> (r: Self) {
        BooStore { lock: vstd::rwlock::RwLock::new(entries, Ghost(BooPred)) }
    }

    /// The value now bound to `key`, copied out under a read lock; what
    /// is bound changes under concurrent writers, so nothing more is
    /// promised of the result.
    pub fn get(&self, key: &str) -> (r: Option<DocValue>) {
        let handle = self.lock.acquire_read();
        let entries = handle.borrow();
        let found = match env_find(entries, key) {
            Some(i) => {
                let e = &entries[i];
                Some(doc_clone(&e.1))
            },
            None => None,
        };
        handle.release_read();
        found
    }

    /// Bind `key` to `value` under the write lock, replacing an earlier
    /// binding in place.
    pub fn set(&self, key: String, value: DocValue) {
        let (mut entries, handle) = self.lock.acquire_write();
        match env_find(&entries, key.as_str()) {
            Some(i) => {
                entries.remove(i);
                entries.insert(i, (key, value));
            },
            None => {
                entries.push((key, value));
            },
        }
        handle.release_write(entries);
    }
}

/// The process-wide runtime handle: the typed projection of the loaded
/// document, the pollers the script registered, and the shared `boo`
/// namespace. Immutable after construction but for `boo`.
pub struct Runtime {
    windows: StrMap<Windows>,
    customs: StrMap<CustomWidget>,
    boo: BooStore,
    pollers: Vec<PollerEntry>,
}

impl Runtime {
    /// The window map the handle serves.
    pub closed spec fn windows_view(&self) -> Map<Seq<char>, Windows> {
        self.windows@
    }

    /// The custom-widget map the handle serves.
    pub closed spec fn customs_view(&self) -> Map<Seq<char>, CustomWidget> {
        self.customs@
    }

    /// The pollers the script registered, in registration order.
    pub closed spec fn pollers_view(&self) -> Seq<PollerEntry> {
        self.pollers@
    }

    /// Build the handle and the shared typed configuration from an
    /// evaluated environment and the script's poller registrations.
    pub fn from_env(env: &Vec<(String, DocValue)>, pollers: Vec<PollerEntry>) -> (r: (
        Runtime,
        MainConfig,
    ))
        ensures
            r.1.windows@ == spec_windows_map(table_of(env@, "windows"@)),
            r.1.custom@ == spec_customs_map(table_of(env@, "custom"@)),
            r.1.boo@.dom() == assoc_map(table_of(env@, "boo"@)).dom(),
            forall|k: Seq<char>|
                r.1.boo@.dom().contains(k) ==> crate::model::doc_view(#[trigger] r.1.boo@[k])
                    == crate::model::doc_view(assoc_map(table_of(env@, "boo"@))[k]),
            r.0.windows_view() == r.1.windows@,
            r.0.customs_view() == r.1.custom@,
            r.0.pollers_view() == pollers@,
    {
        let cfg = project(env);
        let mine = project(env);
        let MainConfig { windows, custom, boo } = mine;
        let rt = Runtime { windows, customs: custom, boo: BooStore::new(boo.into_entries()), pollers };
        (rt, cfg)
    }

    /// Evaluate a script and stand the runtime up: the `poll` binding is
    /// installed before evaluation begins, the globals the script leaves
    /// are projected, and every failure of the interpreter surfaces as a
    /// `ScriptError`. The caller reads the file; this takes its text.
    pub fn from_script(script: &str) -> (r: Result<(Runtime, MainConfig), ConfigError>)
        ensures
            r matches Ok(p) ==> p.0.windows_view() == p.1.windows@ && p.0.customs_view()
                == p.1.custom@ && forall|i: int|
                0 <= i < p.0.pollers_view().len() ==> (#[trigger] p.0.pollers_view()[i]).interval.wf(),
            r matches Err(e) ==> e is ScriptError,
    {
        match eval_with_poll(script) {
            Err(msg) => Err(ConfigError::ScriptError(msg)),
            Ok((env, pollers)) => {
                let (rt, cfg) = Runtime::from_env(&env, pollers);
                Ok((rt, cfg))
            },
        }
    }

    /// The window named `name`, as a snapshot copy.
    pub fn get_bar(&self, name: &str) -> (r: Option<Windows>)
        ensures
            r matches Some(w) ==> self.windows_view().contains_key(name@) && w
                == self.windows_view()[name@],
            r is None ==> !self.windows_view().contains_key(name@),
    {
        self.windows.get(name)
    }

    /// The custom widget named `name`, as a snapshot copy.
    pub fn get_custom_widget(&self, name: &str) -> (r: Option<CustomWidget>)
        ensures
            r matches Some(w) ==> self.customs_view().contains_key(name@) && w
                == self.customs_view()[name@],
            r is None ==> !self.customs_view().contains_key(name@),
    {
        self.customs.get(name)
    }

    /// A snapshot copy of the whole window map.
    pub fn get_all_bars(&self) -> (r: StrMap<Windows>)
        ensures
            r@ == self.windows_view(),
    {
        self.windows.dup()
    }

    /// The pollers the script registered; the embedding program runs
    /// their workers.
    pub fn poll_entries(&self) -> (r: &Vec<PollerEntry>)
        ensures
            r@ == self.pollers_view(),
    {
        &self.pollers
    }

    /// Read a value of the shared `boo` namespace.
    pub fn boo_get(&self, key: &str) -> (r: Option<DocValue>) {
        self.boo.get(key)
    }

    /// Write a value of the shared `boo` namespace.
    pub fn boo_set(&self, key: String, value: DocValue) {
        self.boo.set(key, value)
    }
}

} // verus!
