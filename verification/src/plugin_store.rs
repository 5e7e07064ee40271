//! An in-memory plugin repository: packages are staged under their manifest path and
//! installed plugins are kept with their module bytes, one record per plugin id.
use vstd::prelude::*;

use crate::clock::unix_time_ms;
use crate::domain::plugin::{PluginId, PluginSnapshot, PluginSnapshotView, PluginStatus};
use crate::plugin_error::{PluginServiceError, PluginServiceErrorKind};
use crate::plugin_port::{
    installed_snapshot, lists_installed, next_updated_at, not_found_error, PluginPackage, PluginPackageView,
    PluginRepository,
};
use crate::text::str_eq;

verus! {

struct StagedPackage {
    path: String,
    package: PluginPackage,
}

struct StoredPlugin {
    snapshot: PluginSnapshot,
    module: Vec<u8>,
}

pub struct MemoryPluginRepository {
    staged: Vec<StagedPackage>,
    entries: Vec<StoredPlugin>,
    records: Ghost<Map<Seq<char>, PluginSnapshotView>>,
    stored_modules: Ghost<Map<Seq<char>, Seq<u8>>>,
    staged_packages: Ghost<Map<Seq<char>, PluginPackageView>>,
}

spec fn staged_match(staged: Seq<StagedPackage>, view: Map<Seq<char>, PluginPackageView>) -> bool {
    &&& forall|i: int|
        0 <= i < staged.len() ==> view.contains_key(#[trigger] staged[i].path@) && view[staged[i].path@]
            == staged[i].package@
    &&& forall|i: int, j: int|
        0 <= i < j < staged.len() ==> #[trigger] staged[i].path@ != #[trigger] staged[j].path@
    &&& forall|k: Seq<char>|
        #[trigger] view.contains_key(k) ==> exists|i: int|
            0 <= i < staged.len() && #[trigger] staged[i].path@ == k
}

spec fn entry_id(entries: Seq<StoredPlugin>, i: int) -> Seq<char> {
    entries[i].snapshot.manifest.id@
}

spec fn entries_match(
    entries: Seq<StoredPlugin>,
    records: Map<Seq<char>, PluginSnapshotView>,
    modules: Map<Seq<char>, Seq<u8>>,
) -> bool {
    &&& forall|i: int|
        0 <= i < entries.len() ==> {
            &&& records.contains_key(#[trigger] entry_id(entries, i))
            &&& records[entry_id(entries, i)] == entries[i].snapshot@
            &&& modules.contains_key(entry_id(entries, i))
            &&& modules[entry_id(entries, i)] == entries[i].module@
        }
    &&& forall|i: int, j: int|
        0 <= i < j < entries.len() ==> #[trigger] entry_id(entries, i) != #[trigger] entry_id(
            entries,
            j,
        )
    &&& forall|k: Seq<char>|
        #[trigger] records.contains_key(k) ==> exists|i: int|
            0 <= i < entries.len() && #[trigger] entry_id(entries, i) == k
    &&& forall|k: Seq<char>| #[trigger] modules.contains_key(k) <==> records.contains_key(k)
}

fn clone_module(module: &Vec<u8>) -> (r: Vec<u8>)
    ensures
        r@ == module@,
{
    let r = module.clone();
    assert forall|i: int| 0 <= i < r.len() implies r@[i] == module@[i] by {
        assert(cloned::<u8>(module[i], r[i]));
    }
    assert(r@ =~= module@);
    r
}

fn clone_package(package: &PluginPackage) -> (r: PluginPackage)
    ensures
        r@ == package@,
{
    PluginPackage { manifest: package.manifest.clone(), module: clone_module(&package.module) }
}

impl MemoryPluginRepository {
    /// An empty repository with nothing staged.
    pub fn new() -> (r: Self)
        ensures
            r.inv(),
            r.installed() == Map::<Seq<char>, PluginSnapshotView>::empty(),
            r.modules() == Map::<Seq<char>, Seq<u8>>::empty(),
            r.packages() == Map::<Seq<char>, PluginPackageView>::empty(),
    {
        MemoryPluginRepository {
            staged: Vec::new(),
            entries: Vec::new(),
            records: Ghost(Map::empty()),
            stored_modules: Ghost(Map::empty()),
            staged_packages: Ghost(Map::empty()),
        }
    }

    /// Makes `package` readable under `manifest_path`, replacing what was staged there.
    pub fn stage(&mut self, manifest_path: &str, package: PluginPackage)
        requires
            old(self).inv(),
        ensures
            final(self).inv(),
            final(self).installed() == old(self).installed(),
            final(self).modules() == old(self).modules(),
            final(self).packages() == old(self).packages().insert(manifest_path@, package@),
    {
        let ghost old_staged = self.staged@;
        let ghost view = self.staged_packages@.insert(manifest_path@, package@);
        let mut i: usize = 0;
        while i < self.staged.len() && !str_eq(self.staged[i].path.as_str(), manifest_path)
            invariant
                0 <= i <= self.staged@.len(),
                self.staged@ == old_staged,
                forall|k: int| 0 <= k < i ==> (#[trigger] self.staged@[k]).path@ != manifest_path@,
            decreases self.staged@.len() - i,
        {
            i = i + 1;
        }
        let entry = StagedPackage { path: manifest_path.to_owned(), package };
        if i < self.staged.len() {
            self.staged.set(i, entry);
            proof {
                let staged = self.staged@;
                assert forall|a: int| 0 <= a < staged.len() && a != i implies staged[a] == old_staged[a]
                    && old_staged[a].path@ != manifest_path@ by {
                    assert(old_staged[i as int].path@ == manifest_path@);
                    if a < i {
                        assert(old_staged[a].path@ != old_staged[i as int].path@);
                    } else {
                        assert(old_staged[i as int].path@ != old_staged[a].path@);
                    }
                }
                assert forall|k: Seq<char>| #[trigger] view.contains_key(k) implies exists|a: int|
                    0 <= a < staged.len() && #[trigger] staged[a].path@ == k by {
                    if k == manifest_path@ {
                        assert(staged[i as int].path@ == k);
                    } else {
                        let a = choose|a: int|
                            0 <= a < old_staged.len() && #[trigger] old_staged[a].path@ == k;
                        assert(staged[a].path@ == k);
                    }
                }
            }
        } else {
            self.staged.push(entry);
            proof {
                let staged = self.staged@;
                assert forall|a: int| 0 <= a < old_staged.len() implies staged[a] == old_staged[a] by {}
                assert forall|k: Seq<char>| #[trigger] view.contains_key(k) implies exists|a: int|
                    0 <= a < staged.len() && #[trigger] staged[a].path@ == k by {
                    if k == manifest_path@ {
                        assert(staged[old_staged.len() as int].path@ == k);
                    } else {
                        let a = choose|a: int|
                            0 <= a < old_staged.len() && #[trigger] old_staged[a].path@ == k;
                        assert(staged[a].path@ == k);
                    }
                }
            }
        }
        self.staged_packages = Ghost(view);
    }

    fn position(&self, plugin_id: &PluginId) -> (r: Option<usize>)
        requires
            self.inv(),
        ensures
            match r {
                Some(i) => i < self.entries@.len() && entry_id(self.entries@, i as int)
                    == plugin_id@,
                None => !self.installed().contains_key(plugin_id@),
            },
    {
        let mut i: usize = 0;
        while i < self.entries.len()
            invariant
                0 <= i <= self.entries@.len(),
                forall|k: int| 0 <= k < i ==> #[trigger] entry_id(self.entries@, k) != plugin_id@,
            decreases self.entries@.len() - i,
        {
            if str_eq(self.entries[i].snapshot.manifest.id.as_str(), plugin_id.as_str()) {
                return Some(i);
            }
            i = i + 1;
        }
        proof {
            if self.installed().contains_key(plugin_id@) {
                let j = choose|j: int|
                    0 <= j < self.entries@.len() && #[trigger] entry_id(self.entries@, j)
                        == plugin_id@;
                assert(entry_id(self.entries@, j) != plugin_id@);
            }
        }
        None
    }
}

impl PluginRepository for MemoryPluginRepository {
    open spec fn obeys_repository_contract() -> bool {
        true
    }

    closed spec fn packages(&self) -> Map<Seq<char>, PluginPackageView> {
        self.staged_packages@
    }

    closed spec fn installed(&self) -> Map<Seq<char>, PluginSnapshotView> {
        self.records@
    }

    closed spec fn modules(&self) -> Map<Seq<char>, Seq<u8>> {
        self.stored_modules@
    }

    closed spec fn inv(&self) -> bool {
        &&& entries_match(self.entries@, self.records@, self.stored_modules@)
        &&& staged_match(self.staged@, self.staged_packages@)
    }

    fn read_package(&self, manifest_path: &str) -> (r: Result<PluginPackage, PluginServiceError>)
    {
        let mut i: usize = 0;
        while i < self.staged.len()
            invariant
                0 <= i <= self.staged.len(),
                staged_match(self.staged@, self.staged_packages@),
                forall|k: int| 0 <= k < i ==> (#[trigger] self.staged@[k]).path@ != manifest_path@,
            decreases self.staged.len() - i,
        {
            if str_eq(self.staged[i].path.as_str(), manifest_path) {
                return Ok(clone_package(&self.staged[i].package));
            }
            i = i + 1;
        }
        proof {
            if self.packages().contains_key(manifest_path@) {
                let k = choose|k: int|
                    0 <= k < self.staged@.len() && #[trigger] self.staged@[k].path@ == manifest_path@;
                assert(self.staged@[k].path@ != manifest_path@);
            }
        }
        Err(not_found_error())
    }

    fn install(&mut self, package: PluginPackage) -> (r: Result<PluginSnapshot, PluginServiceError>)
    {
        match self.position(&package.manifest.id) {
            Some(_) => {
                return Err(
                    PluginServiceError::new(
                        PluginServiceErrorKind::AlreadyInstalled,
                        "plugin is already installed",
                    ),
                );
            },
            None => {},
        }
        let ghost id = package.manifest.id@;
        let ghost module = package.module@;
        let ghost old_entries = self.entries@;
        let now = unix_time_ms();
        let PluginPackage { manifest, module: bytes } = package;
        let snapshot = installed_snapshot(manifest, now);
        let stored = StoredPlugin { snapshot: snapshot.clone(), module: bytes };
        self.entries.push(stored);
        self.records = Ghost(self.records@.insert(id, snapshot@));
        self.stored_modules = Ghost(self.stored_modules@.insert(id, module));
        proof {
            let entries = self.entries@;
            assert(entries.len() == old_entries.len() + 1);
            assert forall|i: int| 0 <= i < old_entries.len() implies entry_id(entries, i)
                == entry_id(old_entries, i) && entries[i] == old_entries[i] by {}
            assert(entry_id(entries, old_entries.len() as int) == id);
            assert forall|k: Seq<char>| #[trigger] self.records@.contains_key(k) implies exists|i: int|
                0 <= i < entries.len() && #[trigger] entry_id(entries, i) == k by {
                if k == id {
                    assert(entry_id(entries, old_entries.len() as int) == k);
                } else {
                    let j = choose|j: int|
                        0 <= j < old_entries.len() && #[trigger] entry_id(old_entries, j) == k;
                    assert(entry_id(entries, j) == k);
                }
            }
        }
        Ok(snapshot)
    }

    fn list(&self) -> (r: Result<Vec<PluginSnapshot>, PluginServiceError>)
    {
        let mut listed: Vec<PluginSnapshot> = Vec::new();
        let mut i: usize = 0;
        while i < self.entries.len()
            invariant
                0 <= i <= self.entries@.len(),
                listed@.len() == i,
                forall|k: int|
                    0 <= k < i ==> (#[trigger] listed@[k])@ == self.entries@[k].snapshot@,
            decreases self.entries@.len() - i,
        {
            listed.push(self.entries[i].snapshot.clone());
            i = i + 1;
        }
        proof {
            let entries = self.entries@;
            assert(entries_match(entries, self.records@, self.stored_modules@));
            assert forall|k: int| 0 <= k < listed@.len() implies listed@[k].manifest.id@ == entry_id(
                entries,
                k,
            ) by {
                assert(listed@[k]@ == entries[k].snapshot@);
            }
            assert forall|k: int| 0 <= k < listed@.len() implies self.records@.contains_key(
                #[trigger] listed@[k].manifest.id@,
            ) && self.records@[listed@[k].manifest.id@] == listed@[k]@ by {
                assert(listed@[k].manifest.id@ == entry_id(entries, k));
            }
            assert forall|id: Seq<char>| #[trigger] self.records@.contains_key(id) implies exists|k: int|
                0 <= k < listed@.len() && #[trigger] listed@[k].manifest.id@ == id by {
                let j = choose|j: int| 0 <= j < entries.len() && #[trigger] entry_id(entries, j) == id;
                assert(listed@[j].manifest.id@ == id);
            }
            assert forall|a: int, b: int| 0 <= a < b < listed@.len() implies #[trigger] listed@[a].manifest.id@
                != #[trigger] listed@[b].manifest.id@ by {
                assert(entry_id(entries, a) != entry_id(entries, b));
            }
        }
        Ok(listed)
    }

    fn get(&self, plugin_id: &PluginId) -> (r: Result<Option<PluginSnapshot>, PluginServiceError>)
    {
        match self.position(plugin_id) {
            Some(i) => Ok(Some(self.entries[i].snapshot.clone())),
            None => Ok(None),
        }
    }

    fn module_bytes(&self, plugin_id: &PluginId) -> (r: Result<Vec<u8>, PluginServiceError>)
    {
        match self.position(plugin_id) {
            Some(i) => Ok(clone_module(&self.entries[i].module)),
            None => Err(not_found_error()),
        }
    }

    fn set_status(&mut self, plugin_id: &PluginId, status: PluginStatus) -> (r: Result<
        PluginSnapshot,
        PluginServiceError,
    >)
    {
        let i = match self.position(plugin_id) {
            Some(i) => i,
            None => {
                return Err(not_found_error());
            },
        };
        let ghost old_entries = self.entries@;
        let ghost id = plugin_id@;
        let now = unix_time_ms();
        let current = &self.entries[i].snapshot;
        let updated = PluginSnapshot {
            manifest: current.manifest.clone(),
            status,
            installed_at_unix_ms: current.installed_at_unix_ms,
            updated_at_unix_ms: next_updated_at(current, now),
        };
        let stored = StoredPlugin {
            snapshot: updated.clone(),
            module: clone_module(&self.entries[i].module),
        };
        self.entries.set(i, stored);
        self.records = Ghost(self.records@.insert(id, updated@));
        proof {
            let entries = self.entries@;
            assert forall|k: int| 0 <= k < entries.len() implies entry_id(entries, k) == entry_id(
                old_entries,
                k,
            ) by {}
            assert forall|k: Seq<char>| #[trigger] self.records@.contains_key(k) implies exists|j: int|
                0 <= j < entries.len() && #[trigger] entry_id(entries, j) == k by {
                let j = choose|j: int|
                    0 <= j < old_entries.len() && #[trigger] entry_id(old_entries, j) == k;
                assert(entry_id(entries, j) == k);
            }
            assert forall|a: int| 0 <= a < entries.len() implies {
                &&& self.records@.contains_key(#[trigger] entry_id(entries, a))
                &&& self.records@[entry_id(entries, a)] == entries[a].snapshot@
                &&& self.stored_modules@.contains_key(entry_id(entries, a))
                &&& self.stored_modules@[entry_id(entries, a)] == entries[a].module@
            } by {
                if a != i {
                    assert(entry_id(old_entries, a) != entry_id(old_entries, i as int));
                }
            }
        }
        Ok(updated)
    }

    fn remove(&mut self, plugin_id: &PluginId) -> (r: Result<bool, PluginServiceError>)
    {
        let i = match self.position(plugin_id) {
            Some(i) => i,
            None => {
                proof {
                    assert(self.records@.remove(plugin_id@) =~= self.records@);
                    assert(self.stored_modules@.remove(plugin_id@) =~= self.stored_modules@);
                }
                return Ok(false);
            },
        };
        let ghost old_entries = self.entries@;
        let ghost id = plugin_id@;
        self.entries.remove(i);
        self.records = Ghost(self.records@.remove(id));
        self.stored_modules = Ghost(self.stored_modules@.remove(id));
        proof {
            let entries = self.entries@;
            assert(entries == old_entries.remove(i as int));
            assert forall|k: int| 0 <= k < entries.len() implies entry_id(entries, k) == entry_id(
                old_entries,
                if k < i { k } else { k + 1 },
            ) && entries[k] == old_entries[if k < i { k } else { k + 1 }] by {}
            assert forall|a: int| 0 <= a < entries.len() implies {
                &&& self.records@.contains_key(#[trigger] entry_id(entries, a))
                &&& self.records@[entry_id(entries, a)] == entries[a].snapshot@
                &&& self.stored_modules@.contains_key(entry_id(entries, a))
                &&& self.stored_modules@[entry_id(entries, a)] == entries[a].module@
            } by {
                let b = if a < i { a } else { a + 1 };
                assert(entry_id(old_entries, b) != entry_id(old_entries, i as int));
            }
            assert forall|a: int, b: int| 0 <= a < b < entries.len() implies #[trigger] entry_id(
                entries,
                a,
            ) != #[trigger] entry_id(entries, b) by {
                let a2 = if a < i { a } else { a + 1 };
                let b2 = if b < i { b } else { b + 1 };
                assert(entry_id(old_entries, a2) != entry_id(old_entries, b2));
            }
            assert forall|k: Seq<char>| #[trigger] self.records@.contains_key(k) implies exists|j: int|
                0 <= j < entries.len() && #[trigger] entry_id(entries, j) == k by {
                let j = choose|j: int|
                    0 <= j < old_entries.len() && #[trigger] entry_id(old_entries, j) == k;
                assert(j != i);
                let j2 = if j < i { j } else { j - 1 };
                assert(entry_id(entries, j2) == k);
            }
        }
        Ok(true)
    }
}

} // verus!
