//! Sends each backend call to the adapter of its remote: a default for most,
//! and an override by name for the remotes that a native adapter serves.

use crate::domain::ports::{BackendClient, Cancel};
use crate::domain::sync::{ListFilter, RemoteItem};
use crate::text::same;
use std::sync::Arc;
use vstd::prelude::*;

verus! {

/// Sends each backend call to the adapter of its remote.
pub struct ClientRouter<C: BackendClient + ?Sized> {
    default: Arc<C>,
    overrides: Vec<(String, Arc<C>)>,
}

/// The first entry of `table` under `name`.
spec fn lookup<C: ?Sized>(table: Seq<(String, Arc<C>)>, name: Seq<char>) -> Option<Arc<C>>
    decreases table.len(),
{
    if table.len() == 0 {
        None
    } else if table[0].0@ == name {
        Some(table[0].1)
    } else {
        lookup(table.drop_first(), name)
    }
}

/// The table finds what stands at `at` when nothing before it has the name.
proof fn lemma_lookup_at<C: ?Sized>(table: Seq<(String, Arc<C>)>, name: Seq<char>, at: int)
    requires
        0 <= at < table.len(),
        table[at].0@ == name,
        forall|j: int| 0 <= j < at ==> (#[trigger] table[j]).0@ != name,
    ensures
        lookup(table, name) == Some(table[at].1),
    decreases at,
{
    if at > 0 {
        let rest = table.drop_first();
        assert forall|j: int| 0 <= j < at - 1 implies (#[trigger] rest[j]).0@ != name by {
            assert(rest[j] == table[j + 1]);
        }
        lemma_lookup_at(rest, name, at - 1);
    }
}

/// The table finds nothing when no entry has the name.
proof fn lemma_lookup_none<C: ?Sized>(table: Seq<(String, Arc<C>)>, name: Seq<char>)
    requires
        forall|j: int| 0 <= j < table.len() ==> (#[trigger] table[j]).0@ != name,
    ensures
        lookup(table, name) is None,
    decreases table.len(),
{
    if table.len() > 0 {
        let rest = table.drop_first();
        assert forall|j: int| 0 <= j < rest.len() implies (#[trigger] rest[j]).0@ != name by {
            assert(rest[j] == table[j + 1]);
        }
        lemma_lookup_none(rest, name);
    }
}

/// A table found at the end does not change what the front finds, and the
/// front decides where it has the name.
proof fn lemma_lookup_push<C: ?Sized>(
    table: Seq<(String, Arc<C>)>,
    entry: (String, Arc<C>),
    name: Seq<char>,
)
    ensures
        lookup(table.push(entry), name) == (match lookup(table, name) {
            Some(c) => Some(c),
            None => if entry.0@ == name {
                Some(entry.1)
            } else {
                None
            },
        }),
    decreases table.len(),
{
    if table.len() == 0 {
        assert(table.push(entry).drop_first() =~= table);
    } else {
        assert(table.push(entry).drop_first() =~= table.drop_first().push(entry));
        lemma_lookup_push(table.drop_first(), entry, name);
    }
}

/// Replacing the first entry of a name changes what is found under that name
/// and nothing else.
proof fn lemma_lookup_update<C: ?Sized>(
    table: Seq<(String, Arc<C>)>,
    at: int,
    entry: (String, Arc<C>),
    name: Seq<char>,
)
    requires
        0 <= at < table.len(),
        table[at].0@ == entry.0@,
        forall|j: int| 0 <= j < at ==> (#[trigger] table[j]).0@ != entry.0@,
    ensures
        lookup(table.update(at, entry), name) == (if name == entry.0@ {
            Some(entry.1)
        } else {
            lookup(table, name)
        }),
    decreases table.len(),
{
    let changed = table.update(at, entry);
    if at == 0 {
        assert(changed.drop_first() =~= table.drop_first());
    } else {
        let rest = table.drop_first();
        assert(changed.drop_first() =~= rest.update(at - 1, entry));
        assert forall|j: int| 0 <= j < at - 1 implies (#[trigger] rest[j]).0@ != entry.0@ by {
            assert(rest[j] == table[j + 1]);
        }
        assert(rest[at - 1] == table[at]);
        assert(table[0].0@ != entry.0@);
        lemma_lookup_update(rest, at - 1, entry, name);
    }
}

impl<C: BackendClient + ?Sized> ClientRouter<C> {
    /// The adapter of every remote without an override.
    pub closed spec fn fallback(&self) -> Arc<C> {
        self.default
    }

    /// The overrides, by remote name.
    pub closed spec fn overrides(&self) -> Map<Seq<char>, Arc<C>> {
        Map::new(
            |name: Seq<char>| lookup(self.overrides@, name) is Some,
            |name: Seq<char>| lookup(self.overrides@, name)->0,
        )
    }

    /// The adapter that serves `remote`.
    pub open spec fn client_of(&self, remote: Seq<char>) -> Arc<C> {
        if self.overrides().contains_key(remote) {
            self.overrides()[remote]
        } else {
            self.fallback()
        }
    }

    /// A router without overrides.
    pub fn new(default: Arc<C>) -> (r: Self)
        ensures
            r.fallback() == default,
            r.overrides() == Map::<Seq<char>, Arc<C>>::empty(),
    {
        let r = ClientRouter { default, overrides: Vec::new() };
        assert(r.overrides() =~= Map::<Seq<char>, Arc<C>>::empty());
        r
    }

    /// Serves `remote` with `client` from now on, whatever served it before.
    pub fn register(&mut self, remote: String, client: Arc<C>)
        ensures
            final(self).fallback() == old(self).fallback(),
            final(self).overrides() == old(self).overrides().insert(remote@, client),
    {
        let ghost before = self.overrides@;
        let mut i: usize = 0;
        while i < self.overrides.len()
            invariant
                i <= self.overrides@.len(),
                self.overrides@ == before,
                self == old(self),
                forall|j: int| 0 <= j < i ==> (#[trigger] before[j]).0@ != remote@,
            decreases self.overrides@.len() - i,
        {
            if same(self.overrides[i].0.as_str(), remote.as_str()) {
                let ghost name = remote@;
                let ghost entry = (remote, client);
                self.overrides.set(i, (remote, client));
                proof {
                    assert forall|n: Seq<char>|
                        lookup(self.overrides@, n) == (if n == name {
                            Some(client)
                        } else {
                            lookup(before, n)
                        }) by {
                        lemma_lookup_update(before, i as int, entry, n);
                    }
                    assert(self.overrides() =~= old(self).overrides().insert(name, client));
                }
                return ;
            }
            i += 1;
        }
        let ghost name = remote@;
        let ghost entry = (remote, client);
        self.overrides.push((remote, client));
        proof {
            lemma_lookup_none(before, name);
            assert forall|n: Seq<char>|
                lookup(self.overrides@, n) == (if n == name {
                    Some(client)
                } else {
                    lookup(before, n)
                }) by {
                lemma_lookup_push(before, entry, n);
            }
            assert(self.overrides() =~= old(self).overrides().insert(name, client));
        }
    }

    /// Serves `remote` with the default again. Nothing to do where it has no
    /// override.
    pub fn unregister(&mut self, remote: &str)
        ensures
            final(self).fallback() == old(self).fallback(),
            final(self).overrides() == old(self).overrides().remove(remote@),
    {
        let ghost before = self.overrides@;
        let mut kept: Vec<(String, Arc<C>)> = Vec::new();
        let mut i: usize = 0;
        while i < self.overrides.len()
            invariant
                i <= self.overrides@.len(),
                self.overrides@ == before,
                self == old(self),
                forall|n: Seq<char>| #[trigger]
                    lookup(kept@, n) == (if n == remote@ {
                        None
                    } else {
                        lookup(before.take(i as int), n)
                    }),
            decreases self.overrides@.len() - i,
        {
            let ghost front = kept@;
            assert(before.take(i + 1) =~= before.take(i as int).push(before[i as int]));
            if !same(self.overrides[i].0.as_str(), remote) {
                let name = self.overrides[i].0.clone();
                let client = self.overrides[i].1.clone();
                kept.push((name, client));
            }
            proof {
                assert forall|n: Seq<char>| #[trigger]
                    lookup(kept@, n) == (if n == remote@ {
                        None
                    } else {
                        lookup(before.take(i + 1), n)
                    }) by {
                    lemma_lookup_push(before.take(i as int), before[i as int], n);
                    lemma_lookup_push(front, before[i as int], n);
                    assert(lookup(front, n) == (if n == remote@ {
                        None
                    } else {
                        lookup(before.take(i as int), n)
                    }));
                }
            }
            i += 1;
        }
        assert(before.take(before.len() as int) =~= before);
        self.overrides = kept;
        assert(self.overrides() =~= old(self).overrides().remove(remote@));
    }

    /// The adapter that serves `remote`.
    pub fn pick(&self, remote: &str) -> (r: Arc<C>)
        ensures
            r == self.client_of(remote@),
    {
        let mut i: usize = 0;
        while i < self.overrides.len()
            invariant
                i <= self.overrides@.len(),
                forall|j: int| 0 <= j < i ==> (#[trigger] self.overrides@[j]).0@ != remote@,
            decreases self.overrides@.len() - i,
        {
            if same(self.overrides[i].0.as_str(), remote) {
                proof {
                    lemma_lookup_at(self.overrides@, remote@, i as int);
                }
                return self.overrides[i].1.clone();
            }
            i += 1;
        }
        proof {
            lemma_lookup_none(self.overrides@, remote@);
        }
        self.default.clone()
    }
}

impl<C: BackendClient + ?Sized> Clone for ClientRouter<C> {
    fn clone(&self) -> (r: Self)
        ensures
            r.fallback() == self.fallback(),
            r.overrides() == self.overrides(),
    {
        let mut table: Vec<(String, Arc<C>)> = Vec::new();
        let mut i: usize = 0;
        while i < self.overrides.len()
            invariant
                i <= self.overrides@.len(),
                table@ == self.overrides@.take(i as int),
            decreases self.overrides@.len() - i,
        {
            let name = self.overrides[i].0.clone();
            let client = self.overrides[i].1.clone();
            table.push((name, client));
            i += 1;
            assert(table@ =~= self.overrides@.take(i as int));
        }
        assert(table@ =~= self.overrides@);
        let r = ClientRouter { default: self.default.clone(), overrides: table };
        assert(r.overrides() =~= self.overrides());
        r
    }
}

impl<C: BackendClient + ?Sized> BackendClient for ClientRouter<C> {
    fn stat(&self, remote: &str, path: &str, cancel: &Cancel) -> (r: Result<
        Option<RemoteItem>,
        String,
    >)
        ensures
            call_ensures(C::stat, (&*self.client_of(remote@), remote, path, cancel), r),
    {
        self.pick(remote).stat(remote, path, cancel)
    }

    fn list(
        &self,
        remote: &str,
        path: &str,
        recursive: bool,
        filter: ListFilter,
        cancel: &Cancel,
    ) -> (r: Result<Vec<RemoteItem>, String>)
        ensures
            call_ensures(
                C::list,
                (&*self.client_of(remote@), remote, path, recursive, filter, cancel),
                r,
            ),
    {
        self.pick(remote).list(remote, path, recursive, filter, cancel)
    }

    fn mkdir(&self, remote: &str, path: &str, cancel: &Cancel) -> (r: Result<(), String>)
        ensures
            call_ensures(C::mkdir, (&*self.client_of(remote@), remote, path, cancel), r),
    {
        self.pick(remote).mkdir(remote, path, cancel)
    }

    fn delete_file(&self, remote: &str, path: &str, cancel: &Cancel) -> (r: Result<(), String>)
        ensures
            call_ensures(C::delete_file, (&*self.client_of(remote@), remote, path, cancel), r),
    {
        self.pick(remote).delete_file(remote, path, cancel)
    }

    fn purge(&self, remote: &str, path: &str, cancel: &Cancel) -> (r: Result<(), String>)
        ensures
            call_ensures(C::purge, (&*self.client_of(remote@), remote, path, cancel), r),
    {
        self.pick(remote).purge(remote, path, cancel)
    }

    fn copy_to_remote(
        &self,
        local_path: &str,
        remote: &str,
        remote_path: &str,
        cancel: &Cancel,
    ) -> (r: Result<(), String>)
        ensures
            call_ensures(
                C::copy_to_remote,
                (&*self.client_of(remote@), local_path, remote, remote_path, cancel),
                r,
            ),
    {
        self.pick(remote).copy_to_remote(local_path, remote, remote_path, cancel)
    }

    fn copy_to_local(
        &self,
        local_path: &str,
        remote: &str,
        remote_path: &str,
        cancel: &Cancel,
    ) -> (r: Result<(), String>)
        ensures
            call_ensures(
                C::copy_to_local,
                (&*self.client_of(remote@), local_path, remote, remote_path, cancel),
                r,
            ),
    {
        self.pick(remote).copy_to_local(local_path, remote, remote_path, cancel)
    }

    fn delete_config(&self, remote: &str) -> (r: Result<(), String>)
        ensures
            call_ensures(C::delete_config, (&*self.client_of(remote@), remote), r),
    {
        self.pick(remote).delete_config(remote)
    }

    /// There is no remote to go by: the default adapter creates it.
    fn create_config(&self, payload_json: String) -> (r: Result<(), String>)
        ensures
            call_ensures(C::create_config, (&*self.fallback(), payload_json), r),
    {
        self.default.create_config(payload_json)
    }

    fn remote_type(&self, remote: &str) -> (r: Result<Option<String>, String>)
        ensures
            call_ensures(C::remote_type, (&*self.client_of(remote@), remote), r),
    {
        self.pick(remote).remote_type(remote)
    }

    fn checkpoint_session(&self, remote: &str)
        ensures
            call_ensures(C::checkpoint_session, (&*self.client_of(remote@), remote), ()),
    {
        self.pick(remote).checkpoint_session(remote)
    }
}

/// A registered remote is served by its adapter, every other remote as before.
pub proof fn law_register_routes<C: BackendClient + ?Sized>(
    before: ClientRouter<C>,
    after: ClientRouter<C>,
    remote: Seq<char>,
    client: Arc<C>,
    other: Seq<char>,
)
    requires
        after.fallback() == before.fallback(),
        after.overrides() == before.overrides().insert(remote, client),
        other != remote,
    ensures
        after.client_of(remote) == client,
        after.client_of(other) == before.client_of(other),
{
}

/// A remote that is no longer registered is served by the default, every other
/// remote as before; where it had no override nothing changes.
pub proof fn law_unregister_falls_back<C: BackendClient + ?Sized>(
    before: ClientRouter<C>,
    after: ClientRouter<C>,
    remote: Seq<char>,
    other: Seq<char>,
)
    requires
        after.fallback() == before.fallback(),
        after.overrides() == before.overrides().remove(remote),
        other != remote,
    ensures
        after.client_of(remote) == before.fallback(),
        after.client_of(other) == before.client_of(other),
        !before.overrides().contains_key(remote) ==> after.overrides() == before.overrides(),
{
    if !before.overrides().contains_key(remote) {
        assert(after.overrides() =~= before.overrides());
    }
}

/// A remote that is served by nothing of its own is served by what serves all,
/// and one that is served by something of its own is served by that.
pub proof fn law_own_client_goes_first<C: BackendClient + ?Sized>(
    router: ClientRouter<C>,
    remote: Seq<char>,
)
    ensures
        router.overrides().contains_key(remote) ==> router.client_of(remote)
            == router.overrides()[remote],
        !router.overrides().contains_key(remote) ==> router.client_of(remote)
            == router.fallback(),
{
}

} // verus!
