//! Group keys whose key material lives in the external key storage.
//!
//! The group tables hold the marker `extern` in place of a private, public,
//! sign or verify key; the real key is stored in the key storage under an id
//! made of a prefix and the key pair id (`sk_`, `pk_`, `sign_k_`, `vk_`).
//! This module computes which ids to fetch and puts the fetched keys back.

use vstd::hash_map::StringHashMap;
use vstd::prelude::*;

verus! {

/// The marker that stands in the group tables for a key held in the key storage.
pub open spec fn extern_marker() -> Seq<char> {
    "extern"@
}

/// Storage id of a private group key.
pub open spec fn private_key_id(key_pair_id: Seq<char>) -> Seq<char> {
    "sk_"@ + key_pair_id
}

/// Storage id of a public group key.
pub open spec fn public_key_id(key_pair_id: Seq<char>) -> Seq<char> {
    "pk_"@ + key_pair_id
}

/// Storage id of a sign key.
pub open spec fn sign_key_id(sign_key_pair_id: Seq<char>) -> Seq<char> {
    "sign_k_"@ + sign_key_pair_id
}

/// Storage id of a verify key.
pub open spec fn verify_key_id(sign_key_pair_id: Seq<char>) -> Seq<char> {
    "vk_"@ + sign_key_pair_id
}

/// One group key of a user, as the group tables give it.
#[derive(Debug)]
pub struct GroupUserKeys {
    pub key_pair_id: String,
    pub group_key_id: String,
    pub encrypted_group_key: String,
    pub group_key_alg: String,
    pub encrypted_group_key_key_id: String,
    pub encrypted_private_group_key: String,
    pub public_group_key: String,
    pub keypair_encrypt_alg: String,
    pub time: u128,
    pub keypair_sign_id: Option<String>,
    pub encrypted_sign_key: Option<String>,
    pub verify_key: Option<String>,
    pub keypair_sign_alg: Option<String>,
}

/// The text content of a [`GroupUserKeys`].
pub struct GroupUserKeysView {
    pub key_pair_id: Seq<char>,
    pub group_key_id: Seq<char>,
    pub encrypted_group_key: Seq<char>,
    pub group_key_alg: Seq<char>,
    pub encrypted_group_key_key_id: Seq<char>,
    pub encrypted_private_group_key: Seq<char>,
    pub public_group_key: Seq<char>,
    pub keypair_encrypt_alg: Seq<char>,
    pub time: u128,
    pub keypair_sign_id: Option<Seq<char>>,
    pub encrypted_sign_key: Option<Seq<char>>,
    pub verify_key: Option<Seq<char>>,
    pub keypair_sign_alg: Option<Seq<char>>,
}

impl View for GroupUserKeys {
    type V = GroupUserKeysView;

    open spec fn view(&self) -> GroupUserKeysView {
        GroupUserKeysView {
            key_pair_id: self.key_pair_id@,
            group_key_id: self.group_key_id@,
            encrypted_group_key: self.encrypted_group_key@,
            group_key_alg: self.group_key_alg@,
            encrypted_group_key_key_id: self.encrypted_group_key_key_id@,
            encrypted_private_group_key: self.encrypted_private_group_key@,
            public_group_key: self.public_group_key@,
            keypair_encrypt_alg: self.keypair_encrypt_alg@,
            time: self.time,
            keypair_sign_id: self.keypair_sign_id.deep_view(),
            encrypted_sign_key: self.encrypted_sign_key.deep_view(),
            verify_key: self.verify_key.deep_view(),
            keypair_sign_alg: self.keypair_sign_alg.deep_view(),
        }
    }
}

/// Whether the key carries a sign key pair: its id, its sign key and its
/// verify key are all present.
pub open spec fn has_sign_keys(k: GroupUserKeysView) -> bool {
    &&& k.keypair_sign_id is Some
    &&& k.encrypted_sign_key is Some
    &&& k.verify_key is Some
}

/// The ids to fetch from the key storage for `k`, in this order: the private
/// key, the public key, the sign key, the verify key, each only where the
/// group tables hold the marker for it (the last two only where the key
/// carries a sign key pair).
pub open spec fn spec_fetch_ids(k: GroupUserKeysView) -> Seq<Seq<char>> {
    (if k.encrypted_private_group_key == extern_marker() {
        seq![private_key_id(k.key_pair_id)]
    } else {
        Seq::empty()
    }) + (if k.public_group_key == extern_marker() {
        seq![public_key_id(k.key_pair_id)]
    } else {
        Seq::empty()
    }) + (if has_sign_keys(k) {
        (if k.encrypted_sign_key->0 == extern_marker() {
            seq![sign_key_id(k.keypair_sign_id->0)]
        } else {
            Seq::empty()
        }) + (if k.verify_key->0 == extern_marker() {
            seq![verify_key_id(k.keypair_sign_id->0)]
        } else {
            Seq::empty()
        })
    } else {
        Seq::empty()
    })
}

/// A key field after the fetch: the fetched key where the field holds the
/// marker and the storage returned a key under `id`, else the field as it was.
pub open spec fn resolve_field(
    value: Seq<char>,
    id: Seq<char>,
    fetched: Map<Seq<char>, Seq<char>>,
) -> Seq<char> {
    if value == extern_marker() && fetched.contains_key(id) {
        fetched[id]
    } else {
        value
    }
}

/// The key after the fetched keys were put back into it.
pub open spec fn spec_resolved_keys(
    k: GroupUserKeysView,
    fetched: Map<Seq<char>, Seq<char>>,
) -> GroupUserKeysView {
    GroupUserKeysView {
        encrypted_private_group_key: resolve_field(
            k.encrypted_private_group_key,
            private_key_id(k.key_pair_id),
            fetched,
        ),
        public_group_key: resolve_field(k.public_group_key, public_key_id(k.key_pair_id), fetched),
        encrypted_sign_key: if has_sign_keys(k) {
            Some(
                resolve_field(
                    k.encrypted_sign_key->0,
                    sign_key_id(k.keypair_sign_id->0),
                    fetched,
                ),
            )
        } else {
            k.encrypted_sign_key
        },
        verify_key: if has_sign_keys(k) {
            Some(resolve_field(k.verify_key->0, verify_key_id(k.keypair_sign_id->0), fetched))
        } else {
            k.verify_key
        },
        ..k
    }
}

/// The keys fetched from the key storage, by storage id.
pub struct FetchedKeys {
    map: StringHashMap<String>,
}

impl View for FetchedKeys {
    type V = Map<Seq<char>, Seq<char>>;

    closed spec fn view(&self) -> Map<Seq<char>, Seq<char>> {
        self.map@.map_values(|s: String| s@)
    }
}

impl FetchedKeys {
    pub fn new() -> (m: Self)
        ensures
            m@ == Map::<Seq<char>, Seq<char>>::empty(),
    {
        let m = FetchedKeys { map: StringHashMap::new() };
        assert(m@ =~= Map::<Seq<char>, Seq<char>>::empty());
        m
    }

    /// Records the key stored under `id`.
    pub fn insert(&mut self, id: String, key: String)
        ensures
            final(self)@ == old(self)@.insert(id@, key@),
    {
        self.map.insert(id, key);
        assert(self@ =~= old(self)@.insert(id@, key@));
    }

    /// The key stored under `id`, if there is one.
    pub fn get(&self, id: &str) -> (key: Option<String>)
        ensures
            match key {
                Some(k) => self@.contains_key(id@) && k@ == self@[id@],
                None => !self@.contains_key(id@),
            },
    {
        match self.map.get(id) {
            Some(k) => Some(k.clone()),
            None => None,
        }
    }

    /// Removes the key stored under `id` and hands it out.
    pub fn take(&mut self, id: &str) -> (key: Option<String>)
        ensures
            final(self)@ == old(self)@.remove(id@),
            match key {
                Some(k) => old(self)@.contains_key(id@) && k@ == old(self)@[id@],
                None => !old(self)@.contains_key(id@),
            },
    {
        let key = self.get(id);
        self.map.remove(id);
        assert(self@ =~= old(self)@.remove(id@));
        key
    }
}

/// Whether `s` is the marker of a key held in the key storage.
pub fn is_extern(s: &str) -> (b: bool)
    ensures
        b == (s@ == extern_marker()),
{
    String::from_str(s) == String::from_str("extern")
}

fn prefixed(prefix: &str, id: &str) -> (s: String)
    ensures
        s@ == prefix@ + id@,
{
    let mut s = String::from_str(prefix);
    s.append(id);
    s
}

/// The four storage ids of two key pairs differ from each other.
pub proof fn lemma_storage_ids_distinct(key_pair_id: Seq<char>, sign_id: Seq<char>)
    ensures
        private_key_id(key_pair_id) != public_key_id(key_pair_id),
        private_key_id(key_pair_id) != sign_key_id(sign_id),
        private_key_id(key_pair_id) != verify_key_id(sign_id),
        public_key_id(key_pair_id) != sign_key_id(sign_id),
        public_key_id(key_pair_id) != verify_key_id(sign_id),
        sign_key_id(sign_id) != verify_key_id(sign_id),
{
    reveal_strlit("sk_");
    reveal_strlit("pk_");
    reveal_strlit("sign_k_");
    reveal_strlit("vk_");
    assert(private_key_id(key_pair_id)[0] == 's');
    assert(private_key_id(key_pair_id)[1] == 'k');
    assert(public_key_id(key_pair_id)[0] == 'p');
    assert(sign_key_id(sign_id)[0] == 's');
    assert(sign_key_id(sign_id)[1] == 'i');
    assert(verify_key_id(sign_id)[0] == 'v');
}

/// Appends to `keys_to_fetch` the storage ids of the keys of `key` that the
/// group tables hold as the marker.
pub fn prepare_keys_for_extern_fetch(keys_to_fetch: &mut Vec<String>, key: &GroupUserKeys)
    ensures
        final(keys_to_fetch).deep_view() == old(keys_to_fetch).deep_view() + spec_fetch_ids(key@),
{
    let ghost k = key@;
    let ghost start = keys_to_fetch.deep_view();
    let ghost first = if k.encrypted_private_group_key == extern_marker() {
        seq![private_key_id(k.key_pair_id)]
    } else {
        Seq::<Seq<char>>::empty()
    };
    let ghost second = if k.public_group_key == extern_marker() {
        seq![public_key_id(k.key_pair_id)]
    } else {
        Seq::<Seq<char>>::empty()
    };
    if is_extern(key.encrypted_private_group_key.as_str()) {
        keys_to_fetch.push(prefixed("sk_", key.key_pair_id.as_str()));
    }
    assert(keys_to_fetch.deep_view() =~= start + first);
    if is_extern(key.public_group_key.as_str()) {
        keys_to_fetch.push(prefixed("pk_", key.key_pair_id.as_str()));
    }
    assert(keys_to_fetch.deep_view() =~= start + first + second);
    let ghost mid = keys_to_fetch.deep_view();
    match (&key.keypair_sign_id, &key.encrypted_sign_key, &key.verify_key) {
        (Some(sign_key_pair_id), Some(sign_key), Some(verify_key)) => {
            let ghost third = if sign_key@ == extern_marker() {
                seq![sign_key_id(sign_key_pair_id@)]
            } else {
                Seq::<Seq<char>>::empty()
            };
            let ghost fourth = if verify_key@ == extern_marker() {
                seq![verify_key_id(sign_key_pair_id@)]
            } else {
                Seq::<Seq<char>>::empty()
            };
            if is_extern(sign_key.as_str()) {
                keys_to_fetch.push(prefixed("sign_k_", sign_key_pair_id.as_str()));
            }
            assert(keys_to_fetch.deep_view() =~= mid + third);
            if is_extern(verify_key.as_str()) {
                keys_to_fetch.push(prefixed("vk_", sign_key_pair_id.as_str()));
            }
            assert(keys_to_fetch.deep_view() =~= mid + (third + fourth));
            assert(spec_fetch_ids(k) =~= first + second + (third + fourth));
        },
        _ => {
            assert(spec_fetch_ids(k) =~= first + second);
        },
    }
}

proof fn lemma_to_set_push(a: Seq<Seq<char>>, x: Seq<char>)
    ensures
        (a + seq![x]).to_set() == a.to_set().insert(x),
        (a + Seq::<Seq<char>>::empty()).to_set() == a.to_set(),
{
    let b = a + seq![x];
    assert forall|y: Seq<char>| b.to_set().contains(y) <==> a.to_set().insert(x).contains(y) by {
        if b.contains(y) {
            let i = choose|i: int| 0 <= i < b.len() && b[i] == y;
            if i < a.len() {
                assert(a[i] == y);
            }
        }
        if a.contains(y) {
            let i = choose|i: int| 0 <= i < a.len() && a[i] == y;
            assert(b[i] == y);
        }
        if y == x {
            assert(b[a.len() as int] == y);
        }
    }
    assert(b.to_set() =~= a.to_set().insert(x));
    assert(a + Seq::<Seq<char>>::empty() =~= a);
}

proof fn lemma_remove_keys_insert(m: Map<Seq<char>, Seq<char>>, s: Set<Seq<char>>, x: Seq<char>)
    ensures
        m.remove_keys(s.insert(x)) == m.remove_keys(s).remove(x),
{
    assert(m.remove_keys(s.insert(x)) =~= m.remove_keys(s).remove(x));
}

/// Puts the fetched keys back into `key`: each key field that holds the
/// marker takes the key fetched under its storage id, if the storage returned
/// one. The ids looked up are removed from `fetched_keys`.
pub fn get_keys_from_extern_result(key: &mut GroupUserKeys, fetched_keys: &mut FetchedKeys)
    ensures
        final(key)@ == spec_resolved_keys(old(key)@, old(fetched_keys)@),
        final(fetched_keys)@ == old(fetched_keys)@.remove_keys(spec_fetch_ids(old(key)@).to_set()),
{
    let ghost k = key@;
    let ghost m = fetched_keys@;
    let ghost sid = if has_sign_keys(k) { k.keypair_sign_id->0 } else { Seq::<char>::empty() };
    proof {
        lemma_storage_ids_distinct(k.key_pair_id, sid);
    }
    assert(Seq::<Seq<char>>::empty().to_set() =~= Set::<Seq<char>>::empty());
    assert(m.remove_keys(Set::<Seq<char>>::empty()) =~= m);
    proof {
        lemma_to_set_push(Seq::<Seq<char>>::empty(), private_key_id(k.key_pair_id));
        lemma_remove_keys_insert(m, Set::<Seq<char>>::empty(), private_key_id(k.key_pair_id));
    }
    assert(seq![private_key_id(k.key_pair_id)] =~= Seq::<Seq<char>>::empty() + seq![private_key_id(k.key_pair_id)]);
    let ghost ids1 = if k.encrypted_private_group_key == extern_marker() {
        seq![private_key_id(k.key_pair_id)]
    } else {
        Seq::<Seq<char>>::empty()
    };
    if is_extern(key.encrypted_private_group_key.as_str()) {
        let id = prefixed("sk_", key.key_pair_id.as_str());
        match fetched_keys.take(id.as_str()) {
            Some(v) => {
                key.encrypted_private_group_key = v;
            },
            None => {},
        }
    }
    assert(fetched_keys@ =~= m.remove_keys(ids1.to_set()));
    proof {
        lemma_to_set_push(ids1, public_key_id(k.key_pair_id));
        lemma_remove_keys_insert(m, ids1.to_set(), public_key_id(k.key_pair_id));
    }
    let ghost ids2 = ids1 + if k.public_group_key == extern_marker() {
        seq![public_key_id(k.key_pair_id)]
    } else {
        Seq::<Seq<char>>::empty()
    };
    if is_extern(key.public_group_key.as_str()) {
        let id = prefixed("pk_", key.key_pair_id.as_str());
        match fetched_keys.take(id.as_str()) {
            Some(v) => {
                key.public_group_key = v;
            },
            None => {},
        }
    }
    assert(fetched_keys@ =~= m.remove_keys(ids2.to_set()));
    if key.keypair_sign_id.is_some() && key.encrypted_sign_key.is_some() && key.verify_key.is_some() {
        let sign_key_pair_id: String = match &key.keypair_sign_id {
            Some(s) => s.clone(),
            None => String::new(),
        };
        let sign_is_extern = match &key.encrypted_sign_key {
            Some(s) => is_extern(s.as_str()),
            None => false,
        };
        let verify_is_extern = match &key.verify_key {
            Some(s) => is_extern(s.as_str()),
            None => false,
        };
        proof {
            lemma_to_set_push(ids2, sign_key_id(sid));
            lemma_remove_keys_insert(m, ids2.to_set(), sign_key_id(sid));
        }
        let ghost ids3 = ids2 + if sign_is_extern {
            seq![sign_key_id(sid)]
        } else {
            Seq::<Seq<char>>::empty()
        };
        if sign_is_extern {
            let id = prefixed("sign_k_", sign_key_pair_id.as_str());
            match fetched_keys.take(id.as_str()) {
                Some(v) => {
                    key.encrypted_sign_key = Some(v);
                },
                None => {},
            }
        }
        assert(fetched_keys@ =~= m.remove_keys(ids3.to_set()));
        proof {
            lemma_to_set_push(ids3, verify_key_id(sid));
            lemma_remove_keys_insert(m, ids3.to_set(), verify_key_id(sid));
        }
        let ghost ids4 = ids3 + if verify_is_extern {
            seq![verify_key_id(sid)]
        } else {
            Seq::<Seq<char>>::empty()
        };
        if verify_is_extern {
            let id = prefixed("vk_", sign_key_pair_id.as_str());
            match fetched_keys.take(id.as_str()) {
                Some(v) => {
                    key.verify_key = Some(v);
                },
                None => {},
            }
        }
        assert(fetched_keys@ =~= m.remove_keys(ids4.to_set()));
        assert(ids4 =~= spec_fetch_ids(k));
    } else {
        assert(ids2 =~= spec_fetch_ids(k));
    }
    assert(key@ == spec_resolved_keys(k, m));
}

/// The fetch touches only keys that the group tables hold as the marker: a
/// key field that holds a key of its own keeps it, and so do all other fields.
pub proof fn lemma_fetch_keeps_stored_keys(k: GroupUserKeysView, fetched: Map<Seq<char>, Seq<char>>)
    ensures
        k.encrypted_private_group_key != extern_marker() ==> spec_resolved_keys(k, fetched).encrypted_private_group_key
            == k.encrypted_private_group_key,
        k.public_group_key != extern_marker() ==> spec_resolved_keys(k, fetched).public_group_key
            == k.public_group_key,
        (k.encrypted_sign_key is Some && k.encrypted_sign_key->0 != extern_marker())
            ==> spec_resolved_keys(k, fetched).encrypted_sign_key == k.encrypted_sign_key,
        (k.verify_key is Some && k.verify_key->0 != extern_marker())
            ==> spec_resolved_keys(k, fetched).verify_key == k.verify_key,
        k.encrypted_sign_key is None ==> spec_resolved_keys(k, fetched).encrypted_sign_key is None,
        k.verify_key is None ==> spec_resolved_keys(k, fetched).verify_key is None,
        spec_resolved_keys(k, fetched).key_pair_id == k.key_pair_id,
        spec_resolved_keys(k, fetched).keypair_sign_id == k.keypair_sign_id,
        spec_resolved_keys(k, fetched).encrypted_group_key == k.encrypted_group_key,
        spec_resolved_keys(k, fetched).time == k.time,
{
}

/// When the storage returns a key (other than the marker) for every id that
/// was asked for, no key field of the result holds the marker any more; the
/// sign keys are resolved this way where the key carries a sign key pair.
pub proof fn lemma_complete_fetch_resolves_markers(k: GroupUserKeysView, fetched: Map<Seq<char>, Seq<char>>)
    requires
        forall|i: int| 0 <= i < spec_fetch_ids(k).len() ==> fetched.contains_key(#[trigger] spec_fetch_ids(k)[i]),
        forall|id: Seq<char>| fetched.contains_key(id) ==> fetched[id] != extern_marker(),
    ensures
        spec_resolved_keys(k, fetched).encrypted_private_group_key != extern_marker(),
        spec_resolved_keys(k, fetched).public_group_key != extern_marker(),
        has_sign_keys(k) ==> spec_resolved_keys(k, fetched).encrypted_sign_key->0 != extern_marker(),
        has_sign_keys(k) ==> spec_resolved_keys(k, fetched).verify_key->0 != extern_marker(),
{
    let ids = spec_fetch_ids(k);
    let a = if k.encrypted_private_group_key == extern_marker() {
        seq![private_key_id(k.key_pair_id)]
    } else {
        Seq::<Seq<char>>::empty()
    };
    let b = if k.public_group_key == extern_marker() {
        seq![public_key_id(k.key_pair_id)]
    } else {
        Seq::<Seq<char>>::empty()
    };
    if k.encrypted_private_group_key == extern_marker() {
        assert(ids[0] == private_key_id(k.key_pair_id));
    }
    if k.public_group_key == extern_marker() {
        assert(ids[a.len() as int] == public_key_id(k.key_pair_id));
    }
    if has_sign_keys(k) {
        let sid = k.keypair_sign_id->0;
        let c = if k.encrypted_sign_key->0 == extern_marker() {
            seq![sign_key_id(sid)]
        } else {
            Seq::<Seq<char>>::empty()
        };
        if k.encrypted_sign_key->0 == extern_marker() {
            assert(ids[(a.len() + b.len()) as int] == sign_key_id(sid));
        }
        if k.verify_key->0 == extern_marker() {
            assert(ids[(a.len() + b.len() + c.len()) as int] == verify_key_id(sid));
        }
    }
}

/// The text views of a list of keys.
pub open spec fn keys_view(keys: Seq<GroupUserKeys>) -> Seq<GroupUserKeysView> {
    keys.map_values(|k: GroupUserKeys| k@)
}

/// The storage ids to fetch for a list of keys, key after key.
pub open spec fn spec_fetch_ids_all(keys: Seq<GroupUserKeysView>) -> Seq<Seq<char>>
    decreases keys.len(),
{
    if keys.len() == 0 {
        Seq::empty()
    } else {
        spec_fetch_ids_all(keys.drop_last()) + spec_fetch_ids(keys.last())
    }
}

/// The fetched keys that are left after the keys of `keys` were put back, in order.
pub open spec fn spec_fetched_after(
    keys: Seq<GroupUserKeysView>,
    fetched: Map<Seq<char>, Seq<char>>,
) -> Map<Seq<char>, Seq<char>>
    decreases keys.len(),
{
    if keys.len() == 0 {
        fetched
    } else {
        spec_fetched_after(keys.drop_last(), fetched).remove_keys(spec_fetch_ids(keys.last()).to_set())
    }
}

/// The keys after the fetched keys were put back into each of them in order;
/// a key takes what the keys before it left in the fetched map.
pub open spec fn spec_resolved_all(
    keys: Seq<GroupUserKeysView>,
    fetched: Map<Seq<char>, Seq<char>>,
) -> Seq<GroupUserKeysView>
    decreases keys.len(),
{
    if keys.len() == 0 {
        Seq::empty()
    } else {
        spec_resolved_all(keys.drop_last(), fetched).push(
            spec_resolved_keys(keys.last(), spec_fetched_after(keys.drop_last(), fetched)),
        )
    }
}

/// The storage ids to fetch for all keys of a page.
pub fn keys_to_fetch_for(keys: &Vec<GroupUserKeys>) -> (ids: Vec<String>)
    ensures
        ids.deep_view() == spec_fetch_ids_all(keys_view(keys@)),
{
    let mut ids: Vec<String> = Vec::new();
    let mut i: usize = 0;
    while i < keys.len()
        invariant
            i <= keys.len(),
            ids.deep_view() == spec_fetch_ids_all(keys_view(keys@.take(i as int))),
        decreases keys.len() - i,
    {
        prepare_keys_for_extern_fetch(&mut ids, &keys[i]);
        assert(keys_view(keys@.take(i + 1)).drop_last() =~= keys_view(keys@.take(i as int)));
        i = i + 1;
    }
    assert(keys@.take(keys.len() as int) =~= keys@);
    ids
}

/// Puts the fetched keys back into all keys of a page, in order.
pub fn resolve_user_group_keys(keys: Vec<GroupUserKeys>, fetched_keys: &mut FetchedKeys) -> (out: Vec<GroupUserKeys>)
    ensures
        keys_view(out@) == spec_resolved_all(keys_view(keys@), old(fetched_keys)@),
        final(fetched_keys)@ == spec_fetched_after(keys_view(keys@), old(fetched_keys)@),
{
    let ghost all = keys_view(keys@);
    let ghost start = fetched_keys@;
    let mut rest = keys;
    let mut out: Vec<GroupUserKeys> = Vec::new();
    while rest.len() > 0
        invariant
            out.len() + rest.len() == all.len(),
            keys_view(rest@) == all.subrange(out.len() as int, all.len() as int),
            keys_view(out@) == spec_resolved_all(all.take(out.len() as int), start),
            fetched_keys@ == spec_fetched_after(all.take(out.len() as int), start),
        decreases rest.len(),
    {
        let ghost n = out.len() as int;
        let ghost old_rest = rest@;
        assert(keys_view(old_rest)[0] == old_rest[0]@);
        let mut key = rest.remove(0);
        assert(key@ == all[n]);
        assert forall|j: int| 0 <= j < rest@.len() implies keys_view(rest@)[j] == all[n + 1 + j] by {
            assert(rest@[j] == old_rest[j + 1]);
            assert(keys_view(old_rest)[j + 1] == old_rest[j + 1]@);
        }
        get_keys_from_extern_result(&mut key, fetched_keys);
        out.push(key);
        assert(all.take(n + 1).drop_last() =~= all.take(n));
        assert(all.take(n + 1).last() == all[n]);
        assert(keys_view(out@) =~= spec_resolved_all(all.take(n), start).push(out@[n]@));
        assert(keys_view(rest@) =~= all.subrange(n + 1, all.len() as int));
    }
    assert(all.take(all.len() as int) =~= all);
    out
}

/// The newest public key of a group.
#[derive(Debug)]
pub struct UserPublicKeyDataEntity {
    pub public_key_id: String,
    pub public_key: String,
    pub public_key_alg: String,
}

/// The storage id to fetch for a public key: its id where the table holds the marker.
pub fn public_key_fetch_id(data: &UserPublicKeyDataEntity) -> (id: Option<String>)
    ensures
        id.deep_view() == if data.public_key@ == extern_marker() {
            Some(public_key_id(data.public_key_id@))
        } else {
            None
        },
{
    if is_extern(data.public_key.as_str()) {
        Some(prefixed("pk_", data.public_key_id.as_str()))
    } else {
        None
    }
}

/// Puts a fetched public key back: where the table holds the marker and the
/// storage returned a key under the key's storage id, that key replaces the
/// marker, and the id is removed from `fetched_keys`.
pub fn resolve_public_key(data: &mut UserPublicKeyDataEntity, fetched_keys: &mut FetchedKeys)
    ensures
        final(data).public_key@ == resolve_field(
            old(data).public_key@,
            public_key_id(old(data).public_key_id@),
            old(fetched_keys)@,
        ),
        final(data).public_key_id == old(data).public_key_id,
        final(data).public_key_alg == old(data).public_key_alg,
        final(fetched_keys)@ == if old(data).public_key@ == extern_marker() {
            old(fetched_keys)@.remove(public_key_id(old(data).public_key_id@))
        } else {
            old(fetched_keys)@
        },
{
    if is_extern(data.public_key.as_str()) {
        let id = prefixed("pk_", data.public_key_id.as_str());
        match fetched_keys.take(id.as_str()) {
            Some(k) => {
                data.public_key = k;
            },
            None => {},
        }
    }
}

/// The key material a new group is created with.
#[derive(Debug)]
pub struct GroupKeyMaterial {
    pub encrypted_private_group_key: String,
    pub public_group_key: String,
    pub encrypted_sign_key: Option<String>,
    pub verify_key: Option<String>,
}

/// The text view of [`GroupKeyMaterial`].
pub struct GroupKeyMaterialView {
    pub encrypted_private_group_key: Seq<char>,
    pub public_group_key: Seq<char>,
    pub encrypted_sign_key: Option<Seq<char>>,
    pub verify_key: Option<Seq<char>>,
}

impl View for GroupKeyMaterial {
    type V = GroupKeyMaterialView;

    open spec fn view(&self) -> GroupKeyMaterialView {
        GroupKeyMaterialView {
            encrypted_private_group_key: self.encrypted_private_group_key@,
            public_group_key: self.public_group_key@,
            encrypted_sign_key: self.encrypted_sign_key.deep_view(),
            verify_key: self.verify_key.deep_view(),
        }
    }
}

/// Whether the material carries a sign key pair (both its keys).
pub open spec fn material_signs(m: GroupKeyMaterialView) -> bool {
    m.encrypted_sign_key is Some && m.verify_key is Some
}

/// The material that the group tables get: the marker in place of every key,
/// and no sign keys unless both of them are present.
pub open spec fn spec_table_material(m: GroupKeyMaterialView) -> GroupKeyMaterialView {
    GroupKeyMaterialView {
        encrypted_private_group_key: extern_marker(),
        public_group_key: extern_marker(),
        encrypted_sign_key: if material_signs(m) { Some(extern_marker()) } else { None },
        verify_key: if material_signs(m) { Some(extern_marker()) } else { None },
    }
}

/// The material that goes to the key storage: the keys themselves, the sign
/// keys only where both of them are present.
pub open spec fn spec_storage_material(m: GroupKeyMaterialView) -> GroupKeyMaterialView {
    GroupKeyMaterialView {
        encrypted_sign_key: if material_signs(m) { m.encrypted_sign_key } else { None },
        verify_key: if material_signs(m) { m.verify_key } else { None },
        ..m
    }
}

fn extern_string() -> (s: String)
    ensures
        s@ == extern_marker(),
{
    String::from_str("extern")
}

/// Splits the key material of a new group into what the group tables store
/// (markers) and what goes to the key storage.
pub fn split_group_key_material(data: GroupKeyMaterial) -> (res: (GroupKeyMaterial, GroupKeyMaterial))
    ensures
        res.0@ == spec_table_material(data@),
        res.1@ == spec_storage_material(data@),
{
    let GroupKeyMaterial { encrypted_private_group_key, public_group_key, encrypted_sign_key, verify_key } = data;
    let (table_sign, stored_sign, table_verify, stored_verify) = match (encrypted_sign_key, verify_key) {
        (Some(sign_key), Some(verify)) => (Some(extern_string()), Some(sign_key), Some(extern_string()), Some(verify)),
        _ => (None, None, None, None),
    };
    let table = GroupKeyMaterial {
        encrypted_private_group_key: extern_string(),
        public_group_key: extern_string(),
        encrypted_sign_key: table_sign,
        verify_key: table_verify,
    };
    let stored = GroupKeyMaterial {
        encrypted_private_group_key,
        public_group_key,
        encrypted_sign_key: stored_sign,
        verify_key: stored_verify,
    };
    (table, stored)
}

/// A key and the id it is stored under in the key storage.
#[derive(Debug)]
pub struct KeyStorage {
    pub key: String,
    pub id: String,
}

/// The entries (id, key) that a new group uploads to the key storage for its
/// first key pair `key_id`: the public and the private key, then the verify
/// and the sign key where the group signs.
pub open spec fn spec_storage_entries(
    key_id: Seq<char>,
    stored: GroupKeyMaterialView,
) -> Seq<(Seq<char>, Seq<char>)> {
    seq![
        (public_key_id(key_id), stored.public_group_key),
        (private_key_id(key_id), stored.encrypted_private_group_key),
    ] + if material_signs(stored) {
        seq![
            (verify_key_id(key_id), stored.verify_key->0),
            (sign_key_id(key_id), stored.encrypted_sign_key->0),
        ]
    } else {
        Seq::empty()
    }
}

/// The (id, key) pairs of a list of storage entries.
pub open spec fn storage_pairs(entries: Seq<KeyStorage>) -> Seq<(Seq<char>, Seq<char>)> {
    entries.map_values(|e: KeyStorage| (e.id@, e.key@))
}

fn storage_entry(prefix: &str, key_id: &str, key: String) -> (e: KeyStorage)
    ensures
        e.id@ == prefix@ + key_id@,
        e.key@ == key@,
{
    KeyStorage { key, id: prefixed(prefix, key_id) }
}

/// The entries that a new group uploads to the key storage.
pub fn group_key_storage(key_id: &str, stored: GroupKeyMaterial) -> (entries: Vec<KeyStorage>)
    ensures
        storage_pairs(entries@) == spec_storage_entries(key_id@, stored@),
{
    let GroupKeyMaterial { encrypted_private_group_key, public_group_key, encrypted_sign_key, verify_key } = stored;
    let mut entries: Vec<KeyStorage> = Vec::new();
    entries.push(storage_entry("pk_", key_id, public_group_key));
    entries.push(storage_entry("sk_", key_id, encrypted_private_group_key));
    match (encrypted_sign_key, verify_key) {
        (Some(sign_key), Some(verify)) => {
            entries.push(storage_entry("vk_", key_id, verify));
            entries.push(storage_entry("sign_k_", key_id, sign_key));
        },
        _ => {},
    }
    assert(storage_pairs(entries@) =~= spec_storage_entries(key_id@, stored@));
    entries
}

/// The map that the key storage holds after the given entries were uploaded
/// in order, a later entry replacing an earlier one with the same id.
pub open spec fn entries_map(entries: Seq<(Seq<char>, Seq<char>)>) -> Map<Seq<char>, Seq<char>>
    decreases entries.len(),
{
    if entries.len() == 0 {
        Map::empty()
    } else {
        entries_map(entries.drop_last()).insert(entries.last().0, entries.last().1)
    }
}

/// A group key row as the group tables keep it for the first key pair of a
/// new group: the key pair id, the table material, and the key pair id as
/// sign key pair id where the group signs.
pub open spec fn stored_row_matches(
    row: GroupUserKeysView,
    key_id: Seq<char>,
    table: GroupKeyMaterialView,
) -> bool {
    &&& row.key_pair_id == key_id
    &&& row.encrypted_private_group_key == table.encrypted_private_group_key
    &&& row.public_group_key == table.public_group_key
    &&& row.encrypted_sign_key == table.encrypted_sign_key
    &&& row.verify_key == table.verify_key
    &&& row.encrypted_sign_key is Some ==> row.keypair_sign_id == Some(key_id)
}

/// Creating a group and fetching its first key back gives the keys it was
/// created with: every id that the fetch asks for was uploaded, and putting
/// the uploaded keys back into the stored row restores the private, public,
/// sign and verify keys. This holds where the material has both sign keys or
/// neither.
pub proof fn lemma_created_group_keys_round_trip(
    material: GroupKeyMaterialView,
    key_id: Seq<char>,
    row: GroupUserKeysView,
)
    requires
        (material.encrypted_sign_key is Some) == (material.verify_key is Some),
        stored_row_matches(row, key_id, spec_table_material(material)),
    ensures
        forall|i: int|
            0 <= i < spec_fetch_ids(row).len() ==> entries_map(
                spec_storage_entries(key_id, spec_storage_material(material)),
            ).contains_key(#[trigger] spec_fetch_ids(row)[i]),
        spec_resolved_keys(
            row,
            entries_map(spec_storage_entries(key_id, spec_storage_material(material))),
        ).encrypted_private_group_key == material.encrypted_private_group_key,
        spec_resolved_keys(
            row,
            entries_map(spec_storage_entries(key_id, spec_storage_material(material))),
        ).public_group_key == material.public_group_key,
        spec_resolved_keys(
            row,
            entries_map(spec_storage_entries(key_id, spec_storage_material(material))),
        ).encrypted_sign_key == material.encrypted_sign_key,
        spec_resolved_keys(
            row,
            entries_map(spec_storage_entries(key_id, spec_storage_material(material))),
        ).verify_key == material.verify_key,
{
    let stored = spec_storage_material(material);
    let entries = spec_storage_entries(key_id, stored);
    let store = entries_map(entries);
    lemma_storage_ids_distinct(key_id, key_id);
    reveal_strlit("extern");
    reveal_with_fuel(entries_map, 5);
    assert(store.contains_key(public_key_id(key_id)));
    assert(store[public_key_id(key_id)] == material.public_group_key);
    assert(store.contains_key(private_key_id(key_id)));
    assert(store[private_key_id(key_id)] == material.encrypted_private_group_key);
    if material_signs(material) {
        assert(store.contains_key(verify_key_id(key_id)));
        assert(store[verify_key_id(key_id)] == material.verify_key->0);
        assert(store.contains_key(sign_key_id(key_id)));
        assert(store[sign_key_id(key_id)] == material.encrypted_sign_key->0);
        assert(has_sign_keys(row));
        assert(spec_fetch_ids(row) =~= seq![
            private_key_id(key_id),
            public_key_id(key_id),
            sign_key_id(key_id),
            verify_key_id(key_id),
        ]);
    } else {
        assert(!has_sign_keys(row));
        assert(spec_fetch_ids(row) =~= seq![private_key_id(key_id), public_key_id(key_id)]);
    }
}

/// The keys that the key storage hands back for a fetch: for every id asked
/// for that the storage holds, the key it holds, and nothing else.
pub open spec fn storage_answer(
    store: Map<Seq<char>, Seq<char>>,
    ids: Seq<Seq<char>>,
    fetched: Map<Seq<char>, Seq<char>>,
) -> bool {
    &&& forall|id: Seq<char>| #[trigger] fetched.contains_key(id) <==> (ids.contains(id) && store.contains_key(id))
    &&& forall|id: Seq<char>| fetched.contains_key(id) ==> #[trigger] fetched[id] == store[id]
}

/// A group key stored at creation reads back as it was created: where the
/// group tables still hold the row written for the first key pair, and the
/// key storage still holds every entry uploaded for it (whatever else it
/// holds), the keys that the storage answers for the row's fetch ids, put
/// back into the row, are the private, public, sign and verify keys the
/// group was created with. This holds where the material has both sign keys
/// or neither.
pub proof fn lemma_group_keys_read_back(
    material: GroupKeyMaterialView,
    key_id: Seq<char>,
    row: GroupUserKeysView,
    store: Map<Seq<char>, Seq<char>>,
    fetched: Map<Seq<char>, Seq<char>>,
)
    requires
        (material.encrypted_sign_key is Some) == (material.verify_key is Some),
        stored_row_matches(row, key_id, spec_table_material(material)),
        entries_map(spec_storage_entries(key_id, spec_storage_material(material))).submap_of(store),
        storage_answer(store, spec_fetch_ids(row), fetched),
    ensures
        spec_resolved_keys(row, fetched).encrypted_private_group_key == material.encrypted_private_group_key,
        spec_resolved_keys(row, fetched).public_group_key == material.public_group_key,
        spec_resolved_keys(row, fetched).encrypted_sign_key == material.encrypted_sign_key,
        spec_resolved_keys(row, fetched).verify_key == material.verify_key,
{
    lemma_created_group_keys_round_trip(material, key_id, row);
    let uploaded = entries_map(spec_storage_entries(key_id, spec_storage_material(material)));
    let ids = spec_fetch_ids(row);
    assert forall|i: int| 0 <= i < ids.len() implies #[trigger] fetched.contains_key(ids[i])
        && fetched[ids[i]] == uploaded[ids[i]] by {
        assert(uploaded.contains_key(ids[i]));
        assert(ids.contains(ids[i]));
    }
    reveal_strlit("extern");
    if material_signs(material) {
        assert(spec_fetch_ids(row) =~= seq![
            private_key_id(key_id),
            public_key_id(key_id),
            sign_key_id(key_id),
            verify_key_id(key_id),
        ]);
        assert(fetched.contains_key(ids[2]));
        assert(fetched.contains_key(ids[3]));
    } else {
        assert(spec_fetch_ids(row) =~= seq![private_key_id(key_id), public_key_id(key_id)]);
    }
    assert(fetched.contains_key(ids[0]));
    assert(fetched.contains_key(ids[1]));
}

} // verus!
