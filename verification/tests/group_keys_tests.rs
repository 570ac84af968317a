use server_api::group_keys::{
    get_keys_from_extern_result, group_key_storage, is_extern, keys_to_fetch_for, prepare_keys_for_extern_fetch,
    public_key_fetch_id, resolve_public_key, resolve_user_group_keys, split_group_key_material, FetchedKeys,
    GroupKeyMaterial, GroupUserKeys, UserPublicKeyDataEntity,
};

fn key(id: &str, private: &str, public: &str, sign: Option<(&str, &str, &str)>) -> GroupUserKeys {
    GroupUserKeys {
        key_pair_id: id.to_string(),
        group_key_id: id.to_string(),
        encrypted_group_key: "egk".to_string(),
        group_key_alg: "alg".to_string(),
        encrypted_group_key_key_id: "ek".to_string(),
        encrypted_private_group_key: private.to_string(),
        public_group_key: public.to_string(),
        keypair_encrypt_alg: "kalg".to_string(),
        time: 5,
        keypair_sign_id: sign.map(|s| s.0.to_string()),
        encrypted_sign_key: sign.map(|s| s.1.to_string()),
        verify_key: sign.map(|s| s.2.to_string()),
        keypair_sign_alg: sign.map(|_| "salg".to_string()),
    }
}

#[test]
fn extern_marker() {
    assert!(is_extern("extern"));
    assert!(!is_extern("Extern"));
    assert!(!is_extern("extern "));
    assert!(!is_extern(""));
}

#[test]
fn fetch_ids_only_for_markers() {
    let mut ids = vec!["x".to_string()];
    prepare_keys_for_extern_fetch(&mut ids, &key("k1", "extern", "pub", None));
    assert_eq!(ids, vec!["x".to_string(), "sk_k1".to_string()]);
    let mut ids = vec![];
    prepare_keys_for_extern_fetch(&mut ids, &key("k1", "extern", "extern", Some(("s1", "extern", "extern"))));
    assert_eq!(ids, vec!["sk_k1", "pk_k1", "sign_k_s1", "vk_s1"]);
    let mut ids = vec![];
    prepare_keys_for_extern_fetch(&mut ids, &key("k1", "priv", "pub", Some(("s1", "sign", "extern"))));
    assert_eq!(ids, vec!["vk_s1"]);
}

#[test]
fn sign_keys_need_all_three_parts() {
    let mut k = key("k1", "priv", "pub", Some(("s1", "extern", "extern")));
    k.verify_key = None;
    let mut ids: Vec<String> = vec![];
    prepare_keys_for_extern_fetch(&mut ids, &k);
    assert!(ids.is_empty());
    let mut fetched = FetchedKeys::new();
    fetched.insert("sign_k_s1".to_string(), "SIGN".to_string());
    get_keys_from_extern_result(&mut k, &mut fetched);
    assert_eq!(k.encrypted_sign_key, Some("extern".to_string()));
    assert_eq!(fetched.get("sign_k_s1"), Some("SIGN".to_string()));
}

#[test]
fn fetched_keys_replace_markers() {
    let mut k = key("k1", "extern", "extern", Some(("s1", "extern", "extern")));
    let mut fetched = FetchedKeys::new();
    fetched.insert("sk_k1".to_string(), "PRIV".to_string());
    fetched.insert("pk_k1".to_string(), "PUB".to_string());
    fetched.insert("sign_k_s1".to_string(), "SIGN".to_string());
    fetched.insert("vk_s1".to_string(), "VERIFY".to_string());
    fetched.insert("other".to_string(), "O".to_string());
    get_keys_from_extern_result(&mut k, &mut fetched);
    assert_eq!(k.encrypted_private_group_key, "PRIV");
    assert_eq!(k.public_group_key, "PUB");
    assert_eq!(k.encrypted_sign_key, Some("SIGN".to_string()));
    assert_eq!(k.verify_key, Some("VERIFY".to_string()));
    assert_eq!(k.key_pair_id, "k1");
    assert_eq!(k.encrypted_group_key, "egk");
    assert_eq!(fetched.get("sk_k1"), None);
    assert_eq!(fetched.get("vk_s1"), None);
    assert_eq!(fetched.get("other"), Some("O".to_string()));
}

#[test]
fn missing_fetched_key_keeps_marker() {
    let mut k = key("k1", "extern", "pub", None);
    let mut fetched = FetchedKeys::new();
    get_keys_from_extern_result(&mut k, &mut fetched);
    assert_eq!(k.encrypted_private_group_key, "extern");
    assert_eq!(k.public_group_key, "pub");
}

#[test]
fn own_keys_are_not_replaced() {
    let mut k = key("k1", "priv", "pub", Some(("s1", "sign", "verify")));
    let mut fetched = FetchedKeys::new();
    fetched.insert("sk_k1".to_string(), "PRIV".to_string());
    get_keys_from_extern_result(&mut k, &mut fetched);
    assert_eq!(k.encrypted_private_group_key, "priv");
    assert_eq!(fetched.get("sk_k1"), Some("PRIV".to_string()));
}

#[test]
fn a_page_of_keys() {
    let keys = vec![key("k1", "extern", "extern", None), key("k2", "priv", "extern", None)];
    let ids = keys_to_fetch_for(&keys);
    assert_eq!(ids, vec!["sk_k1", "pk_k1", "pk_k2"]);
    let mut fetched = FetchedKeys::new();
    for id in &ids {
        fetched.insert(id.clone(), format!("V_{}", id));
    }
    let out = resolve_user_group_keys(keys, &mut fetched);
    assert_eq!(out.len(), 2);
    assert_eq!(out[0].encrypted_private_group_key, "V_sk_k1");
    assert_eq!(out[0].public_group_key, "V_pk_k1");
    assert_eq!(out[1].encrypted_private_group_key, "priv");
    assert_eq!(out[1].public_group_key, "V_pk_k2");
    assert_eq!(fetched.get("pk_k2"), None);
}

#[test]
fn same_key_pair_twice_takes_fetched_key_once() {
    let keys = vec![key("k1", "extern", "pub", None), key("k1", "extern", "pub", None)];
    let mut fetched = FetchedKeys::new();
    fetched.insert("sk_k1".to_string(), "PRIV".to_string());
    let out = resolve_user_group_keys(keys, &mut fetched);
    assert_eq!(out[0].encrypted_private_group_key, "PRIV");
    assert_eq!(out[1].encrypted_private_group_key, "extern");
}

#[test]
fn public_key_of_group() {
    let mut d = UserPublicKeyDataEntity {
        public_key_id: "k9".to_string(),
        public_key: "extern".to_string(),
        public_key_alg: "alg".to_string(),
    };
    assert_eq!(public_key_fetch_id(&d), Some("pk_k9".to_string()));
    let mut fetched = FetchedKeys::new();
    fetched.insert("pk_k9".to_string(), "PUB".to_string());
    resolve_public_key(&mut d, &mut fetched);
    assert_eq!(d.public_key, "PUB");
    assert_eq!(fetched.get("pk_k9"), None);
    assert_eq!(public_key_fetch_id(&d), None);
}

#[test]
fn split_moves_keys_to_storage() {
    let m = GroupKeyMaterial {
        encrypted_private_group_key: "PRIV".to_string(),
        public_group_key: "PUB".to_string(),
        encrypted_sign_key: Some("SIGN".to_string()),
        verify_key: Some("VERIFY".to_string()),
    };
    let (table, stored) = split_group_key_material(m);
    assert_eq!(table.encrypted_private_group_key, "extern");
    assert_eq!(table.public_group_key, "extern");
    assert_eq!(table.encrypted_sign_key, Some("extern".to_string()));
    assert_eq!(table.verify_key, Some("extern".to_string()));
    assert_eq!(stored.encrypted_private_group_key, "PRIV");
    let entries = group_key_storage("key1", stored);
    let pairs: Vec<(String, String)> = entries.into_iter().map(|e| (e.id, e.key)).collect();
    assert_eq!(
        pairs,
        vec![
            ("pk_key1".to_string(), "PUB".to_string()),
            ("sk_key1".to_string(), "PRIV".to_string()),
            ("vk_key1".to_string(), "VERIFY".to_string()),
            ("sign_k_key1".to_string(), "SIGN".to_string()),
        ]
    );
}

#[test]
fn split_drops_half_sign_pair() {
    let m = GroupKeyMaterial {
        encrypted_private_group_key: "PRIV".to_string(),
        public_group_key: "PUB".to_string(),
        encrypted_sign_key: Some("SIGN".to_string()),
        verify_key: None,
    };
    let (table, stored) = split_group_key_material(m);
    assert_eq!(table.encrypted_sign_key, None);
    assert_eq!(table.verify_key, None);
    assert_eq!(stored.encrypted_sign_key, None);
    assert_eq!(group_key_storage("key1", stored).len(), 2);
}

#[test]
fn created_group_keys_come_back() {
    let m = GroupKeyMaterial {
        encrypted_private_group_key: "PRIV".to_string(),
        public_group_key: "PUB".to_string(),
        encrypted_sign_key: Some("SIGN".to_string()),
        verify_key: Some("VERIFY".to_string()),
    };
    let (table, stored) = split_group_key_material(m);
    let mut storage = FetchedKeys::new();
    for e in group_key_storage("key1", stored) {
        storage.insert(e.id, e.key);
    }
    let mut row = key(
        "key1",
        &table.encrypted_private_group_key,
        &table.public_group_key,
        Some(("key1", table.encrypted_sign_key.as_deref().unwrap(), table.verify_key.as_deref().unwrap())),
    );
    let mut ids = vec![];
    prepare_keys_for_extern_fetch(&mut ids, &row);
    let mut fetched = FetchedKeys::new();
    for id in ids {
        let v = storage.get(&id).unwrap();
        fetched.insert(id, v);
    }
    get_keys_from_extern_result(&mut row, &mut fetched);
    assert_eq!(row.encrypted_private_group_key, "PRIV");
    assert_eq!(row.public_group_key, "PUB");
    assert_eq!(row.encrypted_sign_key, Some("SIGN".to_string()));
    assert_eq!(row.verify_key, Some("VERIFY".to_string()));
}

#[test]
fn created_group_keys_read_back_from_a_shared_storage() {
    let m = GroupKeyMaterial {
        encrypted_private_group_key: "PRIV".to_string(),
        public_group_key: "PUB".to_string(),
        encrypted_sign_key: None,
        verify_key: None,
    };
    let (table, stored) = split_group_key_material(m);
    let mut storage = FetchedKeys::new();
    storage.insert("sk_other".to_string(), "OTHER".to_string());
    storage.insert("pk_other".to_string(), "OTHER_PUB".to_string());
    for e in group_key_storage("key2", stored) {
        storage.insert(e.id, e.key);
    }
    let mut row = key("key2", &table.encrypted_private_group_key, &table.public_group_key, None);
    let mut ids = vec![];
    prepare_keys_for_extern_fetch(&mut ids, &row);
    let mut fetched = FetchedKeys::new();
    for id in ids {
        if let Some(v) = storage.get(&id) {
            fetched.insert(id, v);
        }
    }
    get_keys_from_extern_result(&mut row, &mut fetched);
    assert_eq!(row.encrypted_private_group_key, "PRIV");
    assert_eq!(row.public_group_key, "PUB");
    assert_eq!(row.encrypted_sign_key, None);
    assert_eq!(row.verify_key, None);
}
