//! The engines catalog, the API-key catalog and the settings singleton on
//! concrete runs.

use heyi_admin::catalog::{
    ApiKeyTable, EnginePayload, EngineTable, GatewaySettingsPayload, SettingsStore,
};
use heyi_admin::config::AppConfig;
use heyi_admin::errors::CatalogError;
use heyi_admin::numfmt::u64_to_dec;
use heyi_admin::services::{ModelManager, SystemMonitor};

fn payload(name: &str) -> EnginePayload {
    EnginePayload {
        name: name.to_string(),
        base_url: "http://upstream".to_string(),
        kind: "llm".to_string(),
        status: None,
        group_name: None,
        weight: None,
        priority: None,
        enabled: None,
    }
}

#[test]
fn engine_create_applies_defaults() {
    let mut engines = EngineTable::new();
    let rec = engines.create(payload("one"), 10).unwrap();
    assert_eq!(rec.name, "one");
    assert_eq!(rec.status, "active");
    assert_eq!(rec.group_name, "default");
    assert_eq!(rec.weight, 100);
    assert_eq!(rec.priority, 0);
    assert!(rec.enabled);
    assert_eq!(rec.created_at, 10);
    assert_eq!(rec.updated_at, 10);
    assert_eq!(rec.id.len(), 36);
    assert_eq!(engines.list(), vec![rec]);
}

#[test]
fn engine_get_update_delete() {
    let mut engines = EngineTable::new();
    let a = engines.create(payload("a"), 1).unwrap();
    let b = engines.create(payload("b"), 2).unwrap();

    assert_eq!(engines.get(&a.id).unwrap(), a);
    assert_eq!(engines.get("missing"), Err(CatalogError::NotFound));

    let mut p = payload("a2");
    p.status = Some("degraded".to_string());
    p.weight = Some(7);
    let a2 = engines.update(&a.id, p, 9).unwrap();
    assert_eq!(a2.id, a.id);
    assert_eq!(a2.name, "a2");
    assert_eq!(a2.status, "degraded");
    assert_eq!(a2.weight, 7);
    assert_eq!(a2.created_at, 1);
    assert_eq!(a2.updated_at, 9);

    assert_eq!(
        engines.update("missing", payload("x"), 9),
        Err(CatalogError::NotFound)
    );

    assert_eq!(engines.delete(&a.id), Ok(()));
    assert_eq!(engines.delete(&a.id), Err(CatalogError::NotFound));
    assert_eq!(engines.list(), vec![b]);
}

#[test]
fn api_keys_list_newest_first() {
    let mut keys = ApiKeyTable::new();
    let first = keys.create("first".to_string(), 10).unwrap();
    let second = keys.create("second".to_string(), 20).unwrap();
    // Minted later but stamped earlier: lands at the end, not the front.
    let backdated = keys.create("backdated".to_string(), 5).unwrap();

    assert_eq!(first.key.len(), 32);
    assert!(first.key.chars().all(|c| c.is_ascii_alphanumeric()));
    assert_ne!(first.key, second.key);

    let listed = keys.list();
    assert_eq!(listed.len(), 3);
    assert_eq!(listed[0], second);
    assert_eq!(listed[1], first);
    assert_eq!(listed[2], backdated);
}

#[test]
fn api_key_rotate_replaces_only_the_secret() {
    let mut keys = ApiKeyTable::new();
    let minted = keys.create("svc".to_string(), 10).unwrap();
    let rotated = keys.rotate(&minted.id).unwrap();
    assert_eq!(rotated.id, minted.id);
    assert_eq!(rotated.name, "svc");
    assert_eq!(rotated.created_at, 10);
    assert_eq!(rotated.key.len(), 32);
    assert!(rotated.key.chars().all(|c| c.is_ascii_alphanumeric()));
    assert_eq!(keys.list(), vec![rotated]);

    assert_eq!(keys.rotate("missing"), Err(CatalogError::NotFound));
    assert_eq!(keys.delete(&minted.id), Ok(()));
    assert_eq!(keys.delete(&minted.id), Err(CatalogError::NotFound));
    assert!(keys.list().is_empty());
}

#[test]
fn settings_seed_once_then_update() {
    let mut settings = SettingsStore::new();
    assert_eq!(settings.get(), Err(CatalogError::NotFound));

    settings.ensure_defaults(3);
    let seeded = settings.get().unwrap();
    assert_eq!(seeded.id, "default");
    assert_eq!(seeded.strategy, "weighted");
    assert!(seeded.failover_enabled);
    assert!(!seeded.vip_enabled);
    assert_eq!(seeded.updated_at, 3);

    // Seeding again never overwrites.
    settings.ensure_defaults(99);
    assert_eq!(settings.get().unwrap(), seeded);

    let updated = settings
        .update(
            GatewaySettingsPayload {
                strategy: "round_robin".to_string(),
                failover_enabled: false,
                vip_enabled: true,
                notes: "ops".to_string(),
            },
            50,
        )
        .unwrap();
    assert_eq!(updated.id, "default");
    assert_eq!(updated.strategy, "round_robin");
    assert!(!updated.failover_enabled);
    assert!(updated.vip_enabled);
    assert_eq!(updated.notes, "ops");
    assert_eq!(updated.updated_at, 50);
    assert_eq!(settings.get().unwrap(), updated);
}

#[test]
fn settings_update_without_seed_is_not_found() {
    let mut settings = SettingsStore::new();
    let r = settings.update(
        GatewaySettingsPayload {
            strategy: "weighted".to_string(),
            failover_enabled: true,
            vip_enabled: false,
            notes: String::new(),
        },
        1,
    );
    assert_eq!(r, Err(CatalogError::NotFound));
    assert_eq!(CatalogError::NotFound.status_code(), 404);
}

#[test]
fn decimal_rendering_is_exact() {
    assert_eq!(u64_to_dec(0), "0");
    assert_eq!(u64_to_dec(7), "7");
    assert_eq!(u64_to_dec(10), "10");
    assert_eq!(u64_to_dec(10814), "10814");
    assert_eq!(u64_to_dec(u64::MAX), "18446744073709551615");
}

#[test]
fn app_config_defaults() {
    let c = AppConfig::default();
    assert_eq!(c.host, "127.0.0.1");
    assert_eq!(c.port, 8080);
    assert_eq!(c.heyi_api_url, "http://localhost:10814");
    assert_eq!(c.heyi_api_key, None);
    assert_eq!(c.database_url, None);
    assert_eq!(c.redis_url, None);
    assert_eq!(c.log_level, "info");
    assert_eq!(c.admin_username.as_deref(), Some("admin"));
    assert_eq!(c.admin_password.as_deref(), Some("admin"));
}

#[test]
fn service_shells_construct() {
    let _monitor = SystemMonitor::new();
    let _models = ModelManager::new();
}
