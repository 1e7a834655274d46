//! The API-endpoint catalog: tag mapping, demo seeding, partial updates
//! and the enable/disable toggles.

use heyi_admin::endpoints::{toggle_message, ApiEndpointTable};
use heyi_admin::errors::CatalogError;
use heyi_admin::models::{ApiConfig, ApiEndpoint, ApiType};

fn endpoint(id: &str, name: &str) -> ApiEndpoint {
    ApiEndpoint {
        id: id.to_string(),
        name: name.to_string(),
        api_type: ApiType::OpenAI,
        base_url: "/v1".to_string(),
        enabled: true,
        config: ApiConfig {
            model_name: "deepseek-chat".to_string(),
            api_key: None,
            max_tokens: Some(4096),
            timeout: Some(30),
            retry_count: Some(3),
        },
    }
}

#[test]
fn tag_names_map_to_kinds() {
    assert_eq!(ApiType::from_tag("openai"), ApiType::OpenAI);
    assert_eq!(ApiType::from_tag("anthropic"), ApiType::Anthropic);
    assert_eq!(ApiType::from_tag("codex"), ApiType::Codex);
    assert_eq!(ApiType::from_tag("opencode"), ApiType::OpenCode);
    assert_eq!(
        ApiType::from_tag("somethingelse"),
        ApiType::Custom("unknown".to_string())
    );
    assert_eq!(ApiType::from_tag(""), ApiType::Custom("unknown".to_string()));
}

#[test]
fn demo_seed_is_idempotent() {
    let mut table = ApiEndpointTable::new();
    table.seed_demo_if_empty();
    assert_eq!(table.rows.len(), 1);
    assert_eq!(table.rows[0].id, "demo-api-1");
    assert_eq!(table.rows[0].name, "OpenAI Compatible");
    assert_eq!(table.rows[0].api_type, ApiType::OpenAI);
    assert_eq!(table.rows[0].base_url, "/v1");
    assert!(table.rows[0].enabled);

    table.seed_demo_if_empty();
    assert_eq!(table.rows.len(), 1);
}

#[test]
fn insert_get_and_duplicate_rejection() {
    let mut table = ApiEndpointTable::new();
    assert!(table.insert(endpoint("a", "first")).is_ok());
    assert!(table.insert(endpoint("b", "second")).is_ok());
    // A second row under an existing id is rejected, never overwritten.
    assert!(table.insert(endpoint("a", "imposter")).is_err());
    assert_eq!(table.rows.len(), 2);
    assert_eq!(table.get("a").unwrap().name, "first");
    assert_eq!(table.get("missing"), Err(CatalogError::NotFound));
    assert_eq!(table.list().len(), 2);
}

#[test]
fn partial_update_touches_only_given_fields() {
    let mut table = ApiEndpointTable::new();
    table.insert(endpoint("a", "first")).unwrap();

    let updated = table
        .update("a", Some("renamed".to_string()), None, None)
        .unwrap();
    assert_eq!(updated.name, "renamed");
    assert_eq!(updated.base_url, "/v1");
    assert!(updated.enabled);

    let updated = table
        .update("a", None, Some("/v2".to_string()), Some(false))
        .unwrap();
    assert_eq!(updated.name, "renamed");
    assert_eq!(updated.base_url, "/v2");
    assert!(!updated.enabled);

    assert_eq!(
        table.update("missing", None, None, None),
        Err(CatalogError::NotFound)
    );
}

#[test]
fn enable_disable_toggle() {
    let mut table = ApiEndpointTable::new();
    table.insert(endpoint("a", "first")).unwrap();

    let disabled = table.set_enabled("a", false).unwrap();
    assert!(!disabled.enabled);
    assert!(!table.get("a").unwrap().enabled);

    let enabled = table.set_enabled("a", true).unwrap();
    assert!(enabled.enabled);

    assert_eq!(table.set_enabled("missing", true), Err(CatalogError::NotFound));

    assert_eq!(toggle_message("first", true), "API first enabled");
    assert_eq!(toggle_message("first", false), "API first disabled");
}

#[test]
fn endpoint_delete() {
    let mut table = ApiEndpointTable::new();
    table.insert(endpoint("a", "first")).unwrap();
    table.insert(endpoint("b", "second")).unwrap();
    assert_eq!(table.delete("a"), Ok(()));
    assert_eq!(table.delete("a"), Err(CatalogError::NotFound));
    assert_eq!(table.list().len(), 1);
    assert_eq!(table.rows[0].id, "b");
}
