use onedrive_driver_rs::entity::onedrive_config::Model;
use onedrive_driver_rs::error::{OneDriveApiError, ServiceError};
use onedrive_driver_rs::models::{
    file_list_from_response, FileListItem, FileListItemType, GraphDriveItem, GraphFileFacet,
    GraphFolderFacet, GraphListResponse, TokenResponse,
};
use onedrive_driver_rs::service::{
    access_token_from_response, is_success_status, non_empty_config_field,
    onedrive_config_from_model, reusable_access_token, token_request_form, upstream_status_error,
    OneDriveConfig,
};
use onedrive_driver_rs::state::{AccessToken, NANOS_PER_SECOND};

fn model(client_id: &str, secret: &str, refresh: &str) -> Model {
    Model {
        id: 1,
        onedrive_root_path: "/Shared".to_string(),
        onedrive_client_id: client_id.to_string(),
        onedrive_client_secret: secret.to_string(),
        onedrive_refresh_token: refresh.to_string(),
    }
}

fn missing_field(r: Result<OneDriveConfig, ServiceError>) -> String {
    match r {
        Err(ServiceError::MissingOneDriveConfigField(f)) => f,
        _ => panic!("expected a missing field"),
    }
}

#[test]
fn config_fields_must_not_be_blank() {
    assert_eq!(non_empty_config_field("abc".to_string(), "F").ok(), Some("abc".to_string()));
    assert_eq!(non_empty_config_field(" a ".to_string(), "F").ok(), Some(" a ".to_string()));
    match non_empty_config_field(" \t\n".to_string(), "F") {
        Err(ServiceError::MissingOneDriveConfigField(f)) => assert_eq!(f, "F"),
        _ => panic!("expected an error"),
    }
}

#[test]
fn config_from_stored_row() {
    assert!(matches!(onedrive_config_from_model(None), Err(ServiceError::MissingOneDriveConfig)));
    assert_eq!(missing_field(onedrive_config_from_model(Some(model(" ", "", "")))), "ONEDRIVE_CLIENT_ID");
    assert_eq!(missing_field(onedrive_config_from_model(Some(model("id", "", "")))), "ONEDRIVE_CLIENT_SECRET");
    assert_eq!(missing_field(onedrive_config_from_model(Some(model("id", "s", "\u{2003}")))), "ONEDRIVE_REFRESH_TOKEN");
    let c = onedrive_config_from_model(Some(model("id", "s", "r"))).ok().unwrap();
    assert_eq!(
        (c.root_path.as_str(), c.client_id.as_str(), c.client_secret.as_str(), c.refresh_token.as_str()),
        ("/Shared", "id", "s", "r")
    );
}

#[test]
fn token_lifetime_keeps_a_minute_margin() {
    let t = AccessToken::new("tok".to_string(), 3600, 100);
    assert_eq!(t.expires_at, 100 + 3540 * NANOS_PER_SECOND);
    assert_eq!(t.expires_at, 3_540_000_000_100);
    assert!(!t.is_expired(100));
    assert!(!t.is_expired(3_540_000_000_099));
    assert!(t.is_expired(3_540_000_000_100));
    let short = AccessToken::new("tok".to_string(), 30, 100);
    assert_eq!(short.expires_at, 100);
    assert!(short.is_expired(100));
    let exact = AccessToken::new("tok".to_string(), 60, 7);
    assert!(exact.is_expired(7));
}

#[test]
fn cached_token_is_reused_only_before_expiry() {
    assert_eq!(reusable_access_token(&None, 0), None);
    let cached = Some(AccessToken { access_token: "tok".to_string(), expires_at: 50 });
    assert_eq!(reusable_access_token(&cached, 49), Some("tok".to_string()));
    assert_eq!(reusable_access_token(&cached, 50), None);
}

fn token_response(expires_in: i64) -> TokenResponse {
    TokenResponse {
        token_type: "Bearer".to_string(),
        scope: "Files.Read".to_string(),
        expires_in,
        ext_expires_in: expires_in,
        access_token: "access".to_string(),
        refresh_token: "refresh".to_string(),
    }
}

#[test]
fn token_answers_become_cached_tokens() {
    let t = access_token_from_response(token_response(3600), 10).ok().unwrap();
    assert_eq!((t.access_token.as_str(), t.expires_at), ("access", 3_540_000_000_010));
    assert!(matches!(
        access_token_from_response(token_response(0), 10),
        Err(OneDriveApiError::InvalidExpiresIn(0))
    ));
    assert!(matches!(
        access_token_from_response(token_response(-3), 10),
        Err(OneDriveApiError::InvalidExpiresIn(-3))
    ));
}

#[test]
fn token_request_form_fields() {
    let config = OneDriveConfig {
        root_path: String::new(),
        client_id: "cid".to_string(),
        client_secret: "sec".to_string(),
        refresh_token: "ref".to_string(),
    };
    let form = token_request_form(&config);
    let pairs: Vec<(&str, &str)> = form.iter().map(|(k, v)| (k.as_str(), v.as_str())).collect();
    assert_eq!(
        pairs,
        vec![
            ("client_id", "cid"),
            ("client_secret", "sec"),
            ("refresh_token", "ref"),
            ("grant_type", "refresh_token")
        ]
    );
}

#[test]
fn success_statuses() {
    assert!(is_success_status(200));
    assert!(is_success_status(204));
    assert!(is_success_status(299));
    assert!(!is_success_status(199));
    assert!(!is_success_status(300));
    assert!(!is_success_status(404));
}

#[test]
fn upstream_errors_carry_the_body() {
    match upstream_status_error(401, Ok("denied".to_string())) {
        OneDriveApiError::UpstreamStatus { status, body } => assert_eq!((status, body.as_str()), (401, "denied")),
        _ => panic!(),
    }
    match upstream_status_error(500, Err("eof".to_string())) {
        OneDriveApiError::UpstreamStatus { status, body } => {
            assert_eq!((status, body.as_str()), (500, "failed to read upstream error body: eof"))
        }
        _ => panic!(),
    }
}

fn drive_item(id: &str, folder: Option<Option<u64>>, mime: Option<Option<&str>>) -> GraphDriveItem {
    GraphDriveItem {
        id: id.to_string(),
        name: format!("{}-name", id),
        size: 42,
        last_modified: Some("2024-01-01T00:00:00Z".to_string()),
        folder: folder.map(|c| GraphFolderFacet { child_count: c }),
        file: mime.map(|m| GraphFileFacet { mime_type: m.map(|s| s.to_string()) }),
        download_url: Some(format!("https://dl/{}", id)),
    }
}

#[test]
fn drive_items_become_file_list_entries() {
    let folder = FileListItem::from(drive_item("f", Some(Some(3)), None));
    assert_eq!(folder.item_type, FileListItemType::Folder);
    assert_eq!(folder.child_count, Some(3));
    assert_eq!(folder.mime_type, None);
    assert_eq!((folder.id.as_str(), folder.name.as_str(), folder.size), ("f", "f-name", 42));

    let file = FileListItem::from(drive_item("x", None, Some(Some("text/plain"))));
    assert_eq!(file.item_type, FileListItemType::File);
    assert_eq!(file.child_count, None);
    assert_eq!(file.mime_type.as_deref(), Some("text/plain"));
    assert_eq!(file.download_url.as_deref(), Some("https://dl/x"));
    assert_eq!(file.last_modified.as_deref(), Some("2024-01-01T00:00:00Z"));

    let bare = FileListItem::from(drive_item("b", Some(None), Some(None)));
    assert_eq!(bare.item_type, FileListItemType::Folder);
    assert_eq!((bare.child_count, bare.mime_type), (None, None));
}

#[test]
fn listing_keeps_order_and_count() {
    let response = GraphListResponse {
        value: vec![drive_item("1", None, None), drive_item("2", Some(Some(0)), None)],
    };
    let items = file_list_from_response(response);
    assert_eq!(items.len(), 2);
    assert_eq!(items[0].id, "1");
    assert_eq!(items[1].id, "2");
    assert_eq!(items[1].item_type, FileListItemType::Folder);
    assert!(file_list_from_response(GraphListResponse { value: vec![] }).is_empty());
}
