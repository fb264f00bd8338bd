use issuer_core::handlers::auth::AuthClaims;
use issuer_core::handlers::context::HandlerContext;
use issuer_core::handlers::settings::{get, put, put_rows};
use issuer_core::settings::SettingRow;
use issuer_core::template_address::TemplateAddress;
use issuer_core::types::{SettingsJson, SettingsPutRequest};
use sqlx::sqlite::SqlitePoolOptions;
use sqlx::{Row, SqlitePool};

fn runtime() -> tokio::runtime::Runtime {
    tokio::runtime::Builder::new_multi_thread()
        .worker_threads(2)
        .enable_all()
        .build()
        .unwrap()
}

fn context() -> HandlerContext {
    HandlerContext::new("test-signing-secret".to_string())
}

fn claims() -> AuthClaims {
    AuthClaims { sub: "b@b.com".to_string(), company: "ACME".to_string(), exp: 2000000000 }
}

async fn open_store(name: &str) -> SqlitePool {
    let url = format!("sqlite:file:{}?mode=memory&cache=shared", name);
    let pool = SqlitePoolOptions::new()
        .max_connections(4)
        .min_connections(1)
        .connect(&url)
        .await
        .unwrap();
    sqlx::query("CREATE TABLE IF NOT EXISTS settings (name TEXT PRIMARY KEY, value TEXT)")
        .execute(&pool)
        .await
        .unwrap();
    pool
}

async fn fetch_rows(pool: &SqlitePool) -> Vec<SettingRow> {
    let rows = sqlx::query("SELECT name, value FROM settings")
        .fetch_all(pool)
        .await
        .unwrap();
    rows.into_iter()
        .map(|r| SettingRow { name: r.get::<String, _>(0), value: r.get::<Option<String>, _>(1) })
        .collect()
}

async fn upsert_rows(pool: &SqlitePool, rows: Vec<SettingRow>) {
    for row in rows {
        sqlx::query(
            "INSERT INTO settings (name, value) VALUES (?1, ?2) ON CONFLICT (name) DO UPDATE SET value = ?2",
        )
        .bind(row.name)
        .bind(row.value)
        .execute(pool)
        .await
        .unwrap();
    }
}

fn put_request(url: &str, template: Option<TemplateAddress>) -> SettingsPutRequest {
    SettingsPutRequest {
        settings: SettingsJson {
            indexer_json_rpc_url: url.to_string(),
            issuer_template: template,
        },
    }
}

/// The host's side of `settings.put`: upsert what the request plans, re-read
/// the table, and resolve the fresh rows.
async fn run_put(
    pool: SqlitePool,
    url: &'static str,
) -> issuer_core::types::SettingsPutResponse {
    let req = put_request(url, None);
    upsert_rows(&pool, put_rows(&req)).await;
    let rows = fetch_rows(&pool).await;
    put(&context(), claims(), rows).unwrap()
}

#[test]
fn fresh_store_get_returns_defaults() {
    runtime().block_on(async {
        let pool = open_store("fresh_store").await;
        let rows = fetch_rows(&pool).await;
        let resp = get(&context(), claims(), rows).unwrap();
        assert_eq!(resp.settings.indexer_json_rpc_url, "http://localhost:18300");
        assert!(resp.settings.issuer_template.is_none());
    });
}

#[test]
fn put_then_get_round_trips_exactly() {
    runtime().block_on(async {
        let pool = open_store("round_trip").await;
        let resp = run_put(pool.clone(), "http://x").await;
        assert_eq!(resp.settings.indexer_json_rpc_url, "http://x");
        assert!(resp.settings.issuer_template.is_none());

        let rows = fetch_rows(&pool).await;
        let got = get(&context(), claims(), rows).unwrap();
        assert_eq!(got.settings.indexer_json_rpc_url, "http://x");
        assert!(got.settings.issuer_template.is_none());
    });
}

#[test]
fn put_then_get_round_trips_the_template() {
    runtime().block_on(async {
        let pool = open_store("template_trip").await;
        let template = TemplateAddress::try_from_vec((0u8..32).collect()).unwrap();
        let req = put_request("http://x", Some(template));
        upsert_rows(&pool, put_rows(&req)).await;
        let rows = fetch_rows(&pool).await;
        let resp = put(&context(), claims(), rows).unwrap();
        assert_eq!(resp.settings.indexer_json_rpc_url, "http://x");
        let got = resp.settings.issuer_template.expect("expected the template back");
        assert_eq!(got.as_bytes(), &(0u8..32).collect::<Vec<u8>>()[..]);
    });
}

#[test]
fn put_clears_the_template_with_null() {
    runtime().block_on(async {
        let pool = open_store("clear_template").await;
        let template = TemplateAddress::try_from_vec(vec![5u8; 32]).unwrap();
        upsert_rows(&pool, put_rows(&put_request("http://x", Some(template)))).await;
        upsert_rows(&pool, put_rows(&put_request("http://x", None))).await;
        let rows = fetch_rows(&pool).await;
        let resp = get(&context(), claims(), rows).unwrap();
        assert!(resp.settings.issuer_template.is_none());
    });
}

#[test]
fn concurrent_puts_leave_one_full_value() {
    runtime().block_on(async {
        let pool = open_store("concurrent_puts").await;
        let one = tokio::spawn(run_put(pool.clone(), "http://one"));
        let two = tokio::spawn(run_put(pool.clone(), "http://two"));
        let r1 = one.await.unwrap();
        let r2 = two.await.unwrap();
        assert!(
            r1.settings.indexer_json_rpc_url == "http://one"
                || r1.settings.indexer_json_rpc_url == "http://two"
        );
        assert!(
            r2.settings.indexer_json_rpc_url == "http://one"
                || r2.settings.indexer_json_rpc_url == "http://two"
        );
        let rows = fetch_rows(&pool).await;
        let resp = get(&context(), claims(), rows).unwrap();
        let url = resp.settings.indexer_json_rpc_url;
        assert!(url == "http://one" || url == "http://two");
    });
}
