//! The settings operations. The store round trips happen in the host: for
//! `settings.get` it fetches all rows and hands them in; for `settings.put`
//! it upserts the rows `put_rows` yields, re-reads the table, and hands the
//! re-read rows to `put` — the response is always the freshly reloaded
//! state, never the request echoed back.

use crate::handlers::auth::AuthClaims;
use crate::handlers::context::HandlerContext;
use crate::handlers::HandlerError;
use crate::settings::{spec_load, SettingRow, Settings, SettingsV};
use crate::types::{SettingsGetResponse, SettingsJson, SettingsPutRequest, SettingsPutResponse};
use vstd::prelude::*;

verus! {

/// The `settings.get` operation: resolves the fetched rows to settings with
/// the documented defaults; a row that fails to decode is an internal error.
pub fn get(_context: &HandlerContext, _claims: AuthClaims, rows: Vec<SettingRow>) -> (r: Result<
    SettingsGetResponse,
    HandlerError,
>)
    ensures
        r is Ok <==> spec_load(rows@) is Ok,
        r matches Ok(resp) ==> Ok::<SettingsV, ()>(resp.settings@) == spec_load(rows@),
        r matches Err(e) ==> e is Internal,
{
    match Settings::load(&rows) {
        Ok(settings) => Ok(
            SettingsGetResponse {
                settings: SettingsJson {
                    indexer_json_rpc_url: settings.indexer_json_rpc_url,
                    issuer_template: settings.issuer_template,
                },
            },
        ),
        Err(e) => Err(HandlerError::from_store_error(&e)),
    }
}

/// The rows a `settings.put` request upserts, one per settings field.
pub fn put_rows(req: &SettingsPutRequest) -> (rows: Vec<SettingRow>)
    ensures
        rows@.len() == 2,
        rows@[0].name@ == crate::settings::url_key(),
        rows@[0].value matches Some(v) && v@ == req.settings.indexer_json_rpc_url@,
        rows@[1].name@ == crate::settings::template_key(),
        match req.settings@.issuer_template {
            Some(b) => rows@[1].value matches Some(v) && v@
                == crate::serialization::spec_hex_encode(b),
            None => rows@[1].value is None,
        },
{
    let settings = Settings {
        indexer_json_rpc_url: req.settings.indexer_json_rpc_url.clone(),
        issuer_template: match &req.settings.issuer_template {
            Some(t) => Some(t.clone()),
            None => None,
        },
    };
    settings.save()
}

/// The `settings.put` operation after the upsert: resolves the re-read rows
/// exactly as a fresh `settings.get` would, so the caller sees what storage
/// now holds.
pub fn put(_context: &HandlerContext, _claims: AuthClaims, rows: Vec<SettingRow>) -> (r: Result<
    SettingsPutResponse,
    HandlerError,
>)
    ensures
        r is Ok <==> spec_load(rows@) is Ok,
        r matches Ok(resp) ==> Ok::<SettingsV, ()>(resp.settings@) == spec_load(rows@),
        r matches Err(e) ==> e is Internal,
{
    match Settings::load(&rows) {
        Ok(settings) => Ok(
            SettingsPutResponse {
                settings: SettingsJson {
                    indexer_json_rpc_url: settings.indexer_json_rpc_url,
                    issuer_template: settings.issuer_template,
                },
            },
        ),
        Err(e) => Err(HandlerError::from_store_error(&e)),
    }
}

} // verus!
