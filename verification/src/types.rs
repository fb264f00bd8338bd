//! The request and response bodies of the settings methods, shared with
//! clients of the service.

use crate::settings::SettingsV;
use crate::template_address::TemplateAddress;
use vstd::prelude::*;

verus! {

/// The settings as they travel in request and response bodies.
#[derive(Debug)]
pub struct SettingsJson {
    pub indexer_json_rpc_url: String,
    pub issuer_template: Option<TemplateAddress>,
}

impl View for SettingsJson {
    type V = SettingsV;

    open spec fn view(&self) -> SettingsV {
        SettingsV {
            indexer_json_rpc_url: self.indexer_json_rpc_url@,
            issuer_template: match self.issuer_template {
                Some(t) => Some(t@),
                None => None,
            },
        }
    }
}

/// The body answering `settings.get`.
#[derive(Debug)]
pub struct SettingsGetResponse {
    pub settings: SettingsJson,
}

/// The body of a `settings.put` request.
#[derive(Debug)]
pub struct SettingsPutRequest {
    pub settings: SettingsJson,
}

/// The body answering `settings.put`: the settings as re-read from storage.
#[derive(Debug)]
pub struct SettingsPutResponse {
    pub settings: SettingsJson,
}

} // verus!
