//! The persisted settings: named rows in the backing store, the fold that
//! loads them with documented defaults, and the rows an upsert writes.
//!
//! The store itself is an external collaborator reached by the host; this
//! module owns what the rows mean.

use crate::error::StoreError;
use crate::serialization::{deserialize_hex_try_from, spec_hex_decode, spec_hex_encode, valid_hex};
use crate::strutil::str_eq;
use crate::template_address::TemplateAddress;
use vstd::prelude::*;

verus! {

/// One named row of the settings table; an absent value is a row whose
/// value column is NULL.
#[derive(Debug)]
pub struct SettingRow {
    pub name: String,
    pub value: Option<String>,
}

/// The settings a fresh load yields when nothing was written.
#[derive(Debug)]
pub struct Settings {
    pub indexer_json_rpc_url: String,
    pub issuer_template: Option<TemplateAddress>,
}

/// The mathematical value of a `Settings`.
#[verifier::ext_equal]
pub ghost struct SettingsV {
    pub indexer_json_rpc_url: Seq<char>,
    pub issuer_template: Option<Seq<u8>>,
}

impl View for Settings {
    type V = SettingsV;

    open spec fn view(&self) -> SettingsV {
        SettingsV {
            indexer_json_rpc_url: self.indexer_json_rpc_url@,
            issuer_template: match self.issuer_template {
                Some(t) => Some(t@),
                None => None,
            },
        }
    }
}

/// The row name of the indexer endpoint.
pub open spec fn url_key() -> Seq<char> {
    "indexer.json_rpc_url"@
}

/// The row name of the issuer template.
pub open spec fn template_key() -> Seq<char> {
    "issuer.template"@
}

/// The default indexer endpoint.
pub open spec fn default_url() -> Seq<char> {
    "http://localhost:18300"@
}

/// What a fresh store resolves to: the default endpoint and no template.
pub open spec fn spec_default_settings() -> SettingsV {
    SettingsV { indexer_json_rpc_url: default_url(), issuer_template: None }
}

/// The result of folding the rows over the defaults, first row to last, a
/// later row overriding an earlier one of the same name. A row with a NULL
/// value or an unknown name is skipped; a template row that is not 64 hex
/// digits is a decode error.
pub open spec fn spec_load(rows: Seq<SettingRow>) -> Result<SettingsV, ()>
    decreases rows.len(),
{
    if rows.len() == 0 {
        Ok(spec_default_settings())
    } else {
        match spec_load(rows.drop_last()) {
            Err(()) => Err(()),
            Ok(prior) => {
                let row = rows.last();
                match row.value {
                    None => Ok(prior),
                    Some(value) => if row.name@ == url_key() {
                        Ok(SettingsV { indexer_json_rpc_url: value@, ..prior })
                    } else if row.name@ == template_key() {
                        if valid_hex(value@) && spec_hex_decode(value@).len() == 32 {
                            Ok(SettingsV { issuer_template: Some(spec_hex_decode(value@)), ..prior })
                        } else {
                            Err(())
                        }
                    } else {
                        Ok(prior)
                    },
                }
            },
        }
    }
}

proof fn lemma_load_err_prefix(rows: Seq<SettingRow>, i: int)
    requires
        0 <= i <= rows.len(),
        spec_load(rows.take(i)) is Err,
    ensures
        spec_load(rows) is Err,
    decreases rows.len() - i,
{
    if i == rows.len() {
        assert(rows.take(i) =~= rows);
    } else {
        assert(rows.take(i + 1).drop_last() =~= rows.take(i));
        lemma_load_err_prefix(rows, i + 1);
    }
}

impl Default for Settings {
    /// The documented defaults: endpoint `http://localhost:18300`, no
    /// template.
    fn default() -> (r: Settings)
        ensures
            r@ == spec_default_settings(),
    {
        Settings {
            indexer_json_rpc_url: "http://localhost:18300".to_owned(),
            issuer_template: None,
        }
    }
}

impl Settings {
    /// Fresh settings holding the documented defaults.
    pub fn new() -> (r: Settings)
        ensures
            r@ == spec_default_settings(),
    {
        Settings::default()
    }

    /// Resolves loaded rows to settings, applying the defaults for unset
    /// names; fails with a decode error exactly when a template row does not
    /// decode.
    pub fn load(rows: &Vec<SettingRow>) -> (r: Result<Settings, StoreError>)
        ensures
            r is Ok <==> spec_load(rows@) is Ok,
            r matches Ok(s) ==> Ok::<SettingsV, ()>(s@) == spec_load(rows@),
            r is Err ==> r->Err_0 is Decode,
    {
        let mut settings = Settings::new();
        let mut i: usize = 0;
        while i < rows.len()
            invariant
                i <= rows@.len(),
                spec_load(rows@.take(i as int)) == Ok::<SettingsV, ()>(settings@),
            decreases rows@.len() - i,
        {
            proof {
                assert(rows@.take(i as int + 1).drop_last() =~= rows@.take(i as int));
                assert(rows@.take(i as int + 1).last() == rows@[i as int]);
            }
            let row = &rows[i];
            match &row.value {
                None => {},
                Some(value) => {
                    if str_eq(row.name.as_str(), "indexer.json_rpc_url") {
                        settings.indexer_json_rpc_url = value.clone();
                    } else if str_eq(row.name.as_str(), "issuer.template") {
                        match deserialize_hex_try_from(value.as_str()) {
                            Ok(t) => {
                                settings.issuer_template = Some(t);
                            },
                            Err(e) => {
                                proof {
                                    lemma_load_err_prefix(rows@, i as int + 1);
                                }
                                return Err(e);
                            },
                        }
                    }
                },
            }
            proof {
                assert(spec_load(rows@.take(i as int + 1)) == Ok::<SettingsV, ()>(settings@));
            }
            i += 1;
        }
        proof {
            assert(rows@.take(rows@.len() as int) =~= rows@);
        }
        Ok(settings)
    }

    /// The two rows an upsert writes: the endpoint's value, and the
    /// template's hex form or NULL when it is absent.
    pub fn save(&self) -> (rows: Vec<SettingRow>)
        ensures
            rows@.len() == 2,
            rows@[0].name@ == url_key(),
            rows@[0].value matches Some(v) && v@ == self.indexer_json_rpc_url@,
            rows@[1].name@ == template_key(),
            match self@.issuer_template {
                Some(b) => rows@[1].value matches Some(v) && v@ == spec_hex_encode(b),
                None => rows@[1].value is None,
            },
    {
        let url_row = SettingRow {
            name: "indexer.json_rpc_url".to_owned(),
            value: Some(self.indexer_json_rpc_url.clone()),
        };
        let template_value = match &self.issuer_template {
            Some(t) => Some(t.to_hex()),
            None => None,
        };
        let template_row = SettingRow { name: "issuer.template".to_owned(), value: template_value };
        let mut rows: Vec<SettingRow> = Vec::new();
        rows.push(url_row);
        rows.push(template_row);
        rows
    }
}

/// Some row of `rows` has this name.
pub open spec fn has_row(rows: Seq<SettingRow>, name: Seq<char>) -> bool {
    exists|i: int| 0 <= i < rows.len() && #[trigger] rows[i].name@ == name
}

/// Every row of `rows` carries what saving `s` writes for its name: the
/// endpoint under the endpoint's key, the template's hex (or NULL for an
/// absent template) under the template's key.
pub open spec fn rows_carry(rows: Seq<SettingRow>, s: SettingsV) -> bool {
    &&& forall|i: int|
        0 <= i < rows.len() && #[trigger] rows[i].name@ == url_key() ==> (rows[i].value matches
        Some(v) && v@ == s.indexer_json_rpc_url)
    &&& forall|i: int|
        0 <= i < rows.len() && #[trigger] rows[i].name@ == template_key() ==> (match s
            .issuer_template {
            Some(b) => rows[i].value matches Some(v) && v@ == spec_hex_encode(b),
            None => rows[i].value is None,
        })
}

proof fn lemma_load_carries(rows: Seq<SettingRow>, s: SettingsV)
    requires
        s.issuer_template matches Some(b) ==> b.len() == 32,
        rows_carry(rows, s),
    ensures
        spec_load(rows) is Ok,
        spec_load(rows)->Ok_0.indexer_json_rpc_url == (if has_row(rows, url_key()) {
            s.indexer_json_rpc_url
        } else {
            default_url()
        }),
        spec_load(rows)->Ok_0.issuer_template == (match s.issuer_template {
            Some(b) => if has_row(rows, template_key()) {
                Some(b)
            } else {
                None
            },
            None => None::<Seq<u8>>,
        }),
    decreases rows.len(),
{
    reveal_strlit("indexer.json_rpc_url");
    reveal_strlit("issuer.template");
    assert(url_key().len() == 20);
    assert(template_key().len() == 15);
    if rows.len() == 0 {
    } else {
        let prefix = rows.drop_last();
        let last = rows.last();
        assert(rows_carry(prefix, s)) by {
            assert(forall|i: int| 0 <= i < prefix.len() ==> prefix[i] == rows[i]);
        }
        lemma_load_carries(prefix, s);
        if last.name@ == url_key() {
            assert(has_row(rows, url_key()));
        } else if last.name@ == template_key() {
            match s.issuer_template {
                Some(b) => {
                    crate::serialization::lemma_hex_round_trip(b);
                    assert(has_row(rows, template_key()));
                },
                None => {},
            }
        }
        assert forall|name: Seq<char>| has_row(prefix, name) implies has_row(rows, name) by {
            let i = choose|i: int| 0 <= i < prefix.len() && #[trigger] prefix[i].name@ == name;
            assert(rows[i].name@ == name);
        }
        assert forall|name: Seq<char>|
            has_row(rows, name) && last.name@ != name implies has_row(prefix, name) by {
            let i = choose|i: int| 0 <= i < rows.len() && #[trigger] rows[i].name@ == name;
            assert(i < prefix.len() && prefix[i].name@ == name);
        }
    }
}

/// Round trip in any row order: loading rows that all carry what saving `s`
/// wrote, with each settings key present on some row, resolves to exactly
/// `s` — however the store ordered the rows and whatever other names stand
/// beside them.
pub proof fn lemma_settings_round_trip_any_order(s: SettingsV, rows: Seq<SettingRow>)
    requires
        s.issuer_template matches Some(b) ==> b.len() == 32,
        rows_carry(rows, s),
        has_row(rows, url_key()),
        has_row(rows, template_key()),
    ensures
        spec_load(rows) == Ok::<SettingsV, ()>(s),
{
    lemma_load_carries(rows, s);
    assert(spec_load(rows)->Ok_0 =~= s);
}

/// Fresh store: loading no rows yields exactly the documented defaults.
pub proof fn lemma_fresh_store_defaults()
    ensures
        spec_load(Seq::<SettingRow>::empty()) == Ok::<SettingsV, ()>(spec_default_settings()),
{
}

/// Round trip: loading exactly the rows that `save` wrote resolves to the
/// saved settings, for any settings whose template is well-formed.
pub proof fn lemma_settings_round_trip(s: SettingsV, rows: Seq<SettingRow>)
    requires
        s.issuer_template matches Some(b) ==> b.len() == 32,
        rows.len() == 2,
        rows[0].name@ == url_key(),
        rows[0].value matches Some(v) && v@ == s.indexer_json_rpc_url,
        rows[1].name@ == template_key(),
        match s.issuer_template {
            Some(b) => rows[1].value matches Some(v) && v@ == spec_hex_encode(b),
            None => rows[1].value is None,
        },
    ensures
        spec_load(rows) == Ok::<SettingsV, ()>(s),
{
    reveal_strlit("indexer.json_rpc_url");
    reveal_strlit("issuer.template");
    assert(url_key().len() == 20);
    assert(template_key().len() == 15);
    assert(rows[0].name@ == url_key() && rows[1].name@ == template_key());
    lemma_settings_round_trip_any_order(s, rows);
}

} // verus!
