use warp_dre::errors::WarpDREError;
use warp_dre::interactor::{Interactor, InteractorOptions, DEFAULT_GATEWAY_URL};
use warp_dre::types::{Cached, Manifest, APP_NAME, CONTRACT_TX_ID, INPUT, SDK};
use warp_dre::warp_dre::{WarpDRE, WarpDREOptions, CONTRACT_PATH, DEFAULT_DRE_URL, STATUS_PATH};

fn pair(a: &str, b: &str) -> (String, String) {
    (a.to_string(), b.to_string())
}

#[test]
fn dre_default_url_is_normalised() {
    assert_eq!(DEFAULT_DRE_URL, "https://dre-1.warp.cc");
    let opts = WarpDREOptions::default_builder()
        .client(reqwest::Client::new())
        .build()
        .unwrap();
    assert_eq!(opts.url(), "https://dre-1.warp.cc/");
    let dre = WarpDRE::new(opts);
    assert_eq!(dre.endpoint(STATUS_PATH), "https://dre-1.warp.cc/status");
    assert_eq!(dre.endpoint(CONTRACT_PATH), "https://dre-1.warp.cc/contract");
}

#[test]
fn dre_default_client_is_built() {
    let opts = WarpDREOptions::default_builder().url("http://localhost:8080").build();
    let dre = WarpDRE::new(opts.unwrap());
    assert_eq!(dre.url(), "http://localhost:8080/");
}

#[test]
fn dre_rejects_bad_url() {
    let r = WarpDREOptions::default_builder()
        .url("not a url")
        .client(reqwest::Client::new())
        .build();
    assert_eq!(
        r.err(),
        Some(WarpDREError::ArgumentError("url is not valid".to_string()))
    );
}

#[test]
fn contract_params_set_id() {
    let q = WarpDRE::contract_params("_z0ch80z_daDUFqC9jHjfOL8nekJcok4ZRkE_UesYsk", Vec::new());
    assert_eq!(q, vec![pair("id", "_z0ch80z_daDUFqC9jHjfOL8nekJcok4ZRkE_UesYsk")]);
    let q = WarpDRE::contract_params("abc", vec![pair("query", "$.name"), pair("id", "zzz")]);
    assert_eq!(q, vec![pair("query", "$.name"), pair("id", "abc")]);
}

#[test]
fn interactor_needs_contract_address() {
    let r = InteractorOptions::default_builder()
        .client(reqwest::Client::new())
        .build();
    assert_eq!(
        r.err(),
        Some(WarpDREError::ArgumentError("contract_address must be initialized".to_string()))
    );
}

#[test]
fn interactor_rejects_empty_contract_address() {
    let opts = InteractorOptions::default_builder()
        .contract_address("")
        .client(reqwest::Client::new())
        .build()
        .unwrap();
    let r = Interactor::new(opts, arloader::Arweave::default());
    assert_eq!(
        r.err().map(|e| e.message()),
        Some("warp_dre: argument not valid contract address must be set".to_string())
    );
}

#[test]
fn interactor_tags_and_register_url() {
    let opts = InteractorOptions::default_builder()
        .contract_address("yS-CVbsg79p2sSrVAJZyRgE_d90BrxDjpAleRB-ZfXs")
        .build()
        .unwrap();
    let it = Interactor::new(opts, arloader::Arweave::default()).unwrap();
    assert_eq!(it.contract_address(), "yS-CVbsg79p2sSrVAJZyRgE_d90BrxDjpAleRB-ZfXs");
    assert_eq!(
        it.register_url(),
        format!("{}/sequencer/register", DEFAULT_GATEWAY_URL)
    );
    let input = "{\"function\":\"postMessage\",\"content\":\"Hello world!!!!!!\"}";
    let tags = it.create_tags(input);
    assert_eq!(
        tags,
        vec![
            pair(APP_NAME, "SmartWeaveAction"),
            pair("App-Version", "0.3.0"),
            pair(SDK, "Warp"),
            pair(CONTRACT_TX_ID, "yS-CVbsg79p2sSrVAJZyRgE_d90BrxDjpAleRB-ZfXs"),
            pair(INPUT, input),
        ]
    );
}

#[test]
fn interactor_custom_gateway() {
    let opts = InteractorOptions::default_builder()
        .url("https://gw.example.com/base")
        .contract_address("c1")
        .client(reqwest::Client::new())
        .build()
        .unwrap();
    let it = Interactor::new(opts, arloader::Arweave::default()).unwrap();
    assert_eq!(it.register_url(), "https://gw.example.com/base/sequencer/register");
}

#[test]
fn records_default_and_compare() {
    let c = Cached { cached_contracts: 2, ids: vec!["a".to_string(), "b".to_string()] };
    assert_eq!(c.clone(), c);
    assert_eq!(Manifest::default().owner, "");
}
