use pluginstall::adapter::spiget::{
    ResourceId, SpigetApiClient, SpigetPlugin, SpigetVersion, VersionId,
};
use pluginstall::adapter::VersionSpec;
use pluginstall::error::{check_status, ApiError, NotFoundError};

fn version(id: u64, name: &str, date: i64) -> SpigetVersion {
    SpigetVersion {
        id: VersionId(id),
        name: name.to_string(),
        release_date: date,
    }
}

fn plugin(versions: Vec<SpigetVersion>) -> SpigetPlugin {
    SpigetPlugin::new(SpigetApiClient::new(), ResourceId(42), versions).unwrap()
}

#[test]
fn ids_parse_from_decimal_text() {
    assert_eq!(VersionId::from_str("123"), Ok(VersionId(123)));
    assert_eq!(VersionId::from_str("+7"), Ok(VersionId(7)));
    assert_eq!(
        VersionId::from_str("18446744073709551615"),
        Ok(VersionId(u64::MAX))
    );
    assert!(VersionId::from_str("18446744073709551616").is_err());
    assert!(VersionId::from_str("").is_err());
    assert!(VersionId::from_str("+").is_err());
    assert!(VersionId::from_str("-1").is_err());
    assert!(VersionId::from_str("1.0").is_err());
    assert!(VersionId::from_str(" 1").is_err());
    assert_eq!(ResourceId::from_str("42"), Ok(ResourceId(42)));
    assert!(ResourceId::from_str("x42").is_err());
}

#[test]
fn ids_print_in_decimal() {
    assert_eq!(VersionId(0).to_string(), "0");
    assert_eq!(VersionId(9).to_string(), "9");
    assert_eq!(VersionId(1234567890).to_string(), "1234567890");
    assert_eq!(ResourceId(u64::MAX).to_string(), "18446744073709551615");
}

#[test]
fn endpoint_addresses() {
    let api = SpigetApiClient::new();
    assert_eq!(
        api.compute_download_url(ResourceId(42), VersionId(9)).unwrap(),
        "https://api.spiget.org/v2/resources/42/versions/9/download/proxy"
    );
    assert_eq!(
        api.resource_details_url(ResourceId(42)).unwrap(),
        "https://api.spiget.org/v2/resources/42"
    );
    assert_eq!(
        api.resource_version_url(ResourceId(42), VersionId(5)).unwrap(),
        "https://api.spiget.org/v2/resources/42/versions/5"
    );
    assert_eq!(
        api.resource_version_latest_url(ResourceId(42)).unwrap(),
        "https://api.spiget.org/v2/resources/42/versions/latest"
    );
    assert_eq!(
        api.resource_versions_url(ResourceId(42), 10).unwrap(),
        "https://api.spiget.org/v2/resources/42/versions?size=10&sort=-releaseDate&fields=id,name,releaseDate"
    );
    assert_eq!(
        ResourceId(42).plugin_page().unwrap(),
        "https://www.spigotmc.org/resources/42"
    );
}

#[test]
fn unparseable_base_url_gives_no_address() {
    let api = SpigetApiClient::with_base_url("not a url".to_string());
    assert!(api.compute_download_url(ResourceId(1), VersionId(2)).is_none());
    assert!(matches!(
        SpigetPlugin::new(api, ResourceId(1), vec![version(2, "1.0", 0)]),
        Err(ApiError::InvalidUrl)
    ));
}

#[test]
fn version_id_mismatch_is_not_found() {
    let api = SpigetApiClient::new();
    assert_eq!(
        api.resource_version_download_url(ResourceId(42), VersionId(9), VersionId(8)),
        Err(ApiError::NotFound(NotFoundError::Version))
    );
    assert_eq!(
        api.resource_version_download_url(ResourceId(42), VersionId(9), VersionId(9)),
        Ok("https://api.spiget.org/v2/resources/42/versions/9/download/proxy".to_string())
    );
}

#[test]
fn status_codes_map_to_outcomes() {
    assert_eq!(check_status(200, NotFoundError::Version), Ok(()));
    assert_eq!(
        check_status(404, NotFoundError::ApiPlugin),
        Err(ApiError::NotFound(NotFoundError::ApiPlugin))
    );
    assert_eq!(
        check_status(500, NotFoundError::Version),
        Err(ApiError::UnexpectedHttpStatus(500))
    );
    assert_eq!(
        check_status(204, NotFoundError::Version),
        Err(ApiError::UnexpectedHttpStatus(204))
    );
}

#[test]
fn name_tie_break_picks_latest_publish_date() {
    let p = plugin(vec![
        version(30, "1.0", 3_000),
        version(20, "1.0", 2_000),
        version(10, "1.0", 1_000),
    ]);
    let found = p
        .version_from_spec(&VersionSpec::Name("1.0".to_string()))
        .unwrap()
        .unwrap();
    assert_eq!(found.version.id, VersionId(30));
    assert_eq!(found.publish_date(), Some(3_000));
    assert_eq!(
        found.download_url(),
        "https://api.spiget.org/v2/resources/42/versions/30/download/proxy"
    );
}

#[test]
fn search_skips_other_names() {
    let p = plugin(vec![
        version(9, "1.2", 2_000),
        version(5, "1.1", 1_000),
        version(4, "1.1", 500),
    ]);
    let found = p.search_version("1.1").unwrap();
    assert_eq!(found.version_identifier(), "5");
    assert_eq!(found.version_name(), "1.1");
    assert!(p.search_version("2.0").is_none());
}

#[test]
fn latest_is_first_listed() {
    let p = plugin(vec![version(9, "1.2", 2_000), version(5, "1.1", 1_000)]);
    let latest = p.version_from_spec(&VersionSpec::Latest).unwrap().unwrap();
    assert_eq!(latest.version.id, VersionId(9));
    assert!(plugin(vec![]).latest_version().is_none());
}

#[test]
fn identifier_lookup() {
    let p = plugin(vec![version(9, "1.2", 2_000), version(5, "1.1", 1_000)]);
    let v = p
        .version_from_spec(&VersionSpec::Identifier("5".to_string()))
        .unwrap()
        .unwrap();
    assert_eq!(v.version.name, "1.1");
    assert!(p
        .version_from_spec(&VersionSpec::Identifier("6".to_string()))
        .unwrap()
        .is_none());
    assert!(p
        .version_from_spec(&VersionSpec::Identifier("five".to_string()))
        .is_err());
}

#[test]
fn repeated_ids_keep_first_place_and_last_record() {
    let p = plugin(vec![
        version(9, "old", 2_000),
        version(5, "1.1", 1_000),
        version(9, "new", 2_500),
    ]);
    let listed = p.versions_up_to(10);
    assert_eq!(listed.len(), 2);
    assert_eq!(listed[0].version.name, "new");
    assert_eq!(listed[1].version.id, VersionId(5));
}

#[test]
fn versions_are_limited() {
    let p = plugin(vec![
        version(3, "c", 3),
        version(2, "b", 2),
        version(1, "a", 1),
    ]);
    let two = p.versions_up_to(2);
    assert_eq!(two.len(), 2);
    assert_eq!(two[0].version.id, VersionId(3));
    assert_eq!(two[1].version.id, VersionId(2));
    assert_eq!(p.versions_up_to(0).len(), 0);
    assert_eq!(p.versions_up_to(u64::MAX).len(), 3);
}

#[test]
fn version_spec_descriptions() {
    assert!(VersionSpec::Latest.is_latest());
    assert!(!VersionSpec::Name("1.0".to_string()).is_latest());
    assert_eq!(VersionSpec::Latest.describe(), "latest");
    assert_eq!(VersionSpec::Identifier("9".to_string()).describe(), "9");
}
