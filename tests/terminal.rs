use pluginstall::adapter::VersionSpec;
use pluginstall::cli::{
    Cli, Commands, Info, OutputCtrlArgs, PluginNotFoundError, PluginSpecArgs,
    VersionNameOrVersionIdentError, VersionNotFound, VersionSpecArgs,
};
use pluginstall::output::CliOutput;
use pluginstall::util::{calculate_border_widths, CliTable, CliTableCell, CliTableRow, TermColor};

fn args(name: Option<&str>, ident: Option<&str>) -> VersionSpecArgs {
    VersionSpecArgs {
        version_name: name.map(str::to_string),
        version_ident: ident.map(str::to_string),
    }
}

#[test]
fn version_spec_arguments() {
    assert_eq!(args(None, None).get(), Ok(VersionSpec::Latest));
    assert_eq!(args(Some("1.0"), None).get(), Ok(VersionSpec::Name("1.0".to_string())));
    assert_eq!(args(None, Some("9")).get(), Ok(VersionSpec::Identifier("9".to_string())));
    assert_eq!(args(Some("1.0"), Some("9")).get(), Err(VersionNameOrVersionIdentError));
}

#[test]
fn output_controls() {
    let cli = Cli {
        manifest: "pluginstall.manifest.toml".to_string(),
        cache: None,
        output_ctrl: OutputCtrlArgs { json: true, no_newline: true },
        command: Commands::Info(Info {
            plugin: PluginSpecArgs { plugin_name: "foo".to_string() },
            version_spec: args(None, None),
        }),
    };
    let out = cli.cli_output();
    assert_eq!(out, CliOutput { json: true, newline: false });
    assert_eq!(out.display("{}", "text"), "{}");
    let hr = CliOutput::new(false, true);
    assert_eq!(hr.display("{}", "text"), "text\n");
    assert_eq!(hr.error("bad"), "bad\n");
}

#[test]
fn error_messages_name_plugin_and_version() {
    let e = VersionNotFound {
        manifest_name: "foo".to_string(),
        version_spec: VersionSpec::Name("1.0".to_string()),
    };
    assert_eq!(e.message(), "Could not find the version '1.0' for the plugin 'foo'");
    let latest = VersionNotFound { manifest_name: "bar".to_string(), version_spec: VersionSpec::Latest };
    assert_eq!(latest.message(), "Could not find the version 'latest' for the plugin 'bar'");
    assert_eq!(
        PluginNotFoundError("qux".to_string()).message(),
        "Could not find a plugin with the name 'qux' in the manifest."
    );
}

#[test]
fn table_widths() {
    let mut headers = CliTableRow::new(&["Name".to_string(), "Date".to_string(), "Identifier".to_string()]);
    headers.color_all(TermColor::Green);
    assert!(headers.cells.iter().all(|c| c.color == TermColor::Green));
    let mut table = CliTable::new(headers);
    assert_eq!(table.columns(), 3);
    assert_eq!(table.calculate_max_widths(), vec![4, 4, 10]);
    assert_eq!(table.add(CliTableRow::new(&["1.2.3-SNAPSHOT".to_string(), "".to_string(), "9".to_string()])), 0);
    assert_eq!(table.add(CliTableRow::new(&["1.0".to_string(), "2024-01-01".to_string(), "12345".to_string()])), 1);
    assert_eq!(table.calculate_max_widths(), vec![14, 10, 10]);
    assert_eq!(table.rows(), 2);
    let removed = table.remove(0).unwrap();
    assert_eq!(removed.cells[0].text, "1.2.3-SNAPSHOT");
    assert!(table.remove(5).is_none());
    assert_eq!(table.calculate_max_widths(), vec![4, 10, 10]);
    assert_eq!(calculate_border_widths(3), 10);
    assert_eq!(calculate_border_widths(0), 1);
}

#[test]
fn empty_rows() {
    let row = CliTableRow::empty(3);
    assert_eq!(row.columns(), 3);
    assert!(row.is_empty());
    let mut colored = CliTableRow::empty(2);
    colored.bg_color = TermColor::Blue;
    assert!(!colored.is_empty());
    let text = CliTableRow::new(&["".to_string(), "x".to_string()]);
    assert!(!text.is_empty());
    assert_eq!(CliTableCell::new("héllo".to_string()).width(), 5);
    assert_eq!(CliTableCell::default().width(), 0);
}

use pluginstall::adapter::spiget::{ResourceId, SpigetResourceVersion, SpigetVersion, VersionId};
use pluginstall::cli::{SpigetResourceDetails, VersionsOutput, VersionsOutputCfg};

fn resource_version(id: u64, name: &str, date: i64) -> SpigetResourceVersion {
    SpigetResourceVersion {
        resource_id: ResourceId(42),
        version: SpigetVersion { id: VersionId(id), name: name.to_string(), release_date: date },
        download_url: format!("https://api.spiget.org/v2/resources/42/versions/{id}/download/proxy"),
    }
}

fn texts(row: &CliTableRow) -> Vec<String> {
    row.cells.iter().map(|c| c.text.clone()).collect()
}

#[test]
fn versions_table_rows() {
    let out = VersionsOutput {
        cfg: VersionsOutputCfg { strftime_format: "%Y-%m-%d".to_string(), write_download_urls: true },
        details: SpigetResourceDetails::new(ResourceId(42), "foo"),
        versions: vec![resource_version(9, "1.2", 1_700_000_000), resource_version(5, "1.1", 0)],
    };
    let table = out.table();
    assert_eq!(
        texts(&table.column_names),
        vec!["Version Name", "Version Date", "Version Identifier", "Download URL"]
    );
    assert!(table.column_names.cells.iter().all(|c| c.color == TermColor::Green));
    assert_eq!(
        texts(&table.rows[0]),
        vec!["1.2", "2023-11-14", "9", "https://api.spiget.org/v2/resources/42/versions/9/download/proxy"]
    );
    assert_eq!(table.rows[0].cells[0].color, TermColor::Green);
    assert_eq!(table.rows[0].cells[1].color, TermColor::Default);
    assert_eq!(texts(&table.rows[1])[1], "1970-01-01");
}

#[test]
fn versions_table_without_urls_and_with_a_bad_pattern() {
    let out = VersionsOutput {
        cfg: VersionsOutputCfg { strftime_format: "%Q".to_string(), write_download_urls: false },
        details: SpigetResourceDetails::new(ResourceId(42), "foo"),
        versions: vec![resource_version(9, "1.2", 1_700_000_000)],
    };
    let table = out.table();
    assert_eq!(table.columns(), 3);
    assert_eq!(texts(&table.rows[0]), vec!["1.2", "", "9"]);
}

#[test]
fn resource_details_page() {
    let details = SpigetResourceDetails::new(ResourceId(42), "foo");
    assert_eq!(details.manifest_name, "foo");
    assert_eq!(details.page_url.as_deref(), Some("https://www.spigotmc.org/resources/42"));
}
