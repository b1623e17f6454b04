//! The arguments of the command line, and what they ask for.

use vstd::prelude::*;

use std::fmt::Write;

use crate::adapter::spiget::{url_join_of, ResourceId, SpigetResourceVersion, PLUGIN_PAGE_BASE_URL};
use crate::adapter::{PluginApiType, VersionSpec};
use crate::output::CliOutput;
use crate::session::DownloadReport;
use crate::text::decimal;
use crate::util::{CliTable, CliTableCell, CliTableRow, TermColor};

verus! {

/// Arguments that control the output.
#[derive(Clone, Copy, Debug, PartialEq, Eq, Structural)]
pub struct OutputCtrlArgs {
    /// Write JSON instead of text for humans.
    pub json: bool,
    /// Do not end the output with a newline.
    pub no_newline: bool,
}

/// Arguments that name a version: by name, by identifier, or neither for the latest.
#[derive(Clone, Debug)]
pub struct VersionSpecArgs {
    /// The display name of a version; the most recent version of that name is meant.
    pub version_name: Option<String>,
    /// The identifier of a version.
    pub version_ident: Option<String>,
}

/// Both a version name and a version identifier were given.
#[derive(Clone, Copy, Debug, PartialEq, Eq, Structural)]
pub struct VersionNameOrVersionIdentError;

impl VersionNameOrVersionIdentError {
    /// The message that describes this error.
    pub fn message(&self) -> (r: &'static str)
        ensures
            r@ == "You cannot specify both a version name and a version identifier."@,
    {
        "You cannot specify both a version name and a version identifier."
    }
}

impl VersionSpecArgs {
    /// The version that the arguments name: the latest when neither a name nor an identifier
    /// is given. Giving both is an error.
    pub fn get(&self) -> (r: Result<VersionSpec, VersionNameOrVersionIdentError>)
        ensures
            match (self.version_ident, self.version_name) {
                (Some(ident), None) => r == Ok::<VersionSpec, VersionNameOrVersionIdentError>(
                    VersionSpec::Identifier(ident),
                ),
                (None, Some(name)) => r == Ok::<VersionSpec, VersionNameOrVersionIdentError>(
                    VersionSpec::Name(name),
                ),
                (None, None) => r == Ok::<VersionSpec, VersionNameOrVersionIdentError>(
                    VersionSpec::Latest,
                ),
                (Some(_), Some(_)) => r == Err::<VersionSpec, VersionNameOrVersionIdentError>(
                    VersionNameOrVersionIdentError,
                ),
            },
    {
        match (&self.version_ident, &self.version_name) {
            (Some(ident), None) => Ok(VersionSpec::Identifier(ident.clone())),
            (None, Some(name)) => Ok(VersionSpec::Name(name.clone())),
            (None, None) => Ok(VersionSpec::Latest),
            (Some(_), Some(_)) => Err(VersionNameOrVersionIdentError),
        }
    }
}

/// The argument that names a plugin of the manifest.
#[derive(Clone, Debug)]
pub struct PluginSpecArgs {
    pub plugin_name: String,
}

/// The `versions` subcommand: list the versions of a plugin.
#[derive(Clone, Debug)]
pub struct Versions {
    pub plugin: PluginSpecArgs,
    /// How many versions to list.
    pub limit: u64,
    /// Show the download address of each version.
    pub download_url: bool,
    /// The strftime format of release dates.
    pub time_format: String,
}

/// How the `versions` subcommand writes text for humans.
#[derive(Clone, Debug)]
pub struct VersionsOutputCfg {
    /// The strftime format of release dates.
    pub strftime_format: String,
    /// Whether download addresses are written.
    pub write_download_urls: bool,
}

/// The `info` subcommand: show a plugin and one of its versions.
#[derive(Clone, Debug)]
pub struct Info {
    pub plugin: PluginSpecArgs,
    pub version_spec: VersionSpecArgs,
}

/// The `download` subcommand: download a version of a plugin.
#[derive(Clone, Debug)]
pub struct Download {
    pub plugin: PluginSpecArgs,
    pub version: VersionSpecArgs,
    /// The directory to download into; the working directory when not given.
    pub out_dir: Option<String>,
}

/// The output of the `download` subcommand.
#[derive(Clone, Debug)]
pub struct DownloadOutput {
    pub report: DownloadReport,
    pub download_path: String,
}

/// The subcommands.
#[derive(Clone, Debug)]
pub enum Commands {
    Versions(Versions),
    Info(Info),
    Download(Download),
}

/// The command line.
#[derive(Clone, Debug)]
pub struct Cli {
    /// The path of the manifest file.
    pub manifest: String,
    /// The path of the download cache, if not the default one.
    pub cache: Option<String>,
    pub output_ctrl: OutputCtrlArgs,
    pub command: Commands,
}

impl Cli {
    /// The output controller that the output arguments ask for.
    pub fn cli_output(&self) -> (r: CliOutput)
        ensures
            r.json == self.output_ctrl.json,
            r.newline == !self.output_ctrl.no_newline,
    {
        CliOutput::new(self.output_ctrl.json, !self.output_ctrl.no_newline)
    }
}

/// No plugin of the manifest has the given name.
#[derive(Clone, Debug)]
pub struct PluginNotFoundError(pub String);

impl PluginNotFoundError {
    /// The message that describes this error, naming the plugin.
    pub fn message(&self) -> (r: String)
        ensures
            r@ == "Could not find a plugin with the name '"@ + self.0@ + "' in the manifest."@,
    {
        let mut s = String::from_str("Could not find a plugin with the name '");
        s.append(self.0.as_str());
        s.append("' in the manifest.");
        s
    }
}

/// No version of a plugin matches a version spec.
#[derive(Clone, Debug)]
pub struct VersionNotFound {
    pub manifest_name: String,
    pub version_spec: VersionSpec,
}

impl VersionNotFound {
    /// The message that describes this error, naming the version spec and the plugin.
    pub fn message(&self) -> (r: String)
        ensures
            r@ == "Could not find the version '"@ + self.version_spec.describe_spec()
                + "' for the plugin '"@ + self.manifest_name@ + "'"@,
    {
        let mut s = String::from_str("Could not find the version '");
        let spec = self.version_spec.describe();
        s.append(spec.as_str());
        s.append("' for the plugin '");
        s.append(self.manifest_name.as_str());
        s.append("'");
        s
    }
}


/// What chrono's strftime formatting writes for the instant `timestamp` (seconds since the
/// Unix epoch, UTC) under the pattern `format`; nothing when the instant is out of range or
/// the pattern is invalid.
pub uninterp spec fn date_text_of(timestamp: i64, format: Seq<char>) -> Option<Seq<char>>;

/// Relies on chrono's `DateTime::format`: the instant written under a strftime pattern.
/// Writing through `write!` turns an invalid pattern into nothing instead of a panic.
#[verifier::external_body]
fn format_timestamp(timestamp: i64, format: &str) -> (r: Option<String>)
    ensures
        match r {
            Some(s) => date_text_of(timestamp, format@) == Some(s@),
            None => date_text_of(timestamp, format@) is None,
        },
{
    let date = chrono::DateTime::from_timestamp(timestamp, 0)?;
    let mut out = String::new();
    write!(out, "{}", date.format(format)).ok()?;
    Some(out)
}

/// The date column text of a version: its formatted publish date, or nothing.
pub open spec fn date_cell_text(v: SpigetResourceVersion, format: Seq<char>) -> Seq<char> {
    match date_text_of(v.version.release_date, format) {
        Some(s) => s,
        None => Seq::empty(),
    }
}

/// Details of a Spiget plugin, for output.
#[derive(Clone, Debug)]
pub struct SpigetResourceDetails {
    /// The plugin's name in the manifest.
    pub manifest_name: String,
    /// The address of the resource's page on the Spigot website, if it could be formed.
    pub page_url: Option<String>,
}

impl SpigetResourceDetails {
    /// The details of the resource `resource_id`, known in the manifest as `manifest_name`.
    pub fn new(resource_id: ResourceId, manifest_name: &str) -> (r: Self)
        ensures
            r.manifest_name@ == manifest_name@,
            match r.page_url {
                Some(u) => url_join_of(PLUGIN_PAGE_BASE_URL@, decimal(resource_id.0 as nat)) == Some(u@),
                None => url_join_of(PLUGIN_PAGE_BASE_URL@, decimal(resource_id.0 as nat)) is None,
            },
    {
        SpigetResourceDetails {
            manifest_name: String::from_str(manifest_name),
            page_url: resource_id.plugin_page(),
        }
    }

    /// The API type of these details.
    pub fn plugin_type(&self) -> (r: PluginApiType)
        ensures
            r == PluginApiType::Spiget,
    {
        PluginApiType::Spiget
    }
}

/// The output of the `info` subcommand.
#[derive(Clone, Debug)]
pub struct InfoOutput {
    pub details: SpigetResourceDetails,
    pub version: SpigetResourceVersion,
    /// Whether the version shown was asked for as the latest one.
    pub latest: bool,
}

/// The output of the `versions` subcommand.
#[derive(Clone, Debug)]
pub struct VersionsOutput {
    pub cfg: VersionsOutputCfg,
    pub details: SpigetResourceDetails,
    pub versions: Vec<SpigetResourceVersion>,
}

/// The column names of the versions table.
pub open spec fn versions_table_header(write_download_urls: bool) -> Seq<Seq<char>> {
    if write_download_urls {
        seq!["Version Name"@, "Version Date"@, "Version Identifier"@, "Download URL"@]
    } else {
        seq!["Version Name"@, "Version Date"@, "Version Identifier"@]
    }
}

/// The cells of the row of version `v` in the versions table, whose date cell reads `date`.
pub open spec fn versions_table_row(v: SpigetResourceVersion, date: Seq<char>, write_download_urls: bool) -> Seq<Seq<char>> {
    let cells = seq![v.version.name@, date, decimal(v.version.id.0 as nat)];
    if write_download_urls {
        cells.push(v.download_url@)
    } else {
        cells
    }
}

/// The texts of the cells of a row.
pub open spec fn row_texts(row: CliTableRow) -> Seq<Seq<char>> {
    row.cells@.map_values(|c: CliTableCell| c.text@)
}

fn text_row(texts: Vec<String>) -> (r: CliTableRow)
    ensures
        row_texts(r) == texts@.map_values(|s: String| s@),
        forall|i: int| 0 <= i < r.cells@.len() ==> (#[trigger] r.cells@[i]).color == TermColor::Default,
        r.bg_color == TermColor::Default,
{
    let r = CliTableRow::new(texts.as_slice());
    assert(row_texts(r) =~= texts@.map_values(|s: String| s@));
    r
}

impl VersionsOutput {
    /// The versions table, with the given text in the date cell of each version: a green
    /// header row, then one row per version with its name in green.
    pub fn table_with_dates(&self, dates: &Vec<String>) -> (r: CliTable)
        requires
            dates@.len() == self.versions@.len(),
        ensures
            r.wf(),
            row_texts(r.column_names) == versions_table_header(self.cfg.write_download_urls),
            forall|c: int| 0 <= c < r.column_names.cells@.len() ==> (#[trigger] r.column_names.cells@[c]).color == TermColor::Green,
            r.rows@.len() == self.versions@.len(),
            forall|i: int| 0 <= i < r.rows@.len() ==> row_texts(#[trigger] r.rows@[i]) == versions_table_row(
                self.versions@[i],
                dates@[i]@,
                self.cfg.write_download_urls,
            ) && r.rows@[i].cells@[0].color == TermColor::Green,
    {
        let mut names: Vec<String> = Vec::new();
        names.push(String::from_str("Version Name"));
        names.push(String::from_str("Version Date"));
        names.push(String::from_str("Version Identifier"));
        if self.cfg.write_download_urls {
            names.push(String::from_str("Download URL"));
        }
        let mut headers = text_row(names);
        let ghost header_texts = row_texts(headers);
        headers.color_all(TermColor::Green);
        assert(row_texts(headers) =~= header_texts);
        assert(header_texts =~= versions_table_header(self.cfg.write_download_urls));
        let mut table = CliTable::new(headers);
        let mut i: usize = 0;
        while i < self.versions.len()
            invariant
                i <= self.versions@.len(),
                dates@.len() == self.versions@.len(),
                table.wf(),
                table.column_names.cells@.len() == if self.cfg.write_download_urls { 4int } else { 3int },
                row_texts(table.column_names) == versions_table_header(self.cfg.write_download_urls),
                forall|c: int| 0 <= c < table.column_names.cells@.len() ==> (#[trigger] table.column_names.cells@[c]).color == TermColor::Green,
                table.rows@.len() == i,
                forall|k: int| 0 <= k < i ==> row_texts(#[trigger] table.rows@[k]) == versions_table_row(
                    self.versions@[k],
                    dates@[k]@,
                    self.cfg.write_download_urls,
                ) && table.rows@[k].cells@[0].color == TermColor::Green,
            decreases self.versions@.len() - i,
        {
            let v = &self.versions[i];
            let mut cells: Vec<String> = Vec::new();
            cells.push(v.version_name());
            cells.push(dates[i].clone());
            cells.push(v.version_identifier());
            if self.cfg.write_download_urls {
                cells.push(v.download_url.clone());
            }
            let row = text_row(cells);
            let ghost texts = row_texts(row);
            assert(texts =~= versions_table_row(*v, dates@[i as int]@, self.cfg.write_download_urls));
            let mut row = row;
            let cell = row.cells.remove(0);
            let green = CliTableCell { text: cell.text, color: TermColor::Green };
            row.cells.insert(0, green);
            assert(row_texts(row) =~= texts);
            table.add(row);
            i = i + 1;
        }
        table
    }

    /// The versions table, with each version's publish date written under the configured
    /// strftime pattern (an empty cell when it cannot be written).
    pub fn table(&self) -> (r: CliTable)
        ensures
            r.wf(),
            row_texts(r.column_names) == versions_table_header(self.cfg.write_download_urls),
            r.rows@.len() == self.versions@.len(),
            forall|i: int| 0 <= i < r.rows@.len() ==> row_texts(#[trigger] r.rows@[i]) == versions_table_row(
                self.versions@[i],
                date_cell_text(self.versions@[i], self.cfg.strftime_format@),
                self.cfg.write_download_urls,
            ),
    {
        let mut dates: Vec<String> = Vec::new();
        let mut i: usize = 0;
        while i < self.versions.len()
            invariant
                i <= self.versions@.len(),
                dates@.len() == i,
                forall|k: int| 0 <= k < i ==> (#[trigger] dates@[k])@ == date_cell_text(
                    self.versions@[k],
                    self.cfg.strftime_format@,
                ),
            decreases self.versions@.len() - i,
        {
            let text = match format_timestamp(self.versions[i].version.release_date, self.cfg.strftime_format.as_str()) {
                Some(s) => s,
                None => String::new(),
            };
            dates.push(text);
            i = i + 1;
        }
        self.table_with_dates(&dates)
    }
}

} // verus!
