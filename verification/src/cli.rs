//! The command line, as the program reads it, and the decisions taken on it
//! before the interface starts.

use vstd::prelude::*;
use crate::text::{decimal, decimal_string, push_str};

verus! {

/// Terminal operator console for the Telephone-Booth installation.
#[derive(Debug, Clone, PartialEq, Eq)]
pub struct Cli {
    /// An alternate configuration file instead of the default location.
    pub config: Option<String>,
    /// Run the interactive setup before launching, even when a configuration
    /// already exists.
    pub setup: bool,
    /// A non-interactive subcommand to run instead of the interface.
    pub command: Option<Command>,
}

/// Non-interactive subcommands: the tool runs one and exits.
#[derive(Debug, Clone, PartialEq, Eq)]
pub enum Command {
    /// Administrator data export and import (database and all audio).
    Data(DataCommand),
}

/// Administrator data backup operations.
#[derive(Debug, Clone, PartialEq, Eq)]
pub enum DataCommand {
    /// Download a complete data archive to a file.
    Export {
        /// Where to write the `.tar` archive.
        output: String,
    },
    /// Restore a complete data archive from a file.
    Import {
        /// The `.tar` archive to import.
        input: String,
    },
}

/// Whether the interactive setup runs before launch: never for a subcommand;
/// otherwise when asked for, or on a first run attached to a terminal that can
/// answer the prompts.
pub open spec fn setup_wanted(cli: Cli, first_run: bool, interactive: bool) -> bool {
    cli.command is None && (cli.setup || (first_run && interactive))
}

impl Cli {
    /// Whether to run the interactive setup before launching.
    pub fn should_run_setup(&self, first_run: bool, interactive: bool) -> (r: bool)
        ensures
            r == setup_wanted(*self, first_run, interactive),
    {
        self.command.is_none() && (self.setup || (first_run && interactive))
    }
}

/// The report after an export wrote `len` bytes to `path`.
pub fn export_report(len: u64, path: &str) -> (r: String)
    ensures
        r@ == "Wrote "@ + decimal(len as nat) + " bytes to "@ + path@ + "."@,
{
    let mut out = String::new();
    push_str(&mut out, "Wrote ");
    push_str(&mut out, decimal_string(len).as_str());
    push_str(&mut out, " bytes to ");
    push_str(&mut out, path);
    push_str(&mut out, ".");
    out
}

/// The per-table lines of an import report.
pub open spec fn row_lines(rows: Seq<(String, u64)>) -> Seq<Seq<char>> {
    rows.map_values(|r: (String, u64)| "    "@ + r.0@ + ": "@ + decimal(r.1 as nat))
}

/// The lines reporting a finished import.
pub open spec fn import_report_model(
    uploaded: u64,
    skipped: u64,
    rows: Seq<(String, u64)>,
) -> Seq<Seq<char>> {
    seq![
        "Import complete."@,
        "  audio blobs: "@ + decimal(uploaded as nat) + " uploaded, "@ + decimal(skipped as nat)
            + " skipped (already present)"@,
    ] + if rows.len() == 0 {
        seq!["  rows restored: none"@]
    } else {
        seq!["  rows restored:"@] + row_lines(rows)
    }
}

/// The lines reporting a finished import: the audio uploaded and skipped, and
/// the rows restored per table.
pub fn import_report(uploaded: u64, skipped: u64, rows: &Vec<(String, u64)>) -> (r: Vec<String>)
    ensures
        r@.map_values(|s: String| s@) == import_report_model(uploaded, skipped, rows@),
{
    let mut out: Vec<String> = Vec::new();
    out.push("Import complete.".to_owned());
    let mut blobs = String::new();
    push_str(&mut blobs, "  audio blobs: ");
    push_str(&mut blobs, decimal_string(uploaded).as_str());
    push_str(&mut blobs, " uploaded, ");
    push_str(&mut blobs, decimal_string(skipped).as_str());
    push_str(&mut blobs, " skipped (already present)");
    out.push(blobs);
    if rows.len() == 0 {
        out.push("  rows restored: none".to_owned());
        assert(out@.map_values(|s: String| s@) =~= import_report_model(uploaded, skipped, rows@));
        return out;
    }
    out.push("  rows restored:".to_owned());
    let ghost head = out@.map_values(|s: String| s@);
    let mut i: usize = 0;
    while i < rows.len()
        invariant
            i <= rows@.len(),
            rows@.len() > 0,
            head.len() == 3,
            out@.map_values(|s: String| s@) == head + row_lines(rows@.take(i as int)),
        decreases rows@.len() - i,
    {
        let mut line = String::new();
        push_str(&mut line, "    ");
        push_str(&mut line, rows[i].0.as_str());
        push_str(&mut line, ": ");
        push_str(&mut line, decimal_string(rows[i].1).as_str());
        let ghost before = out@;
        let ghost l = line@;
        out.push(line);
        assert(rows@.take(i + 1) =~= rows@.take(i as int).push(rows@[i as int]));
        assert(row_lines(rows@.take(i + 1)) =~= row_lines(rows@.take(i as int)).push(l));
        assert(out@.map_values(|s: String| s@) =~= before.map_values(|s: String| s@).push(l));
        i = i + 1;
    }
    assert(rows@.take(rows@.len() as int) =~= rows@);
    assert(out@.map_values(|s: String| s@) =~= import_report_model(uploaded, skipped, rows@));
    out
}

} // verus!
