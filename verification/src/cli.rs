//! The command line: what each argument list asks for, and the texts the
//! commands print.

use vstd::prelude::*;
use crate::favorites::{ImportMode, ImportPreview};
use crate::text::{decimal, str_chars, string_from_chars, u64_decimal};

verus! {

/// What the program does after the command line was handled.
#[derive(Debug, Clone, Copy, PartialEq, Eq, Structural)]
pub enum CliOutcome {
    RunTui,
    Handled,
}

/// The configuration file that `pulsedeck config init` writes.
pub const CONFIG_TEMPLATE: &'static str = "# PulseDeck Configuration File
# Edit this file to customize your settings.
# Changes to theme, volume, and playback settings are hot-reloaded.
# Keybinding changes require a restart.

[audio]
# output_device = \"Built-in Speakers\"  # Uncomment to set a specific device
default_volume = 80  # 0–100

[ui]
theme = \"Retrowave\"  # Retrowave | Catppuccin Mocha | Catppuccin Macchiato | Catppuccin Frappé | Catppuccin Latte | Terminal
notifications_enabled = true
stream_metadata_enabled = true

[playback]
autoplay_last = false
save_history = false

[keybindings]
# path = \"keybindings.json\"  # Uncomment to load custom key mappings
";

/// A command asked for on the command line.
#[derive(Debug, Clone, PartialEq, Eq)]
pub enum CliCommand {
    /// No command: start the interface.
    RunTui,
    Export { path: String },
    Import { path: String, preview_only: bool, mode: ImportMode },
    ConfigInit,
    KeybindingsValidate { path: Option<String> },
    Version,
    Help,
}

pub enum CliCommandView {
    RunTui,
    Export(Seq<char>),
    Import(Seq<char>, bool, ImportMode),
    ConfigInit,
    KeybindingsValidate(Option<Seq<char>>),
    Version,
    Help,
}

impl View for CliCommand {
    type V = CliCommandView;

    open spec fn view(&self) -> CliCommandView {
        match self {
            CliCommand::RunTui => CliCommandView::RunTui,
            CliCommand::Export { path } => CliCommandView::Export(path@),
            CliCommand::Import { path, preview_only, mode } => CliCommandView::Import(path@, *preview_only, *mode),
            CliCommand::ConfigInit => CliCommandView::ConfigInit,
            CliCommand::KeybindingsValidate { path } => CliCommandView::KeybindingsValidate(
                match path {
                    Some(p) => Some(p@),
                    None => None,
                },
            ),
            CliCommand::Version => CliCommandView::Version,
            CliCommand::Help => CliCommandView::Help,
        }
    }
}

/// The options after `import <path>`: `--preview` previews only,
/// `--enrich-only` refreshes matching stations without adding new ones; the
/// first other option is an error.
pub open spec fn import_options(opts: Seq<Seq<char>>) -> Result<(bool, ImportMode), Seq<char>>
    decreases opts.len(),
{
    if opts.len() == 0 {
        Ok((false, ImportMode::All))
    } else {
        match import_options(opts.drop_last()) {
            Err(e) => Err(e),
            Ok((preview, mode)) => if opts.last() == "--preview"@ {
                Ok((true, mode))
            } else if opts.last() == "--enrich-only"@ {
                Ok((preview, ImportMode::EnrichExistingOnly))
            } else {
                Err("Unknown import option: "@ + opts.last()
                    + ". Usage: pulsedeck import <path> [--preview|--enrich-only]"@)
            },
        }
    }
}

/// The command of an argument list whose first item is the program name.
pub open spec fn cli_command(args: Seq<Seq<char>>) -> Result<CliCommandView, Seq<char>> {
    if args.len() < 2 {
        Ok(CliCommandView::RunTui)
    } else {
        let cmd = args[1];
        if cmd == "export"@ {
            if args.len() < 3 {
                Err("Missing output path for export. Usage: pulsedeck export <path>"@)
            } else {
                Ok(CliCommandView::Export(args[2]))
            }
        } else if cmd == "import"@ {
            if args.len() < 3 {
                Err("Missing input path for import. Usage: pulsedeck import <path>"@)
            } else {
                match import_options(args.skip(3)) {
                    Ok((preview, mode)) => Ok(CliCommandView::Import(args[2], preview, mode)),
                    Err(e) => Err(e),
                }
            }
        } else if cmd == "config"@ {
            if args.len() < 3 {
                Err("Missing config subcommand. Usage: pulsedeck config init"@)
            } else if args[2] == "init"@ {
                Ok(CliCommandView::ConfigInit)
            } else {
                Err("Unknown config subcommand: "@ + args[2] + ". Usage: pulsedeck config init"@)
            }
        } else if cmd == "keybindings"@ {
            if args.len() < 3 {
                Err("Missing keybindings subcommand. Usage: pulsedeck keybindings validate [path]"@)
            } else if args[2] == "validate"@ {
                Ok(CliCommandView::KeybindingsValidate(if args.len() > 3 { Some(args[3]) } else { None }))
            } else {
                Err("Unknown keybindings subcommand: "@ + args[2]
                    + ". Usage: pulsedeck keybindings validate [path]"@)
            }
        } else if cmd == "--version"@ || cmd == "-V"@ {
            Ok(CliCommandView::Version)
        } else if cmd == "--help"@ || cmd == "-h"@ {
            Ok(CliCommandView::Help)
        } else {
            Err("Unknown command: "@ + cmd + ". Run `pulsedeck --help` for usage."@)
        }
    }
}

pub open spec fn args_view(args: Seq<String>) -> Seq<Seq<char>> {
    args.map_values(|a: String| a@)
}

fn joined3(a: &str, b: &str, c: &str) -> (r: String)
    ensures
        r@ == a@ + b@ + c@,
{
    let mut out = str_chars(a);
    let mut m = str_chars(b);
    out.append(&mut m);
    let mut t = str_chars(c);
    out.append(&mut t);
    string_from_chars(out.as_slice())
}

fn is(arg: &String, lit: &str) -> (b: bool)
    ensures
        b == (arg@ == lit@),
{
    crate::text::str_eq_chars(lit, str_chars(arg.as_str()).as_slice())
}

/// The options after `import <path>`.
pub fn parse_import_options(opts: &[String]) -> (r: Result<(bool, ImportMode), String>)
    ensures
        match import_options(args_view(opts@)) {
            Ok(v) => r matches Ok(w) && w == v,
            Err(e) => r matches Err(m) && m@ == e,
        },
{
    assert(args_view(opts@).skip(0) =~= args_view(opts@));
    import_options_from(opts, 0)
}

/// The import options `args[from..]`.
fn import_options_from(args: &[String], from: usize) -> (r: Result<(bool, ImportMode), String>)
    requires
        from <= args@.len(),
    ensures
        match import_options(args_view(args@).skip(from as int)) {
            Ok(v) => r matches Ok(w) && w == v,
            Err(e) => r matches Err(m) && m@ == e,
        },
{
    let ghost ov = args_view(args@).skip(from as int);
    let mut preview_only = false;
    let mut mode = ImportMode::All;
    let mut i: usize = from;
    assert(ov.take(0) =~= Seq::<Seq<char>>::empty());
    while i < args.len()
        invariant
            from <= i <= args.len(),
            ov == args_view(args@).skip(from as int),
            import_options(ov.take(i - from)) == Ok::<(bool, ImportMode), Seq<char>>((preview_only, mode)),
        decreases args.len() - i,
    {
        assert(ov.take(i - from + 1).drop_last() =~= ov.take(i - from));
        assert(ov.take(i - from + 1).last() == args@[i as int]@);
        if is(&args[i], "--preview") {
            preview_only = true;
        } else if is(&args[i], "--enrich-only") {
            mode = ImportMode::EnrichExistingOnly;
        } else {
            let e = joined3(
                "Unknown import option: ",
                args[i].as_str(),
                ". Usage: pulsedeck import <path> [--preview|--enrich-only]",
            );
            proof {
                lemma_import_options_err_sticks(ov, i - from + 1);
            }
            return Err(e);
        }
        i += 1;
    }
    assert(ov.take(args.len() - from) =~= ov);
    Ok((preview_only, mode))
}

proof fn lemma_import_options_err_sticks(opts: Seq<Seq<char>>, k: int)
    requires
        0 <= k <= opts.len(),
        import_options(opts.take(k)) is Err,
    ensures
        import_options(opts) == import_options(opts.take(k)),
    decreases opts.len() - k,
{
    if k < opts.len() {
        assert(opts.take(k + 1).drop_last() =~= opts.take(k));
        lemma_import_options_err_sticks(opts, k + 1);
    } else {
        assert(opts.take(k) =~= opts);
    }
}

/// The command of an argument list whose first item is the program name.
pub fn parse_cli(args: &[String]) -> (r: Result<CliCommand, String>)
    ensures
        match cli_command(args_view(args@)) {
            Ok(c) => r matches Ok(d) && d@ == c,
            Err(e) => r matches Err(m) && m@ == e,
        },
{
    let ghost av = args_view(args@);
    if args.len() < 2 {
        return Ok(CliCommand::RunTui);
    }
    let cmd = &args[1];
    assert(av[1] == cmd@);
    if is(cmd, "export") {
        if args.len() < 3 {
            return Err(crate::text::string_from_str("Missing output path for export. Usage: pulsedeck export <path>"));
        }
        return Ok(CliCommand::Export { path: args[2].clone() });
    }
    if is(cmd, "import") {
        if args.len() < 3 {
            return Err(crate::text::string_from_str("Missing input path for import. Usage: pulsedeck import <path>"));
        }
        return match import_options_from(args, 3) {
            Ok((preview_only, mode)) => Ok(CliCommand::Import { path: args[2].clone(), preview_only, mode }),
            Err(e) => Err(e),
        };
    }
    if is(cmd, "config") {
        if args.len() < 3 {
            return Err(crate::text::string_from_str("Missing config subcommand. Usage: pulsedeck config init"));
        }
        assert(av[2] == args@[2]@);
        if is(&args[2], "init") {
            return Ok(CliCommand::ConfigInit);
        }
        return Err(joined3("Unknown config subcommand: ", args[2].as_str(), ". Usage: pulsedeck config init"));
    }
    if is(cmd, "keybindings") {
        if args.len() < 3 {
            return Err(crate::text::string_from_str("Missing keybindings subcommand. Usage: pulsedeck keybindings validate [path]"));
        }
        assert(av[2] == args@[2]@);
        if is(&args[2], "validate") {
            let path = if args.len() > 3 { Some(args[3].clone()) } else { None };
            return Ok(CliCommand::KeybindingsValidate { path });
        }
        return Err(joined3(
            "Unknown keybindings subcommand: ",
            args[2].as_str(),
            ". Usage: pulsedeck keybindings validate [path]",
        ));
    }
    if is(cmd, "--version") || is(cmd, "-V") {
        return Ok(CliCommand::Version);
    }
    if is(cmd, "--help") || is(cmd, "-h") {
        return Ok(CliCommand::Help);
    }
    Err(joined3("Unknown command: ", cmd.as_str(), ". Run `pulsedeck --help` for usage."))
}

/// The lines that describe an import preview.
pub open spec fn preview_lines(new: nat, enriched: nat, duplicates: nat, skipped: Seq<(Seq<char>, Seq<char>)>) -> Seq<Seq<char>> {
    if new == 0 && enriched == 0 && duplicates == 0 && skipped.len() == 0 {
        seq!["Import preview: no valid station changes found."@]
    } else {
        seq![
            "Import preview: "@ + decimal(new) + " new, "@ + decimal(enriched) + " enrichments, "@
                + decimal(duplicates) + " duplicates, "@ + decimal(skipped.len()) + " skipped."@,
        ] + skipped.map_values(|s: (Seq<char>, Seq<char>)| "Skipped: "@ + s.0 + " ("@ + s.1 + ")"@)
    }
}

fn push_chars(out: &mut Vec<char>, s: &str)
    ensures
        final(out)@ == old(out)@ + s@,
{
    let mut c = str_chars(s);
    out.append(&mut c);
}

fn push_count(out: &mut Vec<char>, n: usize)
    ensures
        final(out)@ == old(out)@ + decimal(n as nat),
{
    let mut c = u64_decimal(n as u64);
    out.append(&mut c);
}

/// The lines `pulsedeck import --preview` prints.
pub fn import_preview_report(preview: &ImportPreview) -> (lines: Vec<String>)
    ensures
        lines@.map_values(|l: String| l@) == preview_lines(
            preview.new_stations@.len(),
            preview.enrichments@.len(),
            preview.duplicates@.len(),
            preview.skipped@.map_values(|k: crate::favorites::ImportSkip| (k.name@, k.reason@)),
        ),
{
    let ghost sk = preview.skipped@.map_values(|k: crate::favorites::ImportSkip| (k.name@, k.reason@));
    let mut lines: Vec<String> = Vec::new();
    if preview.new_stations.len() == 0 && preview.enrichments.len() == 0 && preview.duplicates.len() == 0
        && preview.skipped.len() == 0 {
        lines.push(crate::text::string_from_str("Import preview: no valid station changes found."));
        assert(lines@.map_values(|l: String| l@) =~= seq!["Import preview: no valid station changes found."@]);
        return lines;
    }
    let mut head: Vec<char> = Vec::new();
    push_chars(&mut head, "Import preview: ");
    push_count(&mut head, preview.new_stations.len());
    push_chars(&mut head, " new, ");
    push_count(&mut head, preview.enrichments.len());
    push_chars(&mut head, " enrichments, ");
    push_count(&mut head, preview.duplicates.len());
    push_chars(&mut head, " duplicates, ");
    push_count(&mut head, preview.skipped.len());
    push_chars(&mut head, " skipped.");
    lines.push(string_from_chars(head.as_slice()));
    let ghost first = lines@.map_values(|l: String| l@);
    let mut i: usize = 0;
    while i < preview.skipped.len()
        invariant
            i <= preview.skipped@.len(),
            sk == preview.skipped@.map_values(|k: crate::favorites::ImportSkip| (k.name@, k.reason@)),
            lines@.map_values(|l: String| l@) == first + sk.take(i as int).map_values(
                |s: (Seq<char>, Seq<char>)| "Skipped: "@ + s.0 + " ("@ + s.1 + ")"@,
            ),
        decreases preview.skipped@.len() - i,
    {
        let skip = &preview.skipped[i];
        let mut line: Vec<char> = Vec::new();
        push_chars(&mut line, "Skipped: ");
        push_chars(&mut line, skip.name.as_str());
        push_chars(&mut line, " (");
        push_chars(&mut line, skip.reason.as_str());
        push_chars(&mut line, ")");
        let ghost before = lines@;
        lines.push(string_from_chars(line.as_slice()));
        assert(sk.take(i + 1) =~= sk.take(i as int).push(sk[i as int]));
        assert(lines@.map_values(|l: String| l@) =~= before.map_values(|l: String| l@).push(line@));
        i += 1;
    }
    assert(sk.take(preview.skipped@.len() as int) =~= sk);
    lines
}


/// Every option is `--preview` or `--enrich-only`.
pub open spec fn known_import_options(opts: Seq<Seq<char>>) -> bool {
    forall|i: int| 0 <= i < opts.len() ==> #[trigger] opts[i] == "--preview"@ || opts[i] == "--enrich-only"@
}

/// The import options are accepted exactly when each is `--preview` or
/// `--enrich-only`, in any order and number. Then only a preview is asked
/// for exactly when `--preview` is among them, and the stations are only
/// enriched exactly when `--enrich-only` is among them: neither flag sets
/// the other's part.
pub proof fn lemma_import_flags_are_independent(opts: Seq<Seq<char>>)
    ensures
        import_options(opts) is Ok <==> known_import_options(opts),
        known_import_options(opts) ==> import_options(opts) == Ok::<(bool, ImportMode), Seq<char>>((
            opts.contains("--preview"@),
            if opts.contains("--enrich-only"@) {
                ImportMode::EnrichExistingOnly
            } else {
                ImportMode::All
            },
        )),
    decreases opts.len(),
{
    reveal_strlit("--preview");
    reveal_strlit("--enrich-only");
    assert("--preview"@ != "--enrich-only"@) by {
        assert("--preview"@.len() != "--enrich-only"@.len());
    }
    if opts.len() > 0 {
        let init = opts.drop_last();
        let last = opts.last();
        lemma_import_flags_are_independent(init);
        assert(opts =~= init.push(last));
        assert(opts[opts.len() - 1] == last);
        if known_import_options(opts) {
            assert forall|i: int| 0 <= i < init.len() implies #[trigger] init[i] == "--preview"@ || init[i] == "--enrich-only"@ by {
                assert(init[i] == opts[i]);
            }
        }
        if known_import_options(init) && (last == "--preview"@ || last == "--enrich-only"@) {
            assert forall|i: int| 0 <= i < opts.len() implies #[trigger] opts[i] == "--preview"@ || opts[i] == "--enrich-only"@ by {
                if i < init.len() {
                    assert(opts[i] == init[i]);
                }
            }
        }
        assert forall|x: Seq<char>| opts.contains(x) <==> (init.contains(x) || last == x) by {
            if opts.contains(x) {
                let j = choose|j: int| 0 <= j < opts.len() && opts[j] == x;
                if j < init.len() {
                    assert(init[j] == x);
                }
            }
            if init.contains(x) {
                let j = choose|j: int| 0 <= j < init.len() && init[j] == x;
                assert(opts[j] == x);
            }
        }
    } else {
        assert(!opts.contains("--preview"@));
        assert(!opts.contains("--enrich-only"@));
    }
}

/// `pulsedeck import <path> <options>` with known options imports `path`,
/// previewing only when `--preview` is given and enriching only when
/// `--enrich-only` is given.
pub proof fn lemma_import_command(args: Seq<Seq<char>>)
    requires
        args.len() >= 3,
        args[1] == "import"@,
        known_import_options(args.skip(3)),
    ensures
        cli_command(args) == Ok::<CliCommandView, Seq<char>>(CliCommandView::Import(
            args[2],
            args.skip(3).contains("--preview"@),
            if args.skip(3).contains("--enrich-only"@) {
                ImportMode::EnrichExistingOnly
            } else {
                ImportMode::All
            },
        )),
{
    reveal_strlit("import");
    reveal_strlit("export");
    assert("import"@ != "export"@) by {
        assert("import"@[0] != "export"@[0]);
    }
    lemma_import_flags_are_independent(args.skip(3));
}

} // verus!
