//! The configuration file: where it lies, what it may hold, and what the
//! `config` command does and says.

use vstd::prelude::*;

use crate::backends::opt_text;
use crate::style::{
    all_schemes, all_themes, canonical_scheme_name, canonical_theme_name, parse_scheme,
    parse_theme, resolve, resolved, scheme_name, scheme_named, theme_name, theme_named,
    valid_scheme_names, valid_theme_names, SchemeOpt, ThemeOpt,
};
use crate::text::{holds, join, join_text, lemma_texts_held};
use crate::utils::opt_str_text;

verus! {

/// The directory of the configuration, below the base directory.
pub const CONFIG_DIR: &'static str = "diskfmt";

/// The name of the configuration file.
pub const CONFIG_FILE: &'static str = "config.toml";

/// The base directory below the home directory.
pub const HOME_CONFIG_DIR: &'static str = ".config";

/// What a new configuration file holds.
pub const CONFIG_TEMPLATE: &'static str =
    "# diskfmt configuration\n\n[style]\n# theme = \"DARK2\"\n# scheme = \"Fleet1\"\n";

/// The `[style]` table of the configuration file.
#[derive(Debug, PartialEq, Eq)]
pub struct StyleConfig {
    pub theme: Option<String>,
    pub scheme: Option<String>,
}

/// The configuration file.
#[derive(Debug, PartialEq, Eq)]
pub struct FileConfig {
    pub style: Option<StyleConfig>,
}

/// What the `config` command was asked to do, and the looks that the
/// configuration file chose.
#[derive(Debug, PartialEq, Eq)]
pub struct ConfigOpts {
    pub cfg_theme: Option<ThemeOpt>,
    pub cfg_scheme: Option<SchemeOpt>,
    pub print: bool,
    pub path: bool,
    pub edit: bool,
    pub init: bool,
    pub force: bool,
}

/// The directory below which the configuration lies.
#[derive(Clone, Copy, Debug, PartialEq, Eq, Structural)]
pub enum ConfigBase {
    /// The directory that `XDG_CONFIG_HOME` names.
    Xdg,
    /// The directory `.config` in the home directory.
    Home,
}

/// The base of the configuration: the directory that `XDG_CONFIG_HOME`
/// names; where that is unset or empty, `.config` below `HOME`; where
/// `HOME` is unset too, the empty `XDG_CONFIG_HOME` if it is set at all.
pub open spec fn config_base(xdg: Option<Seq<char>>, home: Option<Seq<char>>) -> Option<
    ConfigBase,
> {
    match xdg {
        Some(dir) => if dir.len() > 0 || home is None {
            Some(ConfigBase::Xdg)
        } else {
            Some(ConfigBase::Home)
        },
        None => if home is Some {
            Some(ConfigBase::Home)
        } else {
            None
        },
    }
}

/// Decides where the configuration lies, from what the environment holds
/// under `XDG_CONFIG_HOME` and `HOME`. The file is `CONFIG_FILE` in
/// `CONFIG_DIR` below the base.
pub fn resolve_config_path(xdg: Option<&str>, home: Option<&str>) -> (r: Option<ConfigBase>)
    ensures
        r == config_base(opt_str_text(xdg), opt_str_text(home)),
{
    match xdg {
        Some(dir) => {
            if !dir.is_empty() || home.is_none() {
                Some(ConfigBase::Xdg)
            } else {
                Some(ConfigBase::Home)
            }
        },
        None => {
            if home.is_some() {
                Some(ConfigBase::Home)
            } else {
                None
            }
        },
    }
}

/// A line to write, and whether it goes to the standard error.
#[derive(Debug, PartialEq, Eq)]
pub struct Line {
    pub text: String,
    pub to_stderr: bool,
}

impl View for Line {
    type V = (Seq<char>, bool);

    open spec fn view(&self) -> (Seq<char>, bool) {
        (self.text@, self.to_stderr)
    }
}

/// One thing that the `config` command does.
#[derive(Debug, PartialEq, Eq)]
pub enum ConfigAction {
    /// Write a new configuration file; `force` overwrites an old one.
    Init { force: bool },
    /// Open the configuration file in an editor.
    Edit,
    /// Write a line to the standard output.
    Say(String),
}

/// What one action is, as plain values.
pub enum ConfigActionView {
    Init { force: bool },
    Edit,
    Say(Seq<char>),
}

impl View for ConfigAction {
    type V = ConfigActionView;

    open spec fn view(&self) -> ConfigActionView {
        match *self {
            ConfigAction::Init { force } => ConfigActionView::Init { force },
            ConfigAction::Edit => ConfigActionView::Edit,
            ConfigAction::Say(line) => ConfigActionView::Say(line@),
        }
    }
}

/// What is said where the path of the configuration is asked for.
pub open spec fn path_line(path: Option<Seq<char>>) -> Seq<char> {
    match path {
        Some(p) => p,
        None => "(no config path)"@,
    }
}

/// What is said where the looks in force are asked for.
pub open spec fn style_lines(theme: ThemeOpt, scheme: SchemeOpt) -> Seq<char> {
    "theme = \""@ + theme_name(theme) + "\"\nscheme = \""@ + scheme_name(scheme) + "\""@
}

/// What is said where nothing is asked for.
pub open spec fn usage_line() -> Seq<char> {
    "Use: diskfmt config --print|--path|--edit|--init [--force]"@
}

/// One action for a flag that is set, and nothing for one that is not.
pub open spec fn when(flag: bool, action: ConfigActionView) -> Seq<ConfigActionView> {
    if flag {
        seq![action]
    } else {
        Seq::empty()
    }
}

/// What the `config` command does, in order: it makes a new file, says
/// where the file lies, opens it in an editor, and says which looks are in
/// force, each where it was asked to. Asked for nothing, it says how it is
/// used.
pub open spec fn config_actions(
    path: Option<Seq<char>>,
    cli_theme: Option<ThemeOpt>,
    cli_scheme: Option<SchemeOpt>,
    opts: ConfigOpts,
) -> Seq<ConfigActionView> {
    let eff = resolved(cli_theme, cli_scheme, opts.cfg_theme, opts.cfg_scheme);
    when(opts.init, ConfigActionView::Init { force: opts.force }) + when(
        opts.path,
        ConfigActionView::Say(path_line(path)),
    ) + when(opts.edit, ConfigActionView::Edit) + when(
        opts.print,
        ConfigActionView::Say(style_lines(eff.theme, eff.scheme)),
    ) + when(
        !opts.print && !opts.path && !opts.edit && !opts.init,
        ConfigActionView::Say(usage_line()),
    )
}

/// What was found where the configuration file should be.
#[derive(Debug, PartialEq, Eq)]
pub enum ConfigRead {
    /// The file could not be read.
    Unreadable,
    /// The file is no TOML of the expected form; the text says why.
    Malformed(String),
    /// The file, read.
    Parsed(FileConfig),
}

/// What is said of a theme that does not exist.
pub open spec fn invalid_theme_line(name: Seq<char>) -> Seq<char> {
    "Invalid theme '"@ + name + "'. Valid: "@ + join(
        all_themes().map_values(|t: ThemeOpt| theme_name(t)),
        ", "@,
    )
}

/// What is said of a scheme that does not exist.
pub open spec fn invalid_scheme_line(name: Seq<char>) -> Seq<char> {
    "Invalid scheme '"@ + name + "'. Valid: "@ + join(
        all_schemes().map_values(|s: SchemeOpt| scheme_name(s)),
        ", "@,
    )
}

/// The theme that a `[style]` table names and that does not exist.
pub open spec fn unknown_theme(style: StyleConfig) -> Option<Seq<char>> {
    match style.theme {
        Some(t) => if theme_named(t@) is None {
            Some(t@)
        } else {
            None
        },
        None => None,
    }
}

/// The scheme that a `[style]` table names and that does not exist.
pub open spec fn unknown_scheme(style: StyleConfig) -> Option<Seq<char>> {
    match style.scheme {
        Some(s) => if scheme_named(s@) is None {
            Some(s@)
        } else {
            None
        },
        None => None,
    }
}

/// Whether a configuration file is in order: it holds a `[style]` table,
/// and the theme and the scheme that the table names exist.
pub open spec fn config_ok(file: FileConfig) -> bool {
    match file.style {
        Some(style) => unknown_theme(style) is None && unknown_scheme(style) is None,
        None => false,
    }
}

/// What is said of the theme of a `[style]` table: nothing, unless the
/// table names a theme that does not exist.
pub open spec fn theme_findings(style: StyleConfig) -> Seq<(Seq<char>, bool)> {
    match unknown_theme(style) {
        Some(t) => seq![(invalid_theme_line(t), true)],
        None => Seq::empty(),
    }
}

/// What is said of the scheme of a `[style]` table: nothing, unless the
/// table names a scheme that does not exist.
pub open spec fn scheme_findings(style: StyleConfig) -> Seq<(Seq<char>, bool)> {
    match unknown_scheme(style) {
        Some(s) => seq![(invalid_scheme_line(s), true)],
        None => Seq::empty(),
    }
}

/// What is said of a configuration file: one line for each thing that is
/// wrong with it, the theme before the scheme, or that it is in order.
/// Each line goes with whether it is written to the standard error.
pub open spec fn config_findings(file: FileConfig) -> Seq<(Seq<char>, bool)> {
    match file.style {
        Some(style) => theme_findings(style) + scheme_findings(style) + (if config_ok(file) {
            seq![("Config OK"@, false)]
        } else {
            Seq::empty()
        }),
        None => seq![("Missing [style] table"@, true)],
    }
}

/// What is said after a look at what stands where the configuration
/// should be.
pub open spec fn validation_lines(path: Option<Seq<char>>, read: ConfigRead) -> Seq<
    (Seq<char>, bool),
> {
    match path {
        None => seq![("No config path"@, true)],
        Some(p) => match read {
            ConfigRead::Unreadable => seq![("Could not read "@ + p, true)],
            ConfigRead::Malformed(e) => seq![("TOML parse error: "@ + e@, true)],
            ConfigRead::Parsed(file) => config_findings(file),
        },
    }
}

/// What becomes of a request to write a new configuration file.
#[derive(Clone, Copy, Debug, PartialEq, Eq, Structural)]
pub enum WritePlan {
    /// There is no place for the file.
    NoPath,
    /// The file is there and stays as it is.
    Keep,
    /// The file is written, and the directories above it are made.
    Write,
}

/// What becomes of a request to write a new configuration file at `path`.
pub open spec fn write_plan(path: Option<Seq<char>>, overwrite: bool, present: bool) -> WritePlan {
    if path is None {
        WritePlan::NoPath
    } else if !overwrite && present {
        WritePlan::Keep
    } else {
        WritePlan::Write
    }
}

/// The program that opens the configuration file: what `VISUAL` names,
/// else what `EDITOR` names, else `xdg-open`.
pub open spec fn editor_text(visual: Option<Seq<char>>, editor: Option<Seq<char>>) -> Seq<char> {
    match visual {
        Some(v) => v,
        None => match editor {
            Some(e) => e,
            None => "xdg-open"@,
        },
    }
}

/// Knows where the configuration lies.
#[derive(Debug, PartialEq, Eq)]
pub struct ConfigManager {
    path: Option<String>,
}

impl ConfigManager {
    /// A manager for the configuration at `path`, or for none.
    pub fn new(path: Option<String>) -> (r: ConfigManager)
        ensures
            r.path_text() == opt_text(path),
    {
        ConfigManager { path }
    }

    /// Where the configuration lies.
    pub closed spec fn path_text(&self) -> Option<Seq<char>> {
        opt_text(self.path)
    }

    /// Where the configuration lies, if it lies anywhere.
    pub fn resolved_path(&self) -> (r: Option<String>)
        ensures
            opt_text(r) == self.path_text(),
    {
        self.path.clone()
    }

    /// Decides what the `config` command does.
    pub fn handle_config_command(
        &self,
        cli_theme: Option<ThemeOpt>,
        cli_scheme: Option<SchemeOpt>,
        opts: ConfigOpts,
    ) -> (r: Vec<ConfigAction>)
        ensures
            holds(r@, config_actions(self.path_text(), cli_theme, cli_scheme, opts)),
    {
        let mut r: Vec<ConfigAction> = Vec::new();
        if opts.init {
            r.push(ConfigAction::Init { force: opts.force });
        }
        if opts.path {
            r.push(
                ConfigAction::Say(
                    match &self.path {
                        Some(p) => p.clone(),
                        None => String::from_str("(no config path)"),
                    },
                ),
            );
        }
        if opts.edit {
            r.push(ConfigAction::Edit);
        }
        if opts.print {
            let eff = resolve(cli_theme, cli_scheme, opts.cfg_theme, opts.cfg_scheme);
            let mut line = String::from_str("theme = \"");
            line.append(canonical_theme_name(eff.theme).as_str());
            line.append("\"\nscheme = \"");
            line.append(canonical_scheme_name(eff.scheme).as_str());
            line.append("\"");
            r.push(ConfigAction::Say(line));
        }
        if !opts.print && !opts.path && !opts.edit && !opts.init {
            r.push(
                ConfigAction::Say(
                    String::from_str("Use: diskfmt config --print|--path|--edit|--init [--force]"),
                ),
            );
        }
        r
    }

    /// What is said after a new configuration file was asked for:
    /// `failure` tells why it could not be written, where it could not.
    pub fn init_line(&self, failure: Option<&str>) -> (r: Line)
        ensures
            r.to_stderr == (failure is Some),
            r.text@ == match failure {
                Some(e) => "Init failed: "@ + e@,
                None => match self.path_text() {
                    Some(p) => "Initialized: "@ + p,
                    None => "Initialized config (path unknown)"@,
                },
            },
    {
        match failure {
            Some(e) => {
                let mut text = String::from_str("Init failed: ");
                text.append(e);
                Line { text, to_stderr: true }
            },
            None => match &self.path {
                Some(p) => {
                    let mut text = String::from_str("Initialized: ");
                    text.append(p.as_str());
                    Line { text, to_stderr: false }
                },
                None => Line {
                    text: String::from_str("Initialized config (path unknown)"),
                    to_stderr: false,
                },
            },
        }
    }

    /// The looks that the configuration file chooses: the theme and the
    /// scheme that its `[style]` table names, each where it exists. A file
    /// that could not be read chooses nothing.
    pub fn get_styles(&self, file: Option<&FileConfig>) -> (r: (Option<ThemeOpt>, Option<SchemeOpt>))
        ensures
            r == match file {
                Some(FileConfig { style: Some(style) }) => (
                    match style.theme {
                        Some(t) => theme_named(t@),
                        None => None,
                    },
                    match style.scheme {
                        Some(s) => scheme_named(s@),
                        None => None,
                    },
                ),
                _ => (None, None),
            },
    {
        match file {
            Some(FileConfig { style: Some(style) }) => {
                let theme = match &style.theme {
                    Some(t) => parse_theme(t.as_str()),
                    None => None,
                };
                let scheme = match &style.scheme {
                    Some(s) => parse_scheme(s.as_str()),
                    None => None,
                };
                (theme, scheme)
            },
            _ => (None, None),
        }
    }

    /// Decides what becomes of a request to write a new configuration
    /// file: a file that is there is kept unless it may be overwritten.
    /// `present` says whether the file is there.
    pub fn write_default(&self, overwrite: bool, present: bool) -> (r: WritePlan)
        ensures
            r == write_plan(self.path_text(), overwrite, present),
    {
        if self.path.is_none() {
            WritePlan::NoPath
        } else if !overwrite && present {
            WritePlan::Keep
        } else {
            WritePlan::Write
        }
    }

    /// Judges the configuration file, and says what it found.
    pub fn validate(&self, read: &ConfigRead) -> (r: (bool, Vec<Line>))
        ensures
            r.0 == (self.path_text() is Some && (read matches ConfigRead::Parsed(file)
                && config_ok(*file))),
            holds(r.1@, validation_lines(self.path_text(), *read)),
    {
        let mut lines: Vec<Line> = Vec::new();
        let path = match &self.path {
            Some(p) => p,
            None => {
                lines.push(Line { text: String::from_str("No config path"), to_stderr: true });
                return (false, lines);
            },
        };
        match read {
            ConfigRead::Unreadable => {
                let mut text = String::from_str("Could not read ");
                text.append(path.as_str());
                lines.push(Line { text, to_stderr: true });
                (false, lines)
            },
            ConfigRead::Malformed(e) => {
                let mut text = String::from_str("TOML parse error: ");
                text.append(e.as_str());
                lines.push(Line { text, to_stderr: true });
                (false, lines)
            },
            ConfigRead::Parsed(file) => {
                let mut ok = true;
                match &file.style {
                    Some(style) => {
                        if let Some(t) = &style.theme {
                            if parse_theme(t.as_str()).is_none() {
                                ok = false;
                                let mut text = String::from_str("Invalid theme '");
                                text.append(t.as_str());
                                text.append("'. Valid: ");
                                let valid = valid_theme_names();
                                proof {
                                    lemma_texts_held(
                                        valid@,
                                        all_themes().map_values(|t: ThemeOpt| theme_name(t)),
                                    );
                                }
                                text.append(join_text(&valid, ", ").as_str());
                                lines.push(Line { text, to_stderr: true });
                            }
                        }
                        if let Some(s) = &style.scheme {
                            if parse_scheme(s.as_str()).is_none() {
                                ok = false;
                                let mut text = String::from_str("Invalid scheme '");
                                text.append(s.as_str());
                                text.append("'. Valid: ");
                                let valid = valid_scheme_names();
                                proof {
                                    lemma_texts_held(
                                        valid@,
                                        all_schemes().map_values(|s: SchemeOpt| scheme_name(s)),
                                    );
                                }
                                text.append(join_text(&valid, ", ").as_str());
                                lines.push(Line { text, to_stderr: true });
                            }
                        }
                        if ok {
                            lines.push(
                                Line { text: String::from_str("Config OK"), to_stderr: false },
                            );
                        }
                    },
                    None => {
                        lines.push(
                            Line {
                                text: String::from_str("Missing [style] table"),
                                to_stderr: true,
                            },
                        );
                        ok = false;
                    },
                }
                (ok, lines)
            },
        }
    }

    /// The program that opens the configuration file in `edit`.
    pub fn editor(visual: Option<String>, editor: Option<String>) -> (r: String)
        ensures
            r@ == editor_text(opt_text(visual), opt_text(editor)),
    {
        match visual {
            Some(v) => v,
            None => match editor {
                Some(e) => e,
                None => String::from_str("xdg-open"),
            },
        }
    }
}

} // verus!
