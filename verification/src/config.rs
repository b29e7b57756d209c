//! Where configuration files live.

use std::path::{Path, PathBuf};
use vstd::prelude::*;
use crate::text::{str_chars, string_from_chars};

verus! {

#[verifier::external_type_specification]
#[verifier::external_body]
pub struct ExPath(Path);

/// The configuration directory of the current name of the application.
pub const NEW_CONFIG_DIR: &'static str = "pulsedeck";

/// The configuration directory of the application's former name.
pub const OLD_CONFIG_DIR: &'static str = "driftfm";

/// The path that `Path::join` gives for `base` and the component `part`.
pub uninterp spec fn joined_path(base: &Path, part: Seq<char>) -> PathBuf;

/// The path that `PathBuf::as_path` borrows from `p`.
pub uninterp spec fn path_of(p: &PathBuf) -> &Path;

/// Calls `Path::join`. Claimed: the result is `joined_path` of the base and
/// the component's characters (`Path::join` depends on nothing else).
#[verifier::external_body]
fn path_join(base: &Path, part: &str) -> (r: PathBuf)
    ensures
        r == joined_path(base, part@),
{
    base.join(part)
}

/// Calls `PathBuf::as_path`. Claimed: the result is `path_of(p)`.
#[verifier::external_body]
fn path_buf_as_path(p: &PathBuf) -> (r: &Path)
    ensures
        r == path_of(p),
{
    p.as_path()
}

/// The file `file` of the configuration directory `config_dir` under `base`:
/// `base` joined with `config_dir`, then with `file`.
pub fn path_for(base: &Path, config_dir: &str, file: &str) -> (r: PathBuf)
    ensures
        r == joined_path(path_of(&joined_path(base, config_dir@)), file@),
{
    let dir = path_join(base, config_dir);
    path_join(path_buf_as_path(&dir), file)
}

/// The warning for a JSON file of the application that did not parse.
pub open spec fn parse_warning(file: Seq<char>, error: Seq<char>) -> Seq<char> {
    "Could not parse "@ + file + "; using defaults: "@ + error
}

/// What a JSON file of the application gave, from the parser's result: the
/// value read, or the default value and a warning that names the file.
pub fn parse_json_with_warning<T: Default>(file: &str, parsed: Result<T, String>) -> (r: (T, Option<String>))
    ensures
        match parsed {
            Ok(v) => r.0 == v && r.1 is None,
            Err(e) => call_ensures(T::default, (), r.0) && (r.1 matches Some(w) && w@ == parse_warning(file@, e@)),
        },
{
    match parsed {
        Ok(value) => (value, None),
        Err(err) => {
            proof {
                reveal_strlit("Could not parse ");
                reveal_strlit("; using defaults: ");
            }
            let mut out = str_chars("Could not parse ");
            out.append(&mut str_chars(file));
            out.append(&mut str_chars("; using defaults: "));
            out.append(&mut str_chars(err.as_str()));
            (T::default(), Some(string_from_chars(out.as_slice())))
        },
    }
}

} // verus!
