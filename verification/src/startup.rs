//! The checks that come before a run: the argument that names the
//! configuration file, and the file that it names.

use vstd::prelude::*;
use crate::probe::{is_file, PathStatus};
use crate::text::to_chars;

verus! {

/// Why a run cannot begin.
#[derive(Debug, Clone, Copy, PartialEq, Eq, Structural)]
pub enum StartupError {
    /// No path to a configuration file was given.
    ArgumentMissing,
    /// The path does not end in `.yml` or `.yaml`, or does not lead to an
    /// existing regular file.
    InvalidConfigPath,
}

/// Whether `c` is the letter given in its small and its capital form.
pub open spec fn is_letter(c: char, small: char, capital: char) -> bool {
    c == small || c == capital
}

/// Whether the path ends in `.yml`, in letters of either case.
pub open spec fn ends_in_yml(path: Seq<char>) -> bool {
    let n = path.len() as int;
    &&& n >= 4
    &&& path[n - 4] == '.'
    &&& is_letter(path[n - 3], 'y', 'Y')
    &&& is_letter(path[n - 2], 'm', 'M')
    &&& is_letter(path[n - 1], 'l', 'L')
}

/// Whether the path ends in `.yaml`, in letters of either case.
pub open spec fn ends_in_yaml(path: Seq<char>) -> bool {
    let n = path.len() as int;
    &&& n >= 5
    &&& path[n - 5] == '.'
    &&& is_letter(path[n - 4], 'y', 'Y')
    &&& is_letter(path[n - 3], 'a', 'A')
    &&& is_letter(path[n - 2], 'm', 'M')
    &&& is_letter(path[n - 1], 'l', 'L')
}

/// Whether the path has the extension of a configuration file: `yml` or
/// `yaml`, exactly, in letters of either case.
pub open spec fn is_yaml_name(path: Seq<char>) -> bool {
    ends_in_yml(path) || ends_in_yaml(path)
}

/// The path that the arguments of the process name, or why they name
/// none. The first argument is the program; the second is the path.
pub open spec fn named_config(args: Seq<String>) -> Result<String, StartupError> {
    if args.len() < 2 {
        Err(StartupError::ArgumentMissing)
    } else if !is_yaml_name(args[1]@) {
        Err(StartupError::InvalidConfigPath)
    } else {
        Ok(args[1])
    }
}

fn letter(c: char, small: char, capital: char) -> (same: bool)
    ensures
        same == is_letter(c, small, capital),
{
    c == small || c == capital
}

/// Decides whether the path has the extension of a configuration file.
pub fn is_yaml_path(path: &str) -> (yaml: bool)
    ensures
        yaml == is_yaml_name(path@),
{
    let chars = to_chars(path);
    let n = chars.len();
    if n < 4 {
        return false;
    }
    if !letter(chars[n - 2], 'm', 'M') || !letter(chars[n - 1], 'l', 'L') {
        return false;
    }
    if chars[n - 4] == '.' && letter(chars[n - 3], 'y', 'Y') {
        return true;
    }
    n >= 5 && chars[n - 5] == '.' && letter(chars[n - 4], 'y', 'Y') && letter(
        chars[n - 3],
        'a',
        'A',
    )
}

/// Picks the path of the configuration file out of the arguments of the
/// process and checks its extension.
pub fn config_argument(args: &Vec<String>) -> (named: Result<&String, StartupError>)
    ensures
        match named {
            Ok(path) => named_config(args@) == Ok::<String, StartupError>(*path),
            Err(error) => named_config(args@) == Err::<String, StartupError>(error),
        },
{
    if args.len() < 2 {
        Err(StartupError::ArgumentMissing)
    } else if !is_yaml_path(args[1].as_str()) {
        Err(StartupError::InvalidConfigPath)
    } else {
        Ok(&args[1])
    }
}

/// Checks that the configuration file is there: an existing regular file.
pub fn check_config_file(status: &PathStatus) -> (checked: Result<(), StartupError>)
    ensures
        checked == if status.spec_is_file() {
            Ok::<(), StartupError>(())
        } else {
            Err::<(), StartupError>(StartupError::InvalidConfigPath)
        },
{
    if is_file(status) {
        Ok(())
    } else {
        Err(StartupError::InvalidConfigPath)
    }
}

} // verus!
