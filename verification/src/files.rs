//! Where the configuration file lives, and what is said when it cannot be used.
//!
//! Paths are the bytes that the operating system uses for them, so that no name is lost.

use vstd::prelude::*;
use vstd::slice::slice_to_vec;
use vstd::string::*;
use vstd::utf8::encode_utf8;

verus! {

/// The byte that separates the parts of a path.
pub const SEPARATOR: u8 = 0x2F;

/// Reads the directory for user configuration with `dirs::config_dir`, `None` where there is none.
/// Which directory that is depends on the process's environment, so nothing is claimed of it.
#[verifier::external_body]
fn config_dir() -> Option<Vec<u8>> {
    dirs::config_dir().map(|d| d.into_os_string().into_encoded_bytes())
}

/// A path one step further down: a separator comes between, unless the path is empty or ends in
/// one.
pub open spec fn below(dir: Seq<u8>, part: Seq<u8>) -> Seq<u8> {
    if dir.len() == 0 || dir.last() == SEPARATOR {
        dir + part
    } else {
        dir.push(SEPARATOR) + part
    }
}

/// The configuration file of a configuration directory.
pub open spec fn config_file(dir: Seq<u8>) -> Seq<u8> {
    below(below(dir, encode_utf8("zmouse"@)), encode_utf8("config.toml"@))
}

fn descend(dir: &Vec<u8>, part: &str) -> (r: Vec<u8>)
    ensures
        r@ == below(dir@, encode_utf8(part@)),
{
    let mut out: Vec<u8> = slice_to_vec(dir.as_slice());
    let n: usize = out.len();
    if n > 0 && out[n - 1] != SEPARATOR {
        out.push(SEPARATOR);
    }
    let mut tail: Vec<u8> = part.as_bytes_vec();
    out.append(&mut tail);
    out
}

/// The configuration file of a configuration directory: `zmouse/config.toml` in it.
pub fn config_file_in(dir: &Vec<u8>) -> (r: Vec<u8>)
    ensures
        r@ == config_file(dir@),
{
    descend(&descend(dir, "zmouse"), "config.toml")
}

/// The default configuration file for what the system names as its directory for configuration:
/// there is one exactly where it names one.
pub fn path_for(dir: Option<Vec<u8>>) -> (r: Option<Vec<u8>>)
    ensures
        r is Some == dir is Some,
        dir is Some ==> r->0@ == config_file(dir->0@),
{
    match dir {
        Some(dir) => Some(config_file_in(&dir)),
        None => None,
    }
}

/// The default configuration file, where the system names a directory for configuration. Which one
/// it names, if any, is up to the process's surroundings; `path_for` makes the path of it.
pub fn default_path() -> (r: Option<Vec<u8>>)
    ensures
        r is Some ==> exists|dir: Seq<u8>| r->0@ == #[trigger] config_file(dir),
{
    path_for(config_dir())
}

/// The path to load: the given one, or else the default one.
pub fn load_path<P>(given: Option<P>, default: Option<P>) -> (r: Result<P, String>)
    ensures
        given is Some ==> r == Ok::<P, String>(given->0),
        given is None && default is Some ==> r == Ok::<P, String>(default->0),
        given is None && default is None ==> r is Err && r->Err_0@
            == "could not determine config directory"@,
{
    match given {
        Some(p) => Ok(p),
        None => match default {
            Some(p) => Ok(p),
            None => Err("could not determine config directory".to_owned()),
        },
    }
}

/// The path to save to: the given one, or else the default one, or else a last resort.
pub fn save_path<P>(given: Option<P>, default: Option<P>, last_resort: P) -> (r: P)
    ensures
        r == (if given is Some {
            given->0
        } else if default is Some {
            default->0
        } else {
            last_resort
        }),
{
    match given {
        Some(p) => p,
        None => match default {
            Some(p) => p,
            None => last_resort,
        },
    }
}

/// What can go wrong with the configuration file.
#[derive(Clone, Copy, Debug, PartialEq, Eq, Structural)]
pub enum FileFault {
    Read,
    Parse,
    Serialize,
    CreateDir,
    Write,
}

/// A fault of the configuration file in words.
pub open spec fn fault_words(fault: FileFault, path: Seq<char>, cause: Seq<char>) -> Seq<char> {
    match fault {
        FileFault::Read => "cannot read "@ + path + ": "@ + cause,
        FileFault::Parse => "parse error in "@ + path + ": "@ + cause,
        FileFault::Serialize => "serialize error: "@ + cause,
        FileFault::CreateDir => "cannot create "@ + path + ": "@ + cause,
        FileFault::Write => "cannot write "@ + path + ": "@ + cause,
    }
}

/// Puts a fault of the configuration file into words.
pub fn fault_message(fault: FileFault, path: &str, cause: &str) -> (r: String)
    ensures
        r@ == fault_words(fault, path@, cause@),
{
    let lead: &str = match fault {
        FileFault::Read => "cannot read ",
        FileFault::Parse => "parse error in ",
        FileFault::Serialize => "serialize error: ",
        FileFault::CreateDir => "cannot create ",
        FileFault::Write => "cannot write ",
    };
    let mut s: String = lead.to_owned();
    if !matches!(fault, FileFault::Serialize) {
        s.append(path);
        s.append(": ");
    }
    s.append(cause);
    s
}

} // verus!
