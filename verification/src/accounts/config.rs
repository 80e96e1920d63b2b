//! The settings of the signing middleware.

use vstd::prelude::*;

use super::keys::{password, password_of, read_key_file};
use crate::cli_params;
use crate::cli_params::Parser;
use crate::text::is_text;

verus! {

/// A configuration option to apply.
pub enum Param {
    /// Account keyfile.
    Account(Option<ethsign::KeyFile>),
    /// Password to the keyfile.
    Pass(ethsign::Protected),
}

/// The option that a password given on the command line stands for.
pub fn password_param(pass: String) -> (r: Param)
    ensures
        r == Param::Pass(password_of(pass@)),
{
    Param::Pass(password(pass))
}

/// The option that a keyfile, or its absence, stands for.
pub fn account_param(key: Option<ethsign::KeyFile>) -> (r: Param)
    ensures
        r == Param::Account(key),
{
    Param::Account(key)
}

/// What reads a file: given a path, the bytes of the file or the reason
/// why they cannot be had.
pub trait Reader {
    /// Reads the file at `path`.
    fn read(&self, path: &String) -> Result<Vec<u8>, String>;
}

/// The parser of one of the two options of the signing middleware.
pub enum AccountsParser<R> {
    /// The parser of the password: every text is a password.
    Password,
    /// The parser of the path of the keyfile: `-` stands for no keyfile, any
    /// other text for the keyfile at that path, which the reader reads.
    AccountFile(R),
}

impl<R: Reader> Parser for AccountsParser<R> {
    type Executor = Param;

    open spec fn parses(&self, value: Seq<char>, result: Result<Param, String>) -> bool {
        match self {
            AccountsParser::Password => result == Ok::<Param, String>(
                Param::Pass(password_of(value)),
            ),
            AccountsParser::AccountFile(_) => if value == "-"@ {
                result == Ok::<Param, String>(Param::Account(None))
            } else {
                result is Err || result matches Ok(Param::Account(Some(_)))
            },
        }
    }

    fn parse(&self, value: String) -> (r: Result<Param, String>) {
        match self {
            AccountsParser::Password => Ok(Param::Pass(password(value))),
            AccountsParser::AccountFile(reader) => {
                if is_text(&value, "-") {
                    return Ok(Param::Account(None));
                }
                let contents = match reader.read(&value) {
                    Ok(contents) => contents,
                    Err(e) => { return Err(e); },
                };
                match read_key_file(contents.as_slice()) {
                    Ok(key) => Ok(Param::Account(Some(key))),
                    Err(e) => Err(e),
                }
            },
        }
    }
}

/// Returns a list of supported configuration parameters: the password,
/// then the keyfile.
pub fn params<R: Reader>(reader: R) -> (r: Vec<cli_params::Param<AccountsParser<R>>>)
    ensures
        r@.len() == 2,
        r@[0].name@ == "account-password"@,
        r@[0].default_value@ == ""@,
        r@[0].parser is Password,
        r@[1].name@ == "account-file"@,
        r@[1].default_value@ == "-"@,
        r@[1].parser == AccountsParser::AccountFile(reader),
{
    let mut out: Vec<cli_params::Param<AccountsParser<R>>> = Vec::new();
    out.push(
        cli_params::Param::new(
            "Password to the keyfile",
            "account-password",
            "A password to unlock the keyfile.",
            "",
            AccountsParser::Password,
        ),
    );
    out.push(
        cli_params::Param::new(
            "Account to unlock",
            "account-file",
            "A path to a JSON wallet with the account.",
            "-",
            AccountsParser::AccountFile(reader),
        ),
    );
    out
}

} // verus!
