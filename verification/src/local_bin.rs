//! The shell invocation prefix used to execute every configured command.

use crate::util::str_eq;
use vstd::prelude::*;

verus! {

/// Command used to execute runtime processes.
///
/// Every configured command string is run as `bin args... command`. The
/// default is a POSIX shell invocation on POSIX platforms and a PowerShell
/// invocation on Windows; `from_os` selects between the two given the
/// platform name, so that the platform probe itself can stay outside the
/// library.
#[derive(Clone, Debug, PartialEq, Eq)]
pub struct BinCommand {
    pub bin: String,
    pub args: Vec<String>,
}

impl BinCommand {
    pub fn new(bin: String, args: Vec<String>) -> (r: Self)
        ensures
            r.bin@ == bin@,
            r.args == args,
    {
        BinCommand { bin, args }
    }

    /// The invocation a named preset stands for; unknown presets fall back
    /// to the POSIX shell.
    pub fn from_preset(preset: &str) -> (r: Self)
        ensures
            preset@ == "powershell"@ ==> r.bin@ == "powershell"@ && r.args.deep_view()
                == seq!["-Command"@],
            preset@ != "powershell"@ ==> r.bin@ == "sh"@ && r.args.deep_view() == seq!["-c"@],
    {
        if str_eq(preset, "powershell") {
            let mut args: Vec<String> = Vec::new();
            args.push("-Command".to_owned());
            let r = Self::new("powershell".to_owned(), args);
            proof {
                assert(r.args.deep_view() =~= seq!["-Command"@]);
            }
            r
        } else {
            let mut args: Vec<String> = Vec::new();
            args.push("-c".to_owned());
            let r = Self::new("sh".to_owned(), args);
            proof {
                assert(r.args.deep_view() =~= seq!["-c"@]);
            }
            r
        }
    }

    /// The platform default for the given OS name, as std's `OS` constant
    /// reports it: PowerShell on Windows, the POSIX shell otherwise.
    pub fn from_os(os: &str) -> (r: Self)
        ensures
            os@ == "windows"@ ==> r.bin@ == "powershell"@ && r.args.deep_view()
                == seq!["-Command"@],
            os@ != "windows"@ ==> r.bin@ == "sh"@ && r.args.deep_view() == seq!["-c"@],
    {
        if str_eq(os, "windows") {
            Self::from_preset("powershell")
        } else {
            proof {
                reveal_strlit("bash");
                reveal_strlit("powershell");
                assert("bash"@.len() != "powershell"@.len());
            }
            Self::from_preset("bash")
        }
    }
}

} // verus!
