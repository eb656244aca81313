//! Decisions of the installer and the shell client: which hooks to install, what the
//! installer reports, and which arguments a vetted command finally runs with.
use vstd::prelude::*;

use crate::text::str_eq;

verus! {

/// The hooks the installer can set up (all chosen by default).
#[derive(Clone, Copy, Debug)]
pub struct InstallOptions {
    pub install_startup: bool,
    pub install_ps: bool,
    pub install_zsh: bool,
    pub install_cmd: bool,
}

impl Default for InstallOptions {
    fn default() -> (o: InstallOptions)
        ensures
            o.install_startup && o.install_ps && o.install_zsh && o.install_cmd,
    {
        InstallOptions { install_startup: true, install_ps: true, install_zsh: true, install_cmd: true }
    }
}

/// The arguments for the client's `install` command: `install`, then one flag per chosen
/// hook, in the order startup, PowerShell, zsh, cmd.
pub open spec fn install_args(o: InstallOptions) -> Seq<Seq<char>> {
    seq!["install"@] + (if o.install_startup {
        seq!["--startup"@]
    } else {
        Seq::empty()
    }) + (if o.install_ps {
        seq!["--ps"@]
    } else {
        Seq::empty()
    }) + (if o.install_zsh {
        seq!["--zsh"@]
    } else {
        Seq::empty()
    }) + (if o.install_cmd {
        seq!["--cmd"@]
    } else {
        Seq::empty()
    })
}

/// The arguments with which the installer runs the client to set up the chosen hooks.
pub fn hook_install_args(o: &InstallOptions) -> (args: Vec<&'static str>)
    ensures
        args@.map_values(|a: &str| a@) == install_args(*o),
{
    let mut args: Vec<&'static str> = Vec::new();
    args.push("install");
    if o.install_startup {
        args.push("--startup");
    }
    if o.install_ps {
        args.push("--ps");
    }
    if o.install_zsh {
        args.push("--zsh");
    }
    if o.install_cmd {
        args.push("--cmd");
    }
    assert(args@.map_values(|a: &str| a@) =~= install_args(*o));
    args
}

/// Where an installation ended.
#[derive(Clone, Copy, Debug, PartialEq, Eq, Structural)]
pub enum InstallResult {
    /// The program files were written and the hooks set up.
    Done,
    /// The program files could not be written.
    ExtractFailed,
    /// There is no local application-data directory.
    NoAppData,
}

/// The result of an installation, from whether the application-data directory was found and
/// whether both program files were written.
pub fn install_result(app_data_found: bool, files_written: bool) -> (r: InstallResult)
    ensures
        r == if !app_data_found {
            InstallResult::NoAppData
        } else if !files_written {
            InstallResult::ExtractFailed
        } else {
            InstallResult::Done
        },
{
    if !app_data_found {
        InstallResult::NoAppData
    } else if !files_written {
        InstallResult::ExtractFailed
    } else {
        InstallResult::Done
    }
}

/// The status line the installer shows for a failed installation (empty once done).
pub open spec fn result_message(r: InstallResult) -> Seq<char> {
    match r {
        InstallResult::Done => Seq::empty(),
        InstallResult::ExtractFailed => "Failed to extract files! Make sure it's not already running."@,
        InstallResult::NoAppData => "Failed to find AppData!"@,
    }
}

/// The status line for an installation result.
pub fn install_message(r: InstallResult) -> (m: String)
    ensures
        m@ == result_message(r),
{
    match r {
        InstallResult::Done => String::new(),
        InstallResult::ExtractFailed => String::from_str(
            "Failed to extract files! Make sure it's not already running.",
        ),
        InstallResult::NoAppData => String::from_str("Failed to find AppData!"),
    }
}

/// The arguments a vetted command runs with: all but the `--yolo` override, in order.
pub open spec fn without_yolo(args: Seq<Seq<char>>) -> Seq<Seq<char>>
    decreases args.len(),
{
    if args.len() == 0 {
        Seq::empty()
    } else if args.last() == "--yolo"@ {
        without_yolo(args.drop_last())
    } else {
        without_yolo(args.drop_last()).push(args.last())
    }
}

/// The arguments that a command let through by the veto runs with.
pub fn passthrough_args(args: &[String]) -> (out: Vec<String>)
    ensures
        out@.map_values(|a: String| a@) == without_yolo(args@.map_values(|a: String| a@)),
{
    let ghost all = args@.map_values(|a: String| a@);
    let mut out: Vec<String> = Vec::new();
    let mut i: usize = 0;
    assert(all.take(0) =~= Seq::<Seq<char>>::empty());
    while i < args.len()
        invariant
            i <= args@.len(),
            all == args@.map_values(|a: String| a@),
            out@.map_values(|a: String| a@) == without_yolo(all.take(i as int)),
        decreases args.len() - i,
    {
        assert(all.take(i + 1).drop_last() =~= all.take(i as int));
        assert(all.take(i + 1).last() == args@[i as int]@);
        if !str_eq(args[i].as_str(), "--yolo") {
            let a = args[i].clone();
            out.push(a);
            assert(out@.map_values(|a: String| a@) =~= without_yolo(all.take(i as int)).push(
                args@[i as int]@,
            ));
        }
        i = i + 1;
    }
    assert(all.take(args@.len() as int) =~= all);
    out
}

} // verus!
