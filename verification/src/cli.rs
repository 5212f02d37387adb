//! Command-line arguments of the studio: `--exe <name>` and `-h`/`--help`;
//! anything else is reported and ignored.
use vstd::prelude::*;
use vstd::string::*;

use crate::text::{str_eq, views};

verus! {

/// Capture backend of the studio (fixed to the PC client).
#[derive(Debug, Clone, Copy, PartialEq, Eq)]
pub enum Target {
    /// Capture of the PC (Windows) client.
    Windows,
}

impl Default for Target {
    fn default() -> (r: Target)
        ensures
            r == Target::Windows,
    {
        Target::Windows
    }
}

/// Parsed command-line arguments.
#[derive(Debug, Clone, PartialEq, Eq)]
pub struct CliArgs {
    /// Capture backend (always the PC client).
    pub target: Target,
    /// Executable name of the PC client, when given.
    pub exe: Option<String>,
    /// Whether help was asked for.
    pub help: bool,
}

impl Default for CliArgs {
    fn default() -> (r: CliArgs)
        ensures
            r.target == Target::Windows,
            r.exe is None,
            !r.help,
    {
        CliArgs { target: Target::Windows, exe: None, help: false }
    }
}

/// What to launch.
#[derive(Debug, Clone, Copy, PartialEq, Eq)]
pub enum LaunchKind {
    /// The unified GUI.
    Unified,
    /// Print the help and exit.
    Help,
}

/// Help when asked for, the unified GUI otherwise.
pub fn launch_kind(args: &CliArgs) -> (r: LaunchKind)
    ensures
        r == if args.help {
            LaunchKind::Help
        } else {
            LaunchKind::Unified
        },
{
    if args.help {
        LaunchKind::Help
    } else {
        LaunchKind::Unified
    }
}

/// The help text.
pub const HELP_TEXT: &'static str = "anaden-studio — 統合GUI (作成 / バッチ評価 / pipeline 実行)

USAGE: anaden-studio [--exe <name>]

OPTIONS:
  --exe <name>                PC版(Windows)キャプチャの対象 exe 名
                              (既定: AnotherEden.exe)
  -h, --help                  このヘルプを表示
";

/// The result of reading `args` from position `i` on, given what was read
/// before: the executable name, the help flag and the unknown arguments.
/// `--exe` takes the next argument as its value (and is dropped when it is
/// last); `-h` and `--help` ask for help; anything else is unknown.
pub open spec fn parse_rec(
    args: Seq<Seq<char>>,
    i: int,
    exe: Option<Seq<char>>,
    help: bool,
    unknown: Seq<Seq<char>>,
) -> (Option<Seq<char>>, bool, Seq<Seq<char>>)
    decreases args.len() - i,
{
    if i < 0 || i >= args.len() {
        (exe, help, unknown)
    } else if args[i] == "--exe"@ {
        if i + 1 < args.len() {
            parse_rec(args, i + 2, Some(args[i + 1]), help, unknown)
        } else {
            parse_rec(args, i + 1, exe, help, unknown)
        }
    } else if args[i] == "-h"@ || args[i] == "--help"@ {
        parse_rec(args, i + 1, exe, true, unknown)
    } else {
        parse_rec(args, i + 1, exe, help, unknown.push(args[i]))
    }
}

/// The executable name, help flag and unknown arguments of a command line.
pub open spec fn parse_spec(args: Seq<Seq<char>>) -> (Option<Seq<char>>, bool, Seq<Seq<char>>) {
    parse_rec(args, 0, None, false, Seq::empty())
}

/// Parses the command line (see [`parse_spec`]) and also returns the
/// arguments that were not understood, in order, for the caller to report.
pub fn parse_args_with_unknown(args: Vec<String>) -> (r: (CliArgs, Vec<String>))
    ensures
        r.0.target == Target::Windows,
        (match r.0.exe {
            Some(e) => Some(e@),
            None => None,
        }, r.0.help, views(r.1@)) == parse_spec(views(args@)),
{
    let ghost all = views(args@);
    let mut exe: Option<String> = None;
    let mut help = false;
    let mut unknown: Vec<String> = Vec::new();
    let n = args.len();
    let mut i: usize = 0;
    assert(views(unknown@) =~= Seq::<Seq<char>>::empty());
    while i < n
        invariant
            n == args@.len(),
            all == views(args@),
            i <= n,
            parse_spec(all) == parse_rec(
                all,
                i as int,
                match exe {
                    Some(e) => Some(e@),
                    None => None,
                },
                help,
                views(unknown@),
            ),
        decreases n - i,
    {
        let a = args[i].as_str();
        if str_eq(a, "--exe") {
            if i + 1 < n {
                exe = Some(args[i + 1].clone());
                i = i + 2;
            } else {
                i = i + 1;
            }
        } else if str_eq(a, "-h") || str_eq(a, "--help") {
            help = true;
            i = i + 1;
        } else {
            let ghost before = unknown@;
            unknown.push(args[i].clone());
            assert(views(unknown@) =~= views(before).push(all[i as int]));
            i = i + 1;
        }
    }
    (CliArgs { target: Target::Windows, exe, help }, unknown)
}

/// Parses the command line (see [`parse_spec`]); unknown arguments are
/// ignored.
pub fn parse_args_from(args: Vec<String>) -> (r: CliArgs)
    ensures
        r.target == Target::Windows,
        (match r.exe {
            Some(e) => Some(e@),
            None => None,
        }, r.help) == (parse_spec(views(args@)).0, parse_spec(views(args@)).1),
{
    let (parsed, _) = parse_args_with_unknown(args);
    parsed
}

/// Reading a command line after one more leading argument gives the same
/// executable name and help flag, whatever was collected as unknown.
proof fn lemma_shifted(
    args: Seq<Seq<char>>,
    extra: Seq<char>,
    i: int,
    exe: Option<Seq<char>>,
    help: bool,
    u1: Seq<Seq<char>>,
    u2: Seq<Seq<char>>,
)
    requires
        0 <= i <= args.len(),
    ensures
        parse_rec(seq![extra] + args, i + 1, exe, help, u1).0 == parse_rec(args, i, exe, help, u2).0,
        parse_rec(seq![extra] + args, i + 1, exe, help, u1).1 == parse_rec(args, i, exe, help, u2).1,
    decreases args.len() - i,
{
    let a2 = seq![extra] + args;
    if i < args.len() {
        assert(a2[i + 1] == args[i]);
        if args[i] == "--exe"@ {
            if i + 1 < args.len() {
                assert(a2[i + 2] == args[i + 1]);
                lemma_shifted(args, extra, i + 2, Some(args[i + 1]), help, u1, u2);
            } else {
                lemma_shifted(args, extra, i + 1, exe, help, u1, u2);
            }
        } else if args[i] == "-h"@ || args[i] == "--help"@ {
            lemma_shifted(args, extra, i + 1, exe, true, u1, u2);
        } else {
            lemma_shifted(args, extra, i + 1, exe, help, u1.push(args[i]), u2.push(args[i]));
        }
    }
}

/// An argument that is not understood never changes the result: put in
/// front of a command line, it leaves the executable name and the help flag
/// as they were, and it is reported first.
pub proof fn law_unknown_argument_is_ignored(args: Seq<Seq<char>>, extra: Seq<char>)
    requires
        extra != "--exe"@,
        extra != "-h"@,
        extra != "--help"@,
    ensures
        parse_spec(seq![extra] + args).0 == parse_spec(args).0,
        parse_spec(seq![extra] + args).1 == parse_spec(args).1,
{
    let a2 = seq![extra] + args;
    assert(a2[0] == extra);
    lemma_shifted(args, extra, 0, None, false, seq![extra], Seq::empty());
    assert(Seq::<Seq<char>>::empty().push(extra) =~= seq![extra]);
}

} // verus!
