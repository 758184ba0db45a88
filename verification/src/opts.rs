//! The command-line decisions: which informational request or usage error
//! a parsed command line amounts to, and the matches handed on to the
//! mount, with each pass-through option prefixed for the kernel interface.

use vstd::prelude::*;
use vstd::string::StringExecFns;

verus! {

/// The results of option parsing that the mount runs on.
#[derive(Debug, PartialEq, Eq)]
pub struct Matches {
    /// The path to mount at, possibly relative.
    pub mountpoint: String,
    /// The image path to mount, possibly relative.
    pub qcow2: String,
    /// Whether to mount in the foreground.
    pub foreground: bool,
    /// Whether to print debug messages.
    pub debug: bool,
    /// Extra options to pass through to the kernel interface, each already
    /// carrying its `-o` prefix.
    pub options: Vec<String>,
}

/// A command line as the option parser reports it: which flags are
/// present, the collected pass-through options, and the free positional
/// arguments.
#[derive(Debug, PartialEq, Eq)]
pub struct ParsedArgs {
    pub help: bool,
    pub version: bool,
    pub foreground: bool,
    pub debug: bool,
    pub options: Vec<String>,
    pub free: Vec<String>,
}

/// The ways a command line can fail to name what to mount and where.
#[derive(Clone, Copy, Debug, PartialEq, Eq, Structural)]
pub enum UsageError {
    MissingImage,
    MissingMountpoint,
    TooManyArgs,
}

/// What a parsed command line asks for: a mount described by its matches,
/// one of the informational requests, or a usage error.
#[derive(Debug, PartialEq, Eq)]
pub enum ParseOutcome {
    Proceed(Matches),
    Help,
    Version,
    Usage(UsageError),
}

/// The prefix each pass-through option is handed to the kernel interface
/// with.
pub open spec fn fuse_opt_prefix() -> Seq<char> {
    seq!['-', 'o']
}

impl Matches {
    /// Decide what a parsed command line asks for. Help and version
    /// requests win, in that order; then exactly two positional arguments,
    /// the image and the mountpoint, are required. The foreground flag is
    /// implied by the debug flag, and every pass-through option is
    /// forwarded with the `-o` prefix the kernel interface expects.
    pub fn from_parsed(args: ParsedArgs) -> (r: ParseOutcome)
        ensures
            args.help ==> r == ParseOutcome::Help,
            !args.help && args.version ==> r == ParseOutcome::Version,
            !args.help && !args.version && args.free@.len() == 0 ==> r == ParseOutcome::Usage(
                UsageError::MissingImage,
            ),
            !args.help && !args.version && args.free@.len() == 1 ==> r == ParseOutcome::Usage(
                UsageError::MissingMountpoint,
            ),
            !args.help && !args.version && args.free@.len() > 2 ==> r == ParseOutcome::Usage(
                UsageError::TooManyArgs,
            ),
            !args.help && !args.version && args.free@.len() == 2 ==> (r matches
                ParseOutcome::Proceed(m) && {
                &&& m.qcow2@ == args.free@[0]@
                &&& m.mountpoint@ == args.free@[1]@
                &&& m.foreground == (args.foreground || args.debug)
                &&& m.debug == args.debug
                &&& m.options@.len() == args.options@.len()
                &&& forall|j: int|
                    0 <= j < args.options@.len() ==> m.options@[j]@ == fuse_opt_prefix()
                        + args.options@[j]@
            }),
    {
        if args.help {
            return ParseOutcome::Help;
        }
        if args.version {
            return ParseOutcome::Version;
        }
        let ParsedArgs { help: _, version: _, foreground, debug, options, mut free } = args;
        if free.len() == 0 {
            return ParseOutcome::Usage(UsageError::MissingImage);
        }
        if free.len() == 1 {
            return ParseOutcome::Usage(UsageError::MissingMountpoint);
        }
        if free.len() > 2 {
            return ParseOutcome::Usage(UsageError::TooManyArgs);
        }
        let qcow2 = free.remove(0);
        let mountpoint = free.remove(0);
        let mut prefixed: Vec<String> = Vec::new();
        let mut i: usize = 0;
        while i < options.len()
            invariant
                i <= options@.len(),
                prefixed@.len() == i,
                forall|j: int|
                    0 <= j < i ==> prefixed@[j]@ == fuse_opt_prefix() + options@[j]@,
            decreases options@.len() - i,
        {
            let mut opt = String::from_str("-o");
            proof {
                reveal_strlit("-o");
                assert(opt@ =~= fuse_opt_prefix());
            }
            opt.append(options[i].as_str());
            prefixed.push(opt);
            i = i + 1;
        }
        ParseOutcome::Proceed(
            Matches {
                mountpoint: mountpoint,
                qcow2: qcow2,
                foreground: foreground || debug,
                debug: debug,
                options: prefixed,
            },
        )
    }
}

} // verus!
