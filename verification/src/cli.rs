//! The command line: what an invocation asks for.

use vstd::prelude::*;
use vstd::slice::slice_subrange;

verus! {

/// What the arguments of an invocation ask for.
#[derive(Debug)]
pub enum Invocation<'a> {
    /// No input was named: the usage line is to be printed, and nothing else
    /// is done.
    Usage,
    /// These input files are to be processed, each on its own.
    Process(&'a [String]),
}

/// The usage line.
pub open spec fn usage_text() -> Seq<char> {
    "Usage: md5_hasher <file1> <file2> ..."@
}

/// The usage line, without a line end.
pub fn usage() -> (text: &'static str)
    ensures
        text@ == usage_text(),
{
    "Usage: md5_hasher <file1> <file2> ..."
}

/// Reads the arguments of the process. The first is the name of the
/// program; each one after it is the path of an input file.
pub fn invocation<'a>(args: &'a [String]) -> (asked: Invocation<'a>)
    ensures
        match asked {
            Invocation::Usage => args@.len() < 2,
            Invocation::Process(paths) => args@.len() >= 2 && paths@ == args@.skip(1),
        },
{
    if args.len() < 2 {
        Invocation::Usage
    } else {
        let paths = slice_subrange(args, 1, args.len());
        assert(args@.subrange(1, args@.len() as int) =~= args@.skip(1));
        Invocation::Process(paths)
    }
}

} // verus!
