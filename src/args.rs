//! The options of a run, as the command line gives them.

use vstd::prelude::*;
use crate::text::same_text;

verus! {

/// What the user asked for.
#[derive(Debug, PartialEq, Eq)]
pub struct Args {
    /// Report each step and each tool's output.
    pub verbose: bool,
    /// Make an archive (.tar.gz or .zip).
    pub archive: bool,
    /// Make a disk image (the default on macOS).
    pub dmg: bool,
    /// Skip the build commands and use the binaries already built.
    pub no_build: bool,
    /// The project manifest, or the directory that holds it.
    pub path: Option<String>,
    /// An external packaging file to use instead of the embedded block.
    pub manifest: Option<String>,
}

/// The command line without the subcommand word that cargo passes when the
/// tool runs as `cargo emerge`.
pub open spec fn without_subcommand(args: Seq<Seq<char>>) -> Seq<Seq<char>> {
    if args.len() > 1 && args[1] == "emerge"@ {
        seq![args[0]] + args.subrange(2, args.len() as int)
    } else {
        args
    }
}

/// Drops the `emerge` word after the program name, as
/// [`without_subcommand`] says.
pub fn strip_subcommand(args: Vec<String>) -> (r: Vec<String>)
    ensures
        r@.map_values(|a: String| a@) == without_subcommand(args@.map_values(|a: String| a@)),
{
    let ghost v = args@.map_values(|a: String| a@);
    if args.len() > 1 && same_text(args[1].as_str(), "emerge") {
        let mut r: Vec<String> = Vec::new();
        r.push(args[0].clone());
        let mut i: usize = 2;
        while i < args.len()
            invariant
                2 <= i <= args@.len(),
                v == args@.map_values(|a: String| a@),
                r@.map_values(|a: String| a@) == seq![v[0]] + v.subrange(2, i as int),
            decreases args@.len() - i,
        {
            let ghost before = r@;
            r.push(args[i].clone());
            assert(r@.map_values(|a: String| a@) =~= before.map_values(|a: String| a@).push(v[i as int]));
            assert(seq![v[0]] + v.subrange(2, i + 1) =~= (seq![v[0]] + v.subrange(2, i as int)).push(v[i as int]));
            i = i + 1;
        }
        r
    } else {
        args
    }
}

} // verus!
