//! The console extension: `console.log` joins its arguments with spaces into
//! one line.

use vstd::prelude::*;
use vstd::string::StringExecFns;

verus! {

/// The line that `console.log` writes for arguments whose text forms are
/// `args`: each argument in order, with one space between two neighbours.
pub open spec fn log_text(args: Seq<Seq<char>>) -> Seq<char>
    decreases args.len(),
{
    if args.len() == 0 {
        Seq::empty()
    } else if args.len() == 1 {
        args[0]
    } else {
        log_text(args.drop_last()) + " "@ + args.last()
    }
}

/// Joins the text forms of `console.log`'s arguments into the line it writes.
pub fn log_line(args: &Vec<String>) -> (r: String)
    ensures
        r@ == log_text(args@.map_values(|a: String| a@)),
{
    let mut line = String::new();
    let mut i: usize = 0;
    while i < args.len()
        invariant
            i <= args@.len(),
            line@ == log_text(args@.take(i as int).map_values(|a: String| a@)),
        decreases args@.len() - i,
    {
        let ghost before = args@.take(i as int).map_values(|a: String| a@);
        let ghost after = args@.take(i + 1).map_values(|a: String| a@);
        if i > 0 {
            line.append(" ");
        }
        line.append(args[i].as_str());
        proof {
            assert(after.drop_last() =~= before);
            assert(after.last() == args@[i as int]@);
            if i == 0 {
                assert(after.len() == 1);
            }
        }
        i = i + 1;
    }
    proof {
        assert(args@.take(i as int) =~= args@);
    }
    line
}

/// The console extension: the global object to create and the method to
/// give it.
pub fn install() -> (r: (&'static str, &'static str))
    ensures
        r.0@ == "console"@,
        r.1@ == "log"@,
{
    ("console", "log")
}

} // verus!
