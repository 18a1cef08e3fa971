use vstd::prelude::*;
use vstd::string::StringExecFns;

verus! {

/// The indentation prefix of the given depth: `level` spaces.
pub open spec fn spaces(level: nat) -> Seq<char> {
    Seq::new(level, |_i: int| ' ')
}

/// Builds a run of `level` spaces used to indent nested output.
pub fn format_indent(level: usize) -> (out: String)
    ensures
        out@ == spaces(level as nat),
{
    let mut out = String::new();
    let mut i: usize = 0;
    while i < level
        invariant
            i <= level,
            out@ == spaces(i as nat),
        decreases level - i,
    {
        out.append(" ");
        proof {
            reveal_strlit(" ");
            assert(out@ =~= spaces((i + 1) as nat));
        }
        i = i + 1;
    }
    out
}

} // verus!
