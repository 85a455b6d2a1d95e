//! Text helpers for reports.
use vstd::prelude::*;

verus! {

/// A run of `n` dashes.
pub open spec fn dashes(n: nat) -> Seq<char> {
    Seq::new(n, |_i: int| '-')
}

/// `title` on one line and, on the next, one dash per byte of `title`.
pub open spec fn underlined(title: &str) -> Seq<char> {
    title@ + seq!['\n'] + dashes(title.len() as nat)
}

/// Returns `string` followed by a newline and a line of dashes as long as
/// `string` in bytes, for use as a heading in a report.
pub fn underline(string: &str) -> (r: String)
    ensures
        r@ == underlined(string),
{
    let width = string.len();
    let mut r = String::from_str(string);
    r.append("\n");
    proof {
        reveal_strlit("\n");
    }
    let ghost head = r@;
    let mut i: usize = 0;
    while i < width
        invariant
            i <= width,
            width == string.len(),
            head == string@ + seq!['\n'],
            r@ == head + dashes(i as nat),
        decreases width - i,
    {
        r.append("-");
        proof {
            reveal_strlit("-");
        }
        i = i + 1;
        assert(r@ =~= head + dashes(i as nat));
    }
    assert(r@ =~= underlined(string));
    r
}

} // verus!
