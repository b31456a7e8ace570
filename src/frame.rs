use vstd::prelude::*;
use vstd::string::StringExecFns;

verus! {

/// The frame for a move command: `Sy<x>;Sx<y>;Sz<omega>;S.` and a newline.
pub open spec fn frame_text(x: Seq<char>, y: Seq<char>, omega: Seq<char>) -> Seq<char> {
    seq!['S', 'y'] + x + seq![';', 'S', 'x'] + y + seq![';', 'S', 'z'] + omega + seq![
        ';',
        'S',
        '.',
        '\n',
    ]
}

/// Formats the device frame for the given velocity targets, each given as the
/// decimal text to send.
pub fn format_frame(x: &str, y: &str, omega: &str) -> (r: String)
    ensures
        r@ == frame_text(x@, y@, omega@),
{
    let mut r = String::new();
    proof {
        reveal_strlit("Sy");
        reveal_strlit(";Sx");
        reveal_strlit(";Sz");
        reveal_strlit(";S.\n");
    }
    r.append("Sy");
    r.append(x);
    r.append(";Sx");
    r.append(y);
    r.append(";Sz");
    r.append(omega);
    r.append(";S.\n");
    assert(r@ =~= frame_text(x@, y@, omega@));
    r
}

} // verus!
