//! The written form of a quaternion.

use vstd::prelude::*;

verus! {

/// Appends `tail` to `text`.
///
/// Trusted: this is `String::push_str` of the standard library, which is
/// documented to append the given slice onto the end of the string. The
/// contract says that and no more.
#[verifier::external_body]
fn push_str(text: &mut String, tail: &str)
    ensures
        final(text)@ == old(text)@ + tail@,
{
    text.push_str(tail);
}

/// What `render` returns for the four components as they are written.
pub open spec fn render_spec(s: Seq<char>, x: Seq<char>, y: Seq<char>, z: Seq<char>) -> Seq<char> {
    s + " + "@ + x + "i + "@ + y + "j + "@ + z + "k"@
}

/// The written form `s + xi + yj + zk` of a quaternion, from the written
/// forms of its four components. How a scalar is written is for the caller
/// to decide.
pub fn render(s: &str, x: &str, y: &str, z: &str) -> (r: String)
    ensures
        r@ == render_spec(s@, x@, y@, z@),
{
    let mut text = String::new();
    push_str(&mut text, s);
    assert(text@ =~= s@);
    push_str(&mut text, " + ");
    push_str(&mut text, x);
    push_str(&mut text, "i + ");
    push_str(&mut text, y);
    push_str(&mut text, "j + ");
    push_str(&mut text, z);
    push_str(&mut text, "k");
    text
}

} // verus!
