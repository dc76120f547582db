use vstd::prelude::*;
use vstd::string::StringExecFns;

verus! {

/// What a greeting says before the name.
pub const GREETING_OPENING: &'static str = "こんにちは、";

/// What a greeting says after the name.
pub const GREETING_CLOSING: &'static str = "! Rust側から挨拶が届きました！";

/// The greeting for `name`.
pub open spec fn greeting(name: Seq<char>) -> Seq<char> {
    GREETING_OPENING@ + name + GREETING_CLOSING@
}

/// Greets `name`: a hook by which a front end can tell that the shell is
/// alive. It reads and changes no state.
pub fn greet(name: &str) -> (text: String)
    ensures
        text@ == greeting(name@),
{
    let mut text = String::from_str(GREETING_OPENING);
    text.append(name);
    text.append(GREETING_CLOSING);
    text
}

} // verus!
