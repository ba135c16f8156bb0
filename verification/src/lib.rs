//! Greeting logic for the TinyLlama-X desktop shell.
//!
//! The shell's GUI host exposes a single command, `greet`, to its
//! presentation layer. The command is a total, stateless function from a
//! caller-supplied name to a welcome message; everything it promises is
//! stated here and proved. The host bootstrap itself (window system, event
//! loop) lives outside the library.

use vstd::prelude::*;
use vstd::string::*;

verus! {

/// The greeting owed to `name`: the name spliced, unchanged, between a
/// fixed salutation and a fixed welcome. No trimming, escaping or
/// validation is applied to the name.
pub open spec fn greet_spec(name: Seq<char>) -> Seq<char> {
    "Hello, "@ + name + "! Welcome to TinyLlama-X"@
}

/// Build the greeting for `name`.
///
/// Total: every input string is accepted, and the result is exactly the
/// greeting that `greet_spec` assigns to it.
pub fn greet(name: &str) -> (res: String)
    ensures
        res@ == greet_spec(name@),
{
    let mut res = String::from_str("Hello, ");
    res.append(name);
    res.append("! Welcome to TinyLlama-X");
    res
}

/// The greeting embeds the name literally: the result is the 7-character
/// salutation, then the name itself, then the 24-character welcome.
pub proof fn lemma_name_embedded_literally(name: Seq<char>)
    ensures
        greet_spec(name).len() == name.len() + 31,
        greet_spec(name).subrange(7, 7 + name.len() as int) == name,
        greet_spec(name).subrange(0, 7) == "Hello, "@,
        greet_spec(name).subrange(7 + name.len() as int, name.len() as int + 31)
            == "! Welcome to TinyLlama-X"@,
{
    reveal_strlit("Hello, ");
    reveal_strlit("! Welcome to TinyLlama-X");
    assert(greet_spec(name).subrange(7, 7 + name.len() as int) =~= name);
    assert(greet_spec(name).subrange(0, 7) =~= "Hello, "@);
    assert(greet_spec(name).subrange(7 + name.len() as int, name.len() as int + 31)
        =~= "! Welcome to TinyLlama-X"@);
}

/// The greeting is a function of the name alone, so the handler is
/// idempotent: two results obtained for the same name are the same string,
/// call after call, with no hidden state.
pub proof fn lemma_greet_idempotent(name: Seq<char>, r1: Seq<char>, r2: Seq<char>)
    requires
        r1 == greet_spec(name),
        r2 == greet_spec(name),
    ensures
        r1 == r2,
{
}

} // verus!
