//! Greeting formatter for a string bridge across a host-runtime boundary.
//!
//! The host-facing shim decodes a host string handle into a native `String`,
//! calls [`greet`] to compute the greeting, and encodes the result back into
//! a new host string handle. Only the compute step lives here; it is pure,
//! holds no shared state, and is therefore safe to call concurrently.

use vstd::prelude::*;

verus! {

/// The greeting formed from `s`: the characters of `"Hello, "`, then `s`
/// verbatim (no trimming, folding, or escaping), then `"!"`.
pub open spec fn greeting(s: Seq<char>) -> Seq<char> {
    "Hello, "@ + s + "!"@
}

/// Format the greeting for `input`: `"Hello, {input}!"`, accepting any
/// character sequence verbatim, the empty string included.
pub fn greet(input: &str) -> (r: String)
    ensures
        r@ == greeting(input@),
{
    let mut r = String::from_str("Hello, ");
    r.append(input);
    r.append("!");
    r
}

/// Applying the greeting twice nests the text rather than reaching a fixed
/// point: the result is `"Hello, Hello, {s}!!"`.
pub proof fn lemma_greeting_not_idempotent(s: Seq<char>)
    ensures
        greeting(greeting(s)) == "Hello, Hello, "@ + s + "!!"@,
{
    reveal_strlit("Hello, ");
    reveal_strlit("Hello, Hello, ");
    reveal_strlit("!");
    reveal_strlit("!!");
    assert(greeting(greeting(s)) =~= "Hello, Hello, "@ + s + "!!"@);
}

/// Distinct inputs give distinct greetings, so calls running side by side,
/// each on its own input, cannot be confused with one another: the greeting
/// is determined by, and injective in, its input.
pub proof fn lemma_greeting_injective(s1: Seq<char>, s2: Seq<char>)
    ensures
        s1 != s2 ==> greeting(s1) != greeting(s2),
{
    reveal_strlit("Hello, ");
    reveal_strlit("!");
    if greeting(s1) == greeting(s2) {
        assert(greeting(s1).len() == s1.len() + 8);
        assert(s1.len() == s2.len());
        assert forall|i: int| 0 <= i < s1.len() implies s1[i] == s2[i] by {
            assert(greeting(s1)[7 + i] == s1[i]);
            assert(greeting(s2)[7 + i] == s2[i]);
        }
        assert(s1 =~= s2);
    }
}

} // verus!
