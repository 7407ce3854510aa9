//! Engines and targets are named side by side in the names of run directories and in the
//! descriptors of runs: no token names both.

use crate::fuzzers::{lemma_tokens, Fuzzer};
use crate::targets::{lemma_names, Target};
use vstd::prelude::*;

verus! {

/// The token of a target has a colon behind the target's name.
proof fn lemma_colon_behind_name(target: Target)
    ensures
        target.token().len() == target.name().len() + 1 + target.deployment().name().len(),
        target.token()[target.name().len() as int] == ':',
        target.name().len() > 0 ==> target.token()[0] == target.name()[0],
{
    lemma_names();
}

/// The characters of the engines' tokens at the places where a target's token has its
/// colon.
proof fn lemma_no_colon(fuzzer: Fuzzer, at: int)
    requires
        0 <= at < fuzzer.token().len(),
        fuzzer.token()[at] == ':',
    ensures
        fuzzer is Schemathesis,
        at == 12,
        fuzzer.token()[0] == 's',
{
    lemma_tokens();
    reveal_strlit("api_fuzzer");
    reveal_strlit("tnt_fuzzer");
    reveal_strlit("restler");
    reveal_strlit("cats");
    reveal_strlit("swagger_fuzzer");
    reveal_strlit("got_swag");
    reveal_strlit("fuzz_lightyear");
    reveal_strlit("schemathesis:Default");
    reveal_strlit("schemathesis:AllChecks");
    reveal_strlit("schemathesis:Negative");
    reveal_strlit("schemathesis:StatefulOld");
    reveal_strlit("schemathesis:StatefulNew");
}

/// No token names both an engine and a target.
pub proof fn lemma_engine_tokens_name_no_target(fuzzer: Fuzzer, target: Target)
    ensures
        fuzzer.token() != target.token(),
{
    lemma_colon_behind_name(target);
    lemma_names();
    if fuzzer.token() == target.token() {
        let at = target.name().len() as int;
        lemma_no_colon(fuzzer, at);
        assert(target.name().len() == 12);
        assert(target.name()[0] == 's');
    }
}

} // verus!
