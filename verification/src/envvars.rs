use vstd::prelude::*;

verus! {

/// One environment variable for the child process.
#[derive(Debug, Clone, PartialEq, Eq)]
pub struct EnvVar {
    pub name: String,
    pub value: String,
}

/// The value a sequence of environment assignments gives to `name`, where a
/// later assignment overrides an earlier one — the reading a process gives
/// to its environment list when it is applied in order.
pub open spec fn env_lookup(env: Seq<EnvVar>, name: Seq<char>) -> Option<Seq<char>>
    decreases env.len(),
{
    if env.len() == 0 {
        None
    } else if env.last().name@ == name {
        Some(env.last().value@)
    } else {
        env_lookup(env.drop_last(), name)
    }
}

/// The full environment for the child process: the inherited environment
/// with the overrides appended, so that the overrides win for their own
/// names and every other inherited variable passes through unmodified
/// (see `lemma_env_overrides`).
pub fn child_env(inherited: Vec<EnvVar>, overrides: Vec<EnvVar>) -> (r: Vec<EnvVar>)
    ensures
        r@ == inherited@ + overrides@,
{
    let mut r = inherited;
    let mut tail = overrides;
    r.append(&mut tail);
    r
}

/// Looking a name up in `a + b` reads `b` first and falls back to `a`.
pub proof fn lemma_env_lookup_append(a: Seq<EnvVar>, b: Seq<EnvVar>, name: Seq<char>)
    ensures
        env_lookup(a + b, name) == if env_lookup(b, name) is Some {
            env_lookup(b, name)
        } else {
            env_lookup(a, name)
        },
    decreases b.len(),
{
    if b.len() == 0 {
        assert(a + b =~= a);
    } else {
        assert((a + b).drop_last() =~= a + b.drop_last());
        lemma_env_lookup_append(a, b.drop_last(), name);
    }
}

/// Appending overrides to an inherited environment changes exactly the
/// overridden names: a name the overrides assign reads as the overrides
/// assign it, and every other name keeps its inherited value — no
/// inherited variable is removed.
pub proof fn lemma_env_overrides(inherited: Seq<EnvVar>, overrides: Seq<EnvVar>, name: Seq<char>)
    ensures
        env_lookup(overrides, name) matches Some(v) ==> env_lookup(
            inherited + overrides,
            name,
        ) == Some(v),
        env_lookup(overrides, name) is None ==> env_lookup(inherited + overrides, name)
            == env_lookup(inherited, name),
{
    lemma_env_lookup_append(inherited, overrides, name);
}

} // verus!
