//! `{{NAME}}` placeholders, filled in from the active environment.
use vstd::prelude::*;

use crate::models::environment::{vars_view, EnvVarView, Environment, EnvironmentView};
use crate::text::{owned, replace_all, replace_str, occurs_in, occurs_at};

verus! {

/// The placeholder that stands for the variable named `key`: `{{key}}`.
pub open spec fn placeholder(key: Seq<char>) -> Seq<char> {
    seq!['{', '{'] + key + seq!['}', '}']
}

/// `input` after substituting, for each enabled variable in order, the
/// variable's value for every occurrence of its placeholder in the text
/// produced so far.
pub open spec fn substitute_vars(input: Seq<char>, vars: Seq<EnvVarView>) -> Seq<char>
    decreases vars.len(),
{
    if vars.len() == 0 {
        input
    } else {
        let prev = substitute_vars(input, vars.drop_last());
        let v = vars.last();
        if v.enabled {
            replace_all(prev, placeholder(v.key), v.value)
        } else {
            prev
        }
    }
}

/// `input` with the placeholders of `env` filled in; unchanged without an
/// environment.
pub open spec fn interpolated(input: Seq<char>, env: Option<EnvironmentView>) -> Seq<char> {
    match env {
        Some(e) => substitute_vars(input, e.vars),
        None => input,
    }
}

/// The content of an optional environment reference.
pub open spec fn env_view(env: Option<&Environment>) -> Option<EnvironmentView> {
    match env {
        Some(e) => Some(e@),
        None => None,
    }
}

fn placeholder_for(key: &String) -> (r: String)
    ensures
        r@ == placeholder(key@),
{
    let mut p = String::new();
    p.push('{');
    p.push('{');
    p.push_str(key.as_str());
    p.push('}');
    p.push('}');
    assert(p@ =~= placeholder(key@));
    p
}

/// Replace all `{{KEY}}` placeholders with values from the active environment.
pub fn interpolate(input: &str, env: Option<&Environment>) -> (r: String)
    ensures
        r@ == interpolated(input@, env_view(env)),
{
    match env {
        None => owned(input),
        Some(env) => {
            let mut result = owned(input);
            let mut i: usize = 0;
            while i < env.vars.len()
                invariant
                    i <= env.vars.len(),
                    result@ == substitute_vars(input@, vars_view(env.vars@).take(i as int)),
                decreases env.vars.len() - i,
            {
                let var = &env.vars[i];
                proof {
                    let vs = vars_view(env.vars@).take(i + 1);
                    assert(vs.drop_last() =~= vars_view(env.vars@).take(i as int));
                    assert(vs.last() == var@);
                }
                if var.enabled {
                    let placeholder = placeholder_for(&var.key);
                    result = replace_str(result.as_str(), placeholder.as_str(), var.value.as_str());
                }
                i += 1;
            }
            assert(vars_view(env.vars@).take(env.vars.len() as int) =~= vars_view(env.vars@));
            result
        }
    }
}

/// Substituting one variable leaves text without its placeholder unchanged.
pub proof fn lemma_replace_absent(s: Seq<char>, pat: Seq<char>, rep: Seq<char>)
    requires
        pat.len() > 0,
        !occurs_in(s, pat),
    ensures
        replace_all(s, pat, rep) == s,
    decreases s.len(),
{
    if s.len() >= pat.len() {
        if s.subrange(0, pat.len() as int) == pat {
            assert(occurs_at(s, pat, 0));
        } else {
            let t = s.subrange(1, s.len() as int);
            assert forall|i: int| !occurs_at(t, pat, i) by {
                if occurs_at(t, pat, i) {
                    assert(s.subrange(i + 1, i + 1 + pat.len()) =~= t.subrange(i, i + pat.len()));
                    assert(occurs_at(s, pat, i + 1));
                }
            }
            lemma_replace_absent(t, pat, rep);
            assert(seq![s[0]] + t =~= s);
        }
    }
}

/// Text in which `{{` never occurs comes out of interpolation unchanged,
/// whatever the environment.
pub proof fn lemma_no_placeholder_unchanged(input: Seq<char>, env: Option<EnvironmentView>)
    requires
        !occurs_in(input, seq!['{', '{']),
    ensures
        interpolated(input, env) == input,
{
    match env {
        None => {},
        Some(e) => lemma_substitute_without_braces(input, e.vars),
    }
}

proof fn lemma_substitute_without_braces(input: Seq<char>, vars: Seq<EnvVarView>)
    requires
        !occurs_in(input, seq!['{', '{']),
    ensures
        substitute_vars(input, vars) == input,
    decreases vars.len(),
{
    if vars.len() > 0 {
        lemma_substitute_without_braces(input, vars.drop_last());
        let v = vars.last();
        if v.enabled {
            let p = placeholder(v.key);
            assert forall|i: int| !occurs_at(input, p, i) by {
                if occurs_at(input, p, i) {
                    assert(input.subrange(i, i + 2) =~= input.subrange(i, i + p.len()).subrange(0, 2));
                    assert(p.subrange(0, 2) =~= seq!['{', '{']);
                    assert(occurs_at(input, seq!['{', '{'], i));
                }
            }
            lemma_replace_absent(input, p, v.value);
        }
    }
}

/// Disabled variables take no part in interpolation: dropping them from the
/// environment gives the same result.
pub proof fn lemma_disabled_vars_ignored(input: Seq<char>, vars: Seq<EnvVarView>)
    ensures
        substitute_vars(input, vars) == substitute_vars(input, vars.filter(|v: EnvVarView| v.enabled)),
    decreases vars.len(),
{
    reveal_with_fuel(Seq::filter, 1);
    if vars.len() > 0 {
        lemma_disabled_vars_ignored(input, vars.drop_last());
        let f = vars.filter(|v: EnvVarView| v.enabled);
        let g = vars.drop_last().filter(|v: EnvVarView| v.enabled);
        if vars.last().enabled {
            assert(f.drop_last() =~= g);
            assert(f.last() == vars.last());
        } else {
            assert(f =~= g);
        }
    }
}

/// An environment whose variables are all disabled leaves text unchanged.
pub proof fn lemma_all_disabled_unchanged(input: Seq<char>, e: EnvironmentView)
    requires
        forall|i: int| 0 <= i < e.vars.len() ==> !(#[trigger] e.vars[i]).enabled,
    ensures
        interpolated(input, Some(e)) == input,
{
    lemma_disabled_vars_ignored(input, e.vars);
    lemma_filter_none_enabled(e.vars);
}

proof fn lemma_filter_none_enabled(vars: Seq<EnvVarView>)
    requires
        forall|i: int| 0 <= i < vars.len() ==> !(#[trigger] vars[i]).enabled,
    ensures
        vars.filter(|v: EnvVarView| v.enabled) == Seq::<EnvVarView>::empty(),
    decreases vars.len(),
{
    reveal_with_fuel(Seq::filter, 1);
    if vars.len() > 0 {
        assert(!vars.last().enabled);
        lemma_filter_none_enabled(vars.drop_last());
    }
}

} // verus!
