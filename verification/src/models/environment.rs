//! Named sets of variables that `{{NAME}}` placeholders refer to.
use vstd::prelude::*;

use crate::ids::{is_uuid_v4_text, new_id};
use crate::text::owned;

verus! {

/// One variable; a disabled variable is kept but not substituted.
#[derive(Debug)]
pub struct EnvVar {
    pub key: String,
    pub value: String,
    pub enabled: bool,
}

/// The content of an [`EnvVar`].
pub struct EnvVarView {
    pub key: Seq<char>,
    pub value: Seq<char>,
    pub enabled: bool,
}

impl View for EnvVar {
    type V = EnvVarView;

    open spec fn view(&self) -> EnvVarView {
        EnvVarView { key: self.key@, value: self.value@, enabled: self.enabled }
    }
}

impl Clone for EnvVar {
    fn clone(&self) -> (r: Self)
        ensures
            r@ == self@,
    {
        EnvVar { key: self.key.clone(), value: self.value.clone(), enabled: self.enabled }
    }
}

impl EnvVar {
    /// An enabled variable.
    pub fn new(key: &str, value: &str) -> (r: Self)
        ensures
            r@ == (EnvVarView { key: key@, value: value@, enabled: true }),
    {
        EnvVar { key: owned(key), value: owned(value), enabled: true }
    }
}

/// The contents of a list of variables.
pub open spec fn vars_view(vars: Seq<EnvVar>) -> Seq<EnvVarView> {
    vars.map_values(|v: EnvVar| v@)
}

/// An environment: an identifier (also its file name), a name and variables.
#[derive(Debug)]
pub struct Environment {
    pub id: String,
    pub name: String,
    pub vars: Vec<EnvVar>,
}

/// The content of an [`Environment`].
pub struct EnvironmentView {
    pub id: Seq<char>,
    pub name: Seq<char>,
    pub vars: Seq<EnvVarView>,
}

impl View for Environment {
    type V = EnvironmentView;

    open spec fn view(&self) -> EnvironmentView {
        EnvironmentView { id: self.id@, name: self.name@, vars: vars_view(self.vars@) }
    }
}

/// The contents of a list of environments.
pub open spec fn environments_view(envs: Seq<Environment>) -> Seq<EnvironmentView> {
    envs.map_values(|e: Environment| e@)
}

fn copy_vars(vars: &Vec<EnvVar>) -> (r: Vec<EnvVar>)
    ensures
        vars_view(r@) == vars_view(vars@),
{
    let mut out: Vec<EnvVar> = Vec::new();
    let mut i: usize = 0;
    while i < vars.len()
        invariant
            i <= vars.len(),
            out@.len() == i,
            forall|k: int| 0 <= k < i ==> #[trigger] out@[k]@ == vars@[k]@,
        decreases vars.len() - i,
    {
        out.push(vars[i].clone());
        i += 1;
    }
    assert(vars_view(out@) =~= vars_view(vars@));
    out
}

impl Clone for Environment {
    fn clone(&self) -> (r: Self)
        ensures
            r@ == self@,
    {
        Environment { id: self.id.clone(), name: self.name.clone(), vars: copy_vars(&self.vars) }
    }
}

impl Environment {
    /// A new, empty environment with a fresh random identifier.
    pub fn new(name: &str) -> (r: Self)
        ensures
            r@.name == name@,
            r@.vars == Seq::<EnvVarView>::empty(),
            is_uuid_v4_text(r@.id),
    {
        let r = Environment { id: new_id(), name: owned(name), vars: Vec::new() };
        assert(vars_view(r.vars@) =~= Seq::<EnvVarView>::empty());
        r
    }
}

} // verus!
