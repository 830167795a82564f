//! What a key does while a dialog is open.
use vstd::prelude::*;

use crate::app::keys::backspaced;
use crate::app::state::{
    lemma_counts_fit, lemma_rebuilt_wf, rebuilt, var_capacity, App, AppView,
};
use crate::app::types::{effects_view, ActiveModal, DeleteTarget, Effect, EffectView, ModalView};
use crate::event::{KeyCode, KeyEvent};
use crate::ids::is_uuid_v4_text;
use crate::models::collection::{
    collections_view, items_view, Collection, CollectionView, RequestItem, RequestItemView,
};
use crate::models::environment::{
    environments_view, vars_view, EnvVar, EnvVarView, Environment, EnvironmentView,
};
use crate::models::request::blank_config;
use crate::text::{decimal, owned, push_decimal};

verus! {

// ── Specification ────────────────────────────────────────────────────────────

/// `t` is `s` with a new collection named `name` added (and saved), the
/// dialog closed and the sidebar rebuilt.
pub open spec fn collection_added(s: AppView, name: Seq<char>, t: AppView) -> bool {
    exists|c: CollectionView|
        #![trigger s.collections.push(c)]
        c.name == name && c.requests == Seq::<RequestItemView>::empty() && c.expanded
            && is_uuid_v4_text(c.id) && t == rebuilt(
            AppView {
                modal: ModalView::Closed,
                collections: s.collections.push(c),
                effects: s.effects.push(EffectView::SaveCollection(s.collections.len() as usize)),
                ..s
            },
        )
}

/// `t` is `s` with a new blank request named `name` added to collection `ci`
/// (which is expanded and saved), the dialog closed and the sidebar rebuilt.
pub open spec fn request_added(s: AppView, name: Seq<char>, ci: usize, t: AppView) -> bool {
    exists|r: RequestItemView|
        #![trigger s.collections[ci as int].requests.push(r)]
        r.name == name && r.config == blank_config() && is_uuid_v4_text(r.id) && t == rebuilt(
            AppView {
                modal: ModalView::Closed,
                collections: s.collections.update(
                    ci as int,
                    CollectionView {
                        requests: s.collections[ci as int].requests.push(r),
                        expanded: true,
                        ..s.collections[ci as int]
                    },
                ),
                effects: s.effects.push(EffectView::SaveCollection(ci)),
                ..s
            },
        )
}

/// The state after a confirmed deletion: a collection goes (with its file,
/// and the selection if it pointed at it); a request goes from its
/// collection, which is saved. The dialog closes.
pub open spec fn deleted(s: AppView, target: DeleteTarget) -> AppView {
    match target {
        DeleteTarget::Collection(ci) => {
            let hit = s.selected_collection == Some(ci);
            rebuilt(
                AppView {
                    modal: ModalView::Closed,
                    effects: s.effects.push(EffectView::DeleteCollection(s.collections[ci as int].id)),
                    collections: s.collections.remove(ci as int),
                    selected_collection: if hit {
                        None
                    } else {
                        s.selected_collection
                    },
                    selected_request: if hit {
                        None
                    } else {
                        s.selected_request
                    },
                    ..s
                },
            )
        },
        DeleteTarget::Request { collection_idx: ci, request_idx: ri } => if ci < s.collections.len() {
            let col = s.collections[ci as int];
            let s1 = if ri < col.requests.len() {
                AppView {
                    collections: s.collections.update(
                        ci as int,
                        CollectionView { requests: col.requests.remove(ri as int), ..col },
                    ),
                    effects: s.effects.push(EffectView::SaveCollection(ci)),
                    ..s
                }
            } else {
                s
            };
            rebuilt(AppView { modal: ModalView::Closed, ..s1 })
        } else {
            AppView { modal: ModalView::Closed, ..s }
        },
    }
}

/// `t` is `s` with a new empty environment `env-<n>` added (and saved) and
/// selected, where `n` is the new number of environments.
pub open spec fn environment_added(s: AppView, t: AppView) -> bool {
    let n = s.environments.len();
    exists|e: EnvironmentView|
        #![trigger s.environments.push(e)]
        e.name == "env-"@ + decimal(n + 1) && e.vars == Seq::<EnvVarView>::empty() && is_uuid_v4_text(
            e.id,
        ) && t == AppView {
            environments: s.environments.push(e),
            effects: s.effects.push(EffectView::SaveEnvironment(n as usize)),
            env_list_cursor: n as usize,
            ..s
        }
}

/// The state after the selected environment gets a new empty variable,
/// whose key is then edited. Nothing happens without a selected environment,
/// or when the environment is at [`var_capacity`].
pub open spec fn var_added(s: AppView) -> AppView {
    let ei = s.env_list_cursor;
    if ei < s.environments.len() && s.environments[ei as int].vars.len() + 1 < var_capacity() {
        let env = s.environments[ei as int];
        let n = env.vars.len();
        AppView {
            environments: s.environments.update(
                ei as int,
                EnvironmentView {
                    vars: env.vars.push(EnvVarView { key: Seq::empty(), value: Seq::empty(), enabled: true }),
                    ..env
                },
            ),
            env_var_cursor: n as usize,
            env_editing: Some((ei, (n * 2) as usize)),
            env_edit_buf: Seq::empty(),
            ..s
        }
    } else {
        s
    }
}

/// The state after the edited cell (variable `vi / 2`, key when `vi` is
/// even, value when odd) takes the buffer's text and the environment is
/// saved; after a key the value is edited next (prefilled), after a value
/// editing ends.
pub open spec fn env_committed(s: AppView, ei: usize, vi: usize) -> AppView {
    let col = vi % 2;
    let a = vi / 2;
    let s1 = if ei < s.environments.len() {
        let env = s.environments[ei as int];
        let env2 = if a < env.vars.len() {
            EnvironmentView {
                vars: env.vars.update(
                    a as int,
                    if col == 0 {
                        EnvVarView { key: s.env_edit_buf, ..env.vars[a as int] }
                    } else {
                        EnvVarView { value: s.env_edit_buf, ..env.vars[a as int] }
                    },
                ),
                ..env
            }
        } else {
            env
        };
        AppView {
            environments: s.environments.update(ei as int, env2),
            effects: s.effects.push(EffectView::SaveEnvironment(ei)),
            ..s
        }
    } else {
        s
    };
    if col == 0 {
        AppView {
            env_editing: Some((ei, (a * 2 + 1) as usize)),
            env_edit_buf: if ei < s1.environments.len() && a < s1.environments[ei as int].vars.len() {
                s1.environments[ei as int].vars[a as int].value
            } else {
                s1.env_edit_buf
            },
            ..s1
        }
    } else {
        AppView { env_editing: None, env_edit_buf: Seq::empty(), ..s1 }
    }
}

/// What a key does in the environment editor: while a cell is edited, keys
/// type into it and Tab/Enter commit it; otherwise `j`/`k` pick an
/// environment, `J`/`K` a variable, `n` adds an environment, `o` a variable,
/// Enter edits the variable, `a` makes the environment active and Esc/`q`
/// close the editor.
pub open spec fn env_step(s: AppView, k: KeyEvent, t: AppView) -> bool {
    let envs = s.environments;
    let cur = s.env_list_cursor;
    let vcur = s.env_var_cursor;
    match s.env_editing {
        Some((ei, vi)) => match k.code {
            KeyCode::Char(c) => t == AppView { env_edit_buf: s.env_edit_buf.push(c), ..s },
            KeyCode::Backspace => t == AppView { env_edit_buf: backspaced(s.env_edit_buf), ..s },
            KeyCode::Tab | KeyCode::Enter => t == env_committed(s, ei, vi),
            KeyCode::Esc => t == AppView { env_editing: None, env_edit_buf: Seq::empty(), ..s },
            _ => t == s,
        },
        None => match k.code {
            KeyCode::Esc | KeyCode::Char('q') => t == AppView { modal: ModalView::Closed, ..s },
            KeyCode::Char('j') | KeyCode::Down => t == if envs.len() > 0 && cur + 1 < envs.len() {
                AppView { env_list_cursor: (cur + 1) as usize, env_var_cursor: 0, ..s }
            } else {
                s
            },
            KeyCode::Char('k') | KeyCode::Up => t == if cur > 0 {
                AppView { env_list_cursor: (cur - 1) as usize, env_var_cursor: 0, ..s }
            } else {
                s
            },
            KeyCode::Char('n') => environment_added(s, t),
            KeyCode::Char('o') => t == var_added(s),
            KeyCode::Enter => t == if cur < envs.len() && vcur < envs[cur as int].vars.len() {
                AppView {
                    env_edit_buf: envs[cur as int].vars[vcur as int].key,
                    env_editing: Some((cur, (vcur * 2) as usize)),
                    ..s
                }
            } else {
                s
            },
            KeyCode::Char('A') | KeyCode::Char('a') => t == AppView {
                active_env_idx: Some(cur),
                status_msg: Some(
                    "Active env: "@ + if cur < envs.len() {
                        envs[cur as int].name
                    } else {
                        Seq::empty()
                    },
                ),
                ..s
            },
            KeyCode::Char('J') => t == if cur < envs.len() && envs[cur as int].vars.len() > 0 && vcur
                + 1 < envs[cur as int].vars.len() {
                AppView { env_var_cursor: (vcur + 1) as usize, ..s }
            } else {
                s
            },
            KeyCode::Char('K') => t == if vcur > 0 {
                AppView { env_var_cursor: (vcur - 1) as usize, ..s }
            } else {
                s
            },
            _ => t == s,
        },
    }
}

/// What a key does while a dialog is open: the name dialogs take text and
/// create on Enter, the deletion prompt deletes on `y`/Enter, the help
/// closes on Esc, `q` or `?`.
pub open spec fn modal_step(s: AppView, k: KeyEvent, t: AppView) -> bool {
    let closed = AppView { modal: ModalView::Closed, ..s };
    match s.modal {
        ModalView::NewCollection { name } => match k.code {
            KeyCode::Char(c) => t == AppView { modal: ModalView::NewCollection { name: name.push(c) }, ..s },
            KeyCode::Backspace => t == AppView {
                modal: ModalView::NewCollection { name: backspaced(name) },
                ..s
            },
            KeyCode::Enter => if name.len() > 0 {
                collection_added(s, name, t)
            } else {
                t == closed
            },
            KeyCode::Esc => t == closed,
            _ => t == s,
        },
        ModalView::NewRequest { name, collection_idx: ci } => match k.code {
            KeyCode::Char(c) => t == AppView {
                modal: ModalView::NewRequest { name: name.push(c), collection_idx: ci },
                ..s
            },
            KeyCode::Backspace => t == AppView {
                modal: ModalView::NewRequest { name: backspaced(name), collection_idx: ci },
                ..s
            },
            KeyCode::Enter => if name.len() > 0 && ci < s.collections.len() {
                request_added(s, name, ci, t)
            } else {
                t == closed
            },
            KeyCode::Esc => t == closed,
            _ => t == s,
        },
        ModalView::ConfirmDelete { target } => if k.code == KeyCode::Char('y') || k.code
            == KeyCode::Enter {
            t == deleted(s, target)
        } else {
            t == s
        },
        ModalView::Environment => env_step(s, k, t),
        ModalView::Help => if k.code == KeyCode::Esc || k.code == KeyCode::Char('q') || k.code
            == KeyCode::Char('?') {
            t == closed
        } else {
            t == s
        },
        ModalView::Closed => t == s,
    }
}

// ── Implementation ───────────────────────────────────────────────────────────

impl App {
    fn add_collection(&mut self, name: &String)
        requires
            old(self).wf(),
            name@.len() > 0,
            old(self)@.modal == ModalView::Closed,
        ensures
            collection_added(
                AppView { modal: ModalView::NewCollection { name: name@ }, ..old(self)@ },
                name@,
                final(self)@,
            ),
            final(self).wf(),
    {
        let ghost s0 = AppView { modal: ModalView::NewCollection { name: name@ }, ..self@ };
        let col = Collection::new(name.as_str());
        let ghost c = col@;
        let idx = self.collections.len();
        let ghost old_effects = self.effects@;
        self.effects.push(Effect::SaveCollection(idx));
        let ghost old_cols = self.collections@;
        self.collections.push(col);
        proof {
            assert(effects_view(self.effects@) =~= effects_view(old_effects).push(
                EffectView::SaveCollection(idx),
            ));
            assert(collections_view(self.collections@) =~= collections_view(old_cols).push(c));
        }
        let ghost mid = self@;
        self.rebuild_sidebar();
        proof {
            lemma_rebuilt_wf(mid);
            assert(mid == AppView {
                modal: ModalView::Closed,
                collections: s0.collections.push(c),
                effects: s0.effects.push(EffectView::SaveCollection(s0.collections.len() as usize)),
                ..s0
            });
        }
    }

    fn add_request(&mut self, name: &String, ci: usize)
        requires
            old(self).wf(),
            name@.len() > 0,
            ci < old(self).collections.len(),
            old(self)@.modal == ModalView::Closed,
        ensures
            request_added(
                AppView { modal: ModalView::NewRequest { name: name@, collection_idx: ci }, ..old(self)@ },
                name@,
                ci,
                final(self)@,
            ),
            final(self).wf(),
    {
        let ghost s0 = AppView { modal: ModalView::NewRequest { name: name@, collection_idx: ci }, ..self@ };
        let req = RequestItem::new(name.as_str());
        let ghost r = req@;
        let ghost old_cols = self.collections@;
        self.collections[ci].requests.push(req);
        self.collections[ci].expanded = true;
        let ghost cv = collections_view(old_cols);
        proof {
            assert(items_view(self.collections@[ci as int].requests@) =~= cv[ci as int].requests.push(r));
            assert(collections_view(self.collections@) =~= cv.update(
                ci as int,
                CollectionView { requests: cv[ci as int].requests.push(r), expanded: true, ..cv[ci as int] },
            ));
        }
        let ghost old_effects = self.effects@;
        self.effects.push(Effect::SaveCollection(ci));
        assert(effects_view(self.effects@) =~= effects_view(old_effects).push(
            EffectView::SaveCollection(ci),
        ));
        let ghost mid = self@;
        self.rebuild_sidebar();
        proof {
            lemma_rebuilt_wf(mid);
        }
    }

    fn confirm_delete(&mut self, target: DeleteTarget)
        requires
            old(self).wf(),
            old(self)@.modal == ModalView::Closed,
            match target {
                DeleteTarget::Collection(ci) => ci < old(self).collections.len(),
                _ => true,
            },
        ensures
            final(self)@ == deleted(AppView { modal: ModalView::ConfirmDelete { target }, ..old(self)@ }, target),
            final(self).wf(),
    {
        match target {
            DeleteTarget::Collection(ci) => {
                let id = self.collections[ci].id.clone();
                let ghost old_effects = self.effects@;
                self.effects.push(Effect::DeleteCollection(id));
                assert(effects_view(self.effects@) =~= effects_view(old_effects).push(
                    EffectView::DeleteCollection(collections_view(self.collections@)[ci as int].id),
                ));
                let ghost old_cols = self.collections@;
                self.collections.remove(ci);
                assert(collections_view(self.collections@) =~= collections_view(old_cols).remove(ci as int));
                if self.selected_collection == Some(ci) {
                    self.selected_collection = None;
                    self.selected_request = None;
                }
                let ghost mid = self@;
                self.rebuild_sidebar();
                proof {
                    lemma_rebuilt_wf(mid);
                }
            },
            DeleteTarget::Request { collection_idx, request_idx } => {
                if collection_idx < self.collections.len() {
                    if request_idx < self.collections[collection_idx].requests.len() {
                        let ghost old_cols = self.collections@;
                        let ghost cv = collections_view(old_cols);
                        self.collections[collection_idx].requests.remove(request_idx);
                        proof {
                            assert(items_view(self.collections@[collection_idx as int].requests@)
                                =~= cv[collection_idx as int].requests.remove(request_idx as int));
                            assert(collections_view(self.collections@) =~= cv.update(
                                collection_idx as int,
                                CollectionView {
                                    requests: cv[collection_idx as int].requests.remove(request_idx as int),
                                    ..cv[collection_idx as int]
                                },
                            ));
                        }
                        let ghost old_effects = self.effects@;
                        self.effects.push(Effect::SaveCollection(collection_idx));
                        assert(effects_view(self.effects@) =~= effects_view(old_effects).push(
                            EffectView::SaveCollection(collection_idx),
                        ));
                    }
                    let ghost mid = self@;
                    self.rebuild_sidebar();
                    proof {
                        lemma_rebuilt_wf(mid);
                    }
                }
            },
        }
    }

    fn new_environment(&mut self)
        requires
            old(self).wf(),
            old(self)@.modal == ModalView::Environment,
        ensures
            environment_added(old(self)@, final(self)@),
            final(self).wf(),
    {
        let n = self.environments.len();
        let mut name = owned("env-");
        push_decimal(&mut name, (n as u128) + 1);
        let env = Environment::new(name.as_str());
        let ghost e = env@;
        let ghost old_effects = self.effects@;
        self.effects.push(Effect::SaveEnvironment(n));
        assert(effects_view(self.effects@) =~= effects_view(old_effects).push(
            EffectView::SaveEnvironment(n),
        ));
        let ghost old_envs = self.environments@;
        self.environments.push(env);
        assert(environments_view(self.environments@) =~= environments_view(old_envs).push(e));
        self.env_list_cursor = self.environments.len() - 1;
        proof {
            let envs = self@.environments;
            assert forall|i: int| 0 <= i < envs.len() implies #[trigger] envs[i].vars.len() < var_capacity() by {
                if i < n {
                    assert(envs[i] == old(self)@.environments[i]);
                }
            }
        }
    }

    fn add_variable(&mut self)
        requires
            old(self).wf(),
        ensures
            final(self)@ == var_added(old(self)@),
            final(self).wf(),
    {
        let ei = self.env_list_cursor;
        if ei < self.environments.len() {
            let n = self.environments[ei].vars.len();
            assert(n == self@.environments[ei as int].vars.len());
            if n + 1 < usize::MAX / 2 {
                proof {
                    reveal_strlit("");
                    assert(""@ =~= Seq::<char>::empty());
                }
                let ghost ev = environments_view(self.environments@);
                self.environments[ei].vars.push(EnvVar::new("", ""));
                proof {
                    assert(vars_view(self.environments@[ei as int].vars@) =~= ev[ei as int].vars.push(
                        EnvVarView { key: Seq::empty(), value: Seq::empty(), enabled: true },
                    ));
                    assert(environments_view(self.environments@) =~= ev.update(
                        ei as int,
                        EnvironmentView {
                            vars: ev[ei as int].vars.push(
                                EnvVarView { key: Seq::empty(), value: Seq::empty(), enabled: true },
                            ),
                            ..ev[ei as int]
                        },
                    ));
                }
                self.env_var_cursor = n;
                self.env_editing = Some((ei, n * 2));
                self.env_edit_buf.clear();
                proof {
                    let envs = self@.environments;
                    assert forall|i: int| 0 <= i < envs.len() implies #[trigger] envs[i].vars.len()
                        < var_capacity() by {
                        if i != ei {
                            assert(envs[i] == ev[i]);
                        }
                    }
                }
            }
        }
    }

    fn commit_env_cell(&mut self, ei: usize, vi: usize)
        requires
            old(self).wf(),
        ensures
            final(self)@ == env_committed(old(self)@, ei, vi),
            final(self).wf(),
    {
        let col = vi % 2;
        let actual_var = vi / 2;
        if ei < self.environments.len() {
            let ghost ev = environments_view(self.environments@);
            if actual_var < self.environments[ei].vars.len() {
                let buf = self.env_edit_buf.clone();
                if col == 0 {
                    self.environments[ei].vars[actual_var].key = buf;
                } else {
                    self.environments[ei].vars[actual_var].value = buf;
                }
                proof {
                    let env = ev[ei as int];
                    let nv = env.vars.update(
                        actual_var as int,
                        if col == 0 {
                            EnvVarView { key: old(self)@.env_edit_buf, ..env.vars[actual_var as int] }
                        } else {
                            EnvVarView { value: old(self)@.env_edit_buf, ..env.vars[actual_var as int] }
                        },
                    );
                    assert(vars_view(self.environments@[ei as int].vars@) =~= nv);
                    assert(environments_view(self.environments@) =~= ev.update(
                        ei as int,
                        EnvironmentView { vars: nv, ..env },
                    ));
                }
            } else {
                assert(environments_view(self.environments@) =~= ev.update(ei as int, ev[ei as int]));
            }
            let ghost old_effects = self.effects@;
            self.effects.push(Effect::SaveEnvironment(ei));
            assert(effects_view(self.effects@) =~= effects_view(old_effects).push(
                EffectView::SaveEnvironment(ei),
            ));
            proof {
                let envs = self@.environments;
                assert forall|i: int| 0 <= i < envs.len() implies #[trigger] envs[i].vars.len()
                    < var_capacity() by {
                    if i != ei {
                        assert(envs[i] == ev[i]);
                    } else {
                        assert(envs[i].vars.len() == ev[i].vars.len());
                    }
                }
            }
        }
        if col == 0 {
            self.env_editing = Some((ei, actual_var * 2 + 1));
            if ei < self.environments.len() {
                if actual_var < self.environments[ei].vars.len() {
                    self.env_edit_buf = self.environments[ei].vars[actual_var].value.clone();
                }
            }
        } else {
            self.env_editing = None;
            self.env_edit_buf.clear();
        }
    }

    fn set_active_env(&mut self)
        requires
            old(self).wf(),
        ensures
            final(self)@ == (AppView {
                active_env_idx: Some(old(self)@.env_list_cursor),
                status_msg: Some(
                    "Active env: "@ + if old(self)@.env_list_cursor < old(self)@.environments.len() {
                        old(self)@.environments[old(self)@.env_list_cursor as int].name
                    } else {
                        Seq::empty()
                    },
                ),
                ..old(self)@
            }),
            final(self).wf(),
    {
        self.active_env_idx = Some(self.env_list_cursor);
        let mut msg = owned("Active env: ");
        if self.env_list_cursor < self.environments.len() {
            msg.push_str(self.environments[self.env_list_cursor].name.as_str());
        } else {
            proof {
                reveal_strlit("Active env: ");
            }
            assert(msg@ =~= "Active env: "@ + Seq::<char>::empty());
        }
        self.status_msg = Some(msg);
    }

    fn handle_env_edit_key(&mut self, key: KeyEvent, ei: usize, vi: usize)
        requires
            old(self).wf(),
            old(self)@.env_editing == Some((ei, vi)),
        ensures
            env_step(old(self)@, key, final(self)@),
            final(self).wf(),
    {
        match key.code {
            KeyCode::Char(c) => self.env_edit_buf.push(c),
            KeyCode::Backspace => {
                self.env_edit_buf.pop();
            },
            KeyCode::Tab | KeyCode::Enter => {
                self.commit_env_cell(ei, vi);
            },
            KeyCode::Esc => {
                self.env_editing = None;
                self.env_edit_buf.clear();
            },
            _ => {},
        }
    }

    pub fn handle_env_modal_key(&mut self, key: KeyEvent)
        requires
            old(self).wf(),
            old(self)@.modal == ModalView::Environment,
        ensures
            env_step(old(self)@, key, final(self)@),
            final(self).wf(),
    {
        if let Some((env_idx, var_idx)) = self.env_editing {
            self.handle_env_edit_key(key, env_idx, var_idx);
            return ;
        }
        match key.code {
            KeyCode::Esc | KeyCode::Char('q') => self.modal = ActiveModal::Closed,
            KeyCode::Char('j') | KeyCode::Down => {
                let len = self.environments.len();
                if len > 0 && self.env_list_cursor + 1 < len {
                    self.env_list_cursor += 1;
                    self.env_var_cursor = 0;
                }
            },
            KeyCode::Char('k') | KeyCode::Up => {
                if self.env_list_cursor > 0 {
                    self.env_list_cursor -= 1;
                    self.env_var_cursor = 0;
                }
            },
            KeyCode::Char('n') => {
                self.new_environment();
            },
            KeyCode::Char('o') => {
                self.add_variable();
            },
            KeyCode::Enter => {
                if self.env_list_cursor < self.environments.len() {
                    let c = self.env_list_cursor;
                    assert(self@.environments[c as int].vars.len() == self.environments@[c as int].vars@.len());
                    if self.env_var_cursor < self.environments[c].vars.len() {
                        let k = self.environments[c].vars[self.env_var_cursor].key.clone();
                        self.env_edit_buf = k;
                        self.env_editing = Some((c, self.env_var_cursor * 2));
                    }
                }
            },
            KeyCode::Char('A') | KeyCode::Char('a') => {
                self.set_active_env();
            },
            KeyCode::Char('J') => {
                if self.env_list_cursor < self.environments.len() {
                    let len = self.environments[self.env_list_cursor].vars.len();
                    if len > 0 && self.env_var_cursor + 1 < len {
                        self.env_var_cursor += 1;
                    }
                }
            },
            KeyCode::Char('K') => {
                if self.env_var_cursor > 0 {
                    self.env_var_cursor -= 1;
                }
            },
            _ => {},
        }
    }

    pub fn handle_modal_key(&mut self, key: KeyEvent) -> (quit: bool)
        requires
            old(self).wf(),
        ensures
            !quit,
            modal_step(old(self)@, key, final(self)@),
            final(self).wf(),
    {
        let mut taken = ActiveModal::Closed;
        std::mem::swap(&mut taken, &mut self.modal);
        assert(self@ == AppView { modal: ModalView::Closed, ..old(self)@ });
        assert(self.wf());
        match taken {
            ActiveModal::NewCollection { mut name } => {
                match key.code {
                    KeyCode::Char(c) => name.push(c),
                    KeyCode::Backspace => {
                        name.pop();
                    },
                    KeyCode::Enter => {
                        if !name.is_empty() {
                            self.add_collection(&name);
                        }
                        return false;
                    },
                    KeyCode::Esc => {
                        return false;
                    },
                    _ => {},
                }
                self.modal = ActiveModal::NewCollection { name };
            },
            ActiveModal::NewRequest { mut name, collection_idx: ci } => {
                match key.code {
                    KeyCode::Char(c) => name.push(c),
                    KeyCode::Backspace => {
                        name.pop();
                    },
                    KeyCode::Enter => {
                        if !name.is_empty() && ci < self.collections.len() {
                            assert(self.wf());
                            self.add_request(&name, ci);
                        }
                        return false;
                    },
                    KeyCode::Esc => {
                        return false;
                    },
                    _ => {},
                }
                self.modal = ActiveModal::NewRequest { name, collection_idx: ci };
            },
            ActiveModal::ConfirmDelete { target } => {
                if key.code == KeyCode::Char('y') || key.code == KeyCode::Enter {
                    self.confirm_delete(target);
                } else {
                    self.modal = ActiveModal::ConfirmDelete { target };
                }
            },
            ActiveModal::Environment => {
                self.modal = ActiveModal::Environment;
                self.handle_env_modal_key(key);
            },
            ActiveModal::Help => {
                if !(key.code == KeyCode::Esc || key.code == KeyCode::Char('q') || key.code
                    == KeyCode::Char('?')) {
                    self.modal = ActiveModal::Help;
                }
            },
            ActiveModal::Closed => {},
        }
        false
    }
}


// ── Laws of the environment editor ───────────────────────────────────────────

/// Enter on the selected variable starts editing that variable's own key:
/// typing a character and committing with Enter appends it to that key,
/// leaves its value and every other variable and environment as they were,
/// and moves on to editing the same variable's value.
pub proof fn lemma_env_enter_edits_selected_key(
    s: AppView,
    enter: KeyEvent,
    typed: KeyEvent,
    commit: KeyEvent,
    x: char,
    t1: AppView,
    t2: AppView,
    t3: AppView,
)
    requires
        s.wf(),
        s.env_editing is None,
        s.env_list_cursor < s.environments.len(),
        s.env_var_cursor < s.environments[s.env_list_cursor as int].vars.len(),
        enter.code == KeyCode::Enter,
        typed.code == KeyCode::Char(x),
        commit.code == KeyCode::Enter,
        env_step(s, enter, t1),
        env_step(t1, typed, t2),
        env_step(t2, commit, t3),
    ensures
        ({
            let e = s.env_list_cursor as int;
            let v = s.env_var_cursor as int;
            let old_vars = s.environments[e].vars;
            let new_vars = t3.environments[e].vars;
            &&& t1.env_edit_buf == old_vars[v].key
            &&& t3.environments.len() == s.environments.len()
            &&& new_vars.len() == old_vars.len()
            &&& new_vars[v].key == old_vars[v].key.push(x)
            &&& new_vars[v].value == old_vars[v].value
            &&& new_vars[v].enabled == old_vars[v].enabled
            &&& (forall|j: int| 0 <= j < old_vars.len() && j != v ==> new_vars[j] == old_vars[j])
            &&& (forall|f: int|
                0 <= f < s.environments.len() && f != e ==> t3.environments[f] == s.environments[f])
            &&& t3.environments[e].name == s.environments[e].name
            &&& t3.env_edit_buf == old_vars[v].value
        }),
{
    let e = s.env_list_cursor as int;
    let v = s.env_var_cursor as int;
    let ev = s.environments[e];
    assert(ev.vars.len() < var_capacity());
    let vi = (s.env_var_cursor * 2) as usize;
    assert(vi == 2 * v);
    assert(vi / 2 == v && vi % 2 == 0);
    assert(t1 == AppView { env_edit_buf: ev.vars[v].key, env_editing: Some((s.env_list_cursor, vi)), ..s });
    assert(t2 == AppView { env_edit_buf: ev.vars[v].key.push(x), ..t1 });
    assert(t3 == env_committed(t2, s.env_list_cursor, vi));
}


/// While a variable cell is edited, typing a character and then Backspace
/// gives back the state as it was.
pub proof fn lemma_env_backspace_undoes_typing(
    s: AppView,
    typed: KeyEvent,
    back: KeyEvent,
    x: char,
    t1: AppView,
    t2: AppView,
)
    requires
        s.env_editing is Some,
        typed.code == KeyCode::Char(x),
        back.code == KeyCode::Backspace,
        env_step(s, typed, t1),
        env_step(t1, back, t2),
    ensures
        t2 == s,
{
    assert(s.env_edit_buf.push(x).drop_last() =~= s.env_edit_buf);
}

} // verus!
