//! A model of the graphics context's mutable state, passed explicitly.
//!
//! The underlying API keeps one piece of global state this crate cares
//! about: which program is active, and each program's uniform memory.
//! Relying on it implicitly is the classic trap of the upload path, so the
//! crate tracks that state in an explicit [`Context`] value: activation and
//! every upload go through it, and the front end mirrors each returned
//! command onto the real context. Uploads land on the program that is
//! active *now* — which is why [`ShaderProgram::set_uniform`] demands that
//! its own program is the active one, instead of silently writing to
//! whichever program a caller forgot to deactivate.
//!
//! Resolving a uniform name that the linked program does not know yields an
//! invalid location marker, and the API would silently ignore the upload.
//! Whether that is an error or a no-op is configurable per context via
//! [`Strictness`].

use vstd::prelude::*;

use crate::shader::ShaderProgram;
use crate::uniform::{command_for, uniform_command, UniformCommand, UniformValue};

verus! {

/// One recorded upload: the program it targeted, the resolved location
/// within that program, and the value.
#[derive(Clone, Copy, PartialEq, Eq, Debug)]
pub struct UniformWrite {
    pub program: u32,
    pub location: i32,
    pub value: UniformValue,
}

/// What to do with an upload whose name did not resolve: ignore it, as the
/// underlying API would, or report it.
#[derive(Clone, Copy, PartialEq, Eq, Structural, Debug)]
pub enum Strictness {
    Lenient,
    Strict,
}

/// Why an upload was refused.
#[derive(Clone, PartialEq, Eq, Debug)]
pub enum UniformError {
    /// Under [`Strictness::Strict`], the uniform name did not resolve to a
    /// location in the active program.
    UnresolvedName { name: String },
}

/// The context state as specifications see it.
pub ghost struct ContextView {
    pub active: Option<u32>,
    pub strictness: Strictness,
    pub store: Seq<UniformWrite>,
}

/// The graphics context's modelled state: the active program and the
/// uniform memory of every program, keyed by program handle and location.
pub struct Context {
    active: Option<u32>,
    strictness: Strictness,
    store: Vec<UniformWrite>,
}

impl View for Context {
    type V = ContextView;

    closed spec fn view(&self) -> ContextView {
        ContextView { active: self.active, strictness: self.strictness, store: self.store@ }
    }
}

/// `w` is the entry for `location` of `program`.
pub open spec fn is_for(w: UniformWrite, program: u32, location: i32) -> bool {
    w.program == program && w.location == location
}

/// No two entries are for the same program and location.
pub open spec fn keys_unique(store: Seq<UniformWrite>) -> bool {
    forall|i: int, j: int|
        0 <= i < j < store.len() ==> !(#[trigger] store[i].program == #[trigger] store[j].program
            && store[i].location == store[j].location)
}

/// The value last written for `location` of `program`, if any.
pub open spec fn lookup(store: Seq<UniformWrite>, program: u32, location: i32) -> Option<
    UniformValue,
>
    decreases store.len(),
{
    if store.len() == 0 {
        None
    } else if is_for(store.last(), program, location) {
        Some(store.last().value)
    } else {
        lookup(store.drop_last(), program, location)
    }
}

/// Activation, as a transform of the context state: it makes `id` the
/// active program and touches nothing else — in particular no program's
/// stored uniforms.
pub open spec fn activate_view(c: ContextView, id: u32) -> ContextView {
    ContextView { active: Some(id), ..c }
}

/// Activating a program twice in a row leaves the context exactly as
/// activating it once does: every later call sees the same state.
pub proof fn lemma_activate_idempotent(c: ContextView, id: u32)
    ensures
        activate_view(activate_view(c, id), id) == activate_view(c, id),
{
}

/// Activation does not alter any program's uniform state: whatever was
/// stored for any program and location is still stored after.
pub proof fn lemma_activate_preserves_uniforms(c: ContextView, id: u32, program: u32, location: i32)
    ensures
        lookup(activate_view(c, id).store, program, location) == lookup(c.store, program, location),
{
}

/// Overwriting the unique entry that carries `w`'s key changes exactly that
/// key's lookup and no other.
proof fn lemma_lookup_update(store: Seq<UniformWrite>, i: int, w: UniformWrite, q: u32, l: i32)
    requires
        keys_unique(store),
        0 <= i < store.len(),
        is_for(store[i], w.program, w.location),
    ensures
        lookup(store.update(i, w), q, l) == if is_for(w, q, l) {
            Some(w.value)
        } else {
            lookup(store, q, l)
        },
    decreases store.len(),
{
    let n = store.len() as int;
    let s2 = store.update(i, w);
    if i == n - 1 {
        if !is_for(w, q, l) {
            assert(s2.drop_last() =~= store.drop_last());
        }
    } else {
        assert(s2.drop_last() =~= store.drop_last().update(i, w));
        assert(keys_unique(store.drop_last()));
        lemma_lookup_update(store.drop_last(), i, w, q, l);
        if is_for(store.last(), q, l) && is_for(w, q, l) {
            assert(is_for(store[n - 1], store[i].program, store[i].location));
            assert(false);
        }
    }
}

/// Appending an entry with a fresh key changes exactly that key's lookup
/// and no other.
proof fn lemma_lookup_push(store: Seq<UniformWrite>, w: UniformWrite, q: u32, l: i32)
    ensures
        lookup(store.push(w), q, l) == if is_for(w, q, l) {
            Some(w.value)
        } else {
            lookup(store, q, l)
        },
{
    let s2 = store.push(w);
    assert(s2.last() == w);
    assert(s2.drop_last() =~= store);
}

impl Context {
    /// The context's internal invariant: one store entry per program and
    /// location. Established by [`Context::new`] and preserved by every
    /// method.
    pub closed spec fn wf(self) -> bool {
        keys_unique(self.store@)
    }

    /// A fresh context: nothing is active and nothing has been uploaded.
    pub fn new(strictness: Strictness) -> (c: Self)
        ensures
            c.wf(),
            c@.active is None,
            c@.strictness == strictness,
            c@.store == Seq::<UniformWrite>::empty(),
    {
        Context { active: None, strictness, store: Vec::new() }
    }

    /// The handle of the active program, if one is active.
    pub fn active_program(&self) -> (r: Option<u32>)
        ensures
            r == self@.active,
    {
        self.active
    }

    /// How this context treats an unresolved uniform name.
    pub fn strictness(&self) -> (r: Strictness)
        ensures
            r == self@.strictness,
    {
        self.strictness
    }

    /// The value last uploaded for `location` of `program`, if any.
    pub fn get_uniform(&self, program: u32, location: i32) -> (r: Option<UniformValue>)
        ensures
            r == lookup(self@.store, program, location),
    {
        let ghost full = self@.store;
        let mut i: usize = self.store.len();
        proof {
            assert(full.take(i as int) =~= full);
        }
        while i > 0
            invariant
                i <= self.store.len(),
                full == self@.store,
                lookup(full, program, location) == lookup(
                    full.take(i as int),
                    program,
                    location,
                ),
            decreases i,
        {
            i = i - 1;
            let w = self.store[i];
            proof {
                assert(full.take(i + 1).last() == full[i as int]);
                assert(full.take(i + 1).drop_last() =~= full.take(i as int));
            }
            if w.program == program && w.location == location {
                return Some(w.value);
            }
        }
        None
    }
}

impl ShaderProgram {
    /// Make this program the context's active one. Only one program is
    /// active at a time: activating this one deactivates any other. No
    /// program's uniform state changes.
    pub fn activate(&self, ctx: &mut Context)
        ensures
            final(ctx)@ == activate_view(old(ctx)@, self.id_spec()),
            old(ctx).wf() ==> final(ctx).wf(),
    {
        ctx.active = Some(self.program_id());
    }

    /// Upload `value` for the uniform `name` of this program, which must be
    /// the context's active one; `location` is what resolving `name` against
    /// this linked program gave, with any negative value as the API's
    /// invalid-name marker.
    ///
    /// A resolved location yields the upload command for the value's kind
    /// and records the value under this program and location, leaving every
    /// other program and location untouched. An unresolved one yields no
    /// command and changes nothing: silently under a lenient context, as an
    /// error under a strict one.
    pub fn set_uniform(
        &self,
        ctx: &mut Context,
        name: &str,
        location: i32,
        value: UniformValue,
    ) -> (r: Result<Option<UniformCommand>, UniformError>)
        requires
            old(ctx).wf(),
            old(ctx)@.active == Some(self.id_spec()),
        ensures
            final(ctx).wf(),
            final(ctx)@.active == old(ctx)@.active,
            final(ctx)@.strictness == old(ctx)@.strictness,
            location >= 0 ==> r == Ok::<Option<UniformCommand>, UniformError>(
                Some(command_for(value, location)),
            ),
            location >= 0 ==> forall|q: u32, l: i32|
                #![auto]
                lookup(final(ctx)@.store, q, l) == if q == self.id_spec() && l == location {
                    Some(value)
                } else {
                    lookup(old(ctx)@.store, q, l)
                },
            location < 0 ==> final(ctx)@ == old(ctx)@,
            location < 0 && old(ctx)@.strictness == Strictness::Lenient ==> r == Ok::<
                Option<UniformCommand>,
                UniformError,
            >(None),
            location < 0 && old(ctx)@.strictness == Strictness::Strict ==> (r matches Err(e) && (
            e matches UniformError::UnresolvedName { name: n } && n@ == name@)),
    {
        if location < 0 {
            if matches!(ctx.strictness, Strictness::Strict) {
                return Err(UniformError::UnresolvedName { name: name.to_owned() });
            }
            return Ok(None);
        }
        let pid: u32 = self.program_id();
        let w = UniformWrite { program: pid, location, value };
        let n: usize = ctx.store.len();
        let mut i: usize = 0;
        let mut found: bool = false;
        while i < n && !found
            invariant
                n == ctx.store.len(),
                i <= n,
                found ==> i < n && is_for(ctx@.store[i as int], pid, location),
                !found ==> forall|k: int| 0 <= k < i ==> !is_for(#[trigger] ctx@.store[k], pid, location),
            decreases n - i + if found { 0int } else { 1int },
        {
            let cand = ctx.store[i];
            if cand.program == pid && cand.location == location {
                found = true;
            } else {
                i = i + 1;
            }
        }
        if found {
            let ghost before = ctx@.store;
            *vstd::std_specs::vec::vec_index_mut(&mut ctx.store, i) = w;
            proof {
                assert(ctx@.store =~= before.update(i as int, w));
                assert forall|ii: int, jj: int|
                    0 <= ii < jj < ctx@.store.len() implies !(#[trigger] ctx@.store[ii].program
                    == #[trigger] ctx@.store[jj].program && ctx@.store[ii].location
                    == ctx@.store[jj].location) by {
                    assert(is_for(before[i as int], w.program, w.location));
                }
                assert forall|q: u32, l: i32|
                    #![auto]
                    lookup(ctx@.store, q, l) == if q == pid && l == location {
                        Some(value)
                    } else {
                        lookup(before, q, l)
                    } by {
                    lemma_lookup_update(before, i as int, w, q, l);
                }
            }
        } else {
            let ghost before = ctx@.store;
            ctx.store.push(w);
            proof {
                assert forall|q: u32, l: i32|
                    #![auto]
                    lookup(ctx@.store, q, l) == if q == pid && l == location {
                        Some(value)
                    } else {
                        lookup(before, q, l)
                    } by {
                    lemma_lookup_push(before, w, q, l);
                }
            }
        }
        Ok(Some(uniform_command(&value, location)))
    }
}

} // verus!
