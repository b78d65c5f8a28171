//! Engine-wide laws, proved once and for all over the transition relations
//! that the operations of [`crate::gum`] ensure.

use vstd::prelude::*;
use crate::gum::{
    Gum, MatrixStack, Mode, cleans, pops, pushes, upload_of, upload_seq, writes_top,
    lemma_writes_top_top, lemma_writes_top_chain,
};
use crate::mat::{Matrix4, Vector3, compose, rot_x_mat, rot_y_mat, rot_z_mat};

verus! {

/// The relation that any sequence of load or transform calls (and no push,
/// pop or selection change) bears to its start state: the selection and
/// every stack pointer stand still, and no slot changes but the selected
/// space's top slot.
pub open spec fn transforms_only_top(pre: Gum, post: Gum) -> bool {
    let s = pre.space(pre.selected);
    let t = post.space(pre.selected);
    &&& post.selected == pre.selected
    &&& t.sp == s.sp
    &&& t.mats@.len() == s.mats@.len()
    &&& forall|i: int|
        0 <= i < s.mats@.len() && i != s.sp ==> t.mats@[i] == s.mats@[i]
}

/// A single top write is a transform in the sense of
/// [`transforms_only_top`].
pub proof fn lemma_write_is_transform(pre: Gum, post: Gum, m: Matrix4)
    requires
        pre.wf(),
        writes_top(pre, post, m),
    ensures
        transforms_only_top(pre, post),
{
    let s = pre.space(pre.selected);
    let t = post.space(pre.selected);
    let u = s.mats@.update(s.sp as int, m);
    assert(t.mats@ =~= u);
    assert(u.len() == s.mats@.len());
    assert forall|i: int| 0 <= i < s.mats@.len() && i != s.sp implies t.mats@[i] == s.mats@[i] by {
        assert(t.mats@[i] == u[i]);
        assert(u[i] == s.mats@[i]);
    }
}

/// Doing nothing is a transform in the sense of [`transforms_only_top`].
pub proof fn lemma_transform_refl(s: Gum)
    ensures
        transforms_only_top(s, s),
{
}

/// Transforms compose: any sequence of them is again one.
pub proof fn lemma_transform_trans(a: Gum, b: Gum, c: Gum)
    requires
        transforms_only_top(a, b),
        transforms_only_top(b, c),
    ensures
        transforms_only_top(a, c),
{
}

/// Law: a push duplicates the top, so the top is the same value right after
/// it.
pub proof fn lemma_push_preserves_top(s0: Gum, s1: Gum)
    requires
        s0.wf(),
        s0.space(s0.selected).sp < 31,
        pushes(s0, s1),
    ensures
        s1.top() == s0.top(),
{
    let s = s0.space(s0.selected);
    let t = s1.space(s0.selected);
    assert(t.mats@[t.sp as int] == s.mats@.update(s.sp + 1, s.top())[s.sp + 1]);
}

/// Law: a push, then any sequence of load or transform calls, then a pop
/// restore the exact pre-push top, bit for bit.
///
/// `s0` is the state before the push, `s1` the state after it, `s2` the
/// state after the intermediate calls, and `s3` the state after the pop.
pub proof fn lemma_push_pop_restores(s0: Gum, s1: Gum, s2: Gum, s3: Gum)
    requires
        s0.wf(),
        s0.space(s0.selected).sp < 31,
        pushes(s0, s1),
        transforms_only_top(s1, s2),
        pops(s2, s3),
    ensures
        s3.top() == s0.top(),
{
    let a = s0.space(s0.selected);
    let b = s1.space(s0.selected);
    let c = s2.space(s0.selected);
    let d = s3.space(s0.selected);
    assert(b.mats@[a.sp as int] == a.mats@[a.sp as int]);
    assert(c.mats@[a.sp as int] == b.mats@[a.sp as int]);
    assert(d.mats@[d.sp as int] == c.mats@[a.sp as int]);
}

/// Two stacks that hold the same slots, pointer and flag.
pub open spec fn stack_like(a: MatrixStack, b: MatrixStack) -> bool {
    a.mats@ =~= b.mats@ && a.sp == b.sp && a.dirty == b.dirty
}

/// Two context states that agree on everything observable.
pub open spec fn state_like(a: Gum, b: Gum) -> bool {
    &&& a.selected == b.selected
    &&& a.initialized == b.initialized
    &&& stack_like(a.projection, b.projection)
    &&& stack_like(a.view, b.view)
    &&& stack_like(a.model, b.model)
    &&& stack_like(a.texture, b.texture)
}

/// Law: one combined x-then-y-then-z rotation equals the three separate
/// rotations composed in that literal order. `t` is the state that
/// [`Gum::rotate_xyz`] ensures from `s0`; `u1`, `u2`, `u3` are the states
/// that [`Gum::rotate_x`], [`Gum::rotate_y`] and [`Gum::rotate_z`] ensure in
/// sequence from the same `s0`. The two end states agree on everything
/// observable. (That reversing the order gives a different matrix for
/// nonzero angles is a fact about the rounded arithmetic, shown by the
/// accompanying tests, not provable from the algebra of the relations.)
pub proof fn lemma_rotate_xyz_is_sequence(
    s0: Gum,
    t: Gum,
    u1: Gum,
    u2: Gum,
    u3: Gum,
    v: Vector3,
)
    requires
        s0.wf(),
        writes_top(
            s0,
            t,
            compose(compose(compose(s0.top(), rot_x_mat(v.x)), rot_y_mat(v.y)), rot_z_mat(v.z)),
        ),
        writes_top(s0, u1, compose(s0.top(), rot_x_mat(v.x))),
        writes_top(u1, u2, compose(u1.top(), rot_y_mat(v.y))),
        writes_top(u2, u3, compose(u2.top(), rot_z_mat(v.z))),
    ensures
        state_like(t, u3),
        t.top() == u3.top(),
{
    lemma_writes_top_top(s0, u1, compose(s0.top(), rot_x_mat(v.x)));
    lemma_writes_top_chain(
        s0,
        u1,
        u2,
        compose(s0.top(), rot_x_mat(v.x)),
        compose(u1.top(), rot_y_mat(v.y)),
    );
    lemma_writes_top_top(s0, u2, compose(u1.top(), rot_y_mat(v.y)));
    lemma_writes_top_chain(
        s0,
        u2,
        u3,
        compose(u1.top(), rot_y_mat(v.y)),
        compose(u2.top(), rot_z_mat(v.z)),
    );
    lemma_writes_top_top(
        s0,
        u3,
        compose(compose(compose(s0.top(), rot_x_mat(v.x)), rot_y_mat(v.y)), rot_z_mat(v.z)),
    );
    lemma_writes_top_top(
        s0,
        t,
        compose(compose(compose(s0.top(), rot_x_mat(v.x)), rot_y_mat(v.y)), rot_z_mat(v.z)),
    );
    assert(stack_like(t.space(s0.selected), u3.space(s0.selected)));
}

/// Law: an update uploads only dirty spaces — a space whose flag is clear
/// appears in no upload command of the pass.
pub proof fn lemma_update_skips_clean(g: Gum, m: Mode)
    requires
        !g.space(m).dirty,
    ensures
        forall|k: int| 0 <= k < upload_seq(g).len() ==> (#[trigger] upload_seq(g)[k]).0 != m,
{
    let a = upload_of(g.projection, Mode::Projection);
    let b = upload_of(g.view, Mode::View);
    let c = upload_of(g.model, Mode::Model);
    let d = upload_of(g.texture, Mode::Texture);
    assert forall|k: int| 0 <= k < upload_seq(g).len() implies (#[trigger] upload_seq(g)[k]).0
        != m by {
        let s = upload_seq(g);
        if k < a.len() {
            assert(s[k] == a[k]);
            assert(g.projection.dirty && s[k].0 == Mode::Projection);
        } else if k < a.len() + b.len() {
            assert(s[k] == b[k - a.len()]);
            assert(g.view.dirty && s[k].0 == Mode::View);
        } else if k < a.len() + b.len() + c.len() {
            assert(s[k] == c[k - a.len() - b.len()]);
            assert(g.model.dirty && s[k].0 == Mode::Model);
        } else {
            assert(s[k] == d[k - a.len() - b.len() - c.len()]);
            assert(g.texture.dirty && s[k].0 == Mode::Texture);
        }
    }
}

/// Law: an update uploads every dirty space — a space whose flag is set
/// contributes exactly its current top, under its own mode, to the pass.
pub proof fn lemma_update_uploads_dirty(g: Gum, m: Mode)
    requires
        g.space(m).dirty,
    ensures
        upload_seq(g).contains((m, g.space(m).top())),
{
    let a = upload_of(g.projection, Mode::Projection);
    let b = upload_of(g.view, Mode::View);
    let c = upload_of(g.model, Mode::Model);
    let d = upload_of(g.texture, Mode::Texture);
    let s = upload_seq(g);
    match m {
        Mode::Projection => {
            assert(s[0] == (m, g.space(m).top()));
        },
        Mode::View => {
            let k = a.len() as int;
            assert(s[k] == b[0]);
            assert(s[k] == (m, g.space(m).top()));
        },
        Mode::Model => {
            let k = (a.len() + b.len()) as int;
            assert(s[k] == c[0]);
            assert(s[k] == (m, g.space(m).top()));
        },
        Mode::Texture => {
            let k = (a.len() + b.len() + c.len()) as int;
            assert(s[k] == d[0]);
            assert(s[k] == (m, g.space(m).top()));
        },
    }
}

/// Law: an update right after an update emits nothing — the first pass
/// leaves every flag clear, so the second pass's upload sequence is empty.
pub proof fn lemma_update_idempotent(pre: Gum, post: Gum)
    requires
        cleans(pre, post),
    ensures
        upload_seq(post).len() == 0,
{
    assert(upload_seq(post) =~= Seq::<(Mode, Matrix4)>::empty());
}

} // verus!
