//! The stateful matrix stack manager.
//!
//! The engine context [`Gum`] owns one fixed-depth [`MatrixStack`] per
//! transform space and a selector for the space that load and transform
//! operations act on. Every mutation of a top-of-stack matrix marks its
//! space dirty; [`Gum::update`] emits one upload command per dirty space and
//! clears the flags, so that any number of transform calls between two
//! updates reach the rasterizer as a single composed matrix.
//!
//! The context starts uninitialized; loading a matrix (or the identity)
//! readies it, and every operation that reads or transforms a matrix fails
//! fast with [`GumError::UninitializedContext`] until then. An update pass
//! is harmless at any time — before the first load nothing is dirty, so it
//! has nothing to upload. A readied context never becomes uninitialized
//! again.

use vstd::prelude::*;
use crate::mat::{
    Matrix4, Vector3, fast_inverse_mat, gum_fast_inverse, gum_load_identity, gum_mult_matrix,
    compose, identity_mat, look_basis_mat, look_basis_matrix, neg3, ortho_mat, ortho_matrix,
    persp_half_rad, persp_mat, persp_matrix, rot_x_mat, rot_x_matrix, rot_y_mat, rot_y_matrix,
    rot_z_mat, rot_z_matrix, scale_mat, scale_matrix, translate_mat, translate_matrix,
    zero_matrix, zero_mat,
};
use crate::scalar::{
    DEG_TO_RAD, EPSILON, F32_HALF, F32_ZERO, abs_bits, f32_eq, f32_eq_bits, f32_gt, f32_gt_bits,
    f32_le, f32_le_bits, f_abs, f_mul, f_neg, f_sin, sin_bits,
};

verus! {

/// The four transform spaces a rasterizer consumes; exactly one is selected
/// at any time.
#[derive(Clone, Copy, Debug, PartialEq, Eq, Structural)]
pub enum Mode {
    Projection,
    View,
    Model,
    Texture,
}

/// The errors of the engine. All of them are local-recoverable: a failed
/// call leaves the context exactly as it was.
#[derive(Clone, Copy, Debug, PartialEq, Eq, Structural)]
pub enum GumError {
    /// A push would move the stack pointer past the last of the 32 slots.
    StackOverflow,
    /// A pop would move the stack pointer below the first slot.
    StackUnderflow,
    /// A degenerate numeric input to a projection: a zero or negative
    /// aspect, equal near and far planes, or a field of view whose half-angle
    /// sine is too close to zero to divide by.
    DomainError,
    /// An operation other than a load ran before the context was readied.
    UninitializedContext,
}

/// One space's stack: 32 matrix slots, the index of the current top, and the
/// dirty flag that records a mutation since the last upload.
pub struct MatrixStack {
    pub mats: Vec<Matrix4>,
    pub sp: usize,
    pub dirty: bool,
}

/// The capacity of every stack.
pub const STACK_DEPTH: usize = 32;

pub open spec fn stack_wf(s: MatrixStack) -> bool {
    s.mats@.len() == STACK_DEPTH && s.sp < STACK_DEPTH
}

impl MatrixStack {
    /// The current top entry.
    pub open spec fn top(self) -> Matrix4 {
        self.mats@[self.sp as int]
    }
}

/// The engine context: four matrix stacks, the selected space, and the
/// readiness flag of the lazily initialized scratch state.
pub struct Gum {
    pub projection: MatrixStack,
    pub view: MatrixStack,
    pub model: MatrixStack,
    pub texture: MatrixStack,
    pub selected: Mode,
    pub initialized: bool,
}

impl Gum {
    pub open spec fn wf(self) -> bool {
        &&& stack_wf(self.projection)
        &&& stack_wf(self.view)
        &&& stack_wf(self.model)
        &&& stack_wf(self.texture)
    }

    /// The stack of a space.
    pub open spec fn space(self, m: Mode) -> MatrixStack {
        match m {
            Mode::Projection => self.projection,
            Mode::View => self.view,
            Mode::Model => self.model,
            Mode::Texture => self.texture,
        }
    }

    /// The top entry of the selected space.
    pub open spec fn top(self) -> Matrix4 {
        self.space(self.selected).top()
    }
}

/// Every space other than `m` is untouched between the two states.
pub open spec fn others_unchanged(pre: Gum, post: Gum, m: Mode) -> bool {
    &&& m != Mode::Projection ==> post.projection == pre.projection
    &&& m != Mode::View ==> post.view == pre.view
    &&& m != Mode::Model ==> post.model == pre.model
    &&& m != Mode::Texture ==> post.texture == pre.texture
}

/// The selected space's top slot now holds `m` and is dirty; its stack
/// pointer, every other slot, every other space and the selection are
/// untouched, and the context is ready.
pub open spec fn writes_top(pre: Gum, post: Gum, m: Matrix4) -> bool {
    let s = pre.space(pre.selected);
    let t = post.space(pre.selected);
    &&& post.selected == pre.selected
    &&& post.initialized
    &&& t.mats@ =~= s.mats@.update(s.sp as int, m)
    &&& t.sp == s.sp
    &&& t.dirty
    &&& others_unchanged(pre, post, pre.selected)
}

/// The selected space gained one slot: the new top is a copy of the old
/// top, and nothing else changed — not even the dirty flag, since the
/// hardware-visible matrix is the same value.
pub open spec fn pushes(pre: Gum, post: Gum) -> bool {
    let s = pre.space(pre.selected);
    let t = post.space(pre.selected);
    &&& post.selected == pre.selected
    &&& post.initialized == pre.initialized
    &&& t.mats@ =~= s.mats@.update(s.sp + 1, s.top())
    &&& t.sp == s.sp + 1
    &&& t.dirty == s.dirty
    &&& others_unchanged(pre, post, pre.selected)
}

/// The selected space dropped its top slot: the stack pointer moved down
/// one, no slot changed, and the space is dirty, since the restored top
/// differs from what was last synced.
pub open spec fn pops(pre: Gum, post: Gum) -> bool {
    let s = pre.space(pre.selected);
    let t = post.space(pre.selected);
    &&& post.selected == pre.selected
    &&& post.initialized == pre.initialized
    &&& t.mats == s.mats
    &&& t.sp == s.sp - 1
    &&& t.dirty
    &&& others_unchanged(pre, post, pre.selected)
}

/// Only the selection changed.
pub open spec fn selects(pre: Gum, post: Gum, m: Mode) -> bool {
    &&& post.selected == m
    &&& post.initialized == pre.initialized
    &&& post.projection == pre.projection
    &&& post.view == pre.view
    &&& post.model == pre.model
    &&& post.texture == pre.texture
}

/// One space's part of an update: the stack is untouched but for the dirty
/// flag, which is now clear.
pub open spec fn stack_cleaned(s: MatrixStack, t: MatrixStack) -> bool {
    &&& t.mats == s.mats
    &&& t.sp == s.sp
    &&& !t.dirty
}

/// An update pass: every space keeps its slots and stack pointer and comes
/// out clean; selection and readiness are untouched.
pub open spec fn cleans(pre: Gum, post: Gum) -> bool {
    &&& post.selected == pre.selected
    &&& post.initialized == pre.initialized
    &&& stack_cleaned(pre.projection, post.projection)
    &&& stack_cleaned(pre.view, post.view)
    &&& stack_cleaned(pre.model, post.model)
    &&& stack_cleaned(pre.texture, post.texture)
}

/// One space's contribution to an update pass: its top, if it is dirty.
pub open spec fn upload_of(s: MatrixStack, m: Mode) -> Seq<(Mode, Matrix4)> {
    if s.dirty {
        seq![(m, s.top())]
    } else {
        Seq::empty()
    }
}

/// The exact upload sequence of an update pass: the dirty spaces' tops, in
/// the fixed order projection, view, model, texture.
pub open spec fn upload_seq(g: Gum) -> Seq<(Mode, Matrix4)> {
    upload_of(g.projection, Mode::Projection) + upload_of(g.view, Mode::View) + upload_of(
        g.model,
        Mode::Model,
    ) + upload_of(g.texture, Mode::Texture)
}

/// A perspective input the projection formula cannot accept: a zero or
/// negative aspect, equal near and far planes, or a field of view whose
/// half-angle sine is within [`EPSILON`] of zero.
pub open spec fn persp_degenerate(fovy: u32, aspect: u32, near: u32, far: u32) -> bool {
    ||| f32_le(aspect, F32_ZERO)
    ||| f32_eq(near, far)
    ||| !f32_gt(abs_bits(sin_bits(persp_half_rad(fovy))), EPSILON)
}

/// An orthographic clip box with an empty extent on some axis.
pub open spec fn ortho_degenerate(
    left: u32,
    right: u32,
    bottom: u32,
    top: u32,
    near: u32,
    far: u32,
) -> bool {
    f32_eq(left, right) || f32_eq(bottom, top) || f32_eq(near, far)
}

/// A stack whose top, by a well-formed write, is the written matrix.
pub proof fn lemma_writes_top_top(pre: Gum, post: Gum, m: Matrix4)
    requires
        pre.wf(),
        writes_top(pre, post, m),
    ensures
        post.wf(),
        post.top() == m,
{
}

/// Two consecutive top writes collapse into the last one.
pub proof fn lemma_writes_top_chain(s0: Gum, s1: Gum, s2: Gum, m1: Matrix4, m2: Matrix4)
    requires
        s0.wf(),
        writes_top(s0, s1, m1),
        writes_top(s1, s2, m2),
    ensures
        writes_top(s0, s2, m2),
{
    let a = s0.space(s0.selected);
    let c = s2.space(s0.selected);
    assert(c.mats@ =~= a.mats@.update(a.sp as int, m2));
}

impl Gum {
    /// A fresh context: all slots zeroed, all stack pointers at the bottom,
    /// nothing dirty, the projection space selected, not yet readied.
    pub fn new() -> (r: Gum)
        ensures
            r.wf(),
            !r.initialized,
            r.selected == Mode::Projection,
            fresh_stack(r.projection),
            fresh_stack(r.view),
            fresh_stack(r.model),
            fresh_stack(r.texture),
    {
        Gum {
            projection: new_stack(),
            view: new_stack(),
            model: new_stack(),
            texture: new_stack(),
            selected: Mode::Projection,
            initialized: false,
        }
    }

    /// The stack pointer of the selected space.
    fn cur_sp(&self) -> (r: usize)
        ensures
            r == self.space(self.selected).sp,
    {
        match self.selected {
            Mode::Projection => self.projection.sp,
            Mode::View => self.view.sp,
            Mode::Model => self.model.sp,
            Mode::Texture => self.texture.sp,
        }
    }

    /// A mutable borrow of the selected space's stack.
    fn sel_stack(&mut self) -> (r: &mut MatrixStack)
        ensures
            *r == old(self).space(old(self).selected),
            final(self).selected == old(self).selected,
            final(self).initialized == old(self).initialized,
            final(self).space(old(self).selected) == *final(r),
            others_unchanged(*old(self), *final(self), old(self).selected),
    {
        match self.selected {
            Mode::Projection => &mut self.projection,
            Mode::View => &mut self.view,
            Mode::Model => &mut self.model,
            Mode::Texture => &mut self.texture,
        }
    }

    /// Replace the selected space's top and mark the space dirty.
    fn set_top(&mut self, m: Matrix4)
        requires
            old(self).wf(),
            old(self).initialized,
        ensures
            final(self).wf(),
            writes_top(*old(self), *final(self), m),
    {
        let st = self.sel_stack();
        let sp = st.sp;
        st.mats.set(sp, m);
        st.dirty = true;
    }

    /// Compose the selected space's top with `m` and mark the space dirty:
    /// `m`'s rows linearly combine the top's rows.
    fn apply_matrix(&mut self, m: &Matrix4)
        requires
            old(self).wf(),
            old(self).initialized,
        ensures
            final(self).wf(),
            writes_top(*old(self), *final(self), compose(old(self).top(), *m)),
    {
        let st = self.sel_stack();
        let sp = st.sp;
        let top = st.mats[sp];
        let composed = gum_mult_matrix(&top, m);
        st.mats.set(sp, composed);
        st.dirty = true;
    }

    /// Switch the selected space. A pure bookkeeping handoff: no slot, stack
    /// pointer or dirty flag changes, and no hardware sync happens here.
    pub fn select_space(&mut self, mode: Mode) -> (r: Result<(), GumError>)
        requires
            old(self).wf(),
        ensures
            final(self).wf(),
            old(self).initialized ==> r == Ok::<(), GumError>(()) && selects(
                *old(self),
                *final(self),
                mode,
            ),
            !old(self).initialized ==> r == Err::<(), GumError>(GumError::UninitializedContext)
                && *final(self) == *old(self),
    {
        if !self.initialized {
            return Err(GumError::UninitializedContext);
        }
        self.selected = mode;
        Ok(())
    }

    /// Duplicate the selected space's top into a new slot above it. Fails
    /// with [`GumError::StackOverflow`], leaving the context untouched, if
    /// the stack pointer is already at the last slot.
    pub fn push(&mut self) -> (r: Result<(), GumError>)
        requires
            old(self).wf(),
        ensures
            final(self).wf(),
            !old(self).initialized ==> r == Err::<(), GumError>(GumError::UninitializedContext)
                && *final(self) == *old(self),
            old(self).initialized && old(self).space(old(self).selected).sp >= 31 ==> r == Err::<
                (),
                GumError,
            >(GumError::StackOverflow) && *final(self) == *old(self),
            old(self).initialized && old(self).space(old(self).selected).sp < 31 ==> r == Ok::<
                (),
                GumError,
            >(()) && pushes(*old(self), *final(self)),
    {
        if !self.initialized {
            return Err(GumError::UninitializedContext);
        }
        let sp = self.cur_sp();
        if sp >= 31 {
            return Err(GumError::StackOverflow);
        }
        let st = self.sel_stack();
        let top = st.mats[sp];
        st.mats.set(sp + 1, top);
        st.sp = sp + 1;
        Ok(())
    }

    /// Drop the selected space's top slot, restoring the entry below, and
    /// mark the space dirty. Fails with [`GumError::StackUnderflow`], leaving
    /// the context untouched, if the stack pointer is already at the bottom.
    pub fn pop(&mut self) -> (r: Result<(), GumError>)
        requires
            old(self).wf(),
        ensures
            final(self).wf(),
            !old(self).initialized ==> r == Err::<(), GumError>(GumError::UninitializedContext)
                && *final(self) == *old(self),
            old(self).initialized && old(self).space(old(self).selected).sp == 0 ==> r == Err::<
                (),
                GumError,
            >(GumError::StackUnderflow) && *final(self) == *old(self),
            old(self).initialized && old(self).space(old(self).selected).sp > 0 ==> r == Ok::<
                (),
                GumError,
            >(()) && pops(*old(self), *final(self)),
    {
        if !self.initialized {
            return Err(GumError::UninitializedContext);
        }
        let sp = self.cur_sp();
        if sp == 0 {
            return Err(GumError::StackUnderflow);
        }
        let st = self.sel_stack();
        st.sp = sp - 1;
        st.dirty = true;
        Ok(())
    }

    /// Load the identity into the selected space's top, readying the context
    /// if this is its first load.
    pub fn load_identity(&mut self)
        requires
            old(self).wf(),
        ensures
            final(self).wf(),
            writes_top(*old(self), *final(self), identity_mat()),
    {
        self.initialized = true;
        let m = gum_load_identity();
        self.set_top(m);
    }

    /// Load a matrix verbatim into the selected space's top, readying the
    /// context if this is its first load.
    pub fn load(&mut self, m: &Matrix4)
        requires
            old(self).wf(),
        ensures
            final(self).wf(),
            writes_top(*old(self), *final(self), *m),
    {
        self.initialized = true;
        self.set_top(*m);
    }

    /// A copy of the selected space's top, with nothing mutated.
    pub fn store(&self) -> (r: Result<Matrix4, GumError>)
        requires
            self.wf(),
        ensures
            self.initialized ==> r == Ok::<Matrix4, GumError>(self.top()),
            !self.initialized ==> r == Err::<Matrix4, GumError>(GumError::UninitializedContext),
    {
        if !self.initialized {
            return Err(GumError::UninitializedContext);
        }
        let sp = self.cur_sp();
        let m = match self.selected {
            Mode::Projection => self.projection.mats[sp],
            Mode::View => self.view.mats[sp],
            Mode::Model => self.model.mats[sp],
            Mode::Texture => self.texture.mats[sp],
        };
        Ok(m)
    }

    /// Compose the selected space's top with `m`: the argument's rows
    /// linearly combine the top's rows, the order that applies `m` in local
    /// space.
    pub fn multiply(&mut self, m: &Matrix4) -> (r: Result<(), GumError>)
        requires
            old(self).wf(),
        ensures
            final(self).wf(),
            old(self).initialized ==> r == Ok::<(), GumError>(()) && writes_top(
                *old(self),
                *final(self),
                compose(old(self).top(), *m),
            ),
            !old(self).initialized ==> r == Err::<(), GumError>(GumError::UninitializedContext)
                && *final(self) == *old(self),
    {
        if !self.initialized {
            return Err(GumError::UninitializedContext);
        }
        self.apply_matrix(m);
        Ok(())
    }

    /// Compose a translation by `v` with the selected space's top.
    pub fn translate(&mut self, v: &Vector3) -> (r: Result<(), GumError>)
        requires
            old(self).wf(),
        ensures
            final(self).wf(),
            old(self).initialized ==> r == Ok::<(), GumError>(()) && writes_top(
                *old(self),
                *final(self),
                compose(old(self).top(), translate_mat(*v)),
            ),
            !old(self).initialized ==> r == Err::<(), GumError>(GumError::UninitializedContext)
                && *final(self) == *old(self),
    {
        if !self.initialized {
            return Err(GumError::UninitializedContext);
        }
        let m = translate_matrix(v);
        self.apply_matrix(&m);
        Ok(())
    }

    /// Compose a scaling by `v` with the selected space's top.
    pub fn scale(&mut self, v: &Vector3) -> (r: Result<(), GumError>)
        requires
            old(self).wf(),
        ensures
            final(self).wf(),
            old(self).initialized ==> r == Ok::<(), GumError>(()) && writes_top(
                *old(self),
                *final(self),
                compose(old(self).top(), scale_mat(*v)),
            ),
            !old(self).initialized ==> r == Err::<(), GumError>(GumError::UninitializedContext)
                && *final(self) == *old(self),
    {
        if !self.initialized {
            return Err(GumError::UninitializedContext);
        }
        let m = scale_matrix(v);
        self.apply_matrix(&m);
        Ok(())
    }

    /// Compose a rotation about the x axis (radians) with the top.
    pub fn rotate_x(&mut self, angle: u32) -> (r: Result<(), GumError>)
        requires
            old(self).wf(),
        ensures
            final(self).wf(),
            old(self).initialized ==> r == Ok::<(), GumError>(()) && writes_top(
                *old(self),
                *final(self),
                compose(old(self).top(), rot_x_mat(angle)),
            ),
            !old(self).initialized ==> r == Err::<(), GumError>(GumError::UninitializedContext)
                && *final(self) == *old(self),
    {
        if !self.initialized {
            return Err(GumError::UninitializedContext);
        }
        let m = rot_x_matrix(angle);
        self.apply_matrix(&m);
        Ok(())
    }

    /// Compose a rotation about the y axis (radians) with the top.
    pub fn rotate_y(&mut self, angle: u32) -> (r: Result<(), GumError>)
        requires
            old(self).wf(),
        ensures
            final(self).wf(),
            old(self).initialized ==> r == Ok::<(), GumError>(()) && writes_top(
                *old(self),
                *final(self),
                compose(old(self).top(), rot_y_mat(angle)),
            ),
            !old(self).initialized ==> r == Err::<(), GumError>(GumError::UninitializedContext)
                && *final(self) == *old(self),
    {
        if !self.initialized {
            return Err(GumError::UninitializedContext);
        }
        let m = rot_y_matrix(angle);
        self.apply_matrix(&m);
        Ok(())
    }

    /// Compose a rotation about the z axis (radians) with the top.
    pub fn rotate_z(&mut self, angle: u32) -> (r: Result<(), GumError>)
        requires
            old(self).wf(),
        ensures
            final(self).wf(),
            old(self).initialized ==> r == Ok::<(), GumError>(()) && writes_top(
                *old(self),
                *final(self),
                compose(old(self).top(), rot_z_mat(angle)),
            ),
            !old(self).initialized ==> r == Err::<(), GumError>(GumError::UninitializedContext)
                && *final(self) == *old(self),
    {
        if !self.initialized {
            return Err(GumError::UninitializedContext);
        }
        let m = rot_z_matrix(angle);
        self.apply_matrix(&m);
        Ok(())
    }

    /// Rotate about x, then y, then z, in that literal order: three
    /// successive compositions, exactly as if [`Gum::rotate_x`],
    /// [`Gum::rotate_y`] and [`Gum::rotate_z`] had been called in sequence.
    pub fn rotate_xyz(&mut self, v: &Vector3) -> (r: Result<(), GumError>)
        requires
            old(self).wf(),
        ensures
            final(self).wf(),
            old(self).initialized ==> r == Ok::<(), GumError>(()) && writes_top(
                *old(self),
                *final(self),
                compose(
                    compose(compose(old(self).top(), rot_x_mat(v.x)), rot_y_mat(v.y)),
                    rot_z_mat(v.z),
                ),
            ),
            !old(self).initialized ==> r == Err::<(), GumError>(GumError::UninitializedContext)
                && *final(self) == *old(self),
    {
        if !self.initialized {
            return Err(GumError::UninitializedContext);
        }
        let ghost s0 = *self;
        let _ = self.rotate_x(v.x);
        let ghost s1 = *self;
        let _ = self.rotate_y(v.y);
        let ghost s2 = *self;
        let _ = self.rotate_z(v.z);
        proof {
            lemma_writes_top_top(s0, s1, compose(s0.top(), rot_x_mat(v.x)));
            lemma_writes_top_chain(
                s0,
                s1,
                s2,
                compose(s0.top(), rot_x_mat(v.x)),
                compose(s1.top(), rot_y_mat(v.y)),
            );
            lemma_writes_top_top(s0, s2, compose(s1.top(), rot_y_mat(v.y)));
            lemma_writes_top_chain(
                s0,
                s2,
                *self,
                compose(s1.top(), rot_y_mat(v.y)),
                compose(s2.top(), rot_z_mat(v.z)),
            );
        }
        Ok(())
    }

    /// Rotate about z, then y, then x, in that literal order.
    pub fn rotate_zyx(&mut self, v: &Vector3) -> (r: Result<(), GumError>)
        requires
            old(self).wf(),
        ensures
            final(self).wf(),
            old(self).initialized ==> r == Ok::<(), GumError>(()) && writes_top(
                *old(self),
                *final(self),
                compose(
                    compose(compose(old(self).top(), rot_z_mat(v.z)), rot_y_mat(v.y)),
                    rot_x_mat(v.x),
                ),
            ),
            !old(self).initialized ==> r == Err::<(), GumError>(GumError::UninitializedContext)
                && *final(self) == *old(self),
    {
        if !self.initialized {
            return Err(GumError::UninitializedContext);
        }
        let ghost s0 = *self;
        let _ = self.rotate_z(v.z);
        let ghost s1 = *self;
        let _ = self.rotate_y(v.y);
        let ghost s2 = *self;
        let _ = self.rotate_x(v.x);
        proof {
            lemma_writes_top_top(s0, s1, compose(s0.top(), rot_z_mat(v.z)));
            lemma_writes_top_chain(
                s0,
                s1,
                s2,
                compose(s0.top(), rot_z_mat(v.z)),
                compose(s1.top(), rot_y_mat(v.y)),
            );
            lemma_writes_top_top(s0, s2, compose(s1.top(), rot_y_mat(v.y)));
            lemma_writes_top_chain(
                s0,
                s2,
                *self,
                compose(s1.top(), rot_y_mat(v.y)),
                compose(s2.top(), rot_x_mat(v.x)),
            );
        }
        Ok(())
    }

    /// Compose an orthographic projection with the top. A clip box that is
    /// empty on some axis is rejected with [`GumError::DomainError`] and the
    /// context is left untouched.
    pub fn ortho(
        &mut self,
        left: u32,
        right: u32,
        bottom: u32,
        top: u32,
        near: u32,
        far: u32,
    ) -> (r: Result<(), GumError>)
        requires
            old(self).wf(),
        ensures
            final(self).wf(),
            !old(self).initialized ==> r == Err::<(), GumError>(GumError::UninitializedContext)
                && *final(self) == *old(self),
            old(self).initialized && ortho_degenerate(left, right, bottom, top, near, far) ==> r
                == Err::<(), GumError>(GumError::DomainError) && *final(self) == *old(self),
            old(self).initialized && !ortho_degenerate(left, right, bottom, top, near, far) ==> r
                == Ok::<(), GumError>(()) && writes_top(
                *old(self),
                *final(self),
                compose(old(self).top(), ortho_mat(left, right, bottom, top, near, far)),
            ),
    {
        if !self.initialized {
            return Err(GumError::UninitializedContext);
        }
        if f32_eq_bits(left, right) || f32_eq_bits(bottom, top) || f32_eq_bits(near, far) {
            return Err(GumError::DomainError);
        }
        let m = ortho_matrix(left, right, bottom, top, near, far);
        self.apply_matrix(&m);
        Ok(())
    }

    /// Compose a right-handed perspective projection with the top; the field
    /// of view is in degrees. Degenerate inputs are rejected with
    /// [`GumError::DomainError`] and the context is left untouched.
    pub fn perspective(&mut self, fovy: u32, aspect: u32, near: u32, far: u32) -> (r: Result<
        (),
        GumError,
    >)
        requires
            old(self).wf(),
        ensures
            final(self).wf(),
            !old(self).initialized ==> r == Err::<(), GumError>(GumError::UninitializedContext)
                && *final(self) == *old(self),
            old(self).initialized && persp_degenerate(fovy, aspect, near, far) ==> r == Err::<
                (),
                GumError,
            >(GumError::DomainError) && *final(self) == *old(self),
            old(self).initialized && !persp_degenerate(fovy, aspect, near, far) ==> r == Ok::<
                (),
                GumError,
            >(()) && writes_top(
                *old(self),
                *final(self),
                compose(old(self).top(), persp_mat(fovy, aspect, near, far)),
            ),
    {
        if !self.initialized {
            return Err(GumError::UninitializedContext);
        }
        let rad = f_mul(f_mul(fovy, F32_HALF), DEG_TO_RAD);
        let s = f_sin(rad);
        if f32_le_bits(aspect, F32_ZERO) || f32_eq_bits(near, far) || !f32_gt_bits(
            f_abs(s),
            EPSILON,
        ) {
            return Err(GumError::DomainError);
        }
        let m = persp_matrix(fovy, aspect, near, far);
        self.apply_matrix(&m);
        Ok(())
    }

    /// Compose a look-at view with the top: the orthonormal basis built from
    /// eye, center and up, then a translation by the negated eye — translate
    /// after rotate. Degenerate (near-zero) directions pass through the
    /// tolerant normalization unchanged rather than failing.
    pub fn look_at(&mut self, eye: &Vector3, center: &Vector3, up: &Vector3) -> (r: Result<
        (),
        GumError,
    >)
        requires
            old(self).wf(),
        ensures
            final(self).wf(),
            old(self).initialized ==> r == Ok::<(), GumError>(()) && writes_top(
                *old(self),
                *final(self),
                compose(
                    compose(old(self).top(), look_basis_mat(*eye, *center, *up)),
                    translate_mat(neg3(*eye)),
                ),
            ),
            !old(self).initialized ==> r == Err::<(), GumError>(GumError::UninitializedContext)
                && *final(self) == *old(self),
    {
        if !self.initialized {
            return Err(GumError::UninitializedContext);
        }
        let ghost s0 = *self;
        let basis = look_basis_matrix(eye, center, up);
        self.apply_matrix(&basis);
        let ghost s1 = *self;
        let ieye = Vector3 { x: f_neg(eye.x), y: f_neg(eye.y), z: f_neg(eye.z) };
        let t = translate_matrix(&ieye);
        self.apply_matrix(&t);
        proof {
            lemma_writes_top_top(s0, s1, compose(s0.top(), look_basis_mat(*eye, *center, *up)));
            lemma_writes_top_chain(
                s0,
                s1,
                *self,
                compose(s0.top(), look_basis_mat(*eye, *center, *up)),
                compose(s1.top(), translate_mat(neg3(*eye))),
            );
        }
        Ok(())
    }

    /// Replace the top with its narrow orthonormal inverse; see
    /// [`fast_inverse_mat`] for the assumption the caller owns.
    pub fn fast_inverse(&mut self) -> (r: Result<(), GumError>)
        requires
            old(self).wf(),
        ensures
            final(self).wf(),
            old(self).initialized ==> r == Ok::<(), GumError>(()) && writes_top(
                *old(self),
                *final(self),
                fast_inverse_mat(old(self).top()),
            ),
            !old(self).initialized ==> r == Err::<(), GumError>(GumError::UninitializedContext)
                && *final(self) == *old(self),
    {
        if !self.initialized {
            return Err(GumError::UninitializedContext);
        }
        let st = self.sel_stack();
        let sp = st.sp;
        let top = st.mats[sp];
        let inv = gum_fast_inverse(&top);
        st.mats.set(sp, inv);
        st.dirty = true;
        Ok(())
    }

    /// Replace the top with its inverse. Despite the name this is not a
    /// general inverse: it round-trips the top through storage and applies
    /// the same orthonormal-only algorithm as [`Gum::fast_inverse`], and on a
    /// matrix with scale or shear it is simply wrong. The narrow behavior is
    /// kept deliberately for compatibility.
    pub fn full_inverse(&mut self) -> (r: Result<(), GumError>)
        requires
            old(self).wf(),
        ensures
            final(self).wf(),
            old(self).initialized ==> r == Ok::<(), GumError>(()) && writes_top(
                *old(self),
                *final(self),
                fast_inverse_mat(old(self).top()),
            ),
            !old(self).initialized ==> r == Err::<(), GumError>(GumError::UninitializedContext)
                && *final(self) == *old(self),
    {
        if !self.initialized {
            return Err(GumError::UninitializedContext);
        }
        let stored = match self.store() {
            Ok(m) => m,
            Err(e) => return Err(e),
        };
        let inv = gum_fast_inverse(&stored);
        self.set_top(inv);
        Ok(())
    }

    /// Walk the four spaces in the fixed order projection, view, model,
    /// texture; for each dirty one, emit an upload command carrying its
    /// current top, and clear the flag. A space not mutated since the last
    /// update is not re-uploaded, and a second pass right after a first one
    /// emits nothing.
    pub fn update(&mut self) -> (r: Vec<(Mode, Matrix4)>)
        requires
            old(self).wf(),
        ensures
            final(self).wf(),
            r@ == upload_seq(*old(self)),
            cleans(*old(self), *final(self)),
    {
        let ghost pre = *self;
        let mut out: Vec<(Mode, Matrix4)> = Vec::new();
        if self.projection.dirty {
            let m = self.projection.mats[self.projection.sp];
            out.push((Mode::Projection, m));
            self.projection.dirty = false;
        }
        proof {
            assert(out@ =~= upload_of(pre.projection, Mode::Projection));
        }
        if self.view.dirty {
            let m = self.view.mats[self.view.sp];
            out.push((Mode::View, m));
            self.view.dirty = false;
        }
        proof {
            assert(out@ =~= upload_of(pre.projection, Mode::Projection) + upload_of(
                pre.view,
                Mode::View,
            ));
        }
        if self.model.dirty {
            let m = self.model.mats[self.model.sp];
            out.push((Mode::Model, m));
            self.model.dirty = false;
        }
        proof {
            assert(out@ =~= upload_of(pre.projection, Mode::Projection) + upload_of(
                pre.view,
                Mode::View,
            ) + upload_of(pre.model, Mode::Model));
        }
        if self.texture.dirty {
            let m = self.texture.mats[self.texture.sp];
            out.push((Mode::Texture, m));
            self.texture.dirty = false;
        }
        proof {
            assert(out@ =~= upload_seq(pre));
        }
        out
    }
}

/// A freshly created stack: 32 zeroed slots, the pointer at the bottom, the
/// flag clean.
pub open spec fn fresh_stack(s: MatrixStack) -> bool {
    &&& s.mats@.len() == STACK_DEPTH
    &&& forall|i: int| 0 <= i < STACK_DEPTH ==> s.mats@[i] == zero_mat()
    &&& s.sp == 0
    &&& !s.dirty
}

/// Build one fresh stack of 32 zeroed slots.
fn new_stack() -> (r: MatrixStack)
    ensures
        fresh_stack(r),
        stack_wf(r),
{
    let mut mats: Vec<Matrix4> = Vec::new();
    let mut i: usize = 0;
    while i < STACK_DEPTH
        invariant
            i <= STACK_DEPTH,
            mats@.len() == i,
            forall|k: int| 0 <= k < i ==> mats@[k] == zero_mat(),
        decreases STACK_DEPTH - i,
    {
        mats.push(zero_matrix());
        i = i + 1;
    }
    MatrixStack { mats, sp: 0, dirty: false }
}

} // verus!
