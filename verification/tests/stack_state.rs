//! Stack discipline, selection bookkeeping, dirty tracking and the error
//! contract of the engine context.

use psp::gum::{Gum, GumError, Mode};
use psp::mat::{Matrix4, Vector3, Vector4};

fn v3(x: f32, y: f32, z: f32) -> Vector3 {
    Vector3 { x: x.to_bits(), y: y.to_bits(), z: z.to_bits() }
}

fn row(a: f32, b: f32, c: f32, d: f32) -> Vector4 {
    Vector4 { x: a.to_bits(), y: b.to_bits(), z: c.to_bits(), w: d.to_bits() }
}

fn sample_matrix() -> Matrix4 {
    Matrix4 {
        x: row(1.5, 2.25, -3.5, 4.0),
        y: row(0.125, -0.75, 8.0, 1.0),
        z: row(5.5, 6.0, -7.25, 2.5),
        w: row(9.0, -10.5, 11.0, 0.25),
    }
}

#[test]
fn push_transform_pop_restores_the_top_bit_for_bit() {
    let mut g = Gum::new();
    let m = sample_matrix();
    g.load(&m);
    g.push().unwrap();
    g.translate(&v3(4.5, -1.0, 0.25)).unwrap();
    g.rotate_xyz(&v3(0.2, 0.4, 0.6)).unwrap();
    g.scale(&v3(2.0, 2.0, 2.0)).unwrap();
    g.load_identity();
    g.pop().unwrap();
    assert_eq!(g.store().unwrap(), m);
}

#[test]
fn push_duplicates_the_top() {
    let mut g = Gum::new();
    let m = sample_matrix();
    g.load(&m);
    g.push().unwrap();
    assert_eq!(g.store().unwrap(), m);
}

#[test]
fn push_past_the_last_slot_overflows() {
    let mut g = Gum::new();
    g.load_identity();
    for _ in 0..31 {
        g.push().unwrap();
    }
    assert_eq!(g.push(), Err(GumError::StackOverflow));
    // The failed push is all-or-nothing: every slot can still be popped.
    for _ in 0..31 {
        g.pop().unwrap();
    }
    assert_eq!(g.pop(), Err(GumError::StackUnderflow));
}

#[test]
fn pop_at_the_bottom_underflows_and_keeps_the_top() {
    let mut g = Gum::new();
    let m = sample_matrix();
    g.load(&m);
    assert_eq!(g.pop(), Err(GumError::StackUnderflow));
    assert_eq!(g.store().unwrap(), m);
}

#[test]
fn operations_before_a_load_fail_fast() {
    let mut g = Gum::new();
    assert_eq!(g.push(), Err(GumError::UninitializedContext));
    assert_eq!(g.pop(), Err(GumError::UninitializedContext));
    assert_eq!(g.translate(&v3(1.0, 0.0, 0.0)), Err(GumError::UninitializedContext));
    assert_eq!(g.rotate_x(0.5f32.to_bits()), Err(GumError::UninitializedContext));
    assert_eq!(g.multiply(&sample_matrix()), Err(GumError::UninitializedContext));
    assert_eq!(g.select_space(Mode::Model), Err(GumError::UninitializedContext));
    assert_eq!(g.fast_inverse(), Err(GumError::UninitializedContext));
    assert_eq!(g.full_inverse(), Err(GumError::UninitializedContext));
    assert_eq!(g.store(), Err(GumError::UninitializedContext));
    // A load readies the context.
    g.load_identity();
    assert!(g.store().is_ok());
}

#[test]
fn update_uploads_only_dirty_spaces() {
    let mut g = Gum::new();
    g.load_identity();
    g.select_space(Mode::Model).unwrap();
    g.load_identity();
    g.translate(&v3(1.0, 2.0, 3.0)).unwrap();
    let cmds = g.update();
    assert_eq!(cmds.len(), 2);
    assert_eq!(cmds[0].0, Mode::Projection);
    assert_eq!(cmds[1].0, Mode::Model);

    // Nothing has changed since: a second pass uploads nothing.
    let cmds = g.update();
    assert_eq!(cmds.len(), 0);

    // Mutating one space re-uploads only that space; the view and texture
    // spaces were never touched and never appear.
    g.select_space(Mode::Projection).unwrap();
    g.rotate_y(0.25f32.to_bits()).unwrap();
    let cmds = g.update();
    assert_eq!(cmds.len(), 1);
    assert_eq!(cmds[0].0, Mode::Projection);
}

#[test]
fn update_carries_the_current_top() {
    let mut g = Gum::new();
    let m = sample_matrix();
    g.load(&m);
    let cmds = g.update();
    assert_eq!(cmds.len(), 1);
    assert_eq!(cmds[0].0, Mode::Projection);
    assert_eq!(cmds[0].1, m);
}

#[test]
fn pop_marks_the_space_dirty_again() {
    let mut g = Gum::new();
    g.load_identity();
    g.push().unwrap();
    let _ = g.update();
    g.pop().unwrap();
    let cmds = g.update();
    assert_eq!(cmds.len(), 1);
    assert_eq!(cmds[0].0, Mode::Projection);
}

#[test]
fn select_space_is_bookkeeping_only() {
    let mut g = Gum::new();
    g.load_identity();
    g.translate(&v3(7.0, 8.0, 9.0)).unwrap();
    let m = g.store().unwrap();
    g.select_space(Mode::Texture).unwrap();
    g.load_identity();
    g.select_space(Mode::Projection).unwrap();
    assert_eq!(g.store().unwrap(), m);
    // Selecting a space uploads nothing by itself.
    g.select_space(Mode::View).unwrap();
    g.select_space(Mode::Projection).unwrap();
    let cmds = g.update();
    assert_eq!(cmds.len(), 2);
}

#[test]
fn spaces_keep_independent_stacks() {
    let mut g = Gum::new();
    let m = sample_matrix();
    g.load(&m);
    g.select_space(Mode::View).unwrap();
    g.load_identity();
    g.push().unwrap();
    g.scale(&v3(3.0, 3.0, 3.0)).unwrap();
    g.select_space(Mode::Projection).unwrap();
    assert_eq!(g.store().unwrap(), m);
    g.select_space(Mode::View).unwrap();
    g.pop().unwrap();
    g.select_space(Mode::Projection).unwrap();
    assert_eq!(g.store().unwrap(), m);
}

#[test]
fn perspective_rejects_degenerate_inputs() {
    let mut g = Gum::new();
    g.load_identity();
    let m = g.store().unwrap();
    let aspect = (16.0f32 / 9.0f32).to_bits();
    assert_eq!(
        g.perspective(75.0f32.to_bits(), 0.0f32.to_bits(), 0.5f32.to_bits(), 1000.0f32.to_bits()),
        Err(GumError::DomainError)
    );
    assert_eq!(
        g.perspective(
            75.0f32.to_bits(),
            (-1.5f32).to_bits(),
            0.5f32.to_bits(),
            1000.0f32.to_bits()
        ),
        Err(GumError::DomainError)
    );
    assert_eq!(
        g.perspective(75.0f32.to_bits(), aspect, 2.5f32.to_bits(), 2.5f32.to_bits()),
        Err(GumError::DomainError)
    );
    assert_eq!(
        g.perspective(0.0f32.to_bits(), aspect, 0.5f32.to_bits(), 1000.0f32.to_bits()),
        Err(GumError::DomainError)
    );
    assert_eq!(
        g.perspective(360.0f32.to_bits(), aspect, 0.5f32.to_bits(), 1000.0f32.to_bits()),
        Err(GumError::DomainError)
    );
    // A failed projection leaves the top untouched and the space clean of
    // any new mutation.
    assert_eq!(g.store().unwrap(), m);
    // A sound input still goes through afterwards.
    assert!(g
        .perspective(75.0f32.to_bits(), aspect, 0.5f32.to_bits(), 1000.0f32.to_bits())
        .is_ok());
}

#[test]
fn ortho_rejects_an_empty_axis() {
    let mut g = Gum::new();
    g.load_identity();
    let m = g.store().unwrap();
    let a = 1.0f32.to_bits();
    let b = 5.0f32.to_bits();
    assert_eq!(g.ortho(a, a, a, b, a, b), Err(GumError::DomainError));
    assert_eq!(g.ortho(a, b, a, a, a, b), Err(GumError::DomainError));
    assert_eq!(g.ortho(a, b, a, b, a, a), Err(GumError::DomainError));
    assert_eq!(g.store().unwrap(), m);
    assert!(g.ortho(a, b, a, b, a, b).is_ok());
}

#[test]
fn multiply_composes_the_argument_with_the_top() {
    let mut g = Gum::new();
    let m = sample_matrix();
    g.load_identity();
    g.multiply(&m).unwrap();
    assert_eq!(g.store().unwrap(), m);
}

#[test]
fn load_replaces_the_top_verbatim() {
    let mut g = Gum::new();
    g.load_identity();
    g.translate(&v3(1.0, 1.0, 1.0)).unwrap();
    let m = sample_matrix();
    g.load(&m);
    assert_eq!(g.store().unwrap(), m);
}

#[test]
fn scale_marks_the_space_dirty() {
    let mut g = Gum::new();
    g.load_identity();
    let _ = g.update();
    g.scale(&v3(2.0, 3.0, 4.0)).unwrap();
    let cmds = g.update();
    assert_eq!(cmds.len(), 1);
    assert_eq!(cmds[0].0, Mode::Projection);
}

#[test]
fn update_on_a_fresh_context_uploads_nothing() {
    let mut g = Gum::new();
    let cmds = g.update();
    assert_eq!(cmds.len(), 0);
}

#[test]
fn translate_carries_the_vector_through_the_top_rows() {
    let mut g = Gum::new();
    let m = sample_matrix();
    g.load(&m);
    g.translate(&v3(2.0, -1.0, 0.5)).unwrap();
    let t = g.store().unwrap();
    // Rows x, y, z are untouched; the w-row gains the vector carried
    // through the top's basis rows, not the raw vector.
    assert_eq!(t.x, m.x);
    assert_eq!(t.y, m.y);
    assert_eq!(t.z, m.z);
    let mr = [
        [f32::from_bits(m.x.x), f32::from_bits(m.x.y), f32::from_bits(m.x.z), f32::from_bits(m.x.w)],
        [f32::from_bits(m.y.x), f32::from_bits(m.y.y), f32::from_bits(m.y.z), f32::from_bits(m.y.w)],
        [f32::from_bits(m.z.x), f32::from_bits(m.z.y), f32::from_bits(m.z.z), f32::from_bits(m.z.w)],
        [f32::from_bits(m.w.x), f32::from_bits(m.w.y), f32::from_bits(m.w.z), f32::from_bits(m.w.w)],
    ];
    let expect = |j: usize| (((2.0 * mr[0][j] + -1.0 * mr[1][j]) + 0.5 * mr[2][j]) + mr[3][j]).to_bits();
    assert_eq!(t.w.x, expect(0));
    assert_eq!(t.w.y, expect(1));
    assert_eq!(t.w.z, expect(2));
    assert_eq!(t.w.w, expect(3));
}

#[test]
fn scale_scales_the_top_rows() {
    let mut g = Gum::new();
    let m = sample_matrix();
    g.load(&m);
    g.scale(&v3(2.0, 3.0, 0.5)).unwrap();
    let t = g.store().unwrap();
    // Whole rows are scaled; the w-row stays as it was.
    assert_eq!(t.x.x, (2.0 * f32::from_bits(m.x.x)).to_bits());
    assert_eq!(t.x.y, (2.0 * f32::from_bits(m.x.y)).to_bits());
    assert_eq!(t.y.z, (3.0 * f32::from_bits(m.y.z)).to_bits());
    assert_eq!(t.z.x, (0.5 * f32::from_bits(m.z.x)).to_bits());
    assert_eq!(t.w, m.w);
}
