use render_core::context::AcquireOutcome;
use render_core::context::ChainState;
use render_core::context::Color;
use render_core::context::Dimensions;
use render_core::context::PresentMode;
use render_core::context::RenderError;
use render_core::context::State;
use render_core::context::clear_color;
use render_core::context::record_clear_pass;

fn dims(width: u32, height: u32) -> Dimensions {
    Dimensions { width, height }
}

#[test]
fn construction_builds_descriptor_and_valid_chain() {
    let s = State::new(42, dims(800, 600));
    assert_eq!(s.size, dims(800, 600));
    assert_eq!(s.desc.format, 42);
    assert_eq!(s.desc.width, 800);
    assert_eq!(s.desc.height, 600);
    assert_eq!(s.desc.present_mode, PresentMode::Fifo);
    assert_eq!(s.chain, ChainState::Valid);
    assert_eq!(s.chain_epoch, 1);
    assert_eq!(s.submissions, 0);
    assert_eq!(s.last_submitted, None);
}

#[test]
fn resize_sets_dimensions_and_descriptor() {
    let mut s = State::new(0, dims(800, 600));
    s.resize(dims(123, 456));
    assert_eq!(s.size, dims(123, 456));
    assert_eq!(s.desc.width, 123);
    assert_eq!(s.desc.height, 456);
    assert_eq!(s.desc.format, 0);
    assert_eq!(s.chain, ChainState::Valid);
}

#[test]
fn resize_twice_with_identical_dimensions_recreates_twice() {
    let mut s = State::new(0, dims(800, 600));
    assert_eq!(s.chain_epoch, 1);
    s.resize(dims(800, 600));
    assert_eq!(s.chain_epoch, 2);
    s.resize(dims(800, 600));
    assert_eq!(s.chain_epoch, 3);
    assert_eq!(s.size, dims(800, 600));
}

#[test]
fn zero_dimensions_never_reach_the_descriptor() {
    let mut s = State::new(0, dims(800, 600));
    s.resize(dims(0, 0));
    assert_eq!(s.size, dims(0, 0));
    assert!(s.desc.width >= 1 && s.desc.height >= 1);
    assert_eq!((s.desc.width, s.desc.height), (1, 1));
    s.resize(dims(0, 300));
    assert_eq!((s.desc.width, s.desc.height), (1, 300));
    s.resize(dims(400, 0));
    assert_eq!((s.desc.width, s.desc.height), (400, 1));
    let z = State::new(9, dims(0, 0));
    assert_eq!((z.desc.width, z.desc.height), (1, 1));
}

#[test]
fn render_success_submits_exactly_once() {
    let mut s = State::new(0, dims(800, 600));
    let r = s.render(AcquireOutcome::Success);
    assert_eq!(r, Ok(()));
    assert_eq!(s.submissions, 1);
    assert_eq!(s.chain, ChainState::Valid);
    assert_eq!(s.last_submitted, Some(record_clear_pass()));
    let r2 = s.render(AcquireOutcome::Success);
    assert_eq!(r2, Ok(()));
    assert_eq!(s.submissions, 2);
}

#[test]
fn render_lost_invalidates_chain_without_submission() {
    let mut s = State::new(0, dims(800, 600));
    let r = s.render(AcquireOutcome::Lost);
    assert_eq!(r, Err(RenderError::Lost));
    assert_eq!(s.chain, ChainState::Invalid);
    assert_eq!(s.submissions, 0);
    s.resize(dims(800, 600));
    assert_eq!(s.chain, ChainState::Valid);
}

#[test]
fn render_transient_failures_change_nothing() {
    let mut s = State::new(0, dims(800, 600));
    let before = s;
    assert_eq!(s.render(AcquireOutcome::Outdated), Err(RenderError::Outdated));
    assert_eq!(s, before);
    assert_eq!(s.render(AcquireOutcome::Timeout), Err(RenderError::Timeout));
    assert_eq!(s, before);
}

#[test]
fn render_out_of_memory_reports_fatal_error() {
    let mut s = State::new(0, dims(800, 600));
    let r = s.render(AcquireOutcome::OutOfMemory);
    assert_eq!(r, Err(RenderError::OutOfMemory));
    assert_eq!(s.submissions, 0);
    assert_eq!(s.chain, ChainState::Valid);
}

#[test]
fn clear_color_is_the_fixed_rgba() {
    let c = clear_color();
    assert_eq!(
        c,
        Color { r_tenths: 1, g_tenths: 2, b_tenths: 3, a_tenths: 10 }
    );
    let to_unit = |tenths: u8| tenths as f64 / 10.0;
    assert_eq!(to_unit(c.r_tenths), 0.1);
    assert_eq!(to_unit(c.g_tenths), 0.2);
    assert_eq!(to_unit(c.b_tenths), 0.3);
    assert_eq!(to_unit(c.a_tenths), 1.0);
}

#[test]
fn recorded_pass_clears_stores_and_draws_nothing() {
    let p = record_clear_pass();
    assert_eq!(p.clear, clear_color());
    assert!(p.store);
    assert_eq!(p.draw_count, 0);
    assert!(!p.has_resolve_target);
    assert!(!p.has_depth_stencil);
}
