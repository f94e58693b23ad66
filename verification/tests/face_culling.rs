use luminance::face_culling::{FaceCulling, FaceCullingMode, FaceCullingOrder, FaceCullingState};

#[test]
fn new_keeps_order_and_mode() {
    let culling = FaceCulling::new(FaceCullingOrder::CW, FaceCullingMode::Both);
    assert_eq!(culling.order(), FaceCullingOrder::CW);
    assert_eq!(culling.mode(), FaceCullingMode::Both);
}

#[test]
fn new_covers_every_order_and_mode() {
    let orders = [FaceCullingOrder::CW, FaceCullingOrder::CCW];
    let modes = [FaceCullingMode::Front, FaceCullingMode::Back, FaceCullingMode::Both];
    for order in orders {
        for mode in modes {
            let culling = FaceCulling::new(order, mode);
            assert_eq!(culling.order(), order);
            assert_eq!(culling.mode(), mode);
        }
    }
}

#[test]
fn default_is_counter_clockwise_back() {
    let culling = FaceCulling::default();
    assert_eq!(culling.order(), FaceCullingOrder::CCW);
    assert_eq!(culling.mode(), FaceCullingMode::Back);
    assert_eq!(culling, FaceCulling::new(FaceCullingOrder::CCW, FaceCullingMode::Back));
}

#[test]
fn culling_values_compare_by_fields() {
    let a = FaceCulling::new(FaceCullingOrder::CW, FaceCullingMode::Front);
    let b = FaceCulling::new(FaceCullingOrder::CW, FaceCullingMode::Back);
    let c = a;
    assert_ne!(a, b);
    assert_eq!(a, c);
}

#[test]
fn culling_state_is_on_or_off() {
    assert_ne!(FaceCullingState::On, FaceCullingState::Off);
    let state = FaceCullingState::On;
    let copy = state;
    assert_eq!(state, copy);
}
