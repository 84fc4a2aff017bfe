use myosotis::capability::{check_share, check_transfer, is_leakable, LifetimeClass, Shape};
use myosotis::myosotis::{leak, JoinGuard, Unleak, Variance, VarianceAlt};

fn describe(x: u32) -> String {
    format!("got {}", x)
}

fn wrapped_guard_shape(c: LifetimeClass) -> Shape {
    Shape::Fields(Box::new(Shape::Plain), Box::new(Shape::Wrapper(c)))
}

#[test]
fn leaking_self_contained_wrapper_is_permitted() {
    leak(Unleak::new(7u32));
    leak(Unleak::new(String::from("static contents")));
}

#[test]
fn leaking_self_contained_wrapped_guard_is_permitted() {
    let guard = Variance::new(describe as fn(u32) -> String, 7u32);
    assert_eq!((guard.process)(7), "got 7");
    assert_eq!(guard.queue.0, 7);
    leak(guard);
}

#[test]
fn leaking_self_contained_manual_guard_is_permitted() {
    let guard = VarianceAlt::new(describe as fn(u32) -> String, 9u64);
    assert_eq!((guard.process)(2), "got 2");
    assert_eq!(guard.queue, 9);
    leak(guard);
}

#[test]
fn leaking_static_join_guard_is_permitted() {
    let guard: JoinGuard<'static, u32> = JoinGuard::new();
    leak(guard);
}

#[test]
fn wrapper_rule_on_each_class() {
    assert!(is_leakable(&Shape::Wrapper(LifetimeClass::SelfContained)));
    assert!(!is_leakable(&Shape::Wrapper(LifetimeClass::Bounded)));
}

#[test]
fn plain_types_are_leakable_by_default() {
    assert!(is_leakable(&Shape::Plain));
    assert!(is_leakable(&Shape::Fields(
        Box::new(Shape::Plain),
        Box::new(Shape::Plain),
    )));
}

#[test]
fn sentinel_is_never_leakable() {
    assert!(!is_leakable(&Shape::Sentinel));
}

#[test]
fn sentinel_beside_leakable_contents_still_blocks() {
    let wrapper_structure = Shape::Fields(
        Box::new(Shape::Wrapper(LifetimeClass::SelfContained)),
        Box::new(Shape::Sentinel),
    );
    assert!(!is_leakable(&wrapper_structure));
}

#[test]
fn sentinel_blocks_through_nesting() {
    let deep = Shape::Fields(
        Box::new(Shape::Plain),
        Box::new(Shape::Fields(
            Box::new(Shape::Fields(
                Box::new(Shape::Sentinel),
                Box::new(Shape::Plain),
            )),
            Box::new(Shape::Plain),
        )),
    );
    assert!(!is_leakable(&deep));
}

#[test]
fn guard_designs_agree_on_each_class() {
    for c in [LifetimeClass::SelfContained, LifetimeClass::Bounded] {
        assert_eq!(
            is_leakable(&wrapped_guard_shape(c)),
            is_leakable(&Shape::ManualGuard(c)),
        );
    }
}

#[test]
fn wrapped_guard_leakable_only_when_self_contained() {
    assert!(is_leakable(&wrapped_guard_shape(LifetimeClass::SelfContained)));
    assert!(!is_leakable(&wrapped_guard_shape(LifetimeClass::Bounded)));
}

#[test]
fn transfer_gate_follows_payload_class() {
    assert!(check_transfer(LifetimeClass::SelfContained));
    assert!(!check_transfer(LifetimeClass::Bounded));
}

#[test]
fn sharing_is_unconditional() {
    assert!(check_share(LifetimeClass::SelfContained));
    assert!(check_share(LifetimeClass::Bounded));
}
