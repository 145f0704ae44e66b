use betsure_dialer::capability::{capability_at, capability_plan, Capability};
use betsure_dialer::platform::Target;

#[test]
fn desktop_plan_ends_with_the_guard() {
    assert_eq!(
        capability_plan(Target::Desktop),
        vec![
            Capability::Notification,
            Capability::Shell,
            Capability::Http,
            Capability::Process,
            Capability::Opener,
            Capability::SingleInstance,
        ]
    );
}

#[test]
fn mobile_plan_has_the_base_capabilities_only() {
    assert_eq!(
        capability_plan(Target::Mobile),
        vec![
            Capability::Notification,
            Capability::Shell,
            Capability::Http,
            Capability::Process,
            Capability::Opener,
        ]
    );
}

#[test]
fn mobile_plan_has_no_guard() {
    assert!(!capability_plan(Target::Mobile).contains(&Capability::SingleInstance));
    assert!(capability_plan(Target::Desktop).contains(&Capability::SingleInstance));
}

#[test]
fn no_capability_is_planned_twice() {
    for target in [Target::Desktop, Target::Mobile] {
        let plan = capability_plan(target);
        for i in 0..plan.len() {
            for j in 0..i {
                assert_ne!(plan[i], plan[j]);
            }
        }
    }
}

#[test]
fn capability_at_follows_the_plan() {
    for target in [Target::Desktop, Target::Mobile] {
        let plan = capability_plan(target);
        for index in 0..plan.len() {
            assert_eq!(capability_at(target, index), Some(plan[index]));
        }
        assert_eq!(capability_at(target, plan.len()), None);
    }
}

#[test]
fn capability_at_gives_exact_positions() {
    assert_eq!(capability_at(Target::Desktop, 0), Some(Capability::Notification));
    assert_eq!(capability_at(Target::Desktop, 2), Some(Capability::Http));
    assert_eq!(capability_at(Target::Desktop, 5), Some(Capability::SingleInstance));
    assert_eq!(capability_at(Target::Mobile, 4), Some(Capability::Opener));
    assert_eq!(capability_at(Target::Mobile, 5), None);
    assert_eq!(capability_at(Target::Desktop, 6), None);
    assert_eq!(capability_at(Target::Desktop, usize::MAX), None);
}
