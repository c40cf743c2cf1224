use greeter::category::age_category;
use greeter::category::categorize;
use greeter::category::milestone_message;

#[test]
fn category_for_zero() {
    assert_eq!(age_category(0), "Age not specified or invalid.");
}

#[test]
fn category_boundaries_childhood() {
    assert_eq!(age_category(1), "You're in the childhood phase! 🧒");
    assert_eq!(age_category(12), "You're in the childhood phase! 🧒");
}

#[test]
fn category_boundaries_teenage() {
    assert_eq!(age_category(13), "Teenage years - enjoy them! 🎸");
    assert_eq!(age_category(19), "Teenage years - enjoy them! 🎸");
}

#[test]
fn category_boundaries_young_adult() {
    assert_eq!(age_category(20), "Young adult - prime time! 💪");
    assert_eq!(age_category(35), "Young adult - prime time! 💪");
}

#[test]
fn category_boundaries_experienced() {
    assert_eq!(age_category(36), "Experienced and wise! 🎓");
    assert_eq!(age_category(60), "Experienced and wise! 🎓");
}

#[test]
fn category_from_sixty_one_up() {
    assert_eq!(age_category(61), "Age is just a number! ✨");
    assert_eq!(age_category(100), "Age is just a number! ✨");
    assert_eq!(age_category(u32::MAX), "Age is just a number! ✨");
}

#[test]
fn milestone_counts_down_to_one_hundred() {
    assert_eq!(milestone_message(0), "You have 100 years until your 100th birthday!");
    assert_eq!(milestone_message(30), "You have 70 years until your 100th birthday!");
    assert_eq!(milestone_message(99), "You have 1 years until your 100th birthday!");
}

#[test]
fn milestone_reached_at_one_hundred() {
    assert_eq!(milestone_message(100), "Congratulations on reaching 100+! 🎂");
    assert_eq!(milestone_message(150), "Congratulations on reaching 100+! 🎂");
}

#[test]
fn both_lines_come_independently() {
    let (cat, mile) = categorize(5);
    assert_eq!(cat, "You're in the childhood phase! 🧒");
    assert_eq!(mile, "You have 95 years until your 100th birthday!");

    let (cat, mile) = categorize(0);
    assert_eq!(cat, "Age not specified or invalid.");
    assert_eq!(mile, "You have 100 years until your 100th birthday!");

    let (cat, mile) = categorize(120);
    assert_eq!(cat, "Age is just a number! ✨");
    assert_eq!(mile, "Congratulations on reaching 100+! 🎂");
}
