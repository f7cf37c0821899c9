//! Tests of the object body names.

use blockgen::Body;

#[test]
fn body_names() {
    assert_eq!(Body::Arrow.to_string(), "arrow");
    assert_eq!(Body::ChestVines.to_string(), "chest_vines");
    assert_eq!(Body::Pumpkin5.to_string(), "pumpkin_5");
    assert_eq!(Body::CarpetHumanSquircle.to_string(), "carpet_human_squircle");
    assert_eq!(Body::FireworkYellow.to_string(), "firework_yellow");
    assert_eq!(Body::CampfireLit.to_string(), "campfire_lit");
}

#[test]
fn body_names_distinct() {
    let bodies = [
        Body::Chest,
        Body::ChestDark,
        Body::ChestDemon,
        Body::ChestGold,
        Body::ChestLight,
        Body::ChestOpen,
        Body::ChestSkull,
    ];
    for (i, a) in bodies.iter().enumerate() {
        for b in bodies.iter().skip(i + 1) {
            assert_ne!(a.to_string(), b.to_string());
        }
    }
}
