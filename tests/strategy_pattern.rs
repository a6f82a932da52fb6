use rust_patterns::design_pattern::strategy_pattern::{
    AxeBehavior, BowAndArrowBehavior, Character, KnifeBehavior, SwordBehavior,
};

#[test]
fn test_knife_behavior() {
    let character = Character::new(KnifeBehavior);
    assert_eq!(character.fight(), "use knife");
}

#[test]
fn each_weapon_has_its_own_action() {
    assert_eq!(Character::new(SwordBehavior).fight(), "use sword");
    assert_eq!(Character::new(BowAndArrowBehavior).fight(), "use bow and arrow");
    assert_eq!(Character::new(AxeBehavior).fight(), "user axe");
}
