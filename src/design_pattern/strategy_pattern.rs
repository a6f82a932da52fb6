use vstd::prelude::*;
use vstd::string::*;

verus! {

/// A way of fighting that a character can be given.
pub trait WeaponBehavior {
    /// What using the weapon reads as.
    spec fn action(&self) -> Seq<char>;

    fn use_weapon(&self) -> (r: String)
        ensures
            r@ == self.action(),
    ;
}

/// A character that fights with whatever weapon behaviour it holds.
pub struct Character<T: WeaponBehavior> {
    pub weapon: T,
}

impl<T: WeaponBehavior> Character<T> {
    pub fn new(weapon: T) -> (r: Self)
        ensures
            r.weapon == weapon,
    {
        Self { weapon }
    }

    /// Fights by using the weapon.
    pub fn fight(&self) -> (r: String)
        ensures
            r@ == self.weapon.action(),
    {
        self.weapon.use_weapon()
    }
}

pub struct SwordBehavior;

pub struct BowAndArrowBehavior;

pub struct KnifeBehavior;

pub struct AxeBehavior;

impl WeaponBehavior for BowAndArrowBehavior {
    open spec fn action(&self) -> Seq<char> {
        "use bow and arrow"@
    }

    fn use_weapon(&self) -> (r: String) {
        String::from_str("use bow and arrow")
    }
}

impl WeaponBehavior for KnifeBehavior {
    open spec fn action(&self) -> Seq<char> {
        "use knife"@
    }

    fn use_weapon(&self) -> (r: String) {
        String::from_str("use knife")
    }
}

impl WeaponBehavior for AxeBehavior {
    open spec fn action(&self) -> Seq<char> {
        "user axe"@
    }

    fn use_weapon(&self) -> (r: String) {
        String::from_str("user axe")
    }
}

impl WeaponBehavior for SwordBehavior {
    open spec fn action(&self) -> Seq<char> {
        "use sword"@
    }

    fn use_weapon(&self) -> (r: String) {
        String::from_str("use sword")
    }
}

} // verus!
