use vstd::prelude::*;
use crate::combat_core::damage::{DamageDice, DamageType};
use crate::combat_core::movement::Feet;
use crate::seq_facts::copy_vec;

verus! {

/// The categories of armor.
#[derive(Debug, Clone, Copy, PartialEq, Eq, Structural)]
pub enum ArmorType {
    NoArmor,
    LightArmor,
    MediumArmor,
    HeavyArmor,
}

/// A source of armor class: a base and an optional magic bonus.
#[derive(Debug, Clone, Copy, PartialEq, Eq, Structural)]
pub struct ACSource {
    base_ac: u8,
    magic_bonus_ac: Option<u8>,
}

impl ACSource {
    /// The base armor class.
    pub closed spec fn base_of(self) -> u8 {
        self.base_ac
    }

    /// The magic bonus, if any.
    pub closed spec fn bonus_of(self) -> Option<u8> {
        self.magic_bonus_ac
    }

    /// A source with a base and no magic bonus.
    pub fn plain(base_ac: u8) -> (r: Self)
        ensures
            r.base_of() == base_ac,
            r.bonus_of() is None,
    {
        ACSource { base_ac, magic_bonus_ac: None }
    }

    /// A shield: a base of two, and no magic bonus.
    pub fn shield() -> (r: Self)
        ensures
            r.base_of() == 2,
            r.bonus_of() is None,
    {
        ACSource { base_ac: 2, magic_bonus_ac: None }
    }

    /// The base armor class.
    pub fn get_base_ac(&self) -> (r: u8)
        ensures
            r == self.base_of(),
    {
        self.base_ac
    }

    /// The magic bonus, if any.
    pub fn get_magic_bonus(&self) -> (r: Option<u8>)
        ensures
            r == self.bonus_of(),
    {
        self.magic_bonus_ac
    }

    /// Sets the magic bonus.
    pub fn set_magic_bonus(&mut self, value: u8)
        ensures
            final(self).bonus_of() == Some(value),
            final(self).base_of() == old(self).base_of(),
    {
        self.magic_bonus_ac = Some(value);
    }

    /// Removes the magic bonus.
    pub fn unset_magic_bonus(&mut self)
        ensures
            final(self).bonus_of() is None,
            final(self).base_of() == old(self).base_of(),
    {
        self.magic_bonus_ac = None;
    }
}

/// A suit of armor: its category, its name and its armor class.
#[derive(Debug, Clone)]
pub struct Armor {
    armor_type: ArmorType,
    name: String,
    ac: ACSource,
}

impl Armor {
    /// The category.
    pub closed spec fn type_of(self) -> ArmorType {
        self.armor_type
    }

    /// The name.
    pub closed spec fn name_of(self) -> Seq<char> {
        self.name@
    }

    /// The armor class.
    pub closed spec fn ac_of(self) -> ACSource {
        self.ac
    }

    /// Armor of a category, name and base armor class, without magic bonus.
    fn make(armor_type: ArmorType, name: &str, base_ac: u8) -> (r: Self)
        ensures
            r.type_of() == armor_type,
            r.name_of() == name@,
            r.ac_of().base_of() == base_ac,
            r.ac_of().bonus_of() is None,
    {
        Armor { armor_type, name: String::from_str(name), ac: ACSource::plain(base_ac) }
    }

    /// No Armor: NoArmor, base armor class 10.
    pub fn no_armor() -> (r: Self)
        ensures
            r.type_of() == ArmorType::NoArmor,
            r.name_of() == "No Armor"@,
            r.ac_of().base_of() == 10,
            r.ac_of().bonus_of() is None,
    {
        Armor::make(ArmorType::NoArmor, "No Armor", 10)
    }

    /// Mage Armor: NoArmor, base armor class 13.
    pub fn mage_armor() -> (r: Self)
        ensures
            r.type_of() == ArmorType::NoArmor,
            r.name_of() == "Mage Armor"@,
            r.ac_of().base_of() == 13,
            r.ac_of().bonus_of() is None,
    {
        Armor::make(ArmorType::NoArmor, "Mage Armor", 13)
    }

    /// Padded: LightArmor, base armor class 11.
    pub fn padded() -> (r: Self)
        ensures
            r.type_of() == ArmorType::LightArmor,
            r.name_of() == "Padded"@,
            r.ac_of().base_of() == 11,
            r.ac_of().bonus_of() is None,
    {
        Armor::make(ArmorType::LightArmor, "Padded", 11)
    }

    /// Leather: LightArmor, base armor class 11.
    pub fn leather() -> (r: Self)
        ensures
            r.type_of() == ArmorType::LightArmor,
            r.name_of() == "Leather"@,
            r.ac_of().base_of() == 11,
            r.ac_of().bonus_of() is None,
    {
        Armor::make(ArmorType::LightArmor, "Leather", 11)
    }

    /// Studded Leather: LightArmor, base armor class 12.
    pub fn studded_leather() -> (r: Self)
        ensures
            r.type_of() == ArmorType::LightArmor,
            r.name_of() == "Studded Leather"@,
            r.ac_of().base_of() == 12,
            r.ac_of().bonus_of() is None,
    {
        Armor::make(ArmorType::LightArmor, "Studded Leather", 12)
    }

    /// Hide: MediumArmor, base armor class 12.
    pub fn hide_armor() -> (r: Self)
        ensures
            r.type_of() == ArmorType::MediumArmor,
            r.name_of() == "Hide"@,
            r.ac_of().base_of() == 12,
            r.ac_of().bonus_of() is None,
    {
        Armor::make(ArmorType::MediumArmor, "Hide", 12)
    }

    /// Chain Shirt: MediumArmor, base armor class 13.
    pub fn chain_shirt() -> (r: Self)
        ensures
            r.type_of() == ArmorType::MediumArmor,
            r.name_of() == "Chain Shirt"@,
            r.ac_of().base_of() == 13,
            r.ac_of().bonus_of() is None,
    {
        Armor::make(ArmorType::MediumArmor, "Chain Shirt", 13)
    }

    /// Scale Mail: MediumArmor, base armor class 14.
    pub fn scale_mail() -> (r: Self)
        ensures
            r.type_of() == ArmorType::MediumArmor,
            r.name_of() == "Scale Mail"@,
            r.ac_of().base_of() == 14,
            r.ac_of().bonus_of() is None,
    {
        Armor::make(ArmorType::MediumArmor, "Scale Mail", 14)
    }

    /// Breastplate: MediumArmor, base armor class 14.
    pub fn breastplate() -> (r: Self)
        ensures
            r.type_of() == ArmorType::MediumArmor,
            r.name_of() == "Breastplate"@,
            r.ac_of().base_of() == 14,
            r.ac_of().bonus_of() is None,
    {
        Armor::make(ArmorType::MediumArmor, "Breastplate", 14)
    }

    /// Half Plate: MediumArmor, base armor class 15.
    pub fn half_plate() -> (r: Self)
        ensures
            r.type_of() == ArmorType::MediumArmor,
            r.name_of() == "Half Plate"@,
            r.ac_of().base_of() == 15,
            r.ac_of().bonus_of() is None,
    {
        Armor::make(ArmorType::MediumArmor, "Half Plate", 15)
    }

    /// Ring Mail: HeavyArmor, base armor class 14.
    pub fn ring_mail() -> (r: Self)
        ensures
            r.type_of() == ArmorType::HeavyArmor,
            r.name_of() == "Ring Mail"@,
            r.ac_of().base_of() == 14,
            r.ac_of().bonus_of() is None,
    {
        Armor::make(ArmorType::HeavyArmor, "Ring Mail", 14)
    }

    /// Chain Mail: HeavyArmor, base armor class 16.
    pub fn chain_mail() -> (r: Self)
        ensures
            r.type_of() == ArmorType::HeavyArmor,
            r.name_of() == "Chain Mail"@,
            r.ac_of().base_of() == 16,
            r.ac_of().bonus_of() is None,
    {
        Armor::make(ArmorType::HeavyArmor, "Chain Mail", 16)
    }

    /// Splint: HeavyArmor, base armor class 17.
    pub fn splint() -> (r: Self)
        ensures
            r.type_of() == ArmorType::HeavyArmor,
            r.name_of() == "Splint"@,
            r.ac_of().base_of() == 17,
            r.ac_of().bonus_of() is None,
    {
        Armor::make(ArmorType::HeavyArmor, "Splint", 17)
    }

    /// Plate: HeavyArmor, base armor class 18.
    pub fn plate() -> (r: Self)
        ensures
            r.type_of() == ArmorType::HeavyArmor,
            r.name_of() == "Plate"@,
            r.ac_of().base_of() == 18,
            r.ac_of().bonus_of() is None,
    {
        Armor::make(ArmorType::HeavyArmor, "Plate", 18)
    }

    /// The category.
    pub fn get_armor_type(&self) -> (r: &ArmorType)
        ensures
            *r == self.type_of(),
    {
        &self.armor_type
    }

    /// The name.
    pub fn get_armor_name(&self) -> (r: &str)
        ensures
            r@ == self.name_of(),
    {
        self.name.as_str()
    }

    /// The armor class.
    pub fn get_ac_source(&self) -> (r: &ACSource)
        ensures
            *r == self.ac_of(),
    {
        &self.ac
    }

    /// Sets the magic bonus of the armor class.
    pub fn set_magic_bonus(&mut self, value: u8)
        ensures
            final(self).ac_of().bonus_of() == Some(value),
            final(self).ac_of().base_of() == old(self).ac_of().base_of(),
            final(self).type_of() == old(self).type_of(),
            final(self).name_of() == old(self).name_of(),
    {
        self.ac.set_magic_bonus(value);
    }

    /// Removes the magic bonus of the armor class.
    pub fn unset_magic_bonus(&mut self)
        ensures
            final(self).ac_of().bonus_of() is None,
            final(self).ac_of().base_of() == old(self).ac_of().base_of(),
            final(self).type_of() == old(self).type_of(),
            final(self).name_of() == old(self).name_of(),
    {
        self.ac.unset_magic_bonus();
    }
}

/// The armors that a description can name.
#[derive(Debug, Clone, Copy, PartialEq, Eq, Structural)]
pub enum ArmorName {
    NoArmor,
    MageArmor,
    Padded,
    Leather,
    StuddedLeather,
    Hide,
    ChainShirt,
    ScaleMail,
    Breastplate,
    HalfPlate,
    RingMail,
    ChainMail,
    Splint,
    Plate,
}

/// The category, name and base armor class of a named armor.
pub open spec fn armor_facts(n: ArmorName) -> (ArmorType, &'static str, u8) {
    match n {
        ArmorName::NoArmor => (ArmorType::NoArmor, "No Armor", 10u8),
        ArmorName::MageArmor => (ArmorType::NoArmor, "Mage Armor", 13u8),
        ArmorName::Padded => (ArmorType::LightArmor, "Padded", 11u8),
        ArmorName::Leather => (ArmorType::LightArmor, "Leather", 11u8),
        ArmorName::StuddedLeather => (ArmorType::LightArmor, "Studded Leather", 12u8),
        ArmorName::Hide => (ArmorType::MediumArmor, "Hide", 12u8),
        ArmorName::ChainShirt => (ArmorType::MediumArmor, "Chain Shirt", 13u8),
        ArmorName::ScaleMail => (ArmorType::MediumArmor, "Scale Mail", 14u8),
        ArmorName::Breastplate => (ArmorType::MediumArmor, "Breastplate", 14u8),
        ArmorName::HalfPlate => (ArmorType::MediumArmor, "Half Plate", 15u8),
        ArmorName::RingMail => (ArmorType::HeavyArmor, "Ring Mail", 14u8),
        ArmorName::ChainMail => (ArmorType::HeavyArmor, "Chain Mail", 16u8),
        ArmorName::Splint => (ArmorType::HeavyArmor, "Splint", 17u8),
        ArmorName::Plate => (ArmorType::HeavyArmor, "Plate", 18u8),
    }
}

impl From<ArmorName> for Armor {
    /// The named armor, without magic bonus.
    fn from(value: ArmorName) -> (r: Self)
        ensures
            r.type_of() == armor_facts(value).0,
            r.name_of() == armor_facts(value).1@,
            r.ac_of().base_of() == armor_facts(value).2,
            r.ac_of().bonus_of() is None,
    {
        match value {
            ArmorName::NoArmor => Armor::no_armor(),
            ArmorName::MageArmor => Armor::mage_armor(),
            ArmorName::Padded => Armor::padded(),
            ArmorName::Leather => Armor::leather(),
            ArmorName::StuddedLeather => Armor::studded_leather(),
            ArmorName::Hide => Armor::hide_armor(),
            ArmorName::ChainShirt => Armor::chain_shirt(),
            ArmorName::ScaleMail => Armor::scale_mail(),
            ArmorName::Breastplate => Armor::breastplate(),
            ArmorName::HalfPlate => Armor::half_plate(),
            ArmorName::RingMail => Armor::ring_mail(),
            ArmorName::ChainMail => Armor::chain_mail(),
            ArmorName::Splint => Armor::splint(),
            ArmorName::Plate => Armor::plate(),
        }
    }
}

// Armor holds a string, which no spec value can build: the contract is the
// `ensures` of `from` itself.
impl vstd::std_specs::convert::FromSpecImpl<ArmorName> for Armor {
    open spec fn obeys_from_spec() -> bool {
        false
    }

    open spec fn from_spec(v: ArmorName) -> Armor {
        arbitrary()
    }
}

/// The categories of weapons.
#[derive(Debug, Clone, Copy, PartialEq, Eq, Structural)]
pub enum WeaponType {
    SimpleMelee,
    SimpleRanged,
    MartialMelee,
    MartialRanged,
}

impl WeaponType {
    /// Whether the category is a ranged one.
    pub fn is_ranged(&self) -> (r: bool)
        ensures
            r == (*self == WeaponType::SimpleRanged || *self == WeaponType::MartialRanged),
    {
        match self {
            WeaponType::SimpleMelee => false,
            WeaponType::SimpleRanged => true,
            WeaponType::MartialMelee => false,
            WeaponType::MartialRanged => true,
        }
    }

    /// Whether the category is a melee one.
    pub fn is_melee(&self) -> (r: bool)
        ensures
            r == (*self == WeaponType::SimpleMelee || *self == WeaponType::MartialMelee),
    {
        !self.is_ranged()
    }
}

/// The properties of weapons.
#[derive(Debug, Clone, Copy, PartialEq, Eq, Structural)]
pub enum WeaponProperty {
    Ammunition,
    Finesse,
    Heavy,
    Light,
    Loading,
    Range(Feet, Feet),
    Reach,
    Special,
    Thrown,
    TwoHanded,
    Versatile(DamageDice),
}

/// The reach or range of a weapon.
#[derive(Debug, Clone, Copy, PartialEq, Eq, Structural)]
pub enum WeaponRange {
    Melee(Feet),
    Ranged(Feet, Feet),
    Thrown(Feet, Feet, Feet),
}

/// The dice of the first versatile property, from position `i` on.
pub open spec fn versatile_from(props: Seq<WeaponProperty>, i: int) -> Option<DamageDice>
    decreases props.len() - i,
{
    if i < 0 || i >= props.len() {
        None
    } else if props[i] is Versatile {
        Some(props[i]->Versatile_0)
    } else {
        versatile_from(props, i + 1)
    }
}

/// The ranges of the first range property, from position `i` on.
pub open spec fn range_from(props: Seq<WeaponProperty>, i: int) -> Option<(Feet, Feet)>
    decreases props.len() - i,
{
    if i < 0 || i >= props.len() {
        None
    } else if props[i] is Range {
        Some((props[i]->Range_0, props[i]->Range_1))
    } else {
        range_from(props, i + 1)
    }
}

/// The reach or range of a weapon with the given properties: five feet of
/// melee reach (ten with reach); a range property makes it a ranged weapon,
/// or a thrown one when it also has the thrown property.
pub open spec fn weapon_range(props: Seq<WeaponProperty>) -> WeaponRange {
    let melee = if props.contains(WeaponProperty::Reach) { Feet(10) } else { Feet(5) };
    match range_from(props, 0) {
        Some((short, long)) => if props.contains(WeaponProperty::Thrown) {
            WeaponRange::Thrown(melee, short, long)
        } else {
            WeaponRange::Ranged(short, long)
        },
        None => WeaponRange::Melee(melee),
    }
}

/// A weapon: its name, category, damage dice and type, properties and magic bonus.
#[derive(Debug, Clone, PartialEq)]
pub struct Weapon {
    name: String,
    weapon_type: WeaponType,
    dice: DamageDice,
    dmg_type: DamageType,
    properties: Vec<WeaponProperty>,
    magic_bonus: Option<u8>,
}

impl Weapon {
    /// The name of the quarterstaff.
    pub const QUARTERSTAFF: &'static str = "Quarterstaff";

    /// The name of the glaive.
    pub const GLAIVE: &'static str = "Glaive";

    /// The name of the halberd.
    pub const HALBERD: &'static str = "Halberd";

    /// The name.
    pub closed spec fn name_of(self) -> Seq<char> {
        self.name@
    }

    /// The category.
    pub closed spec fn type_of(self) -> WeaponType {
        self.weapon_type
    }

    /// The damage dice.
    pub closed spec fn dice_of(self) -> DamageDice {
        self.dice
    }

    /// The damage type.
    pub closed spec fn dmg_type_of(self) -> DamageType {
        self.dmg_type
    }

    /// The properties.
    pub closed spec fn props_of(self) -> Seq<WeaponProperty> {
        self.properties@
    }

    /// The magic bonus, if any.
    pub closed spec fn bonus_of(self) -> Option<u8> {
        self.magic_bonus
    }

    /// A weapon without magic bonus.
    fn make(name: &str, weapon_type: WeaponType, dice: DamageDice, dmg_type: DamageType, properties: Vec<WeaponProperty>) -> (r: Self)
        ensures
            r.name_of() == name@,
            r.type_of() == weapon_type,
            r.dice_of() == dice,
            r.dmg_type_of() == dmg_type,
            r.props_of() == properties@,
            r.bonus_of() is None,
    {
        Weapon { name: String::from_str(name), weapon_type, dice, dmg_type, properties, magic_bonus: None }
    }

    /// The dagger: SimpleMelee, D4 piercing damage.
    pub fn dagger() -> (r: Self)
        ensures
            r.name_of() == "Dagger"@,
            r.type_of() == WeaponType::SimpleMelee,
            r.dice_of() == DamageDice::D4,
            r.dmg_type_of() == DamageType::Piercing,
            r.props_of() == seq![WeaponProperty::Finesse, WeaponProperty::Light, WeaponProperty::Thrown, WeaponProperty::Range(Feet(20), Feet(60))],
            r.bonus_of() is None,
    {
        let r = Weapon::make("Dagger", WeaponType::SimpleMelee, DamageDice::D4, DamageType::Piercing, vec![WeaponProperty::Finesse, WeaponProperty::Light, WeaponProperty::Thrown, WeaponProperty::Range(Feet(20), Feet(60))]);
        r
    }

    /// The quarterstaff: SimpleMelee, D6 bludgeoning damage.
    pub fn quarterstaff() -> (r: Self)
        ensures
            r.name_of() == "Quarterstaff"@,
            r.type_of() == WeaponType::SimpleMelee,
            r.dice_of() == DamageDice::D6,
            r.dmg_type_of() == DamageType::Bludgeoning,
            r.props_of() == seq![WeaponProperty::Versatile(DamageDice::D8)],
            r.bonus_of() is None,
    {
        let r = Weapon::make(Weapon::QUARTERSTAFF, WeaponType::SimpleMelee, DamageDice::D6, DamageType::Bludgeoning, vec![WeaponProperty::Versatile(DamageDice::D8)]);
        assert(Weapon::QUARTERSTAFF@ == "Quarterstaff"@);
        r
    }

    /// The shortbow: SimpleRanged, D6 piercing damage.
    pub fn shortbow() -> (r: Self)
        ensures
            r.name_of() == "Shortbow"@,
            r.type_of() == WeaponType::SimpleRanged,
            r.dice_of() == DamageDice::D6,
            r.dmg_type_of() == DamageType::Piercing,
            r.props_of() == seq![WeaponProperty::Ammunition, WeaponProperty::Range(Feet(80), Feet(320)), WeaponProperty::TwoHanded],
            r.bonus_of() is None,
    {
        let r = Weapon::make("Shortbow", WeaponType::SimpleRanged, DamageDice::D6, DamageType::Piercing, vec![WeaponProperty::Ammunition, WeaponProperty::Range(Feet(80), Feet(320)), WeaponProperty::TwoHanded]);
        r
    }

    /// The glaive: MartialMelee, D10 slashing damage.
    pub fn glaive() -> (r: Self)
        ensures
            r.name_of() == "Glaive"@,
            r.type_of() == WeaponType::MartialMelee,
            r.dice_of() == DamageDice::D10,
            r.dmg_type_of() == DamageType::Slashing,
            r.props_of() == seq![WeaponProperty::Heavy, WeaponProperty::Reach, WeaponProperty::TwoHanded],
            r.bonus_of() is None,
    {
        let r = Weapon::make(Weapon::GLAIVE, WeaponType::MartialMelee, DamageDice::D10, DamageType::Slashing, vec![WeaponProperty::Heavy, WeaponProperty::Reach, WeaponProperty::TwoHanded]);
        assert(Weapon::GLAIVE@ == "Glaive"@);
        r
    }

    /// The greatsword: MartialMelee, TwoD6 slashing damage.
    pub fn greatsword() -> (r: Self)
        ensures
            r.name_of() == "Greatsword"@,
            r.type_of() == WeaponType::MartialMelee,
            r.dice_of() == DamageDice::TwoD6,
            r.dmg_type_of() == DamageType::Slashing,
            r.props_of() == seq![WeaponProperty::Heavy, WeaponProperty::TwoHanded],
            r.bonus_of() is None,
    {
        let r = Weapon::make("Greatsword", WeaponType::MartialMelee, DamageDice::TwoD6, DamageType::Slashing, vec![WeaponProperty::Heavy, WeaponProperty::TwoHanded]);
        r
    }

    /// The halberd: MartialMelee, D10 slashing damage.
    pub fn halberd() -> (r: Self)
        ensures
            r.name_of() == "Halberd"@,
            r.type_of() == WeaponType::MartialMelee,
            r.dice_of() == DamageDice::D10,
            r.dmg_type_of() == DamageType::Slashing,
            r.props_of() == seq![WeaponProperty::Heavy, WeaponProperty::Reach, WeaponProperty::TwoHanded],
            r.bonus_of() is None,
    {
        let r = Weapon::make(Weapon::HALBERD, WeaponType::MartialMelee, DamageDice::D10, DamageType::Slashing, vec![WeaponProperty::Heavy, WeaponProperty::Reach, WeaponProperty::TwoHanded]);
        assert(Weapon::HALBERD@ == "Halberd"@);
        r
    }

    /// The longsword: MartialMelee, D8 slashing damage.
    pub fn longsword() -> (r: Self)
        ensures
            r.name_of() == "Longsword"@,
            r.type_of() == WeaponType::MartialMelee,
            r.dice_of() == DamageDice::D8,
            r.dmg_type_of() == DamageType::Slashing,
            r.props_of() == seq![WeaponProperty::Versatile(DamageDice::D10)],
            r.bonus_of() is None,
    {
        let r = Weapon::make("Longsword", WeaponType::MartialMelee, DamageDice::D8, DamageType::Slashing, vec![WeaponProperty::Versatile(DamageDice::D10)]);
        r
    }

    /// The rapier: MartialMelee, D8 piercing damage.
    pub fn rapier() -> (r: Self)
        ensures
            r.name_of() == "Rapier"@,
            r.type_of() == WeaponType::MartialMelee,
            r.dice_of() == DamageDice::D8,
            r.dmg_type_of() == DamageType::Piercing,
            r.props_of() == seq![WeaponProperty::Finesse],
            r.bonus_of() is None,
    {
        let r = Weapon::make("Rapier", WeaponType::MartialMelee, DamageDice::D8, DamageType::Piercing, vec![WeaponProperty::Finesse]);
        r
    }

    /// The shortsword: MartialMelee, D6 piercing damage.
    pub fn shortsword() -> (r: Self)
        ensures
            r.name_of() == "Shortsword"@,
            r.type_of() == WeaponType::MartialMelee,
            r.dice_of() == DamageDice::D6,
            r.dmg_type_of() == DamageType::Piercing,
            r.props_of() == seq![WeaponProperty::Finesse, WeaponProperty::Light],
            r.bonus_of() is None,
    {
        let r = Weapon::make("Shortsword", WeaponType::MartialMelee, DamageDice::D6, DamageType::Piercing, vec![WeaponProperty::Finesse, WeaponProperty::Light]);
        r
    }

    /// The longbow: MartialRanged, D8 piercing damage.
    pub fn longbow() -> (r: Self)
        ensures
            r.name_of() == "Longbow"@,
            r.type_of() == WeaponType::MartialRanged,
            r.dice_of() == DamageDice::D8,
            r.dmg_type_of() == DamageType::Piercing,
            r.props_of() == seq![WeaponProperty::Ammunition, WeaponProperty::Heavy, WeaponProperty::TwoHanded, WeaponProperty::Range(Feet(150), Feet(600))],
            r.bonus_of() is None,
    {
        let r = Weapon::make("Longbow", WeaponType::MartialRanged, DamageDice::D8, DamageType::Piercing, vec![WeaponProperty::Ammunition, WeaponProperty::Heavy, WeaponProperty::TwoHanded, WeaponProperty::Range(Feet(150), Feet(600))]);
        r
    }

    /// A copy of the weapon.
    pub fn duplicate(&self) -> (r: Self)
        ensures
            r.name_of() == self.name_of(),
            r.type_of() == self.type_of(),
            r.dice_of() == self.dice_of(),
            r.dmg_type_of() == self.dmg_type_of(),
            r.props_of() == self.props_of(),
            r.bonus_of() == self.bonus_of(),
    {
        Weapon {
            name: self.name.clone(),
            weapon_type: self.weapon_type,
            dice: self.dice,
            dmg_type: self.dmg_type,
            properties: copy_vec(&self.properties),
            magic_bonus: self.magic_bonus,
        }
    }

    /// The same weapon used as a polearm master's butt end: named with " PAM"
    /// appended, a d4 of bludgeoning damage, otherwise unchanged.
    pub fn as_pam(&self) -> (r: Self)
        ensures
            r.name_of() == self.name_of() + " PAM"@,
            r.type_of() == self.type_of(),
            r.dice_of() == DamageDice::D4,
            r.dmg_type_of() == DamageType::Bludgeoning,
            r.props_of() == self.props_of(),
            r.bonus_of() == self.bonus_of(),
    {
        let mut name = self.name.clone();
        name.append(" PAM");
        Weapon {
            name,
            weapon_type: self.weapon_type,
            dice: DamageDice::D4,
            dmg_type: DamageType::Bludgeoning,
            properties: copy_vec(&self.properties),
            magic_bonus: self.magic_bonus,
        }
    }

    /// The name.
    pub fn get_name(&self) -> (r: &str)
        ensures
            r@ == self.name_of(),
    {
        self.name.as_str()
    }

    /// The category.
    pub fn get_type(&self) -> (r: &WeaponType)
        ensures
            *r == self.type_of(),
    {
        &self.weapon_type
    }

    /// The damage dice.
    pub fn get_dice(&self) -> (r: &DamageDice)
        ensures
            *r == self.dice_of(),
    {
        &self.dice
    }

    /// The damage type.
    pub fn get_dmg_type(&self) -> (r: &DamageType)
        ensures
            *r == self.dmg_type_of(),
    {
        &self.dmg_type
    }

    /// The properties.
    pub fn get_properties(&self) -> (r: &Vec<WeaponProperty>)
        ensures
            r@ == self.props_of(),
    {
        &self.properties
    }

    /// Whether the weapon has the property.
    pub fn has_property(&self, prop: WeaponProperty) -> (r: bool)
        ensures
            r == self.props_of().contains(prop),
    {
        let n = self.properties.len();
        let mut i: usize = 0;
        while i < n
            invariant
                n == self.properties@.len(),
                i <= n,
                forall|k: int| 0 <= k < i ==> self.properties@[k] != prop,
            decreases n - i,
        {
            if self.properties[i] == prop {
                return true;
            }
            i = i + 1;
        }
        false
    }

    /// The magic bonus, if any.
    pub fn get_magic_bonus(&self) -> (r: Option<u8>)
        ensures
            r == self.bonus_of(),
    {
        self.magic_bonus
    }

    /// Sets the magic bonus; nothing else changes.
    pub fn set_magic_bonus(&mut self, value: u8)
        ensures
            final(self).bonus_of() == Some(value),
            final(self).name_of() == old(self).name_of(),
            final(self).type_of() == old(self).type_of(),
            final(self).dice_of() == old(self).dice_of(),
            final(self).dmg_type_of() == old(self).dmg_type_of(),
            final(self).props_of() == old(self).props_of(),
    {
        self.magic_bonus = Some(value);
    }

    /// Removes the magic bonus; nothing else changes.
    pub fn unset_magic_bonus(&mut self)
        ensures
            final(self).bonus_of() is None,
            final(self).name_of() == old(self).name_of(),
            final(self).type_of() == old(self).type_of(),
            final(self).dice_of() == old(self).dice_of(),
            final(self).dmg_type_of() == old(self).dmg_type_of(),
            final(self).props_of() == old(self).props_of(),
    {
        self.magic_bonus = None;
    }

    /// The dice of the first versatile property, if any.
    pub fn is_versatile(&self) -> (r: Option<&DamageDice>)
        ensures
            match r {
                Some(d) => versatile_from(self.props_of(), 0) == Some(*d),
                None => versatile_from(self.props_of(), 0) is None,
            },
    {
        let n = self.properties.len();
        let mut i: usize = 0;
        while i < n
            invariant
                n == self.properties@.len(),
                i <= n,
                versatile_from(self.props_of(), 0) == versatile_from(self.props_of(), i as int),
            decreases n - i,
        {
            if let WeaponProperty::Versatile(dice) = &self.properties[i] {
                return Some(dice);
            }
            i = i + 1;
        }
        None
    }

    /// The reach or range of the weapon, as `weapon_range` says.
    pub fn get_range(&self) -> (r: WeaponRange)
        ensures
            r == weapon_range(self.props_of()),
    {
        let mut melee_range = Feet(5);
        if self.has_property(WeaponProperty::Reach) {
            melee_range = Feet(10);
        }
        let n = self.properties.len();
        let mut i: usize = 0;
        while i < n
            invariant
                n == self.properties@.len(),
                i <= n,
                melee_range == (if self.props_of().contains(WeaponProperty::Reach) { Feet(10) } else { Feet(5) }),
                range_from(self.props_of(), 0) == range_from(self.props_of(), i as int),
            decreases n - i,
        {
            if let WeaponProperty::Range(short, long) = self.properties[i] {
                return if self.has_property(WeaponProperty::Thrown) {
                    WeaponRange::Thrown(melee_range, short, long)
                } else {
                    WeaponRange::Ranged(short, long)
                };
            }
            i = i + 1;
        }
        WeaponRange::Melee(melee_range)
    }
}

/// The weapons that a description can name.
#[derive(Debug, Clone, Copy, PartialEq, Eq, Structural)]
pub enum WeaponName {
    Dagger,
    Quarterstaff,
    Shortbow,
    Glaive,
    Greatsword,
    Halberd,
    Longsword,
    Rapier,
    Shortsword,
    Longbow,
}

/// The name of a named weapon.
pub open spec fn weapon_title(n: WeaponName) -> &'static str {
    match n {
        WeaponName::Dagger => "Dagger",
        WeaponName::Quarterstaff => "Quarterstaff",
        WeaponName::Shortbow => "Shortbow",
        WeaponName::Glaive => "Glaive",
        WeaponName::Greatsword => "Greatsword",
        WeaponName::Halberd => "Halberd",
        WeaponName::Longsword => "Longsword",
        WeaponName::Rapier => "Rapier",
        WeaponName::Shortsword => "Shortsword",
        WeaponName::Longbow => "Longbow",
    }
}

/// The category, damage dice and damage type of a named weapon.
pub open spec fn weapon_facts(n: WeaponName) -> (WeaponType, DamageDice, DamageType) {
    match n {
        WeaponName::Dagger => (WeaponType::SimpleMelee, DamageDice::D4, DamageType::Piercing),
        WeaponName::Quarterstaff => (WeaponType::SimpleMelee, DamageDice::D6, DamageType::Bludgeoning),
        WeaponName::Shortbow => (WeaponType::SimpleRanged, DamageDice::D6, DamageType::Piercing),
        WeaponName::Glaive => (WeaponType::MartialMelee, DamageDice::D10, DamageType::Slashing),
        WeaponName::Greatsword => (WeaponType::MartialMelee, DamageDice::TwoD6, DamageType::Slashing),
        WeaponName::Halberd => (WeaponType::MartialMelee, DamageDice::D10, DamageType::Slashing),
        WeaponName::Longsword => (WeaponType::MartialMelee, DamageDice::D8, DamageType::Slashing),
        WeaponName::Rapier => (WeaponType::MartialMelee, DamageDice::D8, DamageType::Piercing),
        WeaponName::Shortsword => (WeaponType::MartialMelee, DamageDice::D6, DamageType::Piercing),
        WeaponName::Longbow => (WeaponType::MartialRanged, DamageDice::D8, DamageType::Piercing),
    }
}

/// The properties of a named weapon.
pub open spec fn weapon_props(n: WeaponName) -> Seq<WeaponProperty> {
    match n {
        WeaponName::Dagger => seq![WeaponProperty::Finesse, WeaponProperty::Light, WeaponProperty::Thrown, WeaponProperty::Range(Feet(20), Feet(60))],
        WeaponName::Quarterstaff => seq![WeaponProperty::Versatile(DamageDice::D8)],
        WeaponName::Shortbow => seq![WeaponProperty::Ammunition, WeaponProperty::Range(Feet(80), Feet(320)), WeaponProperty::TwoHanded],
        WeaponName::Glaive => seq![WeaponProperty::Heavy, WeaponProperty::Reach, WeaponProperty::TwoHanded],
        WeaponName::Greatsword => seq![WeaponProperty::Heavy, WeaponProperty::TwoHanded],
        WeaponName::Halberd => seq![WeaponProperty::Heavy, WeaponProperty::Reach, WeaponProperty::TwoHanded],
        WeaponName::Longsword => seq![WeaponProperty::Versatile(DamageDice::D10)],
        WeaponName::Rapier => seq![WeaponProperty::Finesse],
        WeaponName::Shortsword => seq![WeaponProperty::Finesse, WeaponProperty::Light],
        WeaponName::Longbow => seq![WeaponProperty::Ammunition, WeaponProperty::Heavy, WeaponProperty::TwoHanded, WeaponProperty::Range(Feet(150), Feet(600))],
    }
}

impl From<WeaponName> for Weapon {
    /// The named weapon, without magic bonus.
    fn from(value: WeaponName) -> (r: Self)
        ensures
            r.name_of() == weapon_title(value)@,
            r.type_of() == weapon_facts(value).0,
            r.dice_of() == weapon_facts(value).1,
            r.dmg_type_of() == weapon_facts(value).2,
            r.props_of() == weapon_props(value),
            r.bonus_of() is None,
    {
        match value {
            WeaponName::Dagger => Weapon::dagger(),
            WeaponName::Quarterstaff => Weapon::quarterstaff(),
            WeaponName::Shortbow => Weapon::shortbow(),
            WeaponName::Glaive => Weapon::glaive(),
            WeaponName::Greatsword => Weapon::greatsword(),
            WeaponName::Halberd => Weapon::halberd(),
            WeaponName::Longsword => Weapon::longsword(),
            WeaponName::Rapier => Weapon::rapier(),
            WeaponName::Shortsword => Weapon::shortsword(),
            WeaponName::Longbow => Weapon::longbow(),
        }
    }
}

// A weapon holds a string and a vector, which no spec value can build: the
// contract is the `ensures` of `from` itself.
impl vstd::std_specs::convert::FromSpecImpl<WeaponName> for Weapon {
    open spec fn obeys_from_spec() -> bool {
        false
    }

    open spec fn from_spec(v: WeaponName) -> Weapon {
        arbitrary()
    }
}

/// What the off hand holds.
#[derive(Debug, Clone, PartialEq)]
pub enum OffHand {
    Weapon(Weapon),
    Shield(ACSource),
    Free,
}

/// The equipment of a character: armor, a main-hand weapon and the off hand.
#[derive(Debug, Clone)]
pub struct Equipment {
    armor: Armor,
    main_hand: Weapon,
    off_hand: OffHand,
}

impl Equipment {
    /// The armor.
    pub closed spec fn armor_of(self) -> Armor {
        self.armor
    }

    /// The main-hand weapon.
    pub closed spec fn main_of(self) -> Weapon {
        self.main_hand
    }

    /// The off hand.
    pub closed spec fn off_of(self) -> OffHand {
        self.off_hand
    }

    /// Equipment of the given armor, main-hand weapon and off hand.
    pub fn new(armor: Armor, main: Weapon, off: OffHand) -> (r: Self)
        ensures
            r.armor_of() == armor,
            r.main_of() == main,
            r.off_of() == off,
    {
        Equipment { armor, main_hand: main, off_hand: off }
    }

    /// The armor.
    pub fn get_armor(&self) -> (r: &Armor)
        ensures
            *r == self.armor_of(),
    {
        &self.armor
    }

    /// The armor, to change.
    pub fn get_armor_mut(&mut self) -> (r: &mut Armor)
        ensures
            *r == old(self).armor_of(),
            final(self).armor_of() == *final(r),
            final(self).main_of() == old(self).main_of(),
            final(self).off_of() == old(self).off_of(),
    {
        &mut self.armor
    }

    /// Replaces the armor.
    pub fn set_armor(&mut self, new_armor: Armor)
        ensures
            final(self).armor_of() == new_armor,
            final(self).main_of() == old(self).main_of(),
            final(self).off_of() == old(self).off_of(),
    {
        self.armor = new_armor;
    }

    /// The main-hand weapon.
    pub fn get_primary_weapon(&self) -> (r: &Weapon)
        ensures
            *r == self.main_of(),
    {
        &self.main_hand
    }

    /// The main-hand weapon, to change.
    pub fn get_primary_weapon_mut(&mut self) -> (r: &mut Weapon)
        ensures
            *r == old(self).main_of(),
            final(self).main_of() == *final(r),
            final(self).armor_of() == old(self).armor_of(),
            final(self).off_of() == old(self).off_of(),
    {
        &mut self.main_hand
    }

    /// Replaces the main-hand weapon.
    pub fn set_primary_weapon(&mut self, weapon: Weapon)
        ensures
            final(self).main_of() == weapon,
            final(self).armor_of() == old(self).armor_of(),
            final(self).off_of() == old(self).off_of(),
    {
        self.main_hand = weapon;
    }

    /// The damage dice of the main-hand weapon: its versatile dice when the
    /// off hand is free, else its own dice.
    pub fn get_primary_dmg_dice(&self) -> (r: &DamageDice)
        ensures
            *r == match versatile_from(self.main_of().props_of(), 0) {
                Some(d) => if self.off_of() is Free { d } else { self.main_of().dice_of() },
                None => self.main_of().dice_of(),
            },
    {
        let versatile = self.get_primary_weapon().is_versatile();
        if let Some(dice) = versatile {
            if let OffHand::Free = self.off_hand {
                return dice;
            }
        }
        self.get_primary_weapon().get_dice()
    }

    /// The off hand.
    pub fn get_off_hand(&self) -> (r: &OffHand)
        ensures
            *r == self.off_of(),
    {
        &self.off_hand
    }

    /// The off hand, to change.
    pub fn get_off_hand_mut(&mut self) -> (r: &mut OffHand)
        ensures
            *r == old(self).off_of(),
            final(self).off_of() == *final(r),
            final(self).armor_of() == old(self).armor_of(),
            final(self).main_of() == old(self).main_of(),
    {
        &mut self.off_hand
    }

    /// Replaces the off hand.
    pub fn set_off_hand(&mut self, off: OffHand)
        ensures
            final(self).off_of() == off,
            final(self).armor_of() == old(self).armor_of(),
            final(self).main_of() == old(self).main_of(),
    {
        self.off_hand = off;
    }

    /// The off-hand weapon, if the off hand holds one.
    pub fn get_secondary_weapon(&self) -> (r: Option<&Weapon>)
        ensures
            match self.off_of() {
                OffHand::Weapon(w) => r == Some(&w),
                _ => r is None,
            },
    {
        if let OffHand::Weapon(w) = &self.off_hand {
            Some(w)
        } else {
            None
        }
    }

    /// The shield, if the off hand holds one.
    pub fn get_shield(&self) -> (r: Option<&ACSource>)
        ensures
            match self.off_of() {
                OffHand::Shield(s) => r == Some(&s),
                _ => r is None,
            },
    {
        if let OffHand::Shield(s) = &self.off_hand {
            Some(s)
        } else {
            None
        }
    }
}

} // verus!
