use vstd::prelude::*;
use crate::seq_facts::copy_vec;
use crate::combat_core::D20Type;
use crate::combat_core::ability_scores::Ability;
use crate::combat_core::damage::dice_expr::DiceExprTerm;
use crate::combat_core::damage::{DamageDice, DamageFeature, DamageTerm, DamageType, ExtendedDamageDice, ExtendedDamageType};
use crate::character_builder::attributed_bonus::{
    AttributedBonus, AttributedBonusView, BonusTerm, BonusTermView, BonusType, copy_terms, term_views,
};
use crate::character_builder::equipment::{
    Equipment, OffHand, Weapon, WeaponProperty, WeaponRange, versatile_from, weapon_range,
};

verus! {

/// How many hands hold the weapon.
#[derive(Debug, Clone, Copy, PartialEq, Eq, Structural, PartialOrd, Ord)]
pub enum NumHands {
    OneHand,
    TwoHand,
}

/// Which hand holds the weapon.
#[derive(Debug, Clone, Copy, PartialEq, Eq, Structural, PartialOrd, Ord)]
pub enum HandType {
    MainHand,
    OffHand,
}

/// The ability of attacks with a weapon: dexterity for a ranged weapon or
/// a finesse weapon, strength otherwise.
pub open spec fn attack_ability_of(w: Weapon) -> Ability {
    if weapon_range(w.props_of()) is Ranged || w.props_of().contains(WeaponProperty::Finesse) {
        Ability::DEX
    } else {
        Ability::STR
    }
}

/// The ability of attacks with the weapon.
pub fn attack_ability(weapon: &Weapon) -> (r: Ability)
    ensures
        r == attack_ability_of(*weapon),
{
    if let WeaponRange::Ranged(_, _) = weapon.get_range() {
        Ability::DEX
    } else if weapon.has_property(WeaponProperty::Finesse) {
        Ability::DEX
    } else {
        Ability::STR
    }
}

/// The damage die of a weapon held in that many hands: its versatile dice
/// when held in two hands, else its own dice.
pub open spec fn weapon_die_of(w: Weapon, num_hands: NumHands) -> DamageDice {
    match versatile_from(w.props_of(), 0) {
        Some(d) => if num_hands == NumHands::TwoHand { d } else { w.dice_of() },
        None => w.dice_of(),
    }
}

/// The damage die of the weapon held in that many hands.
pub fn get_weapon_die(weapon: &Weapon, num_hands: NumHands) -> (r: DamageDice)
    ensures
        r == weapon_die_of(*weapon, num_hands),
{
    if num_hands == NumHands::TwoHand {
        if let Some(d) = weapon.is_versatile() {
            return *d;
        }
    }
    *weapon.get_dice()
}

/// The hands that hold the main-hand weapon: two when the off hand is free
/// and the weapon is two-handed or versatile, else one.
pub open spec fn primary_hands_of(e: Equipment) -> NumHands {
    if e.off_of() is Free && (e.main_of().props_of().contains(WeaponProperty::TwoHanded)
        || versatile_from(e.main_of().props_of(), 0) is Some) {
        NumHands::TwoHand
    } else {
        NumHands::OneHand
    }
}

/// The hands that hold the main-hand weapon of the equipment.
pub fn primary_num_hands(equipment: &Equipment) -> (r: NumHands)
    ensures
        r == primary_hands_of(*equipment),
{
    let weapon = equipment.get_primary_weapon();
    let mut hands = NumHands::OneHand;
    if let OffHand::Free = equipment.get_off_hand() {
        if weapon.has_property(WeaponProperty::TwoHanded) || weapon.is_versatile().is_some() {
            hands = NumHands::TwoHand;
        }
    }
    hands
}

/// A weapon attack: the weapon and how it is held, the ability it uses, its
/// hit bonus, its damage (the weapon's die and damage type, the fixed damage
/// terms and the terms that depend on the character), its critical range and
/// its d20.
#[derive(Debug, Clone)]
pub struct WeaponAttack {
    weapon: Weapon,
    num_hands: NumHands,
    hand_type: HandType,
    ability: Ability,
    hit_bonus: AttributedBonus,
    weapon_die: DamageDice,
    dmg_type: DamageType,
    base_dmg: Vec<DamageTerm>,
    char_dmg: Vec<BonusTerm>,
    crit_lb: isize,
    d20_rv: D20Type,
    dmg_features: Vec<DamageFeature>,
}

/// The hit bonus of a new attack with a weapon: proficiency, the modifier of
/// the attack's ability, and the weapon's magic bonus if any.
pub open spec fn new_hit_terms(w: Weapon) -> Seq<BonusTermView> {
    seq![
        BonusTermView { bonus: BonusType::Proficiency, name: None, attribution: None },
        BonusTermView { bonus: BonusType::Modifier(attack_ability_of(w)), name: None, attribution: None },
    ] + match w.bonus_of() {
        Some(b) => seq![BonusTermView { bonus: BonusType::Constant(b as i32), name: None, attribution: Some("magic bonus"@) }],
        None => Seq::empty(),
    }
}

/// The fixed damage of a new attack with a weapon: the weapon's die, and the
/// weapon's magic bonus if any, both of the weapon's damage.
pub open spec fn new_base_dmg(w: Weapon) -> Seq<DamageTerm> {
    seq![DamageTerm { expr: DiceExprTerm::Die(ExtendedDamageDice::WeaponDice), dmg_type: ExtendedDamageType::WeaponDamage }]
        + match w.bonus_of() {
        Some(b) => seq![DamageTerm { expr: DiceExprTerm::Const(b as isize), dmg_type: ExtendedDamageType::WeaponDamage }],
        None => Seq::empty(),
    }
}

/// `wa` is the attack that `WeaponAttack::new` makes with weapon `w` held in
/// `hand` with `hands` hands.
pub open spec fn is_new_attack(wa: WeaponAttack, w: Weapon, hand: HandType, hands: NumHands) -> bool {
    &&& wa.weapon_of().name_of() == w.name_of()
    &&& wa.weapon_of().type_of() == w.type_of()
    &&& wa.weapon_of().dice_of() == w.dice_of()
    &&& wa.weapon_of().dmg_type_of() == w.dmg_type_of()
    &&& wa.weapon_of().props_of() == w.props_of()
    &&& wa.weapon_of().bonus_of() == w.bonus_of()
    &&& wa.hands_of() == hands
    &&& wa.hand_of() == hand
    &&& wa.ability_of() == attack_ability_of(w)
    &&& wa.hit_bonus_of() == (AttributedBonusView { name: "Hit Bonus"@, terms: new_hit_terms(w), temp_terms: Seq::empty() })
    &&& wa.die_of() == weapon_die_of(w, hands)
    &&& wa.dmg_type_of() == w.dmg_type_of()
    &&& wa.base_dmg_of() == new_base_dmg(w)
    &&& wa.char_dmg_of() == if hand == HandType::MainHand {
        seq![BonusTermView { bonus: BonusType::Modifier(attack_ability_of(w)), name: None, attribution: None }]
    } else {
        Seq::<BonusTermView>::empty()
    }
    &&& wa.crit_lb_of() == 20
    &&& wa.d20_of() == D20Type::D20
    &&& wa.features_of() == Set::<DamageFeature>::empty()
}

impl WeaponAttack {
    /// The weapon.
    pub closed spec fn weapon_of(self) -> Weapon {
        self.weapon
    }

    /// How many hands hold the weapon.
    pub closed spec fn hands_of(self) -> NumHands {
        self.num_hands
    }

    /// Which hand holds the weapon.
    pub closed spec fn hand_of(self) -> HandType {
        self.hand_type
    }

    /// The ability the attack uses.
    pub closed spec fn ability_of(self) -> Ability {
        self.ability
    }

    /// The hit bonus.
    pub closed spec fn hit_bonus_of(self) -> AttributedBonusView {
        self.hit_bonus@
    }

    /// The damage die of the weapon as held.
    pub closed spec fn die_of(self) -> DamageDice {
        self.weapon_die
    }

    /// The damage type of the weapon.
    pub closed spec fn dmg_type_of(self) -> DamageType {
        self.dmg_type
    }

    /// The fixed damage terms.
    pub closed spec fn base_dmg_of(self) -> Seq<DamageTerm> {
        self.base_dmg@
    }

    /// The damage terms that depend on the character (all of weapon damage).
    pub closed spec fn char_dmg_of(self) -> Seq<BonusTermView> {
        term_views(self.char_dmg@)
    }

    /// The features that change how the damage is computed.
    pub closed spec fn features_of(self) -> Set<DamageFeature> {
        self.dmg_features@.to_set()
    }

    /// The lowest d20 roll that is a critical hit.
    pub closed spec fn crit_lb_of(self) -> isize {
        self.crit_lb
    }

    /// The d20 of the attack.
    pub closed spec fn d20_of(self) -> D20Type {
        self.d20_rv
    }

    /// An attack with `weapon` held in `hand_type` with `num_hands` hands. It
    /// uses dexterity for ranged and finesse weapons, strength otherwise; it
    /// hits with proficiency, that ability's modifier and the magic bonus;
    /// it deals the weapon's die (its versatile die in two hands) and the
    /// magic bonus, plus the ability's modifier in the main hand only; it
    /// crits on a 20 and rolls a plain d20.
    pub fn new(weapon: &Weapon, hand_type: HandType, num_hands: NumHands) -> (r: Self)
        ensures
            is_new_attack(r, *weapon, hand_type, num_hands),
    {
        let mut hit_bonus = AttributedBonus::new(String::from_str("Hit Bonus"));
        hit_bonus.add_term(BonusTerm::new(BonusType::Proficiency));
        let ability = attack_ability(weapon);
        hit_bonus.add_term(BonusTerm::new(BonusType::Modifier(ability)));

        let mut base_dmg: Vec<DamageTerm> = Vec::new();
        base_dmg.push(DamageTerm::new(DiceExprTerm::Die(ExtendedDamageDice::WeaponDice), ExtendedDamageType::WeaponDamage));
        let mut char_dmg: Vec<BonusTerm> = Vec::new();
        if hand_type == HandType::MainHand {
            char_dmg.push(BonusTerm::new(BonusType::Modifier(ability)));
        }
        if let Some(b) = weapon.get_magic_bonus() {
            hit_bonus.add_term(BonusTerm::new_attr(BonusType::Constant(b as i32), String::from_str("magic bonus")));
            base_dmg.push(DamageTerm::new(DiceExprTerm::Const(b as isize), ExtendedDamageType::WeaponDamage));
        }
        let r = WeaponAttack {
            weapon: weapon.duplicate(),
            num_hands,
            hand_type,
            ability,
            hit_bonus,
            weapon_die: get_weapon_die(weapon, num_hands),
            dmg_type: *weapon.get_dmg_type(),
            base_dmg,
            char_dmg,
            crit_lb: 20,
            d20_rv: D20Type::D20,
            dmg_features: Vec::new(),
        };
        assert(r.hit_bonus_of().terms =~= new_hit_terms(*weapon));
        assert(r.base_dmg_of() =~= new_base_dmg(*weapon));
        assert(r.features_of() =~= Set::<DamageFeature>::empty());
        assert(r.char_dmg_of() =~= if hand_type == HandType::MainHand {
            seq![BonusTermView { bonus: BonusType::Modifier(attack_ability_of(*weapon)), name: None, attribution: None }]
        } else {
            Seq::<BonusTermView>::empty()
        });
        r
    }

    /// The attack of the main-hand weapon of the equipment, held in two
    /// hands when the off hand is free and the weapon is two-handed or versatile.
    pub fn primary_weapon(equipment: &Equipment) -> (r: Self)
        ensures
            is_new_attack(r, equipment.main_of(), HandType::MainHand, primary_hands_of(*equipment)),
    {
        let hands = primary_num_hands(equipment);
        WeaponAttack::new(equipment.get_primary_weapon(), HandType::MainHand, hands)
    }

    /// The attack of the off-hand weapon of the equipment, if it holds one:
    /// held in one hand, without the ability modifier to damage.
    pub fn offhand_weapon(equipment: &Equipment) -> (r: Option<Self>)
        ensures
            match equipment.off_of() {
                OffHand::Weapon(w) => r matches Some(a) && is_new_attack(a, w, HandType::OffHand, NumHands::OneHand),
                _ => r is None,
            },
    {
        match equipment.get_secondary_weapon() {
            Some(w) => Some(WeaponAttack::new(w, HandType::OffHand, NumHands::OneHand)),
            None => None,
        }
    }

    /// Adds a term to the hit bonus.
    pub fn add_accuracy_bonus(&mut self, term: BonusTerm)
        ensures
            final(self).hit_bonus_of() == (AttributedBonusView { terms: old(self).hit_bonus_of().terms.push(term@), ..old(self).hit_bonus_of() }),
            final(self).base_dmg_of() == old(self).base_dmg_of(),
            final(self).char_dmg_of() == old(self).char_dmg_of(),
            final(self).crit_lb_of() == old(self).crit_lb_of(),
            final(self).ability_of() == old(self).ability_of(),
            final(self).die_of() == old(self).die_of(),
            final(self).weapon_of() == old(self).weapon_of(),
            final(self).hands_of() == old(self).hands_of(),
            final(self).hand_of() == old(self).hand_of(),
            final(self).dmg_type_of() == old(self).dmg_type_of(),
            final(self).d20_of() == old(self).d20_of(),
            final(self).features_of() == old(self).features_of(),
    {
        self.hit_bonus.add_term(term);
    }

    /// Adds a fixed damage term.
    pub fn add_base_dmg(&mut self, term: DamageTerm)
        ensures
            final(self).base_dmg_of() == old(self).base_dmg_of().push(term),
            final(self).hit_bonus_of() == old(self).hit_bonus_of(),
            final(self).char_dmg_of() == old(self).char_dmg_of(),
            final(self).crit_lb_of() == old(self).crit_lb_of(),
            final(self).ability_of() == old(self).ability_of(),
            final(self).die_of() == old(self).die_of(),
            final(self).weapon_of() == old(self).weapon_of(),
            final(self).hands_of() == old(self).hands_of(),
            final(self).hand_of() == old(self).hand_of(),
            final(self).dmg_type_of() == old(self).dmg_type_of(),
            final(self).d20_of() == old(self).d20_of(),
            final(self).features_of() == old(self).features_of(),
    {
        self.base_dmg.push(term);
    }

    /// Adds a feature that changes how the damage is computed; nothing else changes.
    pub fn add_damage_feature(&mut self, feature: DamageFeature)
        ensures
            final(self).features_of() == old(self).features_of().insert(feature),
            final(self).hit_bonus_of() == old(self).hit_bonus_of(),
            final(self).base_dmg_of() == old(self).base_dmg_of(),
            final(self).char_dmg_of() == old(self).char_dmg_of(),
            final(self).crit_lb_of() == old(self).crit_lb_of(),
            final(self).ability_of() == old(self).ability_of(),
            final(self).die_of() == old(self).die_of(),
            final(self).weapon_of() == old(self).weapon_of(),
            final(self).hands_of() == old(self).hands_of(),
            final(self).hand_of() == old(self).hand_of(),
            final(self).dmg_type_of() == old(self).dmg_type_of(),
            final(self).d20_of() == old(self).d20_of(),
    {
        let mut found = false;
        let mut i: usize = 0;
        while i < self.dmg_features.len()
            invariant
                i <= self.dmg_features@.len(),
                found == exists|k: int| 0 <= k < i && self.dmg_features@[k] == feature,
            decreases self.dmg_features@.len() - i,
        {
            if self.dmg_features[i] == feature {
                found = true;
            }
            i = i + 1;
        }
        if !found {
            self.dmg_features.push(feature);
            assert(self.dmg_features@.to_set() =~= old(self).dmg_features@.to_set().insert(feature)) by {
                assert forall|f: DamageFeature| self.dmg_features@.contains(f) <==> (old(self).dmg_features@.contains(f) || f == feature) by {
                    crate::seq_facts::lemma_push_contains(old(self).dmg_features@, feature, f);
                }
            }
        } else {
            assert(self.dmg_features@.to_set() =~= old(self).dmg_features@.to_set().insert(feature));
        }
    }

    /// Whether the damage has the feature.
    pub fn has_damage_feature(&self, feature: DamageFeature) -> (r: bool)
        ensures
            r == self.features_of().contains(feature),
    {
        let mut i: usize = 0;
        while i < self.dmg_features.len()
            invariant
                i <= self.dmg_features@.len(),
                forall|k: int| 0 <= k < i ==> self.dmg_features@[k] != feature,
            decreases self.dmg_features@.len() - i,
        {
            if self.dmg_features[i] == feature {
                assert(self.dmg_features@.contains(feature));
                return true;
            }
            i = i + 1;
        }
        false
    }

    /// Adds a damage term that depends on the character; nothing else changes.
    pub fn add_char_dmg(&mut self, term: BonusTerm)
        ensures
            final(self).char_dmg_of() == old(self).char_dmg_of().push(term@),
            final(self).hit_bonus_of() == old(self).hit_bonus_of(),
            final(self).base_dmg_of() == old(self).base_dmg_of(),
            final(self).crit_lb_of() == old(self).crit_lb_of(),
            final(self).ability_of() == old(self).ability_of(),
            final(self).die_of() == old(self).die_of(),
            final(self).weapon_of() == old(self).weapon_of(),
            final(self).hands_of() == old(self).hands_of(),
            final(self).hand_of() == old(self).hand_of(),
            final(self).dmg_type_of() == old(self).dmg_type_of(),
            final(self).d20_of() == old(self).d20_of(),
            final(self).features_of() == old(self).features_of(),
    {
        self.char_dmg.push(term);
        assert(term_views(self.char_dmg@) =~= term_views(old(self).char_dmg@).push(term@));
    }

    /// The weapon.
    pub fn get_weapon(&self) -> (r: &Weapon)
        ensures
            *r == self.weapon_of(),
    {
        &self.weapon
    }

    /// The same attack with the weapon's butt end, as a polearm master: the
    /// weapon becomes its polearm-master form, dealing a d4 of bludgeoning
    /// damage; everything else stays.
    pub fn as_pam_attack(&self) -> (r: Self)
        ensures
            r.weapon_of().name_of() == self.weapon_of().name_of() + " PAM"@,
            r.weapon_of().dice_of() == DamageDice::D4,
            r.weapon_of().dmg_type_of() == DamageType::Bludgeoning,
            r.weapon_of().props_of() == self.weapon_of().props_of(),
            r.weapon_of().bonus_of() == self.weapon_of().bonus_of(),
            r.die_of() == DamageDice::D4,
            r.dmg_type_of() == DamageType::Bludgeoning,
            r.hands_of() == self.hands_of(),
            r.hand_of() == self.hand_of(),
            r.ability_of() == self.ability_of(),
            r.hit_bonus_of() == self.hit_bonus_of(),
            r.base_dmg_of() == self.base_dmg_of(),
            r.char_dmg_of() == self.char_dmg_of(),
            r.crit_lb_of() == self.crit_lb_of(),
            r.d20_of() == self.d20_of(),
            r.features_of() == self.features_of(),
    {
        let new_weapon = self.weapon.as_pam();
        WeaponAttack {
            weapon_die: *new_weapon.get_dice(),
            dmg_type: *new_weapon.get_dmg_type(),
            weapon: new_weapon,
            num_hands: self.num_hands,
            hand_type: self.hand_type,
            ability: self.ability,
            hit_bonus: self.hit_bonus.duplicate(),
            base_dmg: copy_vec(&self.base_dmg),
            char_dmg: copy_terms(&self.char_dmg),
            crit_lb: self.crit_lb,
            d20_rv: self.d20_rv,
            dmg_features: copy_vec(&self.dmg_features),
        }
    }

    /// A copy of the attack.
    pub(crate) fn duplicate(&self) -> (r: Self)
        ensures
            r.weapon_of().name_of() == self.weapon_of().name_of(),
            r.weapon_of().type_of() == self.weapon_of().type_of(),
            r.weapon_of().dice_of() == self.weapon_of().dice_of(),
            r.weapon_of().dmg_type_of() == self.weapon_of().dmg_type_of(),
            r.weapon_of().props_of() == self.weapon_of().props_of(),
            r.weapon_of().bonus_of() == self.weapon_of().bonus_of(),
            r.die_of() == self.die_of(),
            r.dmg_type_of() == self.dmg_type_of(),
            r.hands_of() == self.hands_of(),
            r.hand_of() == self.hand_of(),
            r.ability_of() == self.ability_of(),
            r.hit_bonus_of() == self.hit_bonus_of(),
            r.base_dmg_of() == self.base_dmg_of(),
            r.char_dmg_of() == self.char_dmg_of(),
            r.crit_lb_of() == self.crit_lb_of(),
            r.d20_of() == self.d20_of(),
            r.features_of() == self.features_of(),
    {
        WeaponAttack {
            weapon: self.weapon.duplicate(),
            num_hands: self.num_hands,
            hand_type: self.hand_type,
            ability: self.ability,
            hit_bonus: self.hit_bonus.duplicate(),
            weapon_die: self.weapon_die,
            dmg_type: self.dmg_type,
            base_dmg: copy_vec(&self.base_dmg),
            char_dmg: copy_terms(&self.char_dmg),
            crit_lb: self.crit_lb,
            d20_rv: self.d20_rv,
            dmg_features: copy_vec(&self.dmg_features),
        }
    }

    /// How many hands hold the weapon.
    pub fn get_num_hands(&self) -> (r: &NumHands)
        ensures
            *r == self.hands_of(),
    {
        &self.num_hands
    }

    /// Which hand holds the weapon.
    pub fn get_hand_type(&self) -> (r: &HandType)
        ensures
            *r == self.hand_of(),
    {
        &self.hand_type
    }

    /// The ability the attack uses.
    pub fn get_ability(&self) -> (r: &Ability)
        ensures
            *r == self.ability_of(),
    {
        &self.ability
    }

    /// Sets the d20 of the attack.
    pub fn set_d20_type(&mut self, d20type: D20Type)
        ensures
            final(self).d20_of() == d20type,
            final(self).crit_lb_of() == old(self).crit_lb_of(),
            final(self).hit_bonus_of() == old(self).hit_bonus_of(),
            final(self).base_dmg_of() == old(self).base_dmg_of(),
    {
        self.d20_rv = d20type;
    }

    /// The d20 of the attack.
    pub fn get_d20_type(&self) -> (r: &D20Type)
        ensures
            *r == self.d20_of(),
    {
        &self.d20_rv
    }

    /// The lowest d20 roll that is a critical hit.
    pub fn get_crit_lb(&self) -> (r: isize)
        ensures
            r == self.crit_lb_of(),
    {
        self.crit_lb
    }

    /// Sets the lowest critical roll, when it is between 2 and 20; otherwise
    /// nothing changes.
    pub fn set_crit_lb(&mut self, crit: isize)
        ensures
            final(self).crit_lb_of() == if 1 < crit <= 20 { crit } else { old(self).crit_lb_of() },
            final(self).d20_of() == old(self).d20_of(),
            final(self).features_of() == old(self).features_of(),
            final(self).hit_bonus_of() == old(self).hit_bonus_of(),
            final(self).base_dmg_of() == old(self).base_dmg_of(),
            final(self).char_dmg_of() == old(self).char_dmg_of(),
            final(self).weapon_of() == old(self).weapon_of(),
            final(self).hands_of() == old(self).hands_of(),
            final(self).hand_of() == old(self).hand_of(),
            final(self).ability_of() == old(self).ability_of(),
            final(self).die_of() == old(self).die_of(),
            final(self).dmg_type_of() == old(self).dmg_type_of(),
            final(self).features_of() == old(self).features_of(),
    {
        if crit > 1 && crit <= 20 {
            self.crit_lb = crit;
        }
    }

    /// The hit bonus.
    pub fn get_hit_bonus(&self) -> (r: &AttributedBonus)
        ensures
            r@ == self.hit_bonus_of(),
    {
        &self.hit_bonus
    }

    /// The fixed damage terms.
    pub fn get_base_dmg(&self) -> (r: &Vec<DamageTerm>)
        ensures
            r@ == self.base_dmg_of(),
    {
        &self.base_dmg
    }

    /// The damage terms that depend on the character.
    pub fn get_char_dmg(&self) -> (r: &Vec<BonusTerm>)
        ensures
            term_views(r@) == self.char_dmg_of(),
    {
        &self.char_dmg
    }

    /// The damage die of the weapon as held.
    pub fn get_weapon_die(&self) -> (r: DamageDice)
        ensures
            r == self.die_of(),
    {
        self.weapon_die
    }
}

} // verus!
