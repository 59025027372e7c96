//! Trait selection menus, one per gear family.

use vstd::prelude::*;

verus! {

use crate::components::SelectMenu;
use crate::components::SelectOption;
use crate::components::opt;
use crate::components::option_shows;
use crate::entities::armour::ArmourTraits;
use crate::entities::jewelry::JewelryTraits;
use crate::entities::weapon::WeaponTraits;

/// The armour traits in catalog order.
pub open spec fn armour_trait_list() -> Seq<ArmourTraits> {
    seq![
        ArmourTraits::Divines,
        ArmourTraits::Invigorating,
        ArmourTraits::Impenetrable,
        ArmourTraits::Infused,
        ArmourTraits::Nirnhoned,
        ArmourTraits::Reinforced,
        ArmourTraits::Sturdy,
        ArmourTraits::Training,
        ArmourTraits::WellFitted,
    ]
}

/// The jewelry traits in catalog order.
pub open spec fn jewelry_trait_list() -> Seq<JewelryTraits> {
    seq![
        JewelryTraits::Arcane,
        JewelryTraits::Bloodthirsty,
        JewelryTraits::Harmony,
        JewelryTraits::Healthy,
        JewelryTraits::Infused,
        JewelryTraits::Protective,
        JewelryTraits::Robust,
        JewelryTraits::Swift,
        JewelryTraits::Triune,
    ]
}

/// The weapon traits in catalog order.
pub open spec fn weapon_trait_list() -> Seq<WeaponTraits> {
    seq![
        WeaponTraits::Charged,
        WeaponTraits::Defending,
        WeaponTraits::Powered,
        WeaponTraits::Infused,
        WeaponTraits::Nirnhoned,
        WeaponTraits::Precise,
        WeaponTraits::Sharpened,
        WeaponTraits::Training,
        WeaponTraits::Decisive,
    ]
}

/// Armour trait menu, one option per trait with its description.
pub fn gear_armour_traits(name: &str) -> (m: SelectMenu)
    ensures
        m.name@ == name@,
        m.placeholder@ == "Selecciona el rasgo que quieres"@,
        m.max_values == 1,
        m.options@.len() == armour_trait_list().len(),
        forall|i: int|
            0 <= i < armour_trait_list().len() ==> option_shows(
                #[trigger] m.options@[i],
                armour_trait_list()[i].name_spec(),
                armour_trait_list()[i].description_spec(),
            ),
{
    let mut options: Vec<SelectOption> = Vec::new();
    options.push(opt(ArmourTraits::Divines.display_name(), ArmourTraits::Divines.description()));
    options.push(
        opt(ArmourTraits::Invigorating.display_name(), ArmourTraits::Invigorating.description()),
    );
    options.push(
        opt(ArmourTraits::Impenetrable.display_name(), ArmourTraits::Impenetrable.description()),
    );
    options.push(opt(ArmourTraits::Infused.display_name(), ArmourTraits::Infused.description()));
    options.push(
        opt(ArmourTraits::Nirnhoned.display_name(), ArmourTraits::Nirnhoned.description()),
    );
    options.push(
        opt(ArmourTraits::Reinforced.display_name(), ArmourTraits::Reinforced.description()),
    );
    options.push(opt(ArmourTraits::Sturdy.display_name(), ArmourTraits::Sturdy.description()));
    options.push(opt(ArmourTraits::Training.display_name(), ArmourTraits::Training.description()));
    options.push(
        opt(ArmourTraits::WellFitted.display_name(), ArmourTraits::WellFitted.description()),
    );
    SelectMenu {
        name: name.to_owned(),
        placeholder: "Selecciona el rasgo que quieres".to_owned(),
        options,
        max_values: 1,
    }
}

/// Jewelry trait menu, one option per trait with its description.
pub fn gear_jewelry_traits(name: &str) -> (m: SelectMenu)
    ensures
        m.name@ == name@,
        m.placeholder@ == "Selecciona el rasgo que quieres"@,
        m.max_values == 1,
        m.options@.len() == jewelry_trait_list().len(),
        forall|i: int|
            0 <= i < jewelry_trait_list().len() ==> option_shows(
                #[trigger] m.options@[i],
                jewelry_trait_list()[i].name_spec(),
                jewelry_trait_list()[i].description_spec(),
            ),
{
    let mut options: Vec<SelectOption> = Vec::new();
    options.push(opt(JewelryTraits::Arcane.display_name(), JewelryTraits::Arcane.description()));
    options.push(
        opt(JewelryTraits::Bloodthirsty.display_name(), JewelryTraits::Bloodthirsty.description()),
    );
    options.push(opt(JewelryTraits::Harmony.display_name(), JewelryTraits::Harmony.description()));
    options.push(opt(JewelryTraits::Healthy.display_name(), JewelryTraits::Healthy.description()));
    options.push(opt(JewelryTraits::Infused.display_name(), JewelryTraits::Infused.description()));
    options.push(
        opt(JewelryTraits::Protective.display_name(), JewelryTraits::Protective.description()),
    );
    options.push(opt(JewelryTraits::Robust.display_name(), JewelryTraits::Robust.description()));
    options.push(opt(JewelryTraits::Swift.display_name(), JewelryTraits::Swift.description()));
    options.push(opt(JewelryTraits::Triune.display_name(), JewelryTraits::Triune.description()));
    SelectMenu {
        name: name.to_owned(),
        placeholder: "Selecciona el rasgo que quieres".to_owned(),
        options,
        max_values: 1,
    }
}

/// Weapon trait menu, one option per trait with its description.
pub fn gear_weapon_traits(name: &str) -> (m: SelectMenu)
    ensures
        m.name@ == name@,
        m.placeholder@ == "Selecciona el rasgo que quieres"@,
        m.max_values == 1,
        m.options@.len() == weapon_trait_list().len(),
        forall|i: int|
            0 <= i < weapon_trait_list().len() ==> option_shows(
                #[trigger] m.options@[i],
                weapon_trait_list()[i].name_spec(),
                weapon_trait_list()[i].description_spec(),
            ),
{
    let mut options: Vec<SelectOption> = Vec::new();
    options.push(opt(WeaponTraits::Charged.display_name(), WeaponTraits::Charged.description()));
    options.push(
        opt(WeaponTraits::Defending.display_name(), WeaponTraits::Defending.description()),
    );
    options.push(opt(WeaponTraits::Powered.display_name(), WeaponTraits::Powered.description()));
    options.push(opt(WeaponTraits::Infused.display_name(), WeaponTraits::Infused.description()));
    options.push(
        opt(WeaponTraits::Nirnhoned.display_name(), WeaponTraits::Nirnhoned.description()),
    );
    options.push(opt(WeaponTraits::Precise.display_name(), WeaponTraits::Precise.description()));
    options.push(
        opt(WeaponTraits::Sharpened.display_name(), WeaponTraits::Sharpened.description()),
    );
    options.push(opt(WeaponTraits::Training.display_name(), WeaponTraits::Training.description()));
    options.push(opt(WeaponTraits::Decisive.display_name(), WeaponTraits::Decisive.description()));
    SelectMenu {
        name: name.to_owned(),
        placeholder: "Selecciona el rasgo que quieres".to_owned(),
        options,
        max_values: 1,
    }
}

} // verus!
