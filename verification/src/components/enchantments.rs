//! Enchantment selection menus, one per gear family.

use vstd::prelude::*;

verus! {

use crate::components::SelectMenu;
use crate::components::SelectOption;
use crate::components::opt;
use crate::components::option_shows;
use crate::entities::armour::ArmourEnchantments;
use crate::entities::jewelry::JewelryEnchantments;
use crate::entities::weapon::WeaponEnchantments;

/// The armour enchantments in catalog order.
pub open spec fn armour_enchantment_list() -> Seq<ArmourEnchantments> {
    seq![
        ArmourEnchantments::Health,
        ArmourEnchantments::Magicka,
        ArmourEnchantments::Stamina,
        ArmourEnchantments::PrismaticDefense,
    ]
}

/// Armour enchantment menu, one option per glyph with its description.
pub fn gear_armour_enchantments(name: &str) -> (m: SelectMenu)
    ensures
        m.name@ == name@,
        m.placeholder@ == "Selecciona el encantamiento que quieres"@,
        m.max_values == 1,
        m.options@.len() == armour_enchantment_list().len(),
        forall|i: int|
            0 <= i < armour_enchantment_list().len() ==> option_shows(
                #[trigger] m.options@[i],
                armour_enchantment_list()[i].name_spec(),
                armour_enchantment_list()[i].description_spec(),
            ),
{
    let mut options: Vec<SelectOption> = Vec::new();
    options.push(
        opt(ArmourEnchantments::Health.display_name(), ArmourEnchantments::Health.description()),
    );
    options.push(
        opt(ArmourEnchantments::Magicka.display_name(), ArmourEnchantments::Magicka.description()),
    );
    options.push(
        opt(ArmourEnchantments::Stamina.display_name(), ArmourEnchantments::Stamina.description()),
    );
    options.push(
        opt(ArmourEnchantments::PrismaticDefense.display_name(), ArmourEnchantments::PrismaticDefense.description()),
    );
    SelectMenu {
        name: name.to_owned(),
        placeholder: "Selecciona el encantamiento que quieres".to_owned(),
        options,
        max_values: 1,
    }
}

/// The jewelry enchantments in catalog order.
pub open spec fn jewelry_enchantment_list() -> Seq<JewelryEnchantments> {
    seq![
        JewelryEnchantments::IncreasePhysicalHarm,
        JewelryEnchantments::IncreaseMagicalHarm,
        JewelryEnchantments::HealthRecovery,
        JewelryEnchantments::MagickaRecovery,
        JewelryEnchantments::StaminaRecovery,
        JewelryEnchantments::ReduceSpellCost,
        JewelryEnchantments::ReduceFeatCost,
        JewelryEnchantments::Shielding,
        JewelryEnchantments::Bashing,
        JewelryEnchantments::DecreasePhysicalHarm,
        JewelryEnchantments::DecreaseSpellHarm,
        JewelryEnchantments::FlameResist,
        JewelryEnchantments::FrostResist,
        JewelryEnchantments::ShockResist,
        JewelryEnchantments::PoisonResist,
        JewelryEnchantments::DiseaseResist,
        JewelryEnchantments::PotionResist,
        JewelryEnchantments::PotionBoost,
        JewelryEnchantments::ReduceSkillCost,
        JewelryEnchantments::PrismaticRecovery,
    ]
}

/// Jewelry enchantment menu, one option per glyph with its description.
pub fn gear_jewelry_enchantments(name: &str) -> (m: SelectMenu)
    ensures
        m.name@ == name@,
        m.placeholder@ == "Selecciona el encantamiento que quieres"@,
        m.max_values == 1,
        m.options@.len() == jewelry_enchantment_list().len(),
        forall|i: int|
            0 <= i < jewelry_enchantment_list().len() ==> option_shows(
                #[trigger] m.options@[i],
                jewelry_enchantment_list()[i].name_spec(),
                jewelry_enchantment_list()[i].description_spec(),
            ),
{
    let mut options: Vec<SelectOption> = Vec::new();
    options.push(
        opt(JewelryEnchantments::IncreasePhysicalHarm.display_name(), JewelryEnchantments::IncreasePhysicalHarm.description()),
    );
    options.push(
        opt(JewelryEnchantments::IncreaseMagicalHarm.display_name(), JewelryEnchantments::IncreaseMagicalHarm.description()),
    );
    options.push(
        opt(JewelryEnchantments::HealthRecovery.display_name(), JewelryEnchantments::HealthRecovery.description()),
    );
    options.push(
        opt(JewelryEnchantments::MagickaRecovery.display_name(), JewelryEnchantments::MagickaRecovery.description()),
    );
    options.push(
        opt(JewelryEnchantments::StaminaRecovery.display_name(), JewelryEnchantments::StaminaRecovery.description()),
    );
    options.push(
        opt(JewelryEnchantments::ReduceSpellCost.display_name(), JewelryEnchantments::ReduceSpellCost.description()),
    );
    options.push(
        opt(JewelryEnchantments::ReduceFeatCost.display_name(), JewelryEnchantments::ReduceFeatCost.description()),
    );
    options.push(
        opt(JewelryEnchantments::Shielding.display_name(), JewelryEnchantments::Shielding.description()),
    );
    options.push(
        opt(JewelryEnchantments::Bashing.display_name(), JewelryEnchantments::Bashing.description()),
    );
    options.push(
        opt(JewelryEnchantments::DecreasePhysicalHarm.display_name(), JewelryEnchantments::DecreasePhysicalHarm.description()),
    );
    options.push(
        opt(JewelryEnchantments::DecreaseSpellHarm.display_name(), JewelryEnchantments::DecreaseSpellHarm.description()),
    );
    options.push(
        opt(JewelryEnchantments::FlameResist.display_name(), JewelryEnchantments::FlameResist.description()),
    );
    options.push(
        opt(JewelryEnchantments::FrostResist.display_name(), JewelryEnchantments::FrostResist.description()),
    );
    options.push(
        opt(JewelryEnchantments::ShockResist.display_name(), JewelryEnchantments::ShockResist.description()),
    );
    options.push(
        opt(JewelryEnchantments::PoisonResist.display_name(), JewelryEnchantments::PoisonResist.description()),
    );
    options.push(
        opt(JewelryEnchantments::DiseaseResist.display_name(), JewelryEnchantments::DiseaseResist.description()),
    );
    options.push(
        opt(JewelryEnchantments::PotionResist.display_name(), JewelryEnchantments::PotionResist.description()),
    );
    options.push(
        opt(JewelryEnchantments::PotionBoost.display_name(), JewelryEnchantments::PotionBoost.description()),
    );
    options.push(
        opt(JewelryEnchantments::ReduceSkillCost.display_name(), JewelryEnchantments::ReduceSkillCost.description()),
    );
    options.push(
        opt(JewelryEnchantments::PrismaticRecovery.display_name(), JewelryEnchantments::PrismaticRecovery.description()),
    );
    SelectMenu {
        name: name.to_owned(),
        placeholder: "Selecciona el encantamiento que quieres".to_owned(),
        options,
        max_values: 1,
    }
}

/// The weapon enchantments in catalog order.
pub open spec fn weapon_enchantment_list() -> Seq<WeaponEnchantments> {
    seq![
        WeaponEnchantments::Fire,
        WeaponEnchantments::Frost,
        WeaponEnchantments::Shock,
        WeaponEnchantments::Poison,
        WeaponEnchantments::Foulness,
        WeaponEnchantments::DecreaseHealth,
        WeaponEnchantments::Hardening,
        WeaponEnchantments::AbsorbHealth,
        WeaponEnchantments::AbsorbMagicka,
        WeaponEnchantments::AbsorbStamina,
        WeaponEnchantments::WeaponDamage,
        WeaponEnchantments::Weakening,
        WeaponEnchantments::Crushing,
        WeaponEnchantments::PrismaticOnslaught,
    ]
}

/// Weapon enchantment menu, one option per glyph with its description.
pub fn gear_weapon_enchantments(name: &str) -> (m: SelectMenu)
    ensures
        m.name@ == name@,
        m.placeholder@ == "Selecciona el encantamiento que quieres"@,
        m.max_values == 1,
        m.options@.len() == weapon_enchantment_list().len(),
        forall|i: int|
            0 <= i < weapon_enchantment_list().len() ==> option_shows(
                #[trigger] m.options@[i],
                weapon_enchantment_list()[i].name_spec(),
                weapon_enchantment_list()[i].description_spec(),
            ),
{
    let mut options: Vec<SelectOption> = Vec::new();
    options.push(
        opt(WeaponEnchantments::Fire.display_name(), WeaponEnchantments::Fire.description()),
    );
    options.push(
        opt(WeaponEnchantments::Frost.display_name(), WeaponEnchantments::Frost.description()),
    );
    options.push(
        opt(WeaponEnchantments::Shock.display_name(), WeaponEnchantments::Shock.description()),
    );
    options.push(
        opt(WeaponEnchantments::Poison.display_name(), WeaponEnchantments::Poison.description()),
    );
    options.push(
        opt(WeaponEnchantments::Foulness.display_name(), WeaponEnchantments::Foulness.description()),
    );
    options.push(
        opt(WeaponEnchantments::DecreaseHealth.display_name(), WeaponEnchantments::DecreaseHealth.description()),
    );
    options.push(
        opt(WeaponEnchantments::Hardening.display_name(), WeaponEnchantments::Hardening.description()),
    );
    options.push(
        opt(WeaponEnchantments::AbsorbHealth.display_name(), WeaponEnchantments::AbsorbHealth.description()),
    );
    options.push(
        opt(WeaponEnchantments::AbsorbMagicka.display_name(), WeaponEnchantments::AbsorbMagicka.description()),
    );
    options.push(
        opt(WeaponEnchantments::AbsorbStamina.display_name(), WeaponEnchantments::AbsorbStamina.description()),
    );
    options.push(
        opt(WeaponEnchantments::WeaponDamage.display_name(), WeaponEnchantments::WeaponDamage.description()),
    );
    options.push(
        opt(WeaponEnchantments::Weakening.display_name(), WeaponEnchantments::Weakening.description()),
    );
    options.push(
        opt(WeaponEnchantments::Crushing.display_name(), WeaponEnchantments::Crushing.description()),
    );
    options.push(
        opt(WeaponEnchantments::PrismaticOnslaught.display_name(), WeaponEnchantments::PrismaticOnslaught.description()),
    );
    SelectMenu {
        name: name.to_owned(),
        placeholder: "Selecciona el encantamiento que quieres".to_owned(),
        options,
        max_values: 1,
    }
}

} // verus!
