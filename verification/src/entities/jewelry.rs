//! Jewelry kinds, traits and enchantments, and the cost of a jewelry
//! piece.

use vstd::prelude::*;

verus! {

use crate::entities::GearQuality;
use crate::entities::MaterialCost;
use crate::entities::OrderError;
use crate::entities::cost_entries_match;
use crate::entities::cost_one;
use crate::entities::cost_two;
use crate::entities::enchantment_quality_cost_spec;
use crate::entities::get_enchantment_quality_cost;
use crate::entities::lemma_cost_entries_match_concat;
use crate::entities::str_eq;
use crate::entities::materials::EssenceRunes;
use crate::entities::materials::JewelryQualityMaterials;
use crate::entities::materials::JewelryTraitMaterials;
use crate::entities::materials::PartMaterials;
use crate::entities::materials::PotencyRunes;

#[derive(Clone, Copy, PartialEq, Eq, Structural, Debug)]
pub enum Jewelries {
    /// Solo uno
    Necklace,
    /// Se asumen dos anillos
    Ring,
}

impl Jewelries {
    pub open spec fn name_spec(self) -> Seq<char> {
        match self {
            Jewelries::Necklace => "Collar"@,
            Jewelries::Ring => "Anillo"@,
        }
    }

    /// Canonical display name in the catalog.
    pub fn display_name(&self) -> (r: String)
        ensures
            r@ == self.name_spec(),
    {
        match self {
            Jewelries::Necklace => "Collar".to_owned(),
            Jewelries::Ring => "Anillo".to_owned(),
        }
    }

    /// Total lookup by display name; fails exactly on unknown names.
    pub fn from_name(s: &str) -> (r: Result<Self, OrderError>)
        ensures
            match r {
                Ok(v) => v.name_spec() == s@,
                Err(e) => e == OrderError::CatalogNotFound
                    && forall|v: Self| v.name_spec() != s@,
            },
    {
        if str_eq(s, "Collar") {
            Ok(Jewelries::Necklace)
        } else if str_eq(s, "Anillo") {
            Ok(Jewelries::Ring)
        } else {
            Err(OrderError::CatalogNotFound)
        }
    }

    pub open spec fn description_spec(self) -> Seq<char> {
        match self {
            Jewelries::Necklace => "Solo uno"@,
            Jewelries::Ring => "Se asumen dos anillos"@,
        }
    }

    /// Short human-readable description, shown beside the name in menus.
    pub fn description(&self) -> (r: String)
        ensures
            r@ == self.description_spec(),
    {
        match self {
            Jewelries::Necklace => "Solo uno".to_owned(),
            Jewelries::Ring => "Se asumen dos anillos".to_owned(),
        }
    }
}

impl MaterialCost for Jewelries {
    open spec fn cost_spec(&self) -> Seq<(i32, Seq<char>)> {
        match *self {
            Jewelries::Necklace => seq![(150i32, PartMaterials::PlatinumOunces.name_spec())],
            Jewelries::Ring => seq![(100i32, PartMaterials::PlatinumOunces.name_spec())],
        }
    }

    fn cost(&self) -> (r: Vec<(i32, String)>)
        ensures
            cost_entries_match(r@, self.cost_spec()),
    {
        match *self {
            Jewelries::Necklace => cost_one(150, PartMaterials::PlatinumOunces.display_name()),
            Jewelries::Ring => cost_one(100, PartMaterials::PlatinumOunces.display_name()),
        }
    }
}

#[derive(Clone, Copy, PartialEq, Eq, Structural, Debug)]
pub enum JewelryTraits {
    /// Aumenta la magia máxima
    Arcane,
    /// Aumenta el daño en enemigos por debajo del 90%
    Bloodthirsty,
    /// Al activar una sinergia, restaura salud, magia y aguante
    Harmony,
    /// Aumenta la salud máxima
    Healthy,
    /// Aumenta la eficacia del encantamiento de la joyería
    Infused,
    /// Aumenta la resistencia a hechizos y física
    Protective,
    /// Aumenta el aguante máximo
    Robust,
    /// Aumenta la velocidad de movimiento
    Swift,
    /// Aumenta la magia, aguante y salud máximas
    Triune,
}

impl JewelryTraits {
    pub open spec fn name_spec(self) -> Seq<char> {
        match self {
            JewelryTraits::Arcane => "Arcanidad"@,
            JewelryTraits::Bloodthirsty => "Sed de sangre"@,
            JewelryTraits::Harmony => "Armonía"@,
            JewelryTraits::Healthy => "Saludable"@,
            JewelryTraits::Infused => "Imbuido"@,
            JewelryTraits::Protective => "Protección"@,
            JewelryTraits::Robust => "Robustez"@,
            JewelryTraits::Swift => "Agilidad"@,
            JewelryTraits::Triune => "Trinidad"@,
        }
    }

    /// Canonical display name in the catalog.
    pub fn display_name(&self) -> (r: String)
        ensures
            r@ == self.name_spec(),
    {
        match self {
            JewelryTraits::Arcane => "Arcanidad".to_owned(),
            JewelryTraits::Bloodthirsty => "Sed de sangre".to_owned(),
            JewelryTraits::Harmony => "Armonía".to_owned(),
            JewelryTraits::Healthy => "Saludable".to_owned(),
            JewelryTraits::Infused => "Imbuido".to_owned(),
            JewelryTraits::Protective => "Protección".to_owned(),
            JewelryTraits::Robust => "Robustez".to_owned(),
            JewelryTraits::Swift => "Agilidad".to_owned(),
            JewelryTraits::Triune => "Trinidad".to_owned(),
        }
    }

    /// Total lookup by display name; fails exactly on unknown names.
    pub fn from_name(s: &str) -> (r: Result<Self, OrderError>)
        ensures
            match r {
                Ok(v) => v.name_spec() == s@,
                Err(e) => e == OrderError::CatalogNotFound
                    && forall|v: Self| v.name_spec() != s@,
            },
    {
        if str_eq(s, "Arcanidad") {
            Ok(JewelryTraits::Arcane)
        } else if str_eq(s, "Sed de sangre") {
            Ok(JewelryTraits::Bloodthirsty)
        } else if str_eq(s, "Armonía") {
            Ok(JewelryTraits::Harmony)
        } else if str_eq(s, "Saludable") {
            Ok(JewelryTraits::Healthy)
        } else if str_eq(s, "Imbuido") {
            Ok(JewelryTraits::Infused)
        } else if str_eq(s, "Protección") {
            Ok(JewelryTraits::Protective)
        } else if str_eq(s, "Robustez") {
            Ok(JewelryTraits::Robust)
        } else if str_eq(s, "Agilidad") {
            Ok(JewelryTraits::Swift)
        } else if str_eq(s, "Trinidad") {
            Ok(JewelryTraits::Triune)
        } else {
            Err(OrderError::CatalogNotFound)
        }
    }

    pub open spec fn description_spec(self) -> Seq<char> {
        match self {
            JewelryTraits::Arcane => "Aumenta la magia máxima"@,
            JewelryTraits::Bloodthirsty => "Aumenta el daño en enemigos por debajo del 90%"@,
            JewelryTraits::Harmony => "Al activar una sinergia, restaura salud, magia y aguante"@,
            JewelryTraits::Healthy => "Aumenta la salud máxima"@,
            JewelryTraits::Infused => "Aumenta la eficacia del encantamiento de la joyería"@,
            JewelryTraits::Protective => "Aumenta la resistencia a hechizos y física"@,
            JewelryTraits::Robust => "Aumenta el aguante máximo"@,
            JewelryTraits::Swift => "Aumenta la velocidad de movimiento"@,
            JewelryTraits::Triune => "Aumenta la magia, aguante y salud máximas"@,
        }
    }

    /// Short human-readable description, shown beside the name in menus.
    pub fn description(&self) -> (r: String)
        ensures
            r@ == self.description_spec(),
    {
        match self {
            JewelryTraits::Arcane => "Aumenta la magia máxima".to_owned(),
            JewelryTraits::Bloodthirsty => "Aumenta el daño en enemigos por debajo del 90%".to_owned(),
            JewelryTraits::Harmony => "Al activar una sinergia, restaura salud, magia y aguante".to_owned(),
            JewelryTraits::Healthy => "Aumenta la salud máxima".to_owned(),
            JewelryTraits::Infused => "Aumenta la eficacia del encantamiento de la joyería".to_owned(),
            JewelryTraits::Protective => "Aumenta la resistencia a hechizos y física".to_owned(),
            JewelryTraits::Robust => "Aumenta el aguante máximo".to_owned(),
            JewelryTraits::Swift => "Aumenta la velocidad de movimiento".to_owned(),
            JewelryTraits::Triune => "Aumenta la magia, aguante y salud máximas".to_owned(),
        }
    }
}

impl MaterialCost for JewelryTraits {
    open spec fn cost_spec(&self) -> Seq<(i32, Seq<char>)> {
        match *self {
            JewelryTraits::Arcane => seq![(1i32, JewelryTraitMaterials::Cobalt.name_spec())],
            JewelryTraits::Bloodthirsty => seq![(1i32, JewelryTraitMaterials::Slaughterstone.name_spec())],
            JewelryTraits::Harmony => seq![(1i32, JewelryTraitMaterials::Dibellium.name_spec())],
            JewelryTraits::Healthy => seq![(1i32, JewelryTraitMaterials::Antimony.name_spec())],
            JewelryTraits::Infused => seq![(1i32, JewelryTraitMaterials::AurbicAmber.name_spec())],
            JewelryTraits::Protective => seq![(1i32, JewelryTraitMaterials::Titanium.name_spec())],
            JewelryTraits::Robust => seq![(1i32, JewelryTraitMaterials::Zinc.name_spec())],
            JewelryTraits::Swift => seq![(1i32, JewelryTraitMaterials::GildingWax.name_spec())],
            JewelryTraits::Triune => seq![(1i32, JewelryTraitMaterials::DawnPrism.name_spec())],
        }
    }

    fn cost(&self) -> (r: Vec<(i32, String)>)
        ensures
            cost_entries_match(r@, self.cost_spec()),
    {
        match *self {
            JewelryTraits::Arcane => cost_one(1, JewelryTraitMaterials::Cobalt.display_name()),
            JewelryTraits::Bloodthirsty => cost_one(1, JewelryTraitMaterials::Slaughterstone.display_name()),
            JewelryTraits::Harmony => cost_one(1, JewelryTraitMaterials::Dibellium.display_name()),
            JewelryTraits::Healthy => cost_one(1, JewelryTraitMaterials::Antimony.display_name()),
            JewelryTraits::Infused => cost_one(1, JewelryTraitMaterials::AurbicAmber.display_name()),
            JewelryTraits::Protective => cost_one(1, JewelryTraitMaterials::Titanium.display_name()),
            JewelryTraits::Robust => cost_one(1, JewelryTraitMaterials::Zinc.display_name()),
            JewelryTraits::Swift => cost_one(1, JewelryTraitMaterials::GildingWax.display_name()),
            JewelryTraits::Triune => cost_one(1, JewelryTraitMaterials::DawnPrism.display_name()),
        }
    }
}

#[derive(Clone, Copy, PartialEq, Eq, Structural, Debug)]
pub enum JewelryEnchantments {
    /// Añade daño de arma y hechizo, y recuperación de aguante
    IncreasePhysicalHarm,
    /// Añade daño de arma y hechizo, y recuperación de magia
    IncreaseMagicalHarm,
    /// Añade recuperación de salud
    HealthRecovery,
    /// Añade recuperación de magia
    MagickaRecovery,
    /// Añade recuperación de aguante
    StaminaRecovery,
    /// Reduce el coste de magia de las habilidades
    ReduceSpellCost,
    /// Reduce el coste de aguante de las habilidades
    ReduceFeatCost,
    /// Reduce el coste de bloquear
    Shielding,
    /// Añade daño a tus ataques de aporreo
    Bashing,
    /// Añade resistencia física
    DecreasePhysicalHarm,
    /// Añade resistencia a los hechizos
    DecreaseSpellHarm,
    /// Añade resistencia a las llamas
    FlameResist,
    /// Añade resistencia a la escarcha
    FrostResist,
    /// Añade resistencia a descargas eléctricas
    ShockResist,
    /// Añade resistencia a venenos
    PoisonResist,
    /// Añade resistencia a enfermedades
    DiseaseResist,
    /// Aumenta la duración de los efectos de las pociones
    PotionResist,
    /// Reduce la reutilización de las pociones
    PotionBoost,
    /// Reduce el coste de salud, magia y aguante de las habilidades
    ReduceSkillCost,
    /// Añade recuperación de magia, salud y aguante
    PrismaticRecovery,
}

impl JewelryEnchantments {
    pub open spec fn name_spec(self) -> Seq<char> {
        match self {
            JewelryEnchantments::IncreasePhysicalHarm => "Glifo de aumento de daño físico"@,
            JewelryEnchantments::IncreaseMagicalHarm => "Glifo de aumento de daño mágico"@,
            JewelryEnchantments::HealthRecovery => "Glifo de regeneración de salud"@,
            JewelryEnchantments::MagickaRecovery => "Glifo de regeneración de magia"@,
            JewelryEnchantments::StaminaRecovery => "Glifo de regeneración de aguante"@,
            JewelryEnchantments::ReduceSpellCost => "Glifo de reducción de coste de magia"@,
            JewelryEnchantments::ReduceFeatCost => "Glifo de reducción de coste de aguante"@,
            JewelryEnchantments::Shielding => "Glifo de bloqueo"@,
            JewelryEnchantments::Bashing => "Glifo de percusión"@,
            JewelryEnchantments::DecreasePhysicalHarm => "Glifo de resistencia al daño físico"@,
            JewelryEnchantments::DecreaseSpellHarm => "Glifo de resistencia al daño mágico"@,
            JewelryEnchantments::FlameResist => "Glifo de resistencia al fuego"@,
            JewelryEnchantments::FrostResist => "Glifo de resistencia a la congelación"@,
            JewelryEnchantments::ShockResist => "Glifo de resistencia a las descargas"@,
            JewelryEnchantments::PoisonResist => "Glifo de resistencia al veneno"@,
            JewelryEnchantments::DiseaseResist => "Glifo de resistencia a las enfermedades"@,
            JewelryEnchantments::PotionResist => "Glifo de amplificación alquímica"@,
            JewelryEnchantments::PotionBoost => "Glifo de aceleración alquímica"@,
            JewelryEnchantments::ReduceSkillCost => "Glifo de reducción de coste de habilidades"@,
            JewelryEnchantments::PrismaticRecovery => "Glifo de regeneración prismática"@,
        }
    }

    /// Canonical display name in the catalog.
    pub fn display_name(&self) -> (r: String)
        ensures
            r@ == self.name_spec(),
    {
        match self {
            JewelryEnchantments::IncreasePhysicalHarm => "Glifo de aumento de daño físico".to_owned(),
            JewelryEnchantments::IncreaseMagicalHarm => "Glifo de aumento de daño mágico".to_owned(),
            JewelryEnchantments::HealthRecovery => "Glifo de regeneración de salud".to_owned(),
            JewelryEnchantments::MagickaRecovery => "Glifo de regeneración de magia".to_owned(),
            JewelryEnchantments::StaminaRecovery => "Glifo de regeneración de aguante".to_owned(),
            JewelryEnchantments::ReduceSpellCost => "Glifo de reducción de coste de magia".to_owned(),
            JewelryEnchantments::ReduceFeatCost => "Glifo de reducción de coste de aguante".to_owned(),
            JewelryEnchantments::Shielding => "Glifo de bloqueo".to_owned(),
            JewelryEnchantments::Bashing => "Glifo de percusión".to_owned(),
            JewelryEnchantments::DecreasePhysicalHarm => "Glifo de resistencia al daño físico".to_owned(),
            JewelryEnchantments::DecreaseSpellHarm => "Glifo de resistencia al daño mágico".to_owned(),
            JewelryEnchantments::FlameResist => "Glifo de resistencia al fuego".to_owned(),
            JewelryEnchantments::FrostResist => "Glifo de resistencia a la congelación".to_owned(),
            JewelryEnchantments::ShockResist => "Glifo de resistencia a las descargas".to_owned(),
            JewelryEnchantments::PoisonResist => "Glifo de resistencia al veneno".to_owned(),
            JewelryEnchantments::DiseaseResist => "Glifo de resistencia a las enfermedades".to_owned(),
            JewelryEnchantments::PotionResist => "Glifo de amplificación alquímica".to_owned(),
            JewelryEnchantments::PotionBoost => "Glifo de aceleración alquímica".to_owned(),
            JewelryEnchantments::ReduceSkillCost => "Glifo de reducción de coste de habilidades".to_owned(),
            JewelryEnchantments::PrismaticRecovery => "Glifo de regeneración prismática".to_owned(),
        }
    }

    /// Total lookup by display name; fails exactly on unknown names.
    pub fn from_name(s: &str) -> (r: Result<Self, OrderError>)
        ensures
            match r {
                Ok(v) => v.name_spec() == s@,
                Err(e) => e == OrderError::CatalogNotFound
                    && forall|v: Self| v.name_spec() != s@,
            },
    {
        if str_eq(s, "Glifo de aumento de daño físico") {
            Ok(JewelryEnchantments::IncreasePhysicalHarm)
        } else if str_eq(s, "Glifo de aumento de daño mágico") {
            Ok(JewelryEnchantments::IncreaseMagicalHarm)
        } else if str_eq(s, "Glifo de regeneración de salud") {
            Ok(JewelryEnchantments::HealthRecovery)
        } else if str_eq(s, "Glifo de regeneración de magia") {
            Ok(JewelryEnchantments::MagickaRecovery)
        } else if str_eq(s, "Glifo de regeneración de aguante") {
            Ok(JewelryEnchantments::StaminaRecovery)
        } else if str_eq(s, "Glifo de reducción de coste de magia") {
            Ok(JewelryEnchantments::ReduceSpellCost)
        } else if str_eq(s, "Glifo de reducción de coste de aguante") {
            Ok(JewelryEnchantments::ReduceFeatCost)
        } else if str_eq(s, "Glifo de bloqueo") {
            Ok(JewelryEnchantments::Shielding)
        } else if str_eq(s, "Glifo de percusión") {
            Ok(JewelryEnchantments::Bashing)
        } else if str_eq(s, "Glifo de resistencia al daño físico") {
            Ok(JewelryEnchantments::DecreasePhysicalHarm)
        } else if str_eq(s, "Glifo de resistencia al daño mágico") {
            Ok(JewelryEnchantments::DecreaseSpellHarm)
        } else if str_eq(s, "Glifo de resistencia al fuego") {
            Ok(JewelryEnchantments::FlameResist)
        } else if str_eq(s, "Glifo de resistencia a la congelación") {
            Ok(JewelryEnchantments::FrostResist)
        } else if str_eq(s, "Glifo de resistencia a las descargas") {
            Ok(JewelryEnchantments::ShockResist)
        } else if str_eq(s, "Glifo de resistencia al veneno") {
            Ok(JewelryEnchantments::PoisonResist)
        } else if str_eq(s, "Glifo de resistencia a las enfermedades") {
            Ok(JewelryEnchantments::DiseaseResist)
        } else if str_eq(s, "Glifo de amplificación alquímica") {
            Ok(JewelryEnchantments::PotionResist)
        } else if str_eq(s, "Glifo de aceleración alquímica") {
            Ok(JewelryEnchantments::PotionBoost)
        } else if str_eq(s, "Glifo de reducción de coste de habilidades") {
            Ok(JewelryEnchantments::ReduceSkillCost)
        } else if str_eq(s, "Glifo de regeneración prismática") {
            Ok(JewelryEnchantments::PrismaticRecovery)
        } else {
            Err(OrderError::CatalogNotFound)
        }
    }

    pub open spec fn description_spec(self) -> Seq<char> {
        match self {
            JewelryEnchantments::IncreasePhysicalHarm => "Añade daño de arma y hechizo, y recuperación de aguante"@,
            JewelryEnchantments::IncreaseMagicalHarm => "Añade daño de arma y hechizo, y recuperación de magia"@,
            JewelryEnchantments::HealthRecovery => "Añade recuperación de salud"@,
            JewelryEnchantments::MagickaRecovery => "Añade recuperación de magia"@,
            JewelryEnchantments::StaminaRecovery => "Añade recuperación de aguante"@,
            JewelryEnchantments::ReduceSpellCost => "Reduce el coste de magia de las habilidades"@,
            JewelryEnchantments::ReduceFeatCost => "Reduce el coste de aguante de las habilidades"@,
            JewelryEnchantments::Shielding => "Reduce el coste de bloquear"@,
            JewelryEnchantments::Bashing => "Añade daño a tus ataques de aporreo"@,
            JewelryEnchantments::DecreasePhysicalHarm => "Añade resistencia física"@,
            JewelryEnchantments::DecreaseSpellHarm => "Añade resistencia a los hechizos"@,
            JewelryEnchantments::FlameResist => "Añade resistencia a las llamas"@,
            JewelryEnchantments::FrostResist => "Añade resistencia a la escarcha"@,
            JewelryEnchantments::ShockResist => "Añade resistencia a descargas eléctricas"@,
            JewelryEnchantments::PoisonResist => "Añade resistencia a venenos"@,
            JewelryEnchantments::DiseaseResist => "Añade resistencia a enfermedades"@,
            JewelryEnchantments::PotionResist => "Aumenta la duración de los efectos de las pociones"@,
            JewelryEnchantments::PotionBoost => "Reduce la reutilización de las pociones"@,
            JewelryEnchantments::ReduceSkillCost => "Reduce el coste de salud, magia y aguante de las habilidades"@,
            JewelryEnchantments::PrismaticRecovery => "Añade recuperación de magia, salud y aguante"@,
        }
    }

    /// Short human-readable description, shown beside the name in menus.
    pub fn description(&self) -> (r: String)
        ensures
            r@ == self.description_spec(),
    {
        match self {
            JewelryEnchantments::IncreasePhysicalHarm => "Añade daño de arma y hechizo, y recuperación de aguante".to_owned(),
            JewelryEnchantments::IncreaseMagicalHarm => "Añade daño de arma y hechizo, y recuperación de magia".to_owned(),
            JewelryEnchantments::HealthRecovery => "Añade recuperación de salud".to_owned(),
            JewelryEnchantments::MagickaRecovery => "Añade recuperación de magia".to_owned(),
            JewelryEnchantments::StaminaRecovery => "Añade recuperación de aguante".to_owned(),
            JewelryEnchantments::ReduceSpellCost => "Reduce el coste de magia de las habilidades".to_owned(),
            JewelryEnchantments::ReduceFeatCost => "Reduce el coste de aguante de las habilidades".to_owned(),
            JewelryEnchantments::Shielding => "Reduce el coste de bloquear".to_owned(),
            JewelryEnchantments::Bashing => "Añade daño a tus ataques de aporreo".to_owned(),
            JewelryEnchantments::DecreasePhysicalHarm => "Añade resistencia física".to_owned(),
            JewelryEnchantments::DecreaseSpellHarm => "Añade resistencia a los hechizos".to_owned(),
            JewelryEnchantments::FlameResist => "Añade resistencia a las llamas".to_owned(),
            JewelryEnchantments::FrostResist => "Añade resistencia a la escarcha".to_owned(),
            JewelryEnchantments::ShockResist => "Añade resistencia a descargas eléctricas".to_owned(),
            JewelryEnchantments::PoisonResist => "Añade resistencia a venenos".to_owned(),
            JewelryEnchantments::DiseaseResist => "Añade resistencia a enfermedades".to_owned(),
            JewelryEnchantments::PotionResist => "Aumenta la duración de los efectos de las pociones".to_owned(),
            JewelryEnchantments::PotionBoost => "Reduce la reutilización de las pociones".to_owned(),
            JewelryEnchantments::ReduceSkillCost => "Reduce el coste de salud, magia y aguante de las habilidades".to_owned(),
            JewelryEnchantments::PrismaticRecovery => "Añade recuperación de magia, salud y aguante".to_owned(),
        }
    }
}

impl MaterialCost for JewelryEnchantments {
    open spec fn cost_spec(&self) -> Seq<(i32, Seq<char>)> {
        match *self {
            JewelryEnchantments::IncreasePhysicalHarm => seq![(1i32, PotencyRunes::Repora.name_spec()), (1i32, EssenceRunes::Taderi.name_spec())],
            JewelryEnchantments::IncreaseMagicalHarm => seq![(1i32, PotencyRunes::Repora.name_spec()), (1i32, EssenceRunes::Makderi.name_spec())],
            JewelryEnchantments::HealthRecovery => seq![(1i32, PotencyRunes::Repora.name_spec()), (1i32, EssenceRunes::Okoma.name_spec())],
            JewelryEnchantments::MagickaRecovery => seq![(1i32, PotencyRunes::Repora.name_spec()), (1i32, EssenceRunes::Makkoma.name_spec())],
            JewelryEnchantments::StaminaRecovery => seq![(1i32, PotencyRunes::Repora.name_spec()), (1i32, EssenceRunes::Denima.name_spec())],
            JewelryEnchantments::ReduceSpellCost => seq![(1i32, PotencyRunes::Itade.name_spec()), (1i32, EssenceRunes::Makkoma.name_spec())],
            JewelryEnchantments::ReduceFeatCost => seq![(1i32, PotencyRunes::Itade.name_spec()), (1i32, EssenceRunes::Denima.name_spec())],
            JewelryEnchantments::Shielding => seq![(1i32, PotencyRunes::Itade.name_spec()), (1i32, EssenceRunes::Kaderi.name_spec())],
            JewelryEnchantments::Bashing => seq![(1i32, PotencyRunes::Repora.name_spec()), (1i32, EssenceRunes::Kaderi.name_spec())],
            JewelryEnchantments::DecreasePhysicalHarm => seq![(1i32, PotencyRunes::Itade.name_spec()), (1i32, EssenceRunes::Taderi.name_spec())],
            JewelryEnchantments::DecreaseSpellHarm => seq![(1i32, PotencyRunes::Itade.name_spec()), (1i32, EssenceRunes::Makderi.name_spec())],
            JewelryEnchantments::FlameResist => seq![(1i32, PotencyRunes::Itade.name_spec()), (1i32, EssenceRunes::Rakeipa.name_spec())],
            JewelryEnchantments::FrostResist => seq![(1i32, PotencyRunes::Itade.name_spec()), (1i32, EssenceRunes::Dekeipa.name_spec())],
            JewelryEnchantments::ShockResist => seq![(1i32, PotencyRunes::Itade.name_spec()), (1i32, EssenceRunes::Meip.name_spec())],
            JewelryEnchantments::PoisonResist => seq![(1i32, PotencyRunes::Itade.name_spec()), (1i32, EssenceRunes::Kuoko.name_spec())],
            JewelryEnchantments::DiseaseResist => seq![(1i32, PotencyRunes::Itade.name_spec()), (1i32, EssenceRunes::Haoko.name_spec())],
            JewelryEnchantments::PotionResist => seq![(1i32, PotencyRunes::Itade.name_spec()), (1i32, EssenceRunes::Oru.name_spec())],
            JewelryEnchantments::PotionBoost => seq![(1i32, PotencyRunes::Repora.name_spec()), (1i32, EssenceRunes::Oru.name_spec())],
            JewelryEnchantments::ReduceSkillCost => seq![(1i32, PotencyRunes::Itade.name_spec()), (1i32, EssenceRunes::Indeko.name_spec())],
            JewelryEnchantments::PrismaticRecovery => seq![(1i32, PotencyRunes::Repora.name_spec()), (1i32, EssenceRunes::Indeko.name_spec())],
        }
    }

    fn cost(&self) -> (r: Vec<(i32, String)>)
        ensures
            cost_entries_match(r@, self.cost_spec()),
    {
        match *self {
            JewelryEnchantments::IncreasePhysicalHarm => cost_two(
                1,
                PotencyRunes::Repora.display_name(),
                1,
                EssenceRunes::Taderi.display_name(),
            ),
            JewelryEnchantments::IncreaseMagicalHarm => cost_two(
                1,
                PotencyRunes::Repora.display_name(),
                1,
                EssenceRunes::Makderi.display_name(),
            ),
            JewelryEnchantments::HealthRecovery => cost_two(
                1,
                PotencyRunes::Repora.display_name(),
                1,
                EssenceRunes::Okoma.display_name(),
            ),
            JewelryEnchantments::MagickaRecovery => cost_two(
                1,
                PotencyRunes::Repora.display_name(),
                1,
                EssenceRunes::Makkoma.display_name(),
            ),
            JewelryEnchantments::StaminaRecovery => cost_two(
                1,
                PotencyRunes::Repora.display_name(),
                1,
                EssenceRunes::Denima.display_name(),
            ),
            JewelryEnchantments::ReduceSpellCost => cost_two(
                1,
                PotencyRunes::Itade.display_name(),
                1,
                EssenceRunes::Makkoma.display_name(),
            ),
            JewelryEnchantments::ReduceFeatCost => cost_two(
                1,
                PotencyRunes::Itade.display_name(),
                1,
                EssenceRunes::Denima.display_name(),
            ),
            JewelryEnchantments::Shielding => cost_two(
                1,
                PotencyRunes::Itade.display_name(),
                1,
                EssenceRunes::Kaderi.display_name(),
            ),
            JewelryEnchantments::Bashing => cost_two(
                1,
                PotencyRunes::Repora.display_name(),
                1,
                EssenceRunes::Kaderi.display_name(),
            ),
            JewelryEnchantments::DecreasePhysicalHarm => cost_two(
                1,
                PotencyRunes::Itade.display_name(),
                1,
                EssenceRunes::Taderi.display_name(),
            ),
            JewelryEnchantments::DecreaseSpellHarm => cost_two(
                1,
                PotencyRunes::Itade.display_name(),
                1,
                EssenceRunes::Makderi.display_name(),
            ),
            JewelryEnchantments::FlameResist => cost_two(
                1,
                PotencyRunes::Itade.display_name(),
                1,
                EssenceRunes::Rakeipa.display_name(),
            ),
            JewelryEnchantments::FrostResist => cost_two(
                1,
                PotencyRunes::Itade.display_name(),
                1,
                EssenceRunes::Dekeipa.display_name(),
            ),
            JewelryEnchantments::ShockResist => cost_two(
                1,
                PotencyRunes::Itade.display_name(),
                1,
                EssenceRunes::Meip.display_name(),
            ),
            JewelryEnchantments::PoisonResist => cost_two(
                1,
                PotencyRunes::Itade.display_name(),
                1,
                EssenceRunes::Kuoko.display_name(),
            ),
            JewelryEnchantments::DiseaseResist => cost_two(
                1,
                PotencyRunes::Itade.display_name(),
                1,
                EssenceRunes::Haoko.display_name(),
            ),
            JewelryEnchantments::PotionResist => cost_two(
                1,
                PotencyRunes::Itade.display_name(),
                1,
                EssenceRunes::Oru.display_name(),
            ),
            JewelryEnchantments::PotionBoost => cost_two(
                1,
                PotencyRunes::Repora.display_name(),
                1,
                EssenceRunes::Oru.display_name(),
            ),
            JewelryEnchantments::ReduceSkillCost => cost_two(
                1,
                PotencyRunes::Itade.display_name(),
                1,
                EssenceRunes::Indeko.display_name(),
            ),
            JewelryEnchantments::PrismaticRecovery => cost_two(
                1,
                PotencyRunes::Repora.display_name(),
                1,
                EssenceRunes::Indeko.display_name(),
            ),
        }
    }
}

/// A fully specified jewelry piece of an order.
#[derive(Clone, Copy, PartialEq, Eq, Debug)]
pub struct Jewelry {
    pub kind: Jewelries,
    pub jewelry_trait: JewelryTraits,
    pub enchantment: Option<JewelryEnchantments>,
    pub quality: GearQuality,
}

/// Quality upgrade materials for jewelry: an increasing number of platings.
pub open spec fn jewelry_quality_mats_spec(quality: GearQuality) -> Seq<(i32, Seq<char>)> {
    match quality {
        GearQuality::White => Seq::empty(),
        GearQuality::Green => seq![
            (1i32, JewelryQualityMaterials::TernePlating.name_spec()),
        ],
        GearQuality::Blue => seq![
            (2i32, JewelryQualityMaterials::IridiumPlating.name_spec()),
        ],
        GearQuality::Purple => seq![
            (3i32, JewelryQualityMaterials::ZirconPlating.name_spec()),
        ],
        GearQuality::Yellow => seq![
            (4i32, JewelryQualityMaterials::ChromiumPlating.name_spec()),
        ],
    }
}

fn get_jewelry_quality_mats(quality: &GearQuality) -> (r: Vec<(i32, String)>)
    ensures
        cost_entries_match(r@, jewelry_quality_mats_spec(*quality)),
{
    match quality {
        GearQuality::White => Vec::new(),
        GearQuality::Green => cost_one(1, JewelryQualityMaterials::TernePlating.display_name()),
        GearQuality::Blue => cost_one(2, JewelryQualityMaterials::IridiumPlating.display_name()),
        GearQuality::Purple => cost_one(3, JewelryQualityMaterials::ZirconPlating.display_name()),
        GearQuality::Yellow => cost_one(
            4,
            JewelryQualityMaterials::ChromiumPlating.display_name(),
        ),
    }
}

impl MaterialCost for Jewelry {
    /// Base platinum cost, then the trait stone, then (only for an enchanted
    /// piece) the glyph runes and the quality rune, then the quality platings.
    open spec fn cost_spec(&self) -> Seq<(i32, Seq<char>)> {
        self.kind.cost_spec() + self.jewelry_trait.cost_spec() + (
        match self.enchantment {
            Some(e) => e.cost_spec() + enchantment_quality_cost_spec(self.quality),
            None => Seq::empty(),
        }) + jewelry_quality_mats_spec(self.quality)
    }

    fn cost(&self) -> (r: Vec<(i32, String)>)
        ensures
            cost_entries_match(r@, self.cost_spec()),
    {
        let mut v = self.kind.cost();
        let ghost mut s = self.kind.cost_spec();
        let mut t = self.jewelry_trait.cost();
        proof {
            lemma_cost_entries_match_concat(v@, s, t@, self.jewelry_trait.cost_spec());
            s = s + self.jewelry_trait.cost_spec();
        }
        v.append(&mut t);
        if let Some(e) = &self.enchantment {
            let mut ec = e.cost();
            proof {
                lemma_cost_entries_match_concat(v@, s, ec@, e.cost_spec());
                s = s + e.cost_spec();
            }
            v.append(&mut ec);
            let mut qr = get_enchantment_quality_cost(&self.quality);
            proof {
                lemma_cost_entries_match_concat(
                    v@,
                    s,
                    qr@,
                    enchantment_quality_cost_spec(self.quality),
                );
                s = s + enchantment_quality_cost_spec(self.quality);
            }
            v.append(&mut qr);
        }
        let mut qm = get_jewelry_quality_mats(&self.quality);
        proof {
            lemma_cost_entries_match_concat(
                v@,
                s,
                qm@,
                jewelry_quality_mats_spec(self.quality),
            );
            s = s + jewelry_quality_mats_spec(self.quality);
            assert(s =~= self.cost_spec());
        }
        v.append(&mut qm);
        v
    }
}

} // verus!
