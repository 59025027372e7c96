//! Armour parts, weights, traits and enchantments, and the cost of an
//! armour piece.

use vstd::prelude::*;

verus! {

use crate::entities::GearQuality;
use crate::entities::MaterialCost;
use crate::entities::OrderError;
use crate::entities::cost_entries_match;
use crate::entities::cost_one;
use crate::entities::cost_two;
use crate::entities::enchantment_quality_cost_spec;
use crate::entities::get_enchantment_quality_cost;
use crate::entities::lemma_cost_entries_match_concat;
use crate::entities::str_eq;
use crate::entities::materials::ArmourTraitMaterials;
use crate::entities::materials::BlacksmithQualityMaterials;
use crate::entities::materials::EssenceRunes;
use crate::entities::materials::PartMaterials;
use crate::entities::materials::PotencyRunes;
use crate::entities::materials::TailoringQualityMaterials;

#[derive(Clone, Copy, PartialEq, Eq, Structural, Debug)]
pub enum ArmourParts {
    Head,
    Shoulder,
    Body,
    Hands,
    Waist,
    Legs,
    Feet,
    Shield,
}

impl ArmourParts {
    pub open spec fn name_spec(self) -> Seq<char> {
        match self {
            ArmourParts::Head => "Cabeza"@,
            ArmourParts::Shoulder => "Hombros"@,
            ArmourParts::Body => "Cuerpo"@,
            ArmourParts::Hands => "Manos"@,
            ArmourParts::Waist => "Cintura"@,
            ArmourParts::Legs => "Piernas"@,
            ArmourParts::Feet => "Pies"@,
            ArmourParts::Shield => "Escudo"@,
        }
    }

    /// Canonical display name in the catalog.
    pub fn display_name(&self) -> (r: String)
        ensures
            r@ == self.name_spec(),
    {
        match self {
            ArmourParts::Head => "Cabeza".to_owned(),
            ArmourParts::Shoulder => "Hombros".to_owned(),
            ArmourParts::Body => "Cuerpo".to_owned(),
            ArmourParts::Hands => "Manos".to_owned(),
            ArmourParts::Waist => "Cintura".to_owned(),
            ArmourParts::Legs => "Piernas".to_owned(),
            ArmourParts::Feet => "Pies".to_owned(),
            ArmourParts::Shield => "Escudo".to_owned(),
        }
    }

    /// Total lookup by display name; fails exactly on unknown names.
    pub fn from_name(s: &str) -> (r: Result<Self, OrderError>)
        ensures
            match r {
                Ok(v) => v.name_spec() == s@,
                Err(e) => e == OrderError::CatalogNotFound
                    && forall|v: Self| v.name_spec() != s@,
            },
    {
        if str_eq(s, "Cabeza") {
            Ok(ArmourParts::Head)
        } else if str_eq(s, "Hombros") {
            Ok(ArmourParts::Shoulder)
        } else if str_eq(s, "Cuerpo") {
            Ok(ArmourParts::Body)
        } else if str_eq(s, "Manos") {
            Ok(ArmourParts::Hands)
        } else if str_eq(s, "Cintura") {
            Ok(ArmourParts::Waist)
        } else if str_eq(s, "Piernas") {
            Ok(ArmourParts::Legs)
        } else if str_eq(s, "Pies") {
            Ok(ArmourParts::Feet)
        } else if str_eq(s, "Escudo") {
            Ok(ArmourParts::Shield)
        } else {
            Err(OrderError::CatalogNotFound)
        }
    }
}

#[derive(Clone, Copy, PartialEq, Eq, Structural, Debug)]
pub enum ArmourWeights {
    Light,
    Medium,
    Heavy,
}

impl ArmourWeights {
    pub open spec fn name_spec(self) -> Seq<char> {
        match self {
            ArmourWeights::Light => "Ligera"@,
            ArmourWeights::Medium => "Media"@,
            ArmourWeights::Heavy => "Pesada"@,
        }
    }

    /// Canonical display name in the catalog.
    pub fn display_name(&self) -> (r: String)
        ensures
            r@ == self.name_spec(),
    {
        match self {
            ArmourWeights::Light => "Ligera".to_owned(),
            ArmourWeights::Medium => "Media".to_owned(),
            ArmourWeights::Heavy => "Pesada".to_owned(),
        }
    }

    /// Total lookup by display name; fails exactly on unknown names.
    pub fn from_name(s: &str) -> (r: Result<Self, OrderError>)
        ensures
            match r {
                Ok(v) => v.name_spec() == s@,
                Err(e) => e == OrderError::CatalogNotFound
                    && forall|v: Self| v.name_spec() != s@,
            },
    {
        if str_eq(s, "Ligera") {
            Ok(ArmourWeights::Light)
        } else if str_eq(s, "Media") {
            Ok(ArmourWeights::Medium)
        } else if str_eq(s, "Pesada") {
            Ok(ArmourWeights::Heavy)
        } else {
            Err(OrderError::CatalogNotFound)
        }
    }
}

#[derive(Clone, Copy, PartialEq, Eq, Structural, Debug)]
pub enum ArmourTraits {
    /// Aumenta los efectos de las piedras de Mundus
    Divines,
    /// Aumenta la recuperación de salud, magia y aguante
    Invigorating,
    /// Aumenta la resistencia a críticos y la durabilidad
    Impenetrable,
    /// Aumenta el efecto del encantamiento de la armadura
    Infused,
    /// Aumenta la resistencia física y a hechizos
    Nirnhoned,
    /// Aumenta el valor de armadura de este objeto
    Reinforced,
    /// Reduce el coste de bloquear
    Sturdy,
    /// Aumenta la experiencia ganada con cada muerte
    Training,
    /// Reduce el coste de esquivar rodando y esprintar
    WellFitted,
}

impl ArmourTraits {
    pub open spec fn name_spec(self) -> Seq<char> {
        match self {
            ArmourTraits::Divines => "Divinidad"@,
            ArmourTraits::Invigorating => "Vigorización"@,
            ArmourTraits::Impenetrable => "Impenetrabilidad"@,
            ArmourTraits::Infused => "Imbuición"@,
            ArmourTraits::Nirnhoned => "Temple de Nirn"@,
            ArmourTraits::Reinforced => "Refuerzo"@,
            ArmourTraits::Sturdy => "Solidez"@,
            ArmourTraits::Training => "Entrenamiento"@,
            ArmourTraits::WellFitted => "Buen ajuste"@,
        }
    }

    /// Canonical display name in the catalog.
    pub fn display_name(&self) -> (r: String)
        ensures
            r@ == self.name_spec(),
    {
        match self {
            ArmourTraits::Divines => "Divinidad".to_owned(),
            ArmourTraits::Invigorating => "Vigorización".to_owned(),
            ArmourTraits::Impenetrable => "Impenetrabilidad".to_owned(),
            ArmourTraits::Infused => "Imbuición".to_owned(),
            ArmourTraits::Nirnhoned => "Temple de Nirn".to_owned(),
            ArmourTraits::Reinforced => "Refuerzo".to_owned(),
            ArmourTraits::Sturdy => "Solidez".to_owned(),
            ArmourTraits::Training => "Entrenamiento".to_owned(),
            ArmourTraits::WellFitted => "Buen ajuste".to_owned(),
        }
    }

    /// Total lookup by display name; fails exactly on unknown names.
    pub fn from_name(s: &str) -> (r: Result<Self, OrderError>)
        ensures
            match r {
                Ok(v) => v.name_spec() == s@,
                Err(e) => e == OrderError::CatalogNotFound
                    && forall|v: Self| v.name_spec() != s@,
            },
    {
        if str_eq(s, "Divinidad") {
            Ok(ArmourTraits::Divines)
        } else if str_eq(s, "Vigorización") {
            Ok(ArmourTraits::Invigorating)
        } else if str_eq(s, "Impenetrabilidad") {
            Ok(ArmourTraits::Impenetrable)
        } else if str_eq(s, "Imbuición") {
            Ok(ArmourTraits::Infused)
        } else if str_eq(s, "Temple de Nirn") {
            Ok(ArmourTraits::Nirnhoned)
        } else if str_eq(s, "Refuerzo") {
            Ok(ArmourTraits::Reinforced)
        } else if str_eq(s, "Solidez") {
            Ok(ArmourTraits::Sturdy)
        } else if str_eq(s, "Entrenamiento") {
            Ok(ArmourTraits::Training)
        } else if str_eq(s, "Buen ajuste") {
            Ok(ArmourTraits::WellFitted)
        } else {
            Err(OrderError::CatalogNotFound)
        }
    }

    pub open spec fn description_spec(self) -> Seq<char> {
        match self {
            ArmourTraits::Divines => "Aumenta los efectos de las piedras de Mundus"@,
            ArmourTraits::Invigorating => "Aumenta la recuperación de salud, magia y aguante"@,
            ArmourTraits::Impenetrable => "Aumenta la resistencia a críticos y la durabilidad"@,
            ArmourTraits::Infused => "Aumenta el efecto del encantamiento de la armadura"@,
            ArmourTraits::Nirnhoned => "Aumenta la resistencia física y a hechizos"@,
            ArmourTraits::Reinforced => "Aumenta el valor de armadura de este objeto"@,
            ArmourTraits::Sturdy => "Reduce el coste de bloquear"@,
            ArmourTraits::Training => "Aumenta la experiencia ganada con cada muerte"@,
            ArmourTraits::WellFitted => "Reduce el coste de esquivar rodando y esprintar"@,
        }
    }

    /// Short human-readable description, shown beside the name in menus.
    pub fn description(&self) -> (r: String)
        ensures
            r@ == self.description_spec(),
    {
        match self {
            ArmourTraits::Divines => "Aumenta los efectos de las piedras de Mundus".to_owned(),
            ArmourTraits::Invigorating => "Aumenta la recuperación de salud, magia y aguante".to_owned(),
            ArmourTraits::Impenetrable => "Aumenta la resistencia a críticos y la durabilidad".to_owned(),
            ArmourTraits::Infused => "Aumenta el efecto del encantamiento de la armadura".to_owned(),
            ArmourTraits::Nirnhoned => "Aumenta la resistencia física y a hechizos".to_owned(),
            ArmourTraits::Reinforced => "Aumenta el valor de armadura de este objeto".to_owned(),
            ArmourTraits::Sturdy => "Reduce el coste de bloquear".to_owned(),
            ArmourTraits::Training => "Aumenta la experiencia ganada con cada muerte".to_owned(),
            ArmourTraits::WellFitted => "Reduce el coste de esquivar rodando y esprintar".to_owned(),
        }
    }
}

impl MaterialCost for ArmourTraits {
    open spec fn cost_spec(&self) -> Seq<(i32, Seq<char>)> {
        match *self {
            ArmourTraits::Divines => seq![(1i32, ArmourTraitMaterials::Sapphire.name_spec())],
            ArmourTraits::Invigorating => seq![(1i32, ArmourTraitMaterials::Garnet.name_spec())],
            ArmourTraits::Impenetrable => seq![(1i32, ArmourTraitMaterials::Diamond.name_spec())],
            ArmourTraits::Infused => seq![(1i32, ArmourTraitMaterials::Bloodstone.name_spec())],
            ArmourTraits::Nirnhoned => seq![(1i32, ArmourTraitMaterials::FortifiedNirncrux.name_spec())],
            ArmourTraits::Reinforced => seq![(1i32, ArmourTraitMaterials::Sardonyx.name_spec())],
            ArmourTraits::Sturdy => seq![(1i32, ArmourTraitMaterials::Quartz.name_spec())],
            ArmourTraits::Training => seq![(1i32, ArmourTraitMaterials::Emerald.name_spec())],
            ArmourTraits::WellFitted => seq![(1i32, ArmourTraitMaterials::Almandine.name_spec())],
        }
    }

    fn cost(&self) -> (r: Vec<(i32, String)>)
        ensures
            cost_entries_match(r@, self.cost_spec()),
    {
        match *self {
            ArmourTraits::Divines => cost_one(1, ArmourTraitMaterials::Sapphire.display_name()),
            ArmourTraits::Invigorating => cost_one(1, ArmourTraitMaterials::Garnet.display_name()),
            ArmourTraits::Impenetrable => cost_one(1, ArmourTraitMaterials::Diamond.display_name()),
            ArmourTraits::Infused => cost_one(1, ArmourTraitMaterials::Bloodstone.display_name()),
            ArmourTraits::Nirnhoned => cost_one(1, ArmourTraitMaterials::FortifiedNirncrux.display_name()),
            ArmourTraits::Reinforced => cost_one(1, ArmourTraitMaterials::Sardonyx.display_name()),
            ArmourTraits::Sturdy => cost_one(1, ArmourTraitMaterials::Quartz.display_name()),
            ArmourTraits::Training => cost_one(1, ArmourTraitMaterials::Emerald.display_name()),
            ArmourTraits::WellFitted => cost_one(1, ArmourTraitMaterials::Almandine.display_name()),
        }
    }
}

#[derive(Clone, Copy, PartialEq, Eq, Structural, Debug)]
pub enum ArmourEnchantments {
    /// Aumenta la salud máxima
    Health,
    /// Aumenta la magia máxima
    Magicka,
    /// Aumenta el aguante máximo
    Stamina,
    /// Aumente la magia, salud y aguante máximos
    PrismaticDefense,
}

impl ArmourEnchantments {
    pub open spec fn name_spec(self) -> Seq<char> {
        match self {
            ArmourEnchantments::Health => "Glifo de salud"@,
            ArmourEnchantments::Magicka => "Glifo de magia"@,
            ArmourEnchantments::Stamina => "Glifo de aguante"@,
            ArmourEnchantments::PrismaticDefense => "Glifo de defensa prismática"@,
        }
    }

    /// Canonical display name in the catalog.
    pub fn display_name(&self) -> (r: String)
        ensures
            r@ == self.name_spec(),
    {
        match self {
            ArmourEnchantments::Health => "Glifo de salud".to_owned(),
            ArmourEnchantments::Magicka => "Glifo de magia".to_owned(),
            ArmourEnchantments::Stamina => "Glifo de aguante".to_owned(),
            ArmourEnchantments::PrismaticDefense => "Glifo de defensa prismática".to_owned(),
        }
    }

    /// Total lookup by display name; fails exactly on unknown names.
    pub fn from_name(s: &str) -> (r: Result<Self, OrderError>)
        ensures
            match r {
                Ok(v) => v.name_spec() == s@,
                Err(e) => e == OrderError::CatalogNotFound
                    && forall|v: Self| v.name_spec() != s@,
            },
    {
        if str_eq(s, "Glifo de salud") {
            Ok(ArmourEnchantments::Health)
        } else if str_eq(s, "Glifo de magia") {
            Ok(ArmourEnchantments::Magicka)
        } else if str_eq(s, "Glifo de aguante") {
            Ok(ArmourEnchantments::Stamina)
        } else if str_eq(s, "Glifo de defensa prismática") {
            Ok(ArmourEnchantments::PrismaticDefense)
        } else {
            Err(OrderError::CatalogNotFound)
        }
    }

    pub open spec fn description_spec(self) -> Seq<char> {
        match self {
            ArmourEnchantments::Health => "Aumenta la salud máxima"@,
            ArmourEnchantments::Magicka => "Aumenta la magia máxima"@,
            ArmourEnchantments::Stamina => "Aumenta el aguante máximo"@,
            ArmourEnchantments::PrismaticDefense => "Aumente la magia, salud y aguante máximos"@,
        }
    }

    /// Short human-readable description, shown beside the name in menus.
    pub fn description(&self) -> (r: String)
        ensures
            r@ == self.description_spec(),
    {
        match self {
            ArmourEnchantments::Health => "Aumenta la salud máxima".to_owned(),
            ArmourEnchantments::Magicka => "Aumenta la magia máxima".to_owned(),
            ArmourEnchantments::Stamina => "Aumenta el aguante máximo".to_owned(),
            ArmourEnchantments::PrismaticDefense => "Aumente la magia, salud y aguante máximos".to_owned(),
        }
    }
}

impl MaterialCost for ArmourEnchantments {
    open spec fn cost_spec(&self) -> Seq<(i32, Seq<char>)> {
        match *self {
            ArmourEnchantments::Health => seq![(1i32, PotencyRunes::Repora.name_spec()), (1i32, EssenceRunes::Oko.name_spec())],
            ArmourEnchantments::Magicka => seq![(1i32, PotencyRunes::Repora.name_spec()), (1i32, EssenceRunes::Makko.name_spec())],
            ArmourEnchantments::Stamina => seq![(1i32, PotencyRunes::Repora.name_spec()), (1i32, EssenceRunes::Deni.name_spec())],
            ArmourEnchantments::PrismaticDefense => seq![(1i32, PotencyRunes::Repora.name_spec()), (1i32, EssenceRunes::Hakeijo.name_spec())],
        }
    }

    fn cost(&self) -> (r: Vec<(i32, String)>)
        ensures
            cost_entries_match(r@, self.cost_spec()),
    {
        match *self {
            ArmourEnchantments::Health => cost_two(
                1,
                PotencyRunes::Repora.display_name(),
                1,
                EssenceRunes::Oko.display_name(),
            ),
            ArmourEnchantments::Magicka => cost_two(
                1,
                PotencyRunes::Repora.display_name(),
                1,
                EssenceRunes::Makko.display_name(),
            ),
            ArmourEnchantments::Stamina => cost_two(
                1,
                PotencyRunes::Repora.display_name(),
                1,
                EssenceRunes::Deni.display_name(),
            ),
            ArmourEnchantments::PrismaticDefense => cost_two(
                1,
                PotencyRunes::Repora.display_name(),
                1,
                EssenceRunes::Hakeijo.display_name(),
            ),
        }
    }
}

/// A fully specified armour piece of an order.
#[derive(Clone, Copy, PartialEq, Eq, Debug)]
pub struct Armour {
    pub kind: ArmourParts,
    pub weight: ArmourWeights,
    pub armour_trait: ArmourTraits,
    pub enchantment: Option<ArmourEnchantments>,
    pub quality: GearQuality,
}

/// Base material for one armour part: the body takes 150 units, legs 140,
/// the shield 140 units of wood, and every other part 130, with the material
/// picked by the chosen weight.
pub open spec fn part_mats_spec(part: ArmourParts, weight: ArmourWeights) -> Seq<
    (i32, Seq<char>),
> {
    if part == ArmourParts::Shield {
        seq![(140i32, PartMaterials::SandedRubyAsh.name_spec())]
    } else {
        let qty: i32 = if part == ArmourParts::Body {
            150
        } else if part == ArmourParts::Legs {
            140
        } else {
            130
        };
        match weight {
            ArmourWeights::Heavy => seq![(qty, PartMaterials::RubediteIngots.name_spec())],
            ArmourWeights::Light => seq![(qty, PartMaterials::AncestorSilk.name_spec())],
            ArmourWeights::Medium => seq![(qty, PartMaterials::RubedoLeather.name_spec())],
        }
    }
}

/// The base part material consumed by one armour piece.
pub fn get_part_mats(part: &ArmourParts, weight: &ArmourWeights) -> (r: Vec<(i32, String)>)
    ensures
        cost_entries_match(r@, part_mats_spec(*part, *weight)),
{
    if let ArmourParts::Shield = part {
        return cost_one(140, PartMaterials::SandedRubyAsh.display_name());
    }
    let qty: i32 = match part {
        ArmourParts::Body => 150,
        ArmourParts::Legs => 140,
        _ => 130,
    };
    match weight {
        ArmourWeights::Heavy => cost_one(qty, PartMaterials::RubediteIngots.display_name()),
        ArmourWeights::Light => cost_one(qty, PartMaterials::AncestorSilk.display_name()),
        ArmourWeights::Medium => cost_one(qty, PartMaterials::RubedoLeather.display_name()),
    }
}

/// Quality upgrade material for an armour piece: the top refinement material
/// of the tier, from the blacksmithing line for heavy pieces and from the
/// tailoring line otherwise.
pub open spec fn armour_quality_mats_spec(weight: ArmourWeights, quality: GearQuality) -> Seq<
    (i32, Seq<char>),
> {
    match quality {
        GearQuality::White => Seq::empty(),
        GearQuality::Green => match weight {
            ArmourWeights::Heavy => seq![
                (2i32, BlacksmithQualityMaterials::HoningStone.name_spec()),
            ],
            _ => seq![(2i32, TailoringQualityMaterials::Hemming.name_spec())],
        },
        GearQuality::Blue => match weight {
            ArmourWeights::Heavy => seq![
                (3i32, BlacksmithQualityMaterials::DwarvenOil.name_spec()),
            ],
            _ => seq![(3i32, TailoringQualityMaterials::Embroidery.name_spec())],
        },
        GearQuality::Purple => match weight {
            ArmourWeights::Heavy => seq![
                (4i32, BlacksmithQualityMaterials::GrainSolvent.name_spec()),
            ],
            _ => seq![(4i32, TailoringQualityMaterials::ElegantLining.name_spec())],
        },
        GearQuality::Yellow => match weight {
            ArmourWeights::Heavy => seq![
                (8i32, BlacksmithQualityMaterials::TemperingAlloy.name_spec()),
            ],
            _ => seq![(8i32, TailoringQualityMaterials::DreughWax.name_spec())],
        },
    }
}

/// Quality upgrade materials for an armour piece of the given weight.
pub fn get_quality_mats(weight: &ArmourWeights, quality: &GearQuality) -> (r: Vec<(i32, String)>)
    ensures
        cost_entries_match(r@, armour_quality_mats_spec(*weight, *quality)),
{
    let heavy = matches!(weight, ArmourWeights::Heavy);
    match quality {
        GearQuality::White => Vec::new(),
        GearQuality::Green => {
            if heavy {
                cost_one(2, BlacksmithQualityMaterials::HoningStone.display_name())
            } else {
                cost_one(2, TailoringQualityMaterials::Hemming.display_name())
            }
        },
        GearQuality::Blue => {
            if heavy {
                cost_one(3, BlacksmithQualityMaterials::DwarvenOil.display_name())
            } else {
                cost_one(3, TailoringQualityMaterials::Embroidery.display_name())
            }
        },
        GearQuality::Purple => {
            if heavy {
                cost_one(4, BlacksmithQualityMaterials::GrainSolvent.display_name())
            } else {
                cost_one(4, TailoringQualityMaterials::ElegantLining.display_name())
            }
        },
        GearQuality::Yellow => {
            if heavy {
                cost_one(8, BlacksmithQualityMaterials::TemperingAlloy.display_name())
            } else {
                cost_one(8, TailoringQualityMaterials::DreughWax.display_name())
            }
        },
    }
}

impl MaterialCost for Armour {
    /// Base part material, then the trait gem, then (only for an enchanted
    /// piece) the glyph runes and the quality rune, then the quality upgrade
    /// materials.
    open spec fn cost_spec(&self) -> Seq<(i32, Seq<char>)> {
        part_mats_spec(self.kind, self.weight) + self.armour_trait.cost_spec() + (
        match self.enchantment {
            Some(e) => e.cost_spec() + enchantment_quality_cost_spec(self.quality),
            None => Seq::empty(),
        }) + armour_quality_mats_spec(self.weight, self.quality)
    }

    fn cost(&self) -> (r: Vec<(i32, String)>)
        ensures
            cost_entries_match(r@, self.cost_spec()),
    {
        let mut v = get_part_mats(&self.kind, &self.weight);
        let ghost mut s = part_mats_spec(self.kind, self.weight);
        let mut t = self.armour_trait.cost();
        proof {
            lemma_cost_entries_match_concat(v@, s, t@, self.armour_trait.cost_spec());
            s = s + self.armour_trait.cost_spec();
        }
        v.append(&mut t);
        if let Some(e) = &self.enchantment {
            let mut ec = e.cost();
            proof {
                lemma_cost_entries_match_concat(v@, s, ec@, e.cost_spec());
                s = s + e.cost_spec();
            }
            v.append(&mut ec);
            let mut qr = get_enchantment_quality_cost(&self.quality);
            proof {
                lemma_cost_entries_match_concat(
                    v@,
                    s,
                    qr@,
                    enchantment_quality_cost_spec(self.quality),
                );
                s = s + enchantment_quality_cost_spec(self.quality);
            }
            v.append(&mut qr);
        }
        let mut qm = get_quality_mats(&self.weight, &self.quality);
        proof {
            lemma_cost_entries_match_concat(
                v@,
                s,
                qm@,
                armour_quality_mats_spec(self.weight, self.quality),
            );
            s = s + armour_quality_mats_spec(self.weight, self.quality);
            assert(s =~= self.cost_spec());
        }
        v.append(&mut qm);
        v
    }
}

} // verus!
