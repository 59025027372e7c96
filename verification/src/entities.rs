//! The static catalog: every enumerable kind of craftable gear, its canonical
//! display name, and the recipe cost tables shared by all gear families.

pub mod armour;
pub mod jewelry;
pub mod materials;
pub mod weapon;

use vstd::prelude::*;

verus! {

use crate::entities::armour::ArmourParts;
use crate::entities::jewelry::Jewelries;
use crate::entities::weapon::OneHandedWeapons;
use crate::entities::weapon::TwoHandedWeapons;
use crate::entities::weapon::WeaponKind;
use crate::entities::materials::RuneQualityMaterials;
use crate::entities::materials::BlacksmithQualityMaterials;
use crate::entities::materials::TailoringQualityMaterials;
use crate::entities::materials::WoodworkingQualityMaterials;

/// The ways an order can fail while it is being elicited.
///
/// A `Timeout` cancels the whole order; a `CatalogNotFound` means a prompt
/// response did not name any catalog entry (a transport defect, also fatal);
/// an `InvalidOrderName` is recoverable by asking for the name again.
#[derive(Clone, Copy, PartialEq, Eq, Structural, Debug)]
pub enum OrderError {
    Timeout,
    CatalogNotFound,
    InvalidOrderName,
}

/// String comparison with a view-level contract.
pub(crate) fn str_eq(a: &str, b: &str) -> (r: bool)
    ensures
        r == (a@ == b@),
{
    let sa: String = a.to_owned();
    let sb: String = b.to_owned();
    sa == sb
}

/// Quality tiers, ordered lowest (no upgrade) to highest.
#[derive(Clone, Copy, PartialEq, Eq, Structural, Debug)]
pub enum GearQuality {
    White,
    Green,
    Blue,
    Purple,
    Yellow,
}

impl GearQuality {
    pub open spec fn name_spec(self) -> Seq<char> {
        match self {
            GearQuality::White => "Blanco"@,
            GearQuality::Green => "Verde"@,
            GearQuality::Blue => "Azul"@,
            GearQuality::Purple => "Morada"@,
            GearQuality::Yellow => "Amarilla"@,
        }
    }

    /// Canonical display name of the tier.
    pub fn display_name(&self) -> (r: String)
        ensures
            r@ == self.name_spec(),
    {
        match self {
            GearQuality::White => "Blanco".to_owned(),
            GearQuality::Green => "Verde".to_owned(),
            GearQuality::Blue => "Azul".to_owned(),
            GearQuality::Purple => "Morada".to_owned(),
            GearQuality::Yellow => "Amarilla".to_owned(),
        }
    }

    pub open spec fn emoji_spec(self) -> Seq<char> {
        match self {
            GearQuality::White => "⚪"@,
            GearQuality::Green => "🟢"@,
            GearQuality::Blue => "🔵"@,
            GearQuality::Purple => "🟣"@,
            GearQuality::Yellow => "🟡"@,
        }
    }

    /// Emoji shown beside the tier in menus.
    pub fn emoji(&self) -> (r: String)
        ensures
            r@ == self.emoji_spec(),
    {
        match self {
            GearQuality::White => "⚪".to_owned(),
            GearQuality::Green => "🟢".to_owned(),
            GearQuality::Blue => "🔵".to_owned(),
            GearQuality::Purple => "🟣".to_owned(),
            GearQuality::Yellow => "🟡".to_owned(),
        }
    }

    /// Total lookup by display name; fails exactly on unknown names.
    pub fn from_name(s: &str) -> (r: Result<Self, OrderError>)
        ensures
            match r {
                Ok(v) => v.name_spec() == s@,
                Err(e) => e == OrderError::CatalogNotFound && forall|v: Self| v.name_spec() != s@,
            },
    {
        if str_eq(s, "Blanco") {
            Ok(GearQuality::White)
        } else if str_eq(s, "Verde") {
            Ok(GearQuality::Green)
        } else if str_eq(s, "Azul") {
            Ok(GearQuality::Blue)
        } else if str_eq(s, "Morada") {
            Ok(GearQuality::Purple)
        } else if str_eq(s, "Amarilla") {
            Ok(GearQuality::Yellow)
        } else {
            Err(OrderError::CatalogNotFound)
        }
    }
}

/// An executable cost list matches its mathematical model when they pair up
/// entry by entry: same quantity, same material name.
pub open spec fn cost_entries_match(v: Seq<(i32, String)>, s: Seq<(i32, Seq<char>)>) -> bool {
    &&& v.len() == s.len()
    &&& forall|i: int|
        0 <= i < v.len() ==> (#[trigger] v[i]).0 == s[i].0 && v[i].1@ == s[i].1
}

/// Matching cost lists stay matched under concatenation.
pub proof fn lemma_cost_entries_match_concat(
    v1: Seq<(i32, String)>,
    s1: Seq<(i32, Seq<char>)>,
    v2: Seq<(i32, String)>,
    s2: Seq<(i32, Seq<char>)>,
)
    requires
        cost_entries_match(v1, s1),
        cost_entries_match(v2, s2),
    ensures
        cost_entries_match(v1 + v2, s1 + s2),
{
    assert forall|i: int| 0 <= i < (v1 + v2).len() implies (#[trigger] (v1 + v2)[i]).0 == (s1
        + s2)[i].0 && (v1 + v2)[i].1@ == (s1 + s2)[i].1 by {
        if i < v1.len() {
            assert(v1[i].0 == s1[i].0 && v1[i].1@ == s1[i].1);
        } else {
            assert(v2[i - v1.len()].0 == s2[i - s1.len()].0 && v2[i - v1.len()].1@ == s2[i
                - s1.len()].1);
        }
    }
}

/// Anything priced by the catalog: a list of (quantity, material name) pairs.
pub trait MaterialCost {
    /// The mathematical cost list this entry's `cost` must produce.
    spec fn cost_spec(&self) -> Seq<(i32, Seq<char>)>;

    /// Recipe cost of this catalog entry.
    fn cost(&self) -> (r: Vec<(i32, String)>)
        ensures
            cost_entries_match(r@, self.cost_spec()),
    ;
}

pub(crate) fn cost_one(q: i32, m: String) -> (r: Vec<(i32, String)>)
    ensures
        cost_entries_match(r@, seq![(q, m@)]),
{
    let mut r: Vec<(i32, String)> = Vec::new();
    r.push((q, m));
    r
}

pub(crate) fn cost_two(q1: i32, m1: String, q2: i32, m2: String) -> (r: Vec<(i32, String)>)
    ensures
        cost_entries_match(r@, seq![(q1, m1@), (q2, m2@)]),
{
    let mut r: Vec<(i32, String)> = Vec::new();
    r.push((q1, m1));
    r.push((q2, m2));
    r
}

pub(crate) fn cost_three(
    q1: i32,
    m1: String,
    q2: i32,
    m2: String,
    q3: i32,
    m3: String,
) -> (r: Vec<(i32, String)>)
    ensures
        cost_entries_match(r@, seq![(q1, m1@), (q2, m2@), (q3, m3@)]),
{
    let mut r: Vec<(i32, String)> = Vec::new();
    r.push((q1, m1));
    r.push((q2, m2));
    r.push((q3, m3));
    r
}

pub(crate) fn cost_four(
    q1: i32,
    m1: String,
    q2: i32,
    m2: String,
    q3: i32,
    m3: String,
    q4: i32,
    m4: String,
) -> (r: Vec<(i32, String)>)
    ensures
        cost_entries_match(r@, seq![(q1, m1@), (q2, m2@), (q3, m3@), (q4, m4@)]),
{
    let mut r: Vec<(i32, String)> = Vec::new();
    r.push((q1, m1));
    r.push((q2, m2));
    r.push((q3, m3));
    r.push((q4, m4));
    r
}

/// Rune consumed by the enchanting step, one per quality tier.
pub open spec fn enchantment_quality_cost_spec(q: GearQuality) -> Seq<(i32, Seq<char>)> {
    match q {
        GearQuality::White => seq![(1i32, RuneQualityMaterials::Ta.name_spec())],
        GearQuality::Green => seq![(1i32, RuneQualityMaterials::Jejota.name_spec())],
        GearQuality::Blue => seq![(1i32, RuneQualityMaterials::Denata.name_spec())],
        GearQuality::Purple => seq![(1i32, RuneQualityMaterials::Rekuta.name_spec())],
        GearQuality::Yellow => seq![(1i32, RuneQualityMaterials::Kuta.name_spec())],
    }
}

/// The quality rune an enchanted piece consumes on top of its glyph runes.
pub fn get_enchantment_quality_cost(quality: &GearQuality) -> (r: Vec<(i32, String)>)
    ensures
        cost_entries_match(r@, enchantment_quality_cost_spec(*quality)),
{
    match quality {
        GearQuality::White => cost_one(1, RuneQualityMaterials::Ta.display_name()),
        GearQuality::Green => cost_one(1, RuneQualityMaterials::Jejota.display_name()),
        GearQuality::Blue => cost_one(1, RuneQualityMaterials::Denata.display_name()),
        GearQuality::Purple => cost_one(1, RuneQualityMaterials::Rekuta.display_name()),
        GearQuality::Yellow => cost_one(1, RuneQualityMaterials::Kuta.display_name()),
    }
}

/// Smithed (metal) pieces take one more refinement material per tier above White.
pub open spec fn blacksmith_quality_cost_spec(q: GearQuality) -> Seq<(i32, Seq<char>)> {
    match q {
        GearQuality::White => Seq::empty(),
        GearQuality::Green => seq![(2i32, BlacksmithQualityMaterials::HoningStone.name_spec())],
        GearQuality::Blue => seq![(2i32, BlacksmithQualityMaterials::HoningStone.name_spec()), (3i32, BlacksmithQualityMaterials::DwarvenOil.name_spec())],
        GearQuality::Purple => seq![(2i32, BlacksmithQualityMaterials::HoningStone.name_spec()), (3i32, BlacksmithQualityMaterials::DwarvenOil.name_spec()), (4i32, BlacksmithQualityMaterials::GrainSolvent.name_spec())],
        GearQuality::Yellow => seq![(2i32, BlacksmithQualityMaterials::HoningStone.name_spec()), (3i32, BlacksmithQualityMaterials::DwarvenOil.name_spec()), (4i32, BlacksmithQualityMaterials::GrainSolvent.name_spec()), (8i32, BlacksmithQualityMaterials::TemperingAlloy.name_spec())],
    }
}

pub fn get_blacksmith_quality_cost(quality: &GearQuality) -> (r: Vec<(i32, String)>)
    ensures
        cost_entries_match(r@, blacksmith_quality_cost_spec(*quality)),
{
    match quality {
        GearQuality::White => Vec::new(),
        GearQuality::Green => cost_one(
            2,
            BlacksmithQualityMaterials::HoningStone.display_name(),
        ),
        GearQuality::Blue => cost_two(
            2,
            BlacksmithQualityMaterials::HoningStone.display_name(),
            3,
            BlacksmithQualityMaterials::DwarvenOil.display_name(),
        ),
        GearQuality::Purple => cost_three(
            2,
            BlacksmithQualityMaterials::HoningStone.display_name(),
            3,
            BlacksmithQualityMaterials::DwarvenOil.display_name(),
            4,
            BlacksmithQualityMaterials::GrainSolvent.display_name(),
        ),
        GearQuality::Yellow => cost_four(
            2,
            BlacksmithQualityMaterials::HoningStone.display_name(),
            3,
            BlacksmithQualityMaterials::DwarvenOil.display_name(),
            4,
            BlacksmithQualityMaterials::GrainSolvent.display_name(),
            8,
            BlacksmithQualityMaterials::TemperingAlloy.display_name(),
        ),
    }
}

/// Tailored (cloth and leather) pieces take one more refinement material per tier above White.
pub open spec fn tailoring_quality_cost_spec(q: GearQuality) -> Seq<(i32, Seq<char>)> {
    match q {
        GearQuality::White => Seq::empty(),
        GearQuality::Green => seq![(2i32, TailoringQualityMaterials::Hemming.name_spec())],
        GearQuality::Blue => seq![(2i32, TailoringQualityMaterials::Hemming.name_spec()), (3i32, TailoringQualityMaterials::Embroidery.name_spec())],
        GearQuality::Purple => seq![(2i32, TailoringQualityMaterials::Hemming.name_spec()), (3i32, TailoringQualityMaterials::Embroidery.name_spec()), (4i32, TailoringQualityMaterials::ElegantLining.name_spec())],
        GearQuality::Yellow => seq![(2i32, TailoringQualityMaterials::Hemming.name_spec()), (3i32, TailoringQualityMaterials::Embroidery.name_spec()), (4i32, TailoringQualityMaterials::ElegantLining.name_spec()), (8i32, TailoringQualityMaterials::DreughWax.name_spec())],
    }
}

pub fn get_tailoring_quality_cost(quality: &GearQuality) -> (r: Vec<(i32, String)>)
    ensures
        cost_entries_match(r@, tailoring_quality_cost_spec(*quality)),
{
    match quality {
        GearQuality::White => Vec::new(),
        GearQuality::Green => cost_one(
            2,
            TailoringQualityMaterials::Hemming.display_name(),
        ),
        GearQuality::Blue => cost_two(
            2,
            TailoringQualityMaterials::Hemming.display_name(),
            3,
            TailoringQualityMaterials::Embroidery.display_name(),
        ),
        GearQuality::Purple => cost_three(
            2,
            TailoringQualityMaterials::Hemming.display_name(),
            3,
            TailoringQualityMaterials::Embroidery.display_name(),
            4,
            TailoringQualityMaterials::ElegantLining.display_name(),
        ),
        GearQuality::Yellow => cost_four(
            2,
            TailoringQualityMaterials::Hemming.display_name(),
            3,
            TailoringQualityMaterials::Embroidery.display_name(),
            4,
            TailoringQualityMaterials::ElegantLining.display_name(),
            8,
            TailoringQualityMaterials::DreughWax.display_name(),
        ),
    }
}

/// Woodworked pieces take one more refinement material per tier above White.
pub open spec fn woodworking_quality_cost_spec(q: GearQuality) -> Seq<(i32, Seq<char>)> {
    match q {
        GearQuality::White => Seq::empty(),
        GearQuality::Green => seq![(2i32, WoodworkingQualityMaterials::Pitch.name_spec())],
        GearQuality::Blue => seq![(2i32, WoodworkingQualityMaterials::Pitch.name_spec()), (3i32, WoodworkingQualityMaterials::Turpen.name_spec())],
        GearQuality::Purple => seq![(2i32, WoodworkingQualityMaterials::Pitch.name_spec()), (3i32, WoodworkingQualityMaterials::Turpen.name_spec()), (4i32, WoodworkingQualityMaterials::Mastic.name_spec())],
        GearQuality::Yellow => seq![(2i32, WoodworkingQualityMaterials::Pitch.name_spec()), (3i32, WoodworkingQualityMaterials::Turpen.name_spec()), (4i32, WoodworkingQualityMaterials::Mastic.name_spec()), (8i32, WoodworkingQualityMaterials::Rosin.name_spec())],
    }
}

pub fn get_woodworking_quality_cost(quality: &GearQuality) -> (r: Vec<(i32, String)>)
    ensures
        cost_entries_match(r@, woodworking_quality_cost_spec(*quality)),
{
    match quality {
        GearQuality::White => Vec::new(),
        GearQuality::Green => cost_one(
            2,
            WoodworkingQualityMaterials::Pitch.display_name(),
        ),
        GearQuality::Blue => cost_two(
            2,
            WoodworkingQualityMaterials::Pitch.display_name(),
            3,
            WoodworkingQualityMaterials::Turpen.display_name(),
        ),
        GearQuality::Purple => cost_three(
            2,
            WoodworkingQualityMaterials::Pitch.display_name(),
            3,
            WoodworkingQualityMaterials::Turpen.display_name(),
            4,
            WoodworkingQualityMaterials::Mastic.display_name(),
        ),
        GearQuality::Yellow => cost_four(
            2,
            WoodworkingQualityMaterials::Pitch.display_name(),
            3,
            WoodworkingQualityMaterials::Turpen.display_name(),
            4,
            WoodworkingQualityMaterials::Mastic.display_name(),
            8,
            WoodworkingQualityMaterials::Rosin.display_name(),
        ),
    }
}


/// A requestable piece of gear: a weapon kind, an armour part or a jewelry
/// kind.
///
/// Gear values are ordered for deterministic grouping: every weapon precedes
/// every armour part, which precede every jewelry kind; within a family the
/// catalog declaration order decides. `order_index_spec` realises that order.
#[derive(Clone, Copy, PartialEq, Eq, Structural, Debug)]
pub enum Gear {
    Weapon(WeaponKind),
    Armour(ArmourParts),
    Jewelry(Jewelries),
}

impl Gear {
    pub open spec fn name_spec(self) -> Seq<char> {
        match self {
            Gear::Weapon(w) => w.name_spec(),
            Gear::Armour(a) => a.name_spec(),
            Gear::Jewelry(j) => j.name_spec(),
        }
    }

    /// Canonical display name in the catalog.
    pub fn display_name(&self) -> (r: String)
        ensures
            r@ == self.name_spec(),
    {
        match self {
            Gear::Weapon(w) => w.display_name(),
            Gear::Armour(a) => a.display_name(),
            Gear::Jewelry(j) => j.display_name(),
        }
    }

    /// Total lookup by display name, trying armour, then jewelry, then
    /// weapons. The three catalogs have disjoint display names (see
    /// `lemma_gear_names_injective`), so the order only decides which lookup
    /// table answers first.
    pub fn from_name(s: &str) -> (r: Result<Self, OrderError>)
        ensures
            match r {
                Ok(v) => v.name_spec() == s@,
                Err(e) => e == OrderError::CatalogNotFound && forall|v: Self| v.name_spec() != s@,
            },
    {
        if let Ok(a) = ArmourParts::from_name(s) {
            Ok(Gear::Armour(a))
        } else if let Ok(j) = Jewelries::from_name(s) {
            Ok(Gear::Jewelry(j))
        } else if let Ok(w) = WeaponKind::from_name(s) {
            Ok(Gear::Weapon(w))
        } else {
            Err(OrderError::CatalogNotFound)
        }
    }

    /// Position in the fixed total order used for grouping and processing.
    pub open spec fn order_index_spec(self) -> int {
        match self {
            Gear::Weapon(WeaponKind::OneHanded(w)) => match w {
                OneHandedWeapons::Mace => 0,
                OneHandedWeapons::Dagger => 1,
                OneHandedWeapons::Sword => 2,
                OneHandedWeapons::Axe => 3,
            },
            Gear::Weapon(WeaponKind::TwoHanded(w)) => match w {
                TwoHandedWeapons::Mace => 4,
                TwoHandedWeapons::Sword => 5,
                TwoHandedWeapons::Axe => 6,
                TwoHandedWeapons::FrostStaff => 7,
                TwoHandedWeapons::FireStaff => 8,
                TwoHandedWeapons::LightningStaff => 9,
                TwoHandedWeapons::RestorationStaff => 10,
                TwoHandedWeapons::Bow => 11,
            },
            Gear::Armour(a) => match a {
                ArmourParts::Head => 12,
                ArmourParts::Shoulder => 13,
                ArmourParts::Body => 14,
                ArmourParts::Hands => 15,
                ArmourParts::Waist => 16,
                ArmourParts::Legs => 17,
                ArmourParts::Feet => 18,
                ArmourParts::Shield => 19,
            },
            Gear::Jewelry(j) => match j {
                Jewelries::Necklace => 20,
                Jewelries::Ring => 21,
            },
        }
    }

    /// Position in the fixed total order used for grouping and processing.
    pub fn order_index(&self) -> (r: u32)
        ensures
            r as int == self.order_index_spec(),
    {
        match self {
            Gear::Weapon(WeaponKind::OneHanded(w)) => match w {
                OneHandedWeapons::Mace => 0,
                OneHandedWeapons::Dagger => 1,
                OneHandedWeapons::Sword => 2,
                OneHandedWeapons::Axe => 3,
            },
            Gear::Weapon(WeaponKind::TwoHanded(w)) => match w {
                TwoHandedWeapons::Mace => 4,
                TwoHandedWeapons::Sword => 5,
                TwoHandedWeapons::Axe => 6,
                TwoHandedWeapons::FrostStaff => 7,
                TwoHandedWeapons::FireStaff => 8,
                TwoHandedWeapons::LightningStaff => 9,
                TwoHandedWeapons::RestorationStaff => 10,
                TwoHandedWeapons::Bow => 11,
            },
            Gear::Armour(a) => match a {
                ArmourParts::Head => 12,
                ArmourParts::Shoulder => 13,
                ArmourParts::Body => 14,
                ArmourParts::Hands => 15,
                ArmourParts::Waist => 16,
                ArmourParts::Legs => 17,
                ArmourParts::Feet => 18,
                ArmourParts::Shield => 19,
            },
            Gear::Jewelry(j) => match j {
                Jewelries::Necklace => 20,
                Jewelries::Ring => 21,
            },
        }
    }

    /// Gear with equal order indices is the same gear.
    pub proof fn lemma_order_index_injective(g1: Gear, g2: Gear)
        requires
            g1.order_index_spec() == g2.order_index_spec(),
        ensures
            g1 == g2,
    {
    }
}

/// Distinct catalog kinds never share a display name, so resolving a kind
/// through the display-name lookup and back yields the original kind.
pub proof fn lemma_gear_names_injective(g1: Gear, g2: Gear)
    requires
        g1.name_spec() == g2.name_spec(),
    ensures
        g1 == g2,
{
    reveal_strlit("Cabeza");
    reveal_strlit("Hombros");
    reveal_strlit("Cuerpo");
    reveal_strlit("Manos");
    reveal_strlit("Cintura");
    reveal_strlit("Piernas");
    reveal_strlit("Pies");
    reveal_strlit("Escudo");
    reveal_strlit("Collar");
    reveal_strlit("Anillo");
    reveal_strlit("Maza");
    reveal_strlit("Daga");
    reveal_strlit("Espada");
    reveal_strlit("Hacha");
    reveal_strlit("Mazo");
    reveal_strlit("Mandoble");
    reveal_strlit("Hacha de combate");
    reveal_strlit("Bastón glacial");
    reveal_strlit("Bastón infernal");
    reveal_strlit("Bastón eléctrico");
    reveal_strlit("Bastón de restauración");
    reveal_strlit("Arco");
    assert("Cabeza"@.len() != "Hombros"@.len());
    assert("Cabeza"@ != "Hombros"@);
    assert("Cabeza"@[1] != "Cuerpo"@[1]);
    assert("Cabeza"@ != "Cuerpo"@);
    assert("Cabeza"@.len() != "Manos"@.len());
    assert("Cabeza"@ != "Manos"@);
    assert("Cabeza"@.len() != "Cintura"@.len());
    assert("Cabeza"@ != "Cintura"@);
    assert("Cabeza"@.len() != "Piernas"@.len());
    assert("Cabeza"@ != "Piernas"@);
    assert("Cabeza"@.len() != "Pies"@.len());
    assert("Cabeza"@ != "Pies"@);
    assert("Cabeza"@[0] != "Escudo"@[0]);
    assert("Cabeza"@ != "Escudo"@);
    assert("Cabeza"@[1] != "Collar"@[1]);
    assert("Cabeza"@ != "Collar"@);
    assert("Cabeza"@[0] != "Anillo"@[0]);
    assert("Cabeza"@ != "Anillo"@);
    assert("Cabeza"@.len() != "Maza"@.len());
    assert("Cabeza"@ != "Maza"@);
    assert("Cabeza"@.len() != "Daga"@.len());
    assert("Cabeza"@ != "Daga"@);
    assert("Cabeza"@[0] != "Espada"@[0]);
    assert("Cabeza"@ != "Espada"@);
    assert("Cabeza"@.len() != "Hacha"@.len());
    assert("Cabeza"@ != "Hacha"@);
    assert("Cabeza"@.len() != "Mazo"@.len());
    assert("Cabeza"@ != "Mazo"@);
    assert("Cabeza"@.len() != "Mandoble"@.len());
    assert("Cabeza"@ != "Mandoble"@);
    assert("Cabeza"@.len() != "Hacha de combate"@.len());
    assert("Cabeza"@ != "Hacha de combate"@);
    assert("Cabeza"@.len() != "Bastón glacial"@.len());
    assert("Cabeza"@ != "Bastón glacial"@);
    assert("Cabeza"@.len() != "Bastón infernal"@.len());
    assert("Cabeza"@ != "Bastón infernal"@);
    assert("Cabeza"@.len() != "Bastón eléctrico"@.len());
    assert("Cabeza"@ != "Bastón eléctrico"@);
    assert("Cabeza"@.len() != "Bastón de restauración"@.len());
    assert("Cabeza"@ != "Bastón de restauración"@);
    assert("Cabeza"@.len() != "Arco"@.len());
    assert("Cabeza"@ != "Arco"@);
    assert("Hombros"@.len() != "Cuerpo"@.len());
    assert("Hombros"@ != "Cuerpo"@);
    assert("Hombros"@.len() != "Manos"@.len());
    assert("Hombros"@ != "Manos"@);
    assert("Hombros"@[0] != "Cintura"@[0]);
    assert("Hombros"@ != "Cintura"@);
    assert("Hombros"@[0] != "Piernas"@[0]);
    assert("Hombros"@ != "Piernas"@);
    assert("Hombros"@.len() != "Pies"@.len());
    assert("Hombros"@ != "Pies"@);
    assert("Hombros"@.len() != "Escudo"@.len());
    assert("Hombros"@ != "Escudo"@);
    assert("Hombros"@.len() != "Collar"@.len());
    assert("Hombros"@ != "Collar"@);
    assert("Hombros"@.len() != "Anillo"@.len());
    assert("Hombros"@ != "Anillo"@);
    assert("Hombros"@.len() != "Maza"@.len());
    assert("Hombros"@ != "Maza"@);
    assert("Hombros"@.len() != "Daga"@.len());
    assert("Hombros"@ != "Daga"@);
    assert("Hombros"@.len() != "Espada"@.len());
    assert("Hombros"@ != "Espada"@);
    assert("Hombros"@.len() != "Hacha"@.len());
    assert("Hombros"@ != "Hacha"@);
    assert("Hombros"@.len() != "Mazo"@.len());
    assert("Hombros"@ != "Mazo"@);
    assert("Hombros"@.len() != "Mandoble"@.len());
    assert("Hombros"@ != "Mandoble"@);
    assert("Hombros"@.len() != "Hacha de combate"@.len());
    assert("Hombros"@ != "Hacha de combate"@);
    assert("Hombros"@.len() != "Bastón glacial"@.len());
    assert("Hombros"@ != "Bastón glacial"@);
    assert("Hombros"@.len() != "Bastón infernal"@.len());
    assert("Hombros"@ != "Bastón infernal"@);
    assert("Hombros"@.len() != "Bastón eléctrico"@.len());
    assert("Hombros"@ != "Bastón eléctrico"@);
    assert("Hombros"@.len() != "Bastón de restauración"@.len());
    assert("Hombros"@ != "Bastón de restauración"@);
    assert("Hombros"@.len() != "Arco"@.len());
    assert("Hombros"@ != "Arco"@);
    assert("Cuerpo"@.len() != "Manos"@.len());
    assert("Cuerpo"@ != "Manos"@);
    assert("Cuerpo"@.len() != "Cintura"@.len());
    assert("Cuerpo"@ != "Cintura"@);
    assert("Cuerpo"@.len() != "Piernas"@.len());
    assert("Cuerpo"@ != "Piernas"@);
    assert("Cuerpo"@.len() != "Pies"@.len());
    assert("Cuerpo"@ != "Pies"@);
    assert("Cuerpo"@[0] != "Escudo"@[0]);
    assert("Cuerpo"@ != "Escudo"@);
    assert("Cuerpo"@[1] != "Collar"@[1]);
    assert("Cuerpo"@ != "Collar"@);
    assert("Cuerpo"@[0] != "Anillo"@[0]);
    assert("Cuerpo"@ != "Anillo"@);
    assert("Cuerpo"@.len() != "Maza"@.len());
    assert("Cuerpo"@ != "Maza"@);
    assert("Cuerpo"@.len() != "Daga"@.len());
    assert("Cuerpo"@ != "Daga"@);
    assert("Cuerpo"@[0] != "Espada"@[0]);
    assert("Cuerpo"@ != "Espada"@);
    assert("Cuerpo"@.len() != "Hacha"@.len());
    assert("Cuerpo"@ != "Hacha"@);
    assert("Cuerpo"@.len() != "Mazo"@.len());
    assert("Cuerpo"@ != "Mazo"@);
    assert("Cuerpo"@.len() != "Mandoble"@.len());
    assert("Cuerpo"@ != "Mandoble"@);
    assert("Cuerpo"@.len() != "Hacha de combate"@.len());
    assert("Cuerpo"@ != "Hacha de combate"@);
    assert("Cuerpo"@.len() != "Bastón glacial"@.len());
    assert("Cuerpo"@ != "Bastón glacial"@);
    assert("Cuerpo"@.len() != "Bastón infernal"@.len());
    assert("Cuerpo"@ != "Bastón infernal"@);
    assert("Cuerpo"@.len() != "Bastón eléctrico"@.len());
    assert("Cuerpo"@ != "Bastón eléctrico"@);
    assert("Cuerpo"@.len() != "Bastón de restauración"@.len());
    assert("Cuerpo"@ != "Bastón de restauración"@);
    assert("Cuerpo"@.len() != "Arco"@.len());
    assert("Cuerpo"@ != "Arco"@);
    assert("Manos"@.len() != "Cintura"@.len());
    assert("Manos"@ != "Cintura"@);
    assert("Manos"@.len() != "Piernas"@.len());
    assert("Manos"@ != "Piernas"@);
    assert("Manos"@.len() != "Pies"@.len());
    assert("Manos"@ != "Pies"@);
    assert("Manos"@.len() != "Escudo"@.len());
    assert("Manos"@ != "Escudo"@);
    assert("Manos"@.len() != "Collar"@.len());
    assert("Manos"@ != "Collar"@);
    assert("Manos"@.len() != "Anillo"@.len());
    assert("Manos"@ != "Anillo"@);
    assert("Manos"@.len() != "Maza"@.len());
    assert("Manos"@ != "Maza"@);
    assert("Manos"@.len() != "Daga"@.len());
    assert("Manos"@ != "Daga"@);
    assert("Manos"@.len() != "Espada"@.len());
    assert("Manos"@ != "Espada"@);
    assert("Manos"@[0] != "Hacha"@[0]);
    assert("Manos"@ != "Hacha"@);
    assert("Manos"@.len() != "Mazo"@.len());
    assert("Manos"@ != "Mazo"@);
    assert("Manos"@.len() != "Mandoble"@.len());
    assert("Manos"@ != "Mandoble"@);
    assert("Manos"@.len() != "Hacha de combate"@.len());
    assert("Manos"@ != "Hacha de combate"@);
    assert("Manos"@.len() != "Bastón glacial"@.len());
    assert("Manos"@ != "Bastón glacial"@);
    assert("Manos"@.len() != "Bastón infernal"@.len());
    assert("Manos"@ != "Bastón infernal"@);
    assert("Manos"@.len() != "Bastón eléctrico"@.len());
    assert("Manos"@ != "Bastón eléctrico"@);
    assert("Manos"@.len() != "Bastón de restauración"@.len());
    assert("Manos"@ != "Bastón de restauración"@);
    assert("Manos"@.len() != "Arco"@.len());
    assert("Manos"@ != "Arco"@);
    assert("Cintura"@[0] != "Piernas"@[0]);
    assert("Cintura"@ != "Piernas"@);
    assert("Cintura"@.len() != "Pies"@.len());
    assert("Cintura"@ != "Pies"@);
    assert("Cintura"@.len() != "Escudo"@.len());
    assert("Cintura"@ != "Escudo"@);
    assert("Cintura"@.len() != "Collar"@.len());
    assert("Cintura"@ != "Collar"@);
    assert("Cintura"@.len() != "Anillo"@.len());
    assert("Cintura"@ != "Anillo"@);
    assert("Cintura"@.len() != "Maza"@.len());
    assert("Cintura"@ != "Maza"@);
    assert("Cintura"@.len() != "Daga"@.len());
    assert("Cintura"@ != "Daga"@);
    assert("Cintura"@.len() != "Espada"@.len());
    assert("Cintura"@ != "Espada"@);
    assert("Cintura"@.len() != "Hacha"@.len());
    assert("Cintura"@ != "Hacha"@);
    assert("Cintura"@.len() != "Mazo"@.len());
    assert("Cintura"@ != "Mazo"@);
    assert("Cintura"@.len() != "Mandoble"@.len());
    assert("Cintura"@ != "Mandoble"@);
    assert("Cintura"@.len() != "Hacha de combate"@.len());
    assert("Cintura"@ != "Hacha de combate"@);
    assert("Cintura"@.len() != "Bastón glacial"@.len());
    assert("Cintura"@ != "Bastón glacial"@);
    assert("Cintura"@.len() != "Bastón infernal"@.len());
    assert("Cintura"@ != "Bastón infernal"@);
    assert("Cintura"@.len() != "Bastón eléctrico"@.len());
    assert("Cintura"@ != "Bastón eléctrico"@);
    assert("Cintura"@.len() != "Bastón de restauración"@.len());
    assert("Cintura"@ != "Bastón de restauración"@);
    assert("Cintura"@.len() != "Arco"@.len());
    assert("Cintura"@ != "Arco"@);
    assert("Piernas"@.len() != "Pies"@.len());
    assert("Piernas"@ != "Pies"@);
    assert("Piernas"@.len() != "Escudo"@.len());
    assert("Piernas"@ != "Escudo"@);
    assert("Piernas"@.len() != "Collar"@.len());
    assert("Piernas"@ != "Collar"@);
    assert("Piernas"@.len() != "Anillo"@.len());
    assert("Piernas"@ != "Anillo"@);
    assert("Piernas"@.len() != "Maza"@.len());
    assert("Piernas"@ != "Maza"@);
    assert("Piernas"@.len() != "Daga"@.len());
    assert("Piernas"@ != "Daga"@);
    assert("Piernas"@.len() != "Espada"@.len());
    assert("Piernas"@ != "Espada"@);
    assert("Piernas"@.len() != "Hacha"@.len());
    assert("Piernas"@ != "Hacha"@);
    assert("Piernas"@.len() != "Mazo"@.len());
    assert("Piernas"@ != "Mazo"@);
    assert("Piernas"@.len() != "Mandoble"@.len());
    assert("Piernas"@ != "Mandoble"@);
    assert("Piernas"@.len() != "Hacha de combate"@.len());
    assert("Piernas"@ != "Hacha de combate"@);
    assert("Piernas"@.len() != "Bastón glacial"@.len());
    assert("Piernas"@ != "Bastón glacial"@);
    assert("Piernas"@.len() != "Bastón infernal"@.len());
    assert("Piernas"@ != "Bastón infernal"@);
    assert("Piernas"@.len() != "Bastón eléctrico"@.len());
    assert("Piernas"@ != "Bastón eléctrico"@);
    assert("Piernas"@.len() != "Bastón de restauración"@.len());
    assert("Piernas"@ != "Bastón de restauración"@);
    assert("Piernas"@.len() != "Arco"@.len());
    assert("Piernas"@ != "Arco"@);
    assert("Pies"@.len() != "Escudo"@.len());
    assert("Pies"@ != "Escudo"@);
    assert("Pies"@.len() != "Collar"@.len());
    assert("Pies"@ != "Collar"@);
    assert("Pies"@.len() != "Anillo"@.len());
    assert("Pies"@ != "Anillo"@);
    assert("Pies"@[0] != "Maza"@[0]);
    assert("Pies"@ != "Maza"@);
    assert("Pies"@[0] != "Daga"@[0]);
    assert("Pies"@ != "Daga"@);
    assert("Pies"@.len() != "Espada"@.len());
    assert("Pies"@ != "Espada"@);
    assert("Pies"@.len() != "Hacha"@.len());
    assert("Pies"@ != "Hacha"@);
    assert("Pies"@[0] != "Mazo"@[0]);
    assert("Pies"@ != "Mazo"@);
    assert("Pies"@.len() != "Mandoble"@.len());
    assert("Pies"@ != "Mandoble"@);
    assert("Pies"@.len() != "Hacha de combate"@.len());
    assert("Pies"@ != "Hacha de combate"@);
    assert("Pies"@.len() != "Bastón glacial"@.len());
    assert("Pies"@ != "Bastón glacial"@);
    assert("Pies"@.len() != "Bastón infernal"@.len());
    assert("Pies"@ != "Bastón infernal"@);
    assert("Pies"@.len() != "Bastón eléctrico"@.len());
    assert("Pies"@ != "Bastón eléctrico"@);
    assert("Pies"@.len() != "Bastón de restauración"@.len());
    assert("Pies"@ != "Bastón de restauración"@);
    assert("Pies"@[0] != "Arco"@[0]);
    assert("Pies"@ != "Arco"@);
    assert("Escudo"@[0] != "Collar"@[0]);
    assert("Escudo"@ != "Collar"@);
    assert("Escudo"@[0] != "Anillo"@[0]);
    assert("Escudo"@ != "Anillo"@);
    assert("Escudo"@.len() != "Maza"@.len());
    assert("Escudo"@ != "Maza"@);
    assert("Escudo"@.len() != "Daga"@.len());
    assert("Escudo"@ != "Daga"@);
    assert("Escudo"@[2] != "Espada"@[2]);
    assert("Escudo"@ != "Espada"@);
    assert("Escudo"@.len() != "Hacha"@.len());
    assert("Escudo"@ != "Hacha"@);
    assert("Escudo"@.len() != "Mazo"@.len());
    assert("Escudo"@ != "Mazo"@);
    assert("Escudo"@.len() != "Mandoble"@.len());
    assert("Escudo"@ != "Mandoble"@);
    assert("Escudo"@.len() != "Hacha de combate"@.len());
    assert("Escudo"@ != "Hacha de combate"@);
    assert("Escudo"@.len() != "Bastón glacial"@.len());
    assert("Escudo"@ != "Bastón glacial"@);
    assert("Escudo"@.len() != "Bastón infernal"@.len());
    assert("Escudo"@ != "Bastón infernal"@);
    assert("Escudo"@.len() != "Bastón eléctrico"@.len());
    assert("Escudo"@ != "Bastón eléctrico"@);
    assert("Escudo"@.len() != "Bastón de restauración"@.len());
    assert("Escudo"@ != "Bastón de restauración"@);
    assert("Escudo"@.len() != "Arco"@.len());
    assert("Escudo"@ != "Arco"@);
    assert("Collar"@[0] != "Anillo"@[0]);
    assert("Collar"@ != "Anillo"@);
    assert("Collar"@.len() != "Maza"@.len());
    assert("Collar"@ != "Maza"@);
    assert("Collar"@.len() != "Daga"@.len());
    assert("Collar"@ != "Daga"@);
    assert("Collar"@[0] != "Espada"@[0]);
    assert("Collar"@ != "Espada"@);
    assert("Collar"@.len() != "Hacha"@.len());
    assert("Collar"@ != "Hacha"@);
    assert("Collar"@.len() != "Mazo"@.len());
    assert("Collar"@ != "Mazo"@);
    assert("Collar"@.len() != "Mandoble"@.len());
    assert("Collar"@ != "Mandoble"@);
    assert("Collar"@.len() != "Hacha de combate"@.len());
    assert("Collar"@ != "Hacha de combate"@);
    assert("Collar"@.len() != "Bastón glacial"@.len());
    assert("Collar"@ != "Bastón glacial"@);
    assert("Collar"@.len() != "Bastón infernal"@.len());
    assert("Collar"@ != "Bastón infernal"@);
    assert("Collar"@.len() != "Bastón eléctrico"@.len());
    assert("Collar"@ != "Bastón eléctrico"@);
    assert("Collar"@.len() != "Bastón de restauración"@.len());
    assert("Collar"@ != "Bastón de restauración"@);
    assert("Collar"@.len() != "Arco"@.len());
    assert("Collar"@ != "Arco"@);
    assert("Anillo"@.len() != "Maza"@.len());
    assert("Anillo"@ != "Maza"@);
    assert("Anillo"@.len() != "Daga"@.len());
    assert("Anillo"@ != "Daga"@);
    assert("Anillo"@[0] != "Espada"@[0]);
    assert("Anillo"@ != "Espada"@);
    assert("Anillo"@.len() != "Hacha"@.len());
    assert("Anillo"@ != "Hacha"@);
    assert("Anillo"@.len() != "Mazo"@.len());
    assert("Anillo"@ != "Mazo"@);
    assert("Anillo"@.len() != "Mandoble"@.len());
    assert("Anillo"@ != "Mandoble"@);
    assert("Anillo"@.len() != "Hacha de combate"@.len());
    assert("Anillo"@ != "Hacha de combate"@);
    assert("Anillo"@.len() != "Bastón glacial"@.len());
    assert("Anillo"@ != "Bastón glacial"@);
    assert("Anillo"@.len() != "Bastón infernal"@.len());
    assert("Anillo"@ != "Bastón infernal"@);
    assert("Anillo"@.len() != "Bastón eléctrico"@.len());
    assert("Anillo"@ != "Bastón eléctrico"@);
    assert("Anillo"@.len() != "Bastón de restauración"@.len());
    assert("Anillo"@ != "Bastón de restauración"@);
    assert("Anillo"@.len() != "Arco"@.len());
    assert("Anillo"@ != "Arco"@);
    assert("Maza"@[0] != "Daga"@[0]);
    assert("Maza"@ != "Daga"@);
    assert("Maza"@.len() != "Espada"@.len());
    assert("Maza"@ != "Espada"@);
    assert("Maza"@.len() != "Hacha"@.len());
    assert("Maza"@ != "Hacha"@);
    assert("Maza"@[3] != "Mazo"@[3]);
    assert("Maza"@ != "Mazo"@);
    assert("Maza"@.len() != "Mandoble"@.len());
    assert("Maza"@ != "Mandoble"@);
    assert("Maza"@.len() != "Hacha de combate"@.len());
    assert("Maza"@ != "Hacha de combate"@);
    assert("Maza"@.len() != "Bastón glacial"@.len());
    assert("Maza"@ != "Bastón glacial"@);
    assert("Maza"@.len() != "Bastón infernal"@.len());
    assert("Maza"@ != "Bastón infernal"@);
    assert("Maza"@.len() != "Bastón eléctrico"@.len());
    assert("Maza"@ != "Bastón eléctrico"@);
    assert("Maza"@.len() != "Bastón de restauración"@.len());
    assert("Maza"@ != "Bastón de restauración"@);
    assert("Maza"@[0] != "Arco"@[0]);
    assert("Maza"@ != "Arco"@);
    assert("Daga"@.len() != "Espada"@.len());
    assert("Daga"@ != "Espada"@);
    assert("Daga"@.len() != "Hacha"@.len());
    assert("Daga"@ != "Hacha"@);
    assert("Daga"@[0] != "Mazo"@[0]);
    assert("Daga"@ != "Mazo"@);
    assert("Daga"@.len() != "Mandoble"@.len());
    assert("Daga"@ != "Mandoble"@);
    assert("Daga"@.len() != "Hacha de combate"@.len());
    assert("Daga"@ != "Hacha de combate"@);
    assert("Daga"@.len() != "Bastón glacial"@.len());
    assert("Daga"@ != "Bastón glacial"@);
    assert("Daga"@.len() != "Bastón infernal"@.len());
    assert("Daga"@ != "Bastón infernal"@);
    assert("Daga"@.len() != "Bastón eléctrico"@.len());
    assert("Daga"@ != "Bastón eléctrico"@);
    assert("Daga"@.len() != "Bastón de restauración"@.len());
    assert("Daga"@ != "Bastón de restauración"@);
    assert("Daga"@[0] != "Arco"@[0]);
    assert("Daga"@ != "Arco"@);
    assert("Espada"@.len() != "Hacha"@.len());
    assert("Espada"@ != "Hacha"@);
    assert("Espada"@.len() != "Mazo"@.len());
    assert("Espada"@ != "Mazo"@);
    assert("Espada"@.len() != "Mandoble"@.len());
    assert("Espada"@ != "Mandoble"@);
    assert("Espada"@.len() != "Hacha de combate"@.len());
    assert("Espada"@ != "Hacha de combate"@);
    assert("Espada"@.len() != "Bastón glacial"@.len());
    assert("Espada"@ != "Bastón glacial"@);
    assert("Espada"@.len() != "Bastón infernal"@.len());
    assert("Espada"@ != "Bastón infernal"@);
    assert("Espada"@.len() != "Bastón eléctrico"@.len());
    assert("Espada"@ != "Bastón eléctrico"@);
    assert("Espada"@.len() != "Bastón de restauración"@.len());
    assert("Espada"@ != "Bastón de restauración"@);
    assert("Espada"@.len() != "Arco"@.len());
    assert("Espada"@ != "Arco"@);
    assert("Hacha"@.len() != "Mazo"@.len());
    assert("Hacha"@ != "Mazo"@);
    assert("Hacha"@.len() != "Mandoble"@.len());
    assert("Hacha"@ != "Mandoble"@);
    assert("Hacha"@.len() != "Hacha de combate"@.len());
    assert("Hacha"@ != "Hacha de combate"@);
    assert("Hacha"@.len() != "Bastón glacial"@.len());
    assert("Hacha"@ != "Bastón glacial"@);
    assert("Hacha"@.len() != "Bastón infernal"@.len());
    assert("Hacha"@ != "Bastón infernal"@);
    assert("Hacha"@.len() != "Bastón eléctrico"@.len());
    assert("Hacha"@ != "Bastón eléctrico"@);
    assert("Hacha"@.len() != "Bastón de restauración"@.len());
    assert("Hacha"@ != "Bastón de restauración"@);
    assert("Hacha"@.len() != "Arco"@.len());
    assert("Hacha"@ != "Arco"@);
    assert("Mazo"@.len() != "Mandoble"@.len());
    assert("Mazo"@ != "Mandoble"@);
    assert("Mazo"@.len() != "Hacha de combate"@.len());
    assert("Mazo"@ != "Hacha de combate"@);
    assert("Mazo"@.len() != "Bastón glacial"@.len());
    assert("Mazo"@ != "Bastón glacial"@);
    assert("Mazo"@.len() != "Bastón infernal"@.len());
    assert("Mazo"@ != "Bastón infernal"@);
    assert("Mazo"@.len() != "Bastón eléctrico"@.len());
    assert("Mazo"@ != "Bastón eléctrico"@);
    assert("Mazo"@.len() != "Bastón de restauración"@.len());
    assert("Mazo"@ != "Bastón de restauración"@);
    assert("Mazo"@[0] != "Arco"@[0]);
    assert("Mazo"@ != "Arco"@);
    assert("Mandoble"@.len() != "Hacha de combate"@.len());
    assert("Mandoble"@ != "Hacha de combate"@);
    assert("Mandoble"@.len() != "Bastón glacial"@.len());
    assert("Mandoble"@ != "Bastón glacial"@);
    assert("Mandoble"@.len() != "Bastón infernal"@.len());
    assert("Mandoble"@ != "Bastón infernal"@);
    assert("Mandoble"@.len() != "Bastón eléctrico"@.len());
    assert("Mandoble"@ != "Bastón eléctrico"@);
    assert("Mandoble"@.len() != "Bastón de restauración"@.len());
    assert("Mandoble"@ != "Bastón de restauración"@);
    assert("Mandoble"@.len() != "Arco"@.len());
    assert("Mandoble"@ != "Arco"@);
    assert("Hacha de combate"@.len() != "Bastón glacial"@.len());
    assert("Hacha de combate"@ != "Bastón glacial"@);
    assert("Hacha de combate"@.len() != "Bastón infernal"@.len());
    assert("Hacha de combate"@ != "Bastón infernal"@);
    assert("Hacha de combate"@[0] != "Bastón eléctrico"@[0]);
    assert("Hacha de combate"@ != "Bastón eléctrico"@);
    assert("Hacha de combate"@.len() != "Bastón de restauración"@.len());
    assert("Hacha de combate"@ != "Bastón de restauración"@);
    assert("Hacha de combate"@.len() != "Arco"@.len());
    assert("Hacha de combate"@ != "Arco"@);
    assert("Bastón glacial"@.len() != "Bastón infernal"@.len());
    assert("Bastón glacial"@ != "Bastón infernal"@);
    assert("Bastón glacial"@.len() != "Bastón eléctrico"@.len());
    assert("Bastón glacial"@ != "Bastón eléctrico"@);
    assert("Bastón glacial"@.len() != "Bastón de restauración"@.len());
    assert("Bastón glacial"@ != "Bastón de restauración"@);
    assert("Bastón glacial"@.len() != "Arco"@.len());
    assert("Bastón glacial"@ != "Arco"@);
    assert("Bastón infernal"@.len() != "Bastón eléctrico"@.len());
    assert("Bastón infernal"@ != "Bastón eléctrico"@);
    assert("Bastón infernal"@.len() != "Bastón de restauración"@.len());
    assert("Bastón infernal"@ != "Bastón de restauración"@);
    assert("Bastón infernal"@.len() != "Arco"@.len());
    assert("Bastón infernal"@ != "Arco"@);
    assert("Bastón eléctrico"@.len() != "Bastón de restauración"@.len());
    assert("Bastón eléctrico"@ != "Bastón de restauración"@);
    assert("Bastón eléctrico"@.len() != "Arco"@.len());
    assert("Bastón eléctrico"@ != "Arco"@);
    assert("Bastón de restauración"@.len() != "Arco"@.len());
    assert("Bastón de restauración"@ != "Arco"@);

}

} // verus!

