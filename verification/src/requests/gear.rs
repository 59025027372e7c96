//! The order elicitation state machine.
//!
//! One `Elicitation` value walks a single requester through one order: part
//! selection, ring and dual-wield duplication, per-item attribute resolution
//! with per-family bulk defaults, and the final confirmation gate. The
//! machine never performs any transport itself: the caller reads
//! `current_prompt`, asks the requester over whatever channel it has, and
//! feeds the answer back in. A timeout at any step cancels the whole order.

use vstd::prelude::*;

verus! {

use crate::components::SetPiece;
use crate::entities::Gear;
use crate::entities::GearQuality;
use crate::entities::OrderError;
use crate::entities::armour::Armour;
use crate::entities::armour::ArmourEnchantments;
use crate::entities::armour::ArmourParts;
use crate::entities::armour::ArmourTraits;
use crate::entities::armour::ArmourWeights;
use crate::entities::jewelry::Jewelries;
use crate::entities::jewelry::Jewelry;
use crate::entities::jewelry::JewelryEnchantments;
use crate::entities::jewelry::JewelryTraits;
use crate::entities::weapon::OneHandedWeapons;
use crate::entities::weapon::Weapon;
use crate::entities::weapon::WeaponEnchantments;
use crate::entities::weapon::WeaponKind;
use crate::entities::weapon::WeaponTraits;
use vstd::seq_lib::lemma_multiset_commutative;

/// A placed order: its name and the finalized pieces, in processing order.
#[derive(Clone, PartialEq, Eq, Debug)]
pub struct Order {
    pub name: String,
    pub items: Vec<SetPiece>,
}

/// A full crafting order resolves every attribute; a research order only
/// resolves traits (and weights for armour), fixes quality to White and
/// never asks about enchantments.
#[derive(Clone, Copy, PartialEq, Eq, Structural, Debug)]
pub enum OrderMode {
    Full,
    Research,
}

/// The attributes an item may need resolved.
#[derive(Clone, Copy, PartialEq, Eq, Structural, Debug)]
pub enum Attribute {
    GearTrait,
    Enchantment,
    Quality,
    Weight,
}

/// What the machine is waiting for.
#[derive(Clone, Copy, PartialEq, Eq, Debug)]
pub enum Prompt {
    /// Multi-select of the requested parts.
    SelectParts,
    /// One yes/no question per selected one-handed weapon.
    ConfirmDualWield(OneHandedWeapons),
    /// Asked once per full order: resolve enchantments at all?
    ConfirmEnchantments,
    /// The given attribute of the given item, by catalog display name.
    SelectAttribute(Attribute, Gear),
    /// Apply the sample item's attribute to the rest of its family?
    ConfirmBulk(Attribute),
    /// Is the order at the reference character-power tier?
    ConfirmPowerTier,
    /// The final confirm-or-cancel gate.
    ConfirmOrder,
}

/// A set of per-attribute choices. The machine keeps two: the bulk defaults
/// of the family being processed, and the values resolved so far for the
/// current item.
#[derive(Clone, Copy, PartialEq, Eq, Debug)]
pub struct AttributeChoices {
    pub weapon_trait: Option<WeaponTraits>,
    pub armour_trait: Option<ArmourTraits>,
    pub jewelry_trait: Option<JewelryTraits>,
    pub weapon_enchantment: Option<WeaponEnchantments>,
    pub armour_enchantment: Option<ArmourEnchantments>,
    pub jewelry_enchantment: Option<JewelryEnchantments>,
    pub quality: Option<GearQuality>,
    pub weight: Option<ArmourWeights>,
}

impl AttributeChoices {
    pub open spec fn none_spec() -> AttributeChoices {
        AttributeChoices {
            weapon_trait: None,
            armour_trait: None,
            jewelry_trait: None,
            weapon_enchantment: None,
            armour_enchantment: None,
            jewelry_enchantment: None,
            quality: None,
            weight: None,
        }
    }

    /// No choice made for any attribute.
    pub fn none() -> (r: AttributeChoices)
        ensures
            r == AttributeChoices::none_spec(),
    {
        AttributeChoices {
            weapon_trait: None,
            armour_trait: None,
            jewelry_trait: None,
            weapon_enchantment: None,
            armour_enchantment: None,
            jewelry_enchantment: None,
            quality: None,
            weight: None,
        }
    }

    /// Every choice `d` has made, `self` has made identically.
    pub open spec fn extends(self, d: AttributeChoices) -> bool {
        &&& (d.weapon_trait is Some ==> self.weapon_trait == d.weapon_trait)
        &&& (d.armour_trait is Some ==> self.armour_trait == d.armour_trait)
        &&& (d.jewelry_trait is Some ==> self.jewelry_trait == d.jewelry_trait)
        &&& (d.weapon_enchantment is Some ==> self.weapon_enchantment == d.weapon_enchantment)
        &&& (d.armour_enchantment is Some ==> self.armour_enchantment == d.armour_enchantment)
        &&& (d.jewelry_enchantment is Some ==> self.jewelry_enchantment == d.jewelry_enchantment)
        &&& (d.quality is Some ==> self.quality == d.quality)
        &&& (d.weight is Some ==> self.weight == d.weight)
    }
}

/// Grouping key of the fixed processing order: weapons, then armour, then
/// jewelry.
pub open spec fn gear_family(g: Gear) -> int {
    match g {
        Gear::Weapon(_) => 0,
        Gear::Armour(_) => 1,
        Gear::Jewelry(_) => 2,
    }
}

/// Sorted by the fixed gear order.
pub open spec fn sorted_by_order(s: Seq<Gear>) -> bool {
    forall|i: int, j: int|
        0 <= i < j < s.len() ==> (#[trigger] s[i]).order_index_spec() <= (
        #[trigger] s[j]).order_index_spec()
}

/// The fixed gear order groups by family: a later order index never belongs
/// to an earlier family.
pub proof fn lemma_family_follows_order(g1: Gear, g2: Gear)
    requires
        g1.order_index_spec() <= g2.order_index_spec(),
    ensures
        gear_family(g1) <= gear_family(g2),
{
}

/// In a sorted part list each family's members are contiguous, so an item
/// starts its family's run exactly when its predecessor belongs to another
/// family, and a family has a second member exactly when the next position
/// holds one.
pub proof fn lemma_sorted_families_contiguous(s: Seq<Gear>, i: int, k: int, j: int)
    requires
        sorted_by_order(s),
        0 <= i <= k <= j < s.len(),
        gear_family(s[i]) == gear_family(s[j]),
    ensures
        gear_family(s[k]) == gear_family(s[i]),
{
    lemma_family_follows_order(s[i], s[k]);
    lemma_family_follows_order(s[k], s[j]);
}

pub open spec fn is_one_handed(g: Gear) -> bool {
    g matches Gear::Weapon(WeaponKind::OneHanded(_))
}

/// The one-handed weapons among the first `i` selected parts, in order.
pub open spec fn one_handed_kinds_upto(s: Seq<Gear>, i: int) -> Seq<OneHandedWeapons>
    decreases i,
{
    if i <= 0 {
        Seq::empty()
    } else {
        match s[i - 1] {
            Gear::Weapon(WeaponKind::OneHanded(w)) => one_handed_kinds_upto(s, i - 1).push(w),
            _ => one_handed_kinds_upto(s, i - 1),
        }
    }
}

/// The one-handed weapons among the selected parts, in order: each gets one
/// dual-wield question.
pub open spec fn one_handed_kinds(s: Seq<Gear>) -> Seq<OneHandedWeapons> {
    one_handed_kinds_upto(s, s.len() as int)
}

/// Ring duplication over the first `i` parts: every requested Ring counts
/// twice, ring slots come in pairs.
pub open spec fn ring_expanded_upto(s: Seq<Gear>, i: int) -> Seq<Gear>
    decreases i,
{
    if i <= 0 {
        Seq::empty()
    } else {
        ring_expanded_upto(s, i - 1) + (if s[i - 1] == Gear::Jewelry(Jewelries::Ring) {
            seq![s[i - 1], s[i - 1]]
        } else {
            seq![s[i - 1]]
        })
    }
}

pub open spec fn ring_expanded(s: Seq<Gear>) -> Seq<Gear> {
    ring_expanded_upto(s, s.len() as int)
}

/// Whether the part at position `i` is duplicated by its dual-wield answer:
/// the k-th one-handed weapon consumes the k-th answer.
pub open spec fn dual_dup(s: Seq<Gear>, answers: Seq<bool>, i: int) -> bool {
    is_one_handed(s[i]) && {
        let k = one_handed_kinds_upto(s, i).len() as int;
        k < answers.len() && answers[k]
    }
}

/// Dual-wield duplication over the first `i` parts.
pub open spec fn dual_expanded_upto(s: Seq<Gear>, answers: Seq<bool>, i: int) -> Seq<Gear>
    decreases i,
{
    if i <= 0 {
        Seq::empty()
    } else {
        dual_expanded_upto(s, answers, i - 1) + (if dual_dup(s, answers, i - 1) {
            seq![s[i - 1], s[i - 1]]
        } else {
            seq![s[i - 1]]
        })
    }
}

pub open spec fn dual_expanded(s: Seq<Gear>, answers: Seq<bool>) -> Seq<Gear> {
    dual_expanded_upto(s, answers, s.len() as int)
}

/// The whole expansion step: dual-wield duplicates, then ring duplicates.
pub open spec fn expanded_parts(s: Seq<Gear>, answers: Seq<bool>) -> Seq<Gear> {
    ring_expanded(dual_expanded(s, answers))
}

proof fn lemma_one_handed_upto_mono(s: Seq<Gear>, i: int, j: int)
    requires
        0 <= i <= j,
    ensures
        one_handed_kinds_upto(s, i).len() <= one_handed_kinds_upto(s, j).len(),
    decreases j - i,
{
    if i < j {
        lemma_one_handed_upto_mono(s, i, j - 1);
    }
}

/// Executable expansion: one extra entry per requested Ring, one extra entry
/// per one-handed weapon whose dual-wield question was answered yes.
pub fn expand_parts(selection: &Vec<Gear>, answers: &Vec<bool>) -> (r: Vec<Gear>)
    requires
        answers@.len() == one_handed_kinds(selection@).len(),
    ensures
        r@ == expanded_parts(selection@, answers@),
{
    let ghost s = selection@;
    let ghost a = answers@;
    let total = answers.len();
    let mut dual: Vec<Gear> = Vec::new();
    let mut k: usize = 0;
    let mut i: usize = 0;
    while i < selection.len()
        invariant
            i <= s.len(),
            s == selection@,
            a == answers@,
            total == a.len(),
            a.len() == one_handed_kinds(s).len(),
            k == one_handed_kinds_upto(s, i as int).len(),
            dual@ == dual_expanded_upto(s, a, i as int),
        decreases s.len() - i,
    {
        let g = selection[i];
        proof {
            lemma_one_handed_upto_mono(s, i as int + 1, s.len() as int);
            if is_one_handed(s[i as int]) {
                assert(one_handed_kinds_upto(s, i as int + 1).len() == one_handed_kinds_upto(
                    s,
                    i as int,
                ).len() + 1);
            }
        }
        match g {
            Gear::Weapon(WeaponKind::OneHanded(_)) => {
                dual.push(g);
                if answers[k] {
                    dual.push(g);
                    proof {
                        assert(dual@ =~= dual_expanded_upto(s, a, i as int + 1));
                    }
                } else {
                    proof {
                        assert(dual@ =~= dual_expanded_upto(s, a, i as int + 1));
                    }
                }
                k = k + 1;
            },
            _ => {
                dual.push(g);
                proof {
                    assert(dual@ =~= dual_expanded_upto(s, a, i as int + 1));
                }
            },
        }
        i = i + 1;
    }
    let ghost d = dual@;
    let mut r: Vec<Gear> = Vec::new();
    let mut j: usize = 0;
    while j < dual.len()
        invariant
            j <= d.len(),
            d == dual@,
            r@ == ring_expanded_upto(d, j as int),
        decreases d.len() - j,
    {
        let g = dual[j];
        r.push(g);
        let is_ring = matches!(g, Gear::Jewelry(Jewelries::Ring));
        if is_ring {
            r.push(g);
        }
        proof {
            assert(r@ =~= ring_expanded_upto(d, j as int + 1));
        }
        j = j + 1;
    }
    r
}

/// Insertion sort by the fixed gear order. Gear with equal order indices is
/// identical, so no tie-breaking is ever observable.
pub fn sort_gear(v: Vec<Gear>) -> (r: Vec<Gear>)
    ensures
        sorted_by_order(r@),
        r@.to_multiset() == v@.to_multiset(),
{
    broadcast use vstd::seq_lib::group_to_multiset_ensures;

    let mut r: Vec<Gear> = Vec::new();
    let mut i: usize = 0;
    while i < v.len()
        invariant
            i <= v@.len(),
            sorted_by_order(r@),
            r@.to_multiset() == v@.take(i as int).to_multiset(),
        decreases v@.len() - i,
    {
        let x = v[i];
        let xi = x.order_index();
        let mut p: usize = 0;
        let mut done = false;
        while p < r.len() && !done
            invariant
                p <= r@.len(),
                forall|q: int| 0 <= q < p ==> (#[trigger] r@[q]).order_index_spec()
                    <= x.order_index_spec(),
                done ==> p < r@.len() && r@[p as int].order_index_spec() > x.order_index_spec(),
                xi as int == x.order_index_spec(),
            decreases r@.len() - p + (if done { 0int } else { 1int }),
        {
            if r[p].order_index() <= xi {
                p = p + 1;
            } else {
                done = true;
            }
        }
        let ghost r0 = r@;
        r.insert(p, x);
        proof {
            broadcast use vstd::seq_lib::group_to_multiset_ensures;

            assert(r@ =~= r0.subrange(0, p as int).push(x) + r0.subrange(p as int, r0.len() as int));
            assert(r@ =~= r0.insert(p as int, x));
            assert forall|q1: int, q2: int| 0 <= q1 < q2 < r@.len() implies (
            #[trigger] r@[q1]).order_index_spec() <= (#[trigger] r@[q2]).order_index_spec() by {
                if q1 < p && q2 == p {
                    assert(r@[q1] == r0[q1]);
                } else if q1 == p && q2 > p {
                    assert(r@[q2] == r0[q2 - 1]);
                    assert(done ==> r0[p as int].order_index_spec() > x.order_index_spec());
                    assert(!done ==> p as int == r0.len());
                    assert(r0[q2 - 1].order_index_spec() >= x.order_index_spec());
                } else if q1 < p && q2 > p {
                    assert(r@[q1] == r0[q1] && r@[q2] == r0[q2 - 1]);
                } else if q1 < p && q2 < p {
                    assert(r@[q1] == r0[q1] && r@[q2] == r0[q2]);
                } else if q1 > p && q2 > p {
                    assert(r@[q1] == r0[q1 - 1] && r@[q2] == r0[q2 - 1]);
                }
            }
            lemma_multiset_commutative(r0.subrange(0, p as int).push(x), r0.subrange(p as int, r0.len() as int));
            lemma_multiset_commutative(r0.subrange(0, p as int), r0.subrange(p as int, r0.len() as int));
            assert(r0.subrange(0, p as int) + r0.subrange(p as int, r0.len() as int) =~= r0);
            assert(r0.subrange(0, p as int).push(x).to_multiset() =~= r0.subrange(
                0,
                p as int,
            ).to_multiset().insert(x));
            assert(r@.to_multiset() =~= r0.to_multiset().insert(x));
            assert(v@.take(i as int + 1) =~= v@.take(i as int).push(x));
        }
        i = i + 1;
    }
    proof {
        assert(v@.take(v@.len() as int) =~= v@);
    }
    r
}

/// The weapon kinds of a selection, in order.
pub open spec fn weapon_kinds_of(s: Seq<Gear>) -> Seq<WeaponKind>
    decreases s.len(),
{
    if s.len() == 0 {
        Seq::empty()
    } else {
        (match s.first() {
            Gear::Weapon(w) => seq![w],
            _ => Seq::empty(),
        }) + weapon_kinds_of(s.drop_first())
    }
}

/// The armour parts of a selection, in order.
pub open spec fn armour_parts_of(s: Seq<Gear>) -> Seq<ArmourParts>
    decreases s.len(),
{
    if s.len() == 0 {
        Seq::empty()
    } else {
        (match s.first() {
            Gear::Armour(a) => seq![a],
            _ => Seq::empty(),
        }) + armour_parts_of(s.drop_first())
    }
}

/// The jewelry kinds of a selection, in order.
pub open spec fn jewelry_kinds_of(s: Seq<Gear>) -> Seq<Jewelries>
    decreases s.len(),
{
    if s.len() == 0 {
        Seq::empty()
    } else {
        (match s.first() {
            Gear::Jewelry(j) => seq![j],
            _ => Seq::empty(),
        }) + jewelry_kinds_of(s.drop_first())
    }
}

proof fn lemma_weapon_kinds_snoc(s: Seq<Gear>)
    requires
        s.len() > 0,
    ensures
        weapon_kinds_of(s) == weapon_kinds_of(s.drop_last()) + (match s.last() {
            Gear::Weapon(w) => seq![w],
            _ => Seq::empty(),
        }),
    decreases s.len(),
{
    if s.len() == 1 {
        assert(s.drop_last() =~= Seq::<Gear>::empty());
        assert(s.drop_first() =~= Seq::<Gear>::empty());
        assert(weapon_kinds_of(s) =~= weapon_kinds_of(s.drop_last()) + (match s.last() {
            Gear::Weapon(w) => seq![w],
            _ => Seq::empty(),
        }));
    } else {
        lemma_weapon_kinds_snoc(s.drop_first());
        assert(s.drop_first().drop_last() =~= s.drop_last().drop_first());
        assert(s.drop_first().last() == s.last());
        assert(s.drop_last().first() == s.first());
        assert(weapon_kinds_of(s) =~= weapon_kinds_of(s.drop_last()) + (match s.last() {
            Gear::Weapon(w) => seq![w],
            _ => Seq::empty(),
        }));
    }
}

proof fn lemma_armour_parts_snoc(s: Seq<Gear>)
    requires
        s.len() > 0,
    ensures
        armour_parts_of(s) == armour_parts_of(s.drop_last()) + (match s.last() {
            Gear::Armour(a) => seq![a],
            _ => Seq::empty(),
        }),
    decreases s.len(),
{
    if s.len() == 1 {
        assert(s.drop_last() =~= Seq::<Gear>::empty());
        assert(s.drop_first() =~= Seq::<Gear>::empty());
        assert(armour_parts_of(s) =~= armour_parts_of(s.drop_last()) + (match s.last() {
            Gear::Armour(a) => seq![a],
            _ => Seq::empty(),
        }));
    } else {
        lemma_armour_parts_snoc(s.drop_first());
        assert(s.drop_first().drop_last() =~= s.drop_last().drop_first());
        assert(s.drop_first().last() == s.last());
        assert(s.drop_last().first() == s.first());
        assert(armour_parts_of(s) =~= armour_parts_of(s.drop_last()) + (match s.last() {
            Gear::Armour(a) => seq![a],
            _ => Seq::empty(),
        }));
    }
}

proof fn lemma_jewelry_kinds_snoc(s: Seq<Gear>)
    requires
        s.len() > 0,
    ensures
        jewelry_kinds_of(s) == jewelry_kinds_of(s.drop_last()) + (match s.last() {
            Gear::Jewelry(j) => seq![j],
            _ => Seq::empty(),
        }),
    decreases s.len(),
{
    if s.len() == 1 {
        assert(s.drop_last() =~= Seq::<Gear>::empty());
        assert(s.drop_first() =~= Seq::<Gear>::empty());
        assert(jewelry_kinds_of(s) =~= jewelry_kinds_of(s.drop_last()) + (match s.last() {
            Gear::Jewelry(j) => seq![j],
            _ => Seq::empty(),
        }));
    } else {
        lemma_jewelry_kinds_snoc(s.drop_first());
        assert(s.drop_first().drop_last() =~= s.drop_last().drop_first());
        assert(s.drop_first().last() == s.last());
        assert(s.drop_last().first() == s.first());
        assert(jewelry_kinds_of(s) =~= jewelry_kinds_of(s.drop_last()) + (match s.last() {
            Gear::Jewelry(j) => seq![j],
            _ => Seq::empty(),
        }));
    }
}

/// Partitions selected gear into weapons, armour parts and jewelry, each in
/// selection order.
pub fn parse_gear_parts(parts: Vec<Gear>) -> (r: (Vec<WeaponKind>, Vec<ArmourParts>, Vec<Jewelries>))
    ensures
        r.0@ == weapon_kinds_of(parts@),
        r.1@ == armour_parts_of(parts@),
        r.2@ == jewelry_kinds_of(parts@),
{
    let mut weapons: Vec<WeaponKind> = Vec::new();
    let mut armour: Vec<ArmourParts> = Vec::new();
    let mut jewelry: Vec<Jewelries> = Vec::new();
    let mut i: usize = 0;
    while i < parts.len()
        invariant
            i <= parts@.len(),
            weapons@ == weapon_kinds_of(parts@.take(i as int)),
            armour@ == armour_parts_of(parts@.take(i as int)),
            jewelry@ == jewelry_kinds_of(parts@.take(i as int)),
        decreases parts@.len() - i,
    {
        proof {
            lemma_weapon_kinds_snoc(parts@.take(i as int + 1));
            lemma_armour_parts_snoc(parts@.take(i as int + 1));
            lemma_jewelry_kinds_snoc(parts@.take(i as int + 1));
            assert(parts@.take(i as int + 1).drop_last() =~= parts@.take(i as int));
            assert(parts@.take(i as int + 1).last() == parts@[i as int]);
        }
        match parts[i] {
            Gear::Weapon(w) => {
                weapons.push(w);
                proof {
                    assert(weapons@ =~= weapon_kinds_of(parts@.take(i as int + 1)));
                    assert(armour@ =~= armour_parts_of(parts@.take(i as int + 1)));
                    assert(jewelry@ =~= jewelry_kinds_of(parts@.take(i as int + 1)));
                }
            },
            Gear::Armour(a) => {
                armour.push(a);
                proof {
                    assert(weapons@ =~= weapon_kinds_of(parts@.take(i as int + 1)));
                    assert(armour@ =~= armour_parts_of(parts@.take(i as int + 1)));
                    assert(jewelry@ =~= jewelry_kinds_of(parts@.take(i as int + 1)));
                }
            },
            Gear::Jewelry(j) => {
                jewelry.push(j);
                proof {
                    assert(weapons@ =~= weapon_kinds_of(parts@.take(i as int + 1)));
                    assert(armour@ =~= armour_parts_of(parts@.take(i as int + 1)));
                    assert(jewelry@ =~= jewelry_kinds_of(parts@.take(i as int + 1)));
                }
            },
        }
        i = i + 1;
    }
    proof {
        assert(parts@.take(parts@.len() as int) =~= parts@);
    }
    (weapons, armour, jewelry)
}

/// Ring expansion doubles the Ring count and keeps every other count.
pub proof fn lemma_ring_expanded_count_upto(s: Seq<Gear>, i: int, g: Gear)
    requires
        0 <= i <= s.len(),
    ensures
        ring_expanded_upto(s, i).to_multiset().count(g) == (if g == Gear::Jewelry(Jewelries::Ring) {
            2 * s.take(i).to_multiset().count(g)
        } else {
            s.take(i).to_multiset().count(g)
        }),
    decreases i,
{
    broadcast use vstd::seq_lib::group_to_multiset_ensures;

    if i <= 0 {
        assert(s.take(0) =~= Seq::<Gear>::empty());
    } else {
        lemma_ring_expanded_count_upto(s, i - 1, g);
        let block = if s[i - 1] == Gear::Jewelry(Jewelries::Ring) {
            seq![s[i - 1], s[i - 1]]
        } else {
            seq![s[i - 1]]
        };
        lemma_multiset_commutative(ring_expanded_upto(s, i - 1), block);
        assert(seq![s[i - 1], s[i - 1]] =~= Seq::<Gear>::empty().push(s[i - 1]).push(s[i - 1]));
        assert(seq![s[i - 1]] =~= Seq::<Gear>::empty().push(s[i - 1]));
        assert(s.take(i) =~= s.take(i - 1).push(s[i - 1]));
    }
}

/// How many extra copies the dual-wield answers add for gear `g` among the
/// first `i` parts: one per yes answer at an occurrence of `g`.
pub open spec fn dual_extra_upto(s: Seq<Gear>, answers: Seq<bool>, i: int, g: Gear) -> int
    decreases i,
{
    if i <= 0 {
        0
    } else {
        dual_extra_upto(s, answers, i - 1, g) + (if s[i - 1] == g && dual_dup(s, answers, i - 1) {
            1int
        } else {
            0int
        })
    }
}

pub open spec fn dual_extra(s: Seq<Gear>, answers: Seq<bool>, g: Gear) -> int {
    dual_extra_upto(s, answers, s.len() as int, g)
}

/// Dual-wield expansion adds exactly the extras and keeps everything else.
pub proof fn lemma_dual_expanded_count_upto(s: Seq<Gear>, answers: Seq<bool>, i: int, g: Gear)
    requires
        0 <= i <= s.len(),
    ensures
        dual_expanded_upto(s, answers, i).to_multiset().count(g) == s.take(i).to_multiset().count(
            g,
        ) + dual_extra_upto(s, answers, i, g),
        !is_one_handed(g) ==> dual_extra_upto(s, answers, i, g) == 0,
    decreases i,
{
    broadcast use vstd::seq_lib::group_to_multiset_ensures;

    if i <= 0 {
        assert(s.take(0) =~= Seq::<Gear>::empty());
    } else {
        lemma_dual_expanded_count_upto(s, answers, i - 1, g);
        let block = if dual_dup(s, answers, i - 1) {
            seq![s[i - 1], s[i - 1]]
        } else {
            seq![s[i - 1]]
        };
        lemma_multiset_commutative(dual_expanded_upto(s, answers, i - 1), block);
        assert(seq![s[i - 1], s[i - 1]] =~= Seq::<Gear>::empty().push(s[i - 1]).push(s[i - 1]));
        assert(seq![s[i - 1]] =~= Seq::<Gear>::empty().push(s[i - 1]));
        assert(s.take(i) =~= s.take(i - 1).push(s[i - 1]));
    }
}

/// The expansion step adds exactly one extra Ring per requested Ring and
/// exactly one extra copy of a one-handed weapon per accepted dual-wield
/// answer at its occurrences; every other entry is kept exactly as selected.
pub proof fn lemma_expansion_counts(s: Seq<Gear>, answers: Seq<bool>, g: Gear)
    ensures
        g == Gear::Jewelry(Jewelries::Ring) ==> expanded_parts(s, answers).to_multiset().count(g)
            == 2 * s.to_multiset().count(g),
        is_one_handed(g) ==> expanded_parts(s, answers).to_multiset().count(g)
            == s.to_multiset().count(g) + dual_extra(s, answers, g),
        g != Gear::Jewelry(Jewelries::Ring) && !is_one_handed(g) ==> expanded_parts(
            s,
            answers,
        ).to_multiset().count(g) == s.to_multiset().count(g),
{
    let d = dual_expanded(s, answers);
    lemma_dual_expanded_count_upto(s, answers, s.len() as int, g);
    lemma_ring_expanded_count_upto(d, d.len() as int, g);
    assert(s.take(s.len() as int) =~= s);
    assert(d.take(d.len() as int) =~= d);
}

/// Whether `attr` must be resolved at all for `kind` under the mode.
pub open spec fn attr_needed(kind: Gear, attr: Attribute, research: bool, with_ench: bool) -> bool {
    match attr {
        Attribute::GearTrait => true,
        Attribute::Enchantment => with_ench && !research,
        Attribute::Quality => !research,
        Attribute::Weight => kind matches Gear::Armour(_),
    }
}

/// Whether `c` already holds a value for `attr` of `kind`.
pub open spec fn attr_set(kind: Gear, attr: Attribute, c: AttributeChoices) -> bool {
    match attr {
        Attribute::GearTrait => match kind {
            Gear::Weapon(_) => c.weapon_trait is Some,
            Gear::Armour(_) => c.armour_trait is Some,
            Gear::Jewelry(_) => c.jewelry_trait is Some,
        },
        Attribute::Enchantment => match kind {
            Gear::Weapon(_) => c.weapon_enchantment is Some,
            Gear::Armour(_) => c.armour_enchantment is Some,
            Gear::Jewelry(_) => c.jewelry_enchantment is Some,
        },
        Attribute::Quality => c.quality is Some,
        Attribute::Weight => c.weight is Some,
    }
}

/// The display name of the value `c` holds for `attr` of `kind`, if any.
pub open spec fn chosen_attr_name(c: AttributeChoices, attr: Attribute, kind: Gear) -> Option<
    Seq<char>,
> {
    match attr {
        Attribute::GearTrait => match kind {
            Gear::Weapon(_) => match c.weapon_trait {
                Some(t) => Some(t.name_spec()),
                None => None,
            },
            Gear::Armour(_) => match c.armour_trait {
                Some(t) => Some(t.name_spec()),
                None => None,
            },
            Gear::Jewelry(_) => match c.jewelry_trait {
                Some(t) => Some(t.name_spec()),
                None => None,
            },
        },
        Attribute::Enchantment => match kind {
            Gear::Weapon(_) => match c.weapon_enchantment {
                Some(e) => Some(e.name_spec()),
                None => None,
            },
            Gear::Armour(_) => match c.armour_enchantment {
                Some(e) => Some(e.name_spec()),
                None => None,
            },
            Gear::Jewelry(_) => match c.jewelry_enchantment {
                Some(e) => Some(e.name_spec()),
                None => None,
            },
        },
        Attribute::Quality => match c.quality {
            Some(q) => Some(q.name_spec()),
            None => None,
        },
        Attribute::Weight => match c.weight {
            Some(w) => Some(w.name_spec()),
            None => None,
        },
    }
}

/// The attribute resolution order: trait, then enchantment, then quality,
/// then weight. The next attribute of an item is the first one that is
/// needed and not yet chosen.
pub open spec fn next_attr_spec(
    kind: Gear,
    c: AttributeChoices,
    research: bool,
    with_ench: bool,
) -> Option<Attribute> {
    if attr_needed(kind, Attribute::GearTrait, research, with_ench) && !attr_set(
        kind,
        Attribute::GearTrait,
        c,
    ) {
        Some(Attribute::GearTrait)
    } else if attr_needed(kind, Attribute::Enchantment, research, with_ench) && !attr_set(
        kind,
        Attribute::Enchantment,
        c,
    ) {
        Some(Attribute::Enchantment)
    } else if attr_needed(kind, Attribute::Quality, research, with_ench) && !attr_set(
        kind,
        Attribute::Quality,
        c,
    ) {
        Some(Attribute::Quality)
    } else if attr_needed(kind, Attribute::Weight, research, with_ench) && !attr_set(
        kind,
        Attribute::Weight,
        c,
    ) {
        Some(Attribute::Weight)
    } else {
        None
    }
}

fn next_attr(kind: &Gear, c: &AttributeChoices, research: bool, with_ench: bool) -> (r: Option<
    Attribute,
>)
    ensures
        r == next_attr_spec(*kind, *c, research, with_ench),
{
    let is_armour = matches!(kind, Gear::Armour(_));
    let trait_set = match kind {
        Gear::Weapon(_) => c.weapon_trait.is_some(),
        Gear::Armour(_) => c.armour_trait.is_some(),
        Gear::Jewelry(_) => c.jewelry_trait.is_some(),
    };
    let ench_set = match kind {
        Gear::Weapon(_) => c.weapon_enchantment.is_some(),
        Gear::Armour(_) => c.armour_enchantment.is_some(),
        Gear::Jewelry(_) => c.jewelry_enchantment.is_some(),
    };
    if !trait_set {
        Some(Attribute::GearTrait)
    } else if with_ench && !research && !ench_set {
        Some(Attribute::Enchantment)
    } else if !research && !c.quality.is_some() {
        Some(Attribute::Quality)
    } else if is_armour && !c.weight.is_some() {
        Some(Attribute::Weight)
    } else {
        None
    }
}

/// Whether the choices cover every attribute `kind` needs under the mode.
pub open spec fn choices_complete(
    kind: Gear,
    c: AttributeChoices,
    research: bool,
    with_ench: bool,
) -> bool {
    forall|attr: Attribute|
        #[trigger] attr_needed(kind, attr, research, with_ench) ==> attr_set(kind, attr, c)
}

proof fn lemma_next_attr_none_complete(kind: Gear, c: AttributeChoices, research: bool, with_ench: bool)
    requires
        next_attr_spec(kind, c, research, with_ench) is None,
    ensures
        choices_complete(kind, c, research, with_ench),
{
    assert forall|attr: Attribute| #[trigger] attr_needed(kind, attr, research, with_ench) implies
        attr_set(kind, attr, c) by {
        match attr {
            Attribute::GearTrait => {},
            Attribute::Enchantment => {},
            Attribute::Quality => {},
            Attribute::Weight => {},
        }
    }
}

/// The piece a kind resolves to under complete choices: quality is White in
/// research mode, the enchantment is present exactly when the order opted
/// in, the weight only exists on armour.
pub open spec fn resolved_piece_spec(
    kind: Gear,
    c: AttributeChoices,
    research: bool,
    with_ench: bool,
) -> SetPiece {
    let quality = if research {
        GearQuality::White
    } else {
        c.quality->Some_0
    };
    match kind {
        Gear::Weapon(w) => SetPiece::Weapon(
            Weapon {
                kind: w,
                weapon_trait: c.weapon_trait->Some_0,
                enchantment: if with_ench && !research {
                    c.weapon_enchantment
                } else {
                    None
                },
                quality,
            },
        ),
        Gear::Armour(a) => SetPiece::Armour(
            Armour {
                kind: a,
                weight: c.weight->Some_0,
                armour_trait: c.armour_trait->Some_0,
                enchantment: if with_ench && !research {
                    c.armour_enchantment
                } else {
                    None
                },
                quality,
            },
        ),
        Gear::Jewelry(j) => SetPiece::Jewelry(
            Jewelry {
                kind: j,
                jewelry_trait: c.jewelry_trait->Some_0,
                enchantment: if with_ench && !research {
                    c.jewelry_enchantment
                } else {
                    None
                },
                quality,
            },
        ),
    }
}

/// Builds the piece for `kind` from complete choices.
pub fn resolve_piece(kind: &Gear, c: &AttributeChoices, research: bool, with_ench: bool) -> (p:
    SetPiece)
    requires
        choices_complete(*kind, *c, research, with_ench),
    ensures
        p == resolved_piece_spec(*kind, *c, research, with_ench),
{
    proof {
        assert(attr_needed(*kind, Attribute::GearTrait, research, with_ench));
        assert(attr_needed(*kind, Attribute::Quality, research, with_ench) == !research);
        if !research {
            assert(attr_set(*kind, Attribute::Quality, *c));
        }
        if with_ench && !research {
            assert(attr_needed(*kind, Attribute::Enchantment, research, with_ench));
            assert(attr_set(*kind, Attribute::Enchantment, *c));
        }
        if kind matches Gear::Armour(_) {
            assert(attr_needed(*kind, Attribute::Weight, research, with_ench));
        }
    }
    let quality = if research {
        GearQuality::White
    } else {
        c.quality.unwrap()
    };
    match kind {
        Gear::Weapon(w) => SetPiece::Weapon(
            Weapon {
                kind: *w,
                weapon_trait: c.weapon_trait.unwrap(),
                enchantment: if with_ench && !research {
                    c.weapon_enchantment
                } else {
                    None
                },
                quality,
            },
        ),
        Gear::Armour(a) => SetPiece::Armour(
            Armour {
                kind: *a,
                weight: c.weight.unwrap(),
                armour_trait: c.armour_trait.unwrap(),
                enchantment: if with_ench && !research {
                    c.armour_enchantment
                } else {
                    None
                },
                quality,
            },
        ),
        Gear::Jewelry(j) => SetPiece::Jewelry(
            Jewelry {
                kind: *j,
                jewelry_trait: c.jewelry_trait.unwrap(),
                enchantment: if with_ench && !research {
                    c.jewelry_enchantment
                } else {
                    None
                },
                quality,
            },
        ),
    }
}


/// The bulk-confirmation questions asked after a family's sample item, in
/// attribute order: exactly the attributes the sample resolved.
pub open spec fn bulk_attrs_spec(kind: Gear, research: bool, with_ench: bool) -> Seq<Attribute> {
    seq![Attribute::GearTrait] + (if with_ench && !research {
        seq![Attribute::Enchantment]
    } else {
        Seq::empty()
    }) + (if !research {
        seq![Attribute::Quality]
    } else {
        Seq::empty()
    }) + (if kind matches Gear::Armour(_) {
        seq![Attribute::Weight]
    } else {
        Seq::empty()
    })
}

fn bulk_attrs(kind: &Gear, research: bool, with_ench: bool) -> (r: Vec<Attribute>)
    ensures
        r@ == bulk_attrs_spec(*kind, research, with_ench),
{
    let mut r: Vec<Attribute> = Vec::new();
    r.push(Attribute::GearTrait);
    if with_ench && !research {
        r.push(Attribute::Enchantment);
    }
    if !research {
        r.push(Attribute::Quality);
    }
    if matches!(kind, Gear::Armour(_)) {
        r.push(Attribute::Weight);
    }
    proof {
        assert(r@ =~= bulk_attrs_spec(*kind, research, with_ench));
    }
    r
}

/// A usable order name holds at least one character besides blanks.
pub open spec fn valid_order_name(s: Seq<char>) -> bool {
    exists|i: int| 0 <= i < s.len() && s[i] != ' '
}

/// What the machine is doing, and so what it waits for next.
#[derive(Clone, Copy, PartialEq, Eq, Structural, Debug)]
pub enum Phase {
    /// Waiting for the part multi-select.
    CollectingParts,
    /// Waiting for dual-wield answers, one per selected one-handed weapon.
    ExpandingDuplicates,
    /// Waiting for the once-per-order enchantment opt-in (full orders only).
    AwaitingEnchantmentOptIn,
    /// Waiting for the value of the current item's next attribute.
    Resolving,
    /// Waiting for a bulk-default answer after a family's sample item.
    AwaitingBulkConfirm,
    /// Waiting for the character-power-tier question (full orders only).
    AwaitingPowerTier,
    /// Waiting for the final confirm-or-cancel decision.
    AwaitingConfirmation,
    /// Terminal: the order is placed and immutable.
    Confirmed,
    /// Terminal: the order is abandoned; nothing is ever announced.
    Cancelled,
}

/// The elicitation state machine of one order.
///
/// `parts` is the expanded, sorted request; `pieces` grows in lock step with
/// it, one resolved piece per part. The item being worked on is always
/// `parts[pieces.len()]`. `defaults` holds the bulk defaults of the family
/// being processed and is reset at every family boundary; `cur` holds the
/// attributes resolved so far for the current item and always extends
/// `defaults`, so an installed default is never re-asked.
pub struct Elicitation {
    pub mode: OrderMode,
    pub name: String,
    pub phase: Phase,
    pub with_enchantments: bool,
    pub power_tier: bool,
    pub selection: Vec<Gear>,
    pub dual_queue: Vec<OneHandedWeapons>,
    pub dual_answers: Vec<bool>,
    pub parts: Vec<Gear>,
    pub pieces: Vec<SetPiece>,
    pub defaults: AttributeChoices,
    pub cur: AttributeChoices,
    pub pending_bulk: Vec<Attribute>,
    /// Why the order was cancelled, when a failure (rather than an explicit
    /// rejection) cancelled it.
    pub failure: Option<OrderError>,
}

impl Elicitation {
    pub open spec fn research(&self) -> bool {
        self.mode == OrderMode::Research
    }

    /// Index of the item currently being resolved.
    pub open spec fn idx(&self) -> int {
        self.pieces@.len() as int
    }

    /// Whether position `i` starts a family run in the sorted parts.
    pub open spec fn family_first(&self, i: int) -> bool {
        i == 0 || gear_family(self.parts@[i - 1]) != gear_family(self.parts@[i])
    }

    /// Every resolved piece answers its part, and research mode and a
    /// declined enchantment opt-in are honoured piece by piece.
    pub open spec fn pieces_wf(&self) -> bool {
        &&& self.pieces@.len() <= self.parts@.len()
        &&& forall|i: int|
            0 <= i < self.pieces@.len() ==> (#[trigger] self.pieces@[i]).kind_spec()
                == self.parts@[i]
        &&& forall|i: int|
            0 <= i < self.pieces@.len() ==> (self.research() ==> (
            #[trigger] self.pieces@[i]).quality_spec() == GearQuality::White)
        &&& forall|i: int|
            0 <= i < self.pieces@.len() ==> ((self.research() || !self.with_enchantments) ==> !(
            #[trigger] self.pieces@[i]).has_enchantment_spec())
    }

    pub open spec fn wf(&self) -> bool {
        &&& self.pieces_wf()
        &&& sorted_by_order(self.parts@)
        &&& (self.research() ==> !self.with_enchantments)
        &&& (self.phase == Phase::CollectingParts ==> self.parts@.len() == 0 && self.pieces@.len()
            == 0)
        &&& (self.phase == Phase::ExpandingDuplicates ==> self.dual_answers@.len()
            < self.dual_queue@.len() && self.pieces@.len() == 0 && self.dual_queue@
            == one_handed_kinds(self.selection@))
        &&& (self.phase == Phase::AwaitingEnchantmentOptIn ==> self.pieces@.len() == 0
            && self.mode == OrderMode::Full)
        &&& (self.phase == Phase::Resolving ==> self.idx() < self.parts@.len() && next_attr_spec(
            self.parts@[self.idx()],
            self.cur,
            self.research(),
            self.with_enchantments,
        ) is Some && self.cur.extends(self.defaults))
        &&& (self.phase == Phase::AwaitingBulkConfirm ==> 1 <= self.idx() && self.idx()
            <= self.parts@.len() && self.pending_bulk@.len() >= 1 && choices_complete(
            self.parts@[self.idx() - 1],
            self.cur,
            self.research(),
            self.with_enchantments,
        ) && self.cur.extends(self.defaults))
        &&& (self.phase == Phase::AwaitingPowerTier ==> self.mode == OrderMode::Full
            && self.pieces@.len() == self.parts@.len())
        &&& (self.phase == Phase::AwaitingConfirmation ==> self.pieces@.len()
            == self.parts@.len())
        &&& (self.phase == Phase::Confirmed ==> self.pieces@.len() == self.parts@.len())
    }

    /// Starts an order. An empty or all-blank name is the one recoverable
    /// mistake: the caller re-asks and calls again.
    pub fn new(name: &str, mode: OrderMode) -> (r: Result<Elicitation, OrderError>)
        ensures
            match r {
                Ok(e) => valid_order_name(name@) && e.wf() && e.phase == Phase::CollectingParts
                    && e.name@ == name@ && e.mode == mode && !e.with_enchantments && e.pieces@.len()
                    == 0,
                Err(err) => err == OrderError::InvalidOrderName && !valid_order_name(name@),
            },
    {
        let n = name.unicode_len();
        let mut i: usize = 0;
        let mut usable = false;
        while i < n && !usable
            invariant
                i <= n,
                n == name@.len(),
                usable ==> valid_order_name(name@),
                !usable ==> forall|j: int| 0 <= j < i ==> name@[j] == ' ',
            decreases n - i + (if usable { 0int } else { 1int }),
        {
            if name.get_char(i) != ' ' {
                usable = true;
            } else {
                i = i + 1;
            }
        }
        if !usable {
            return Err(OrderError::InvalidOrderName);
        }
        Ok(
            Elicitation {
                mode,
                name: name.to_owned(),
                phase: Phase::CollectingParts,
                with_enchantments: false,
                power_tier: false,
                selection: Vec::new(),
                dual_queue: Vec::new(),
                dual_answers: Vec::new(),
                parts: Vec::new(),
                pieces: Vec::new(),
                defaults: AttributeChoices::none(),
                cur: AttributeChoices::none(),
                pending_bulk: Vec::new(),
                failure: None,
            },
        )
    }

    /// A prompt that received no response in time cancels the whole order,
    /// wherever it stood: partial orders are never submitted.
    pub fn timeout(&mut self)
        requires
            old(self).wf(),
        ensures
            final(self).wf(),
            final(self).phase == Phase::Cancelled,
            final(self).failure == Some(OrderError::Timeout),
            final(self).pieces == old(self).pieces,
            final(self).name == old(self).name,
            final(self).parts == old(self).parts,
            final(self).mode == old(self).mode,
    {
        self.phase = Phase::Cancelled;
        self.failure = Some(OrderError::Timeout);
    }

    /// What the machine waits for, or `None` in a terminal state.
    pub fn current_prompt(&self) -> (r: Option<Prompt>)
        requires
            self.wf(),
        ensures
            match self.phase {
                Phase::CollectingParts => r == Some(Prompt::SelectParts),
                Phase::ExpandingDuplicates => r == Some(
                    Prompt::ConfirmDualWield(self.dual_queue@[self.dual_answers@.len() as int]),
                ),
                Phase::AwaitingEnchantmentOptIn => r == Some(Prompt::ConfirmEnchantments),
                Phase::Resolving => r == Some(
                    Prompt::SelectAttribute(
                        next_attr_spec(
                            self.parts@[self.idx()],
                            self.cur,
                            self.research(),
                            self.with_enchantments,
                        )->Some_0,
                        self.parts@[self.idx()],
                    ),
                ),
                Phase::AwaitingBulkConfirm => r == Some(
                    Prompt::ConfirmBulk(self.pending_bulk@[0]),
                ),
                Phase::AwaitingPowerTier => r == Some(Prompt::ConfirmPowerTier),
                Phase::AwaitingConfirmation => r == Some(Prompt::ConfirmOrder),
                Phase::Confirmed => r is None,
                Phase::Cancelled => r is None,
            },
    {
        match self.phase {
            Phase::CollectingParts => Some(Prompt::SelectParts),
            Phase::ExpandingDuplicates => Some(
                Prompt::ConfirmDualWield(self.dual_queue[self.dual_answers.len()]),
            ),
            Phase::AwaitingEnchantmentOptIn => Some(Prompt::ConfirmEnchantments),
            Phase::Resolving => {
                let kind = self.parts[self.pieces.len()];
                let attr = next_attr(
                    &kind,
                    &self.cur,
                    matches!(self.mode, OrderMode::Research),
                    self.with_enchantments,
                ).unwrap();
                Some(Prompt::SelectAttribute(attr, kind))
            },
            Phase::AwaitingBulkConfirm => Some(Prompt::ConfirmBulk(self.pending_bulk[0])),
            Phase::AwaitingPowerTier => Some(Prompt::ConfirmPowerTier),
            Phase::AwaitingConfirmation => Some(Prompt::ConfirmOrder),
            Phase::Confirmed => None,
            Phase::Cancelled => None,
        }
    }

    /// Records whether the order is at the reference character-power tier.
    /// The answer only gates whether a crafting manifest is shown with the
    /// recap; it never alters the pieces.
    pub fn answer_power_tier(&mut self, yes: bool)
        requires
            old(self).wf(),
            old(self).phase == Phase::AwaitingPowerTier,
        ensures
            final(self).wf(),
            final(self).phase == Phase::AwaitingConfirmation,
            final(self).power_tier == yes,
            final(self).pieces == old(self).pieces,
            final(self).parts == old(self).parts,
            final(self).name == old(self).name,
            final(self).mode == old(self).mode,
            final(self).with_enchantments == old(self).with_enchantments,
    {
        self.power_tier = yes;
        self.phase = Phase::AwaitingConfirmation;
    }

    /// The final gate: an explicit yes places the order, anything else
    /// cancels it.
    pub fn confirm_order(&mut self, yes: bool)
        requires
            old(self).wf(),
            old(self).phase == Phase::AwaitingConfirmation,
        ensures
            final(self).wf(),
            final(self).phase == (if yes {
                Phase::Confirmed
            } else {
                Phase::Cancelled
            }),
            final(self).pieces == old(self).pieces,
            final(self).parts == old(self).parts,
            final(self).name == old(self).name,
            final(self).mode == old(self).mode,
            final(self).power_tier == old(self).power_tier,
    {
        self.phase = if yes {
            Phase::Confirmed
        } else {
            Phase::Cancelled
        };
    }

    /// The placed order, exactly when the machine reached `Confirmed`: a
    /// cancelled or unfinished elicitation yields nothing to announce.
    pub fn into_order(self) -> (r: Option<Order>)
        ensures
            r is Some <==> self.phase == Phase::Confirmed,
            r is Some ==> r->Some_0.name == self.name && r->Some_0.items == self.pieces,
    {
        if matches!(self.phase, Phase::Confirmed) {
            Some(Order { name: self.name, items: self.pieces })
        } else {
            None
        }
    }
}

/// The value names no entry of the catalog that answers `attr` for `kind`.
pub open spec fn attr_value_unnamed(kind: Gear, attr: Attribute, s: Seq<char>) -> bool {
    match attr {
        Attribute::GearTrait => match kind {
            Gear::Weapon(_) => forall|t: WeaponTraits| t.name_spec() != s,
            Gear::Armour(_) => forall|t: ArmourTraits| t.name_spec() != s,
            Gear::Jewelry(_) => forall|t: JewelryTraits| t.name_spec() != s,
        },
        Attribute::Enchantment => match kind {
            Gear::Weapon(_) => forall|e: WeaponEnchantments| e.name_spec() != s,
            Gear::Armour(_) => forall|e: ArmourEnchantments| e.name_spec() != s,
            Gear::Jewelry(_) => forall|e: JewelryEnchantments| e.name_spec() != s,
        },
        Attribute::Quality => forall|q: GearQuality| q.name_spec() != s,
        Attribute::Weight => forall|w: ArmourWeights| w.name_spec() != s,
    }
}

/// No gear kind in the whole catalog bears this display name.
pub open spec fn no_gear_named(s: Seq<char>) -> bool {
    forall|g: Gear| g.name_spec() != s
}

/// The family defaults after one bulk answer: a yes copies the sample's
/// value for that attribute, a no changes nothing.
pub open spec fn defaults_after_bulk(
    d: AttributeChoices,
    sample: AttributeChoices,
    attr: Attribute,
    kind: Gear,
    yes: bool,
) -> AttributeChoices {
    if !yes {
        d
    } else {
        match attr {
            Attribute::GearTrait => match kind {
                Gear::Weapon(_) => AttributeChoices { weapon_trait: sample.weapon_trait, ..d },
                Gear::Armour(_) => AttributeChoices { armour_trait: sample.armour_trait, ..d },
                Gear::Jewelry(_) => AttributeChoices { jewelry_trait: sample.jewelry_trait, ..d },
            },
            Attribute::Enchantment => match kind {
                Gear::Weapon(_) => AttributeChoices {
                    weapon_enchantment: sample.weapon_enchantment,
                    ..d
                },
                Gear::Armour(_) => AttributeChoices {
                    armour_enchantment: sample.armour_enchantment,
                    ..d
                },
                Gear::Jewelry(_) => AttributeChoices {
                    jewelry_enchantment: sample.jewelry_enchantment,
                    ..d
                },
            },
            Attribute::Quality => AttributeChoices { quality: sample.quality, ..d },
            Attribute::Weight => AttributeChoices { weight: sample.weight, ..d },
        }
    }
}

fn family_code(g: &Gear) -> (r: u8)
    ensures
        r as int == gear_family(*g),
{
    match g {
        Gear::Weapon(_) => 0,
        Gear::Armour(_) => 1,
        Gear::Jewelry(_) => 2,
    }
}

impl Elicitation {
    /// Moves to whatever comes next once the current item, if any, is done:
    /// a family boundary clears the defaults, an item whose every needed
    /// attribute is already defaulted resolves silently, and the end of the
    /// list moves on to review.
    fn advance(&mut self)
        requires
            old(self).pieces_wf(),
            sorted_by_order(old(self).parts@),
            old(self).research() ==> !old(self).with_enchantments,
        ensures
            final(self).wf(),
            final(self).phase == Phase::Resolving || final(self).phase == Phase::AwaitingPowerTier
                || final(self).phase == Phase::AwaitingConfirmation,
            final(self).parts == old(self).parts,
            final(self).selection == old(self).selection,
            final(self).name == old(self).name,
            final(self).mode == old(self).mode,
            final(self).with_enchantments == old(self).with_enchantments,
            final(self).power_tier == old(self).power_tier,
            final(self).dual_queue == old(self).dual_queue,
            final(self).dual_answers == old(self).dual_answers,
            final(self).pending_bulk == old(self).pending_bulk,
            old(self).pieces@.len() <= final(self).pieces@.len(),
            final(self).pieces@.take(old(self).pieces@.len() as int) == old(self).pieces@,
            forall|i: int|
                old(self).pieces@.len() <= i < final(self).pieces@.len() ==> (
                #[trigger] final(self).pieces@[i]) == resolved_piece_spec(
                    old(self).parts@[i],
                    old(self).defaults,
                    old(self).research(),
                    old(self).with_enchantments,
                ) && i > 0 && gear_family(old(self).parts@[i - 1]) == gear_family(
                    old(self).parts@[i],
                ),
            final(self).phase == Phase::Resolving ==> final(self).pieces@.len()
                < final(self).parts@.len(),
            final(self).phase != Phase::Resolving ==> final(self).pieces@.len()
                == final(self).parts@.len() && final(self).phase == (if old(self).mode
                == OrderMode::Full {
                Phase::AwaitingPowerTier
            } else {
                Phase::AwaitingConfirmation
            }),
    {
        let research = self.mode == OrderMode::Research;
        loop
            invariant
                self.pieces_wf(),
                sorted_by_order(self.parts@),
                research == self.research(),
                self.research() ==> !self.with_enchantments,
                self.parts == old(self).parts,
                self.selection == old(self).selection,
                self.name == old(self).name,
                self.mode == old(self).mode,
                self.with_enchantments == old(self).with_enchantments,
                self.power_tier == old(self).power_tier,
                self.dual_queue == old(self).dual_queue,
                self.dual_answers == old(self).dual_answers,
                self.pending_bulk == old(self).pending_bulk,
                self.defaults == old(self).defaults,
                old(self).pieces@.len() <= self.pieces@.len(),
                self.pieces@.take(old(self).pieces@.len() as int) == old(self).pieces@,
                forall|i: int|
                    old(self).pieces@.len() <= i < self.pieces@.len() ==> (
                    #[trigger] self.pieces@[i]) == resolved_piece_spec(
                        old(self).parts@[i],
                        old(self).defaults,
                        old(self).research(),
                        old(self).with_enchantments,
                    ) && i > 0 && gear_family(old(self).parts@[i - 1]) == gear_family(
                        old(self).parts@[i],
                    ),
            decreases self.parts@.len() - self.pieces@.len(),
        {
            let idx = self.pieces.len();
            if idx == self.parts.len() {
                self.phase = if self.mode == OrderMode::Full {
                    Phase::AwaitingPowerTier
                } else {
                    Phase::AwaitingConfirmation
                };
                return;
            }
            let kind = self.parts[idx];
            let first = idx == 0 || family_code(&self.parts[idx - 1]) != family_code(
                &self.parts[idx],
            );
            if first {
                self.defaults = AttributeChoices::none();
                self.cur = AttributeChoices::none();
                proof {
                    assert(!attr_set(kind, Attribute::GearTrait, self.cur));
                    assert(next_attr_spec(kind, self.cur, self.research(), self.with_enchantments)
                        is Some);
                }
                self.phase = Phase::Resolving;
                return;
            }
            self.cur = self.defaults;
            match next_attr(&kind, &self.cur, research, self.with_enchantments) {
                Some(_) => {
                    self.phase = Phase::Resolving;
                    return;
                },
                None => {
                    proof {
                        lemma_next_attr_none_complete(
                            kind,
                            self.cur,
                            self.research(),
                            self.with_enchantments,
                        );
                    }
                    let p = resolve_piece(&kind, &self.cur, research, self.with_enchantments);
                    let ghost pieces0 = self.pieces@;
                    self.pieces.push(p);
                    proof {
                        assert(p.kind_spec() == kind);
                        assert(self.pieces@.take(old(self).pieces@.len() as int) =~= pieces0.take(
                            old(self).pieces@.len() as int,
                        ));
                    }
                },
            }
        }
    }

    /// Receives the part multi-select. Each value must be the display name
    /// of a catalog gear kind; anything else is a transport defect that
    /// aborts the order. Duplicates are preserved, not collapsed.
    pub fn supply_parts(&mut self, values: &Vec<String>) -> (r: Result<(), OrderError>)
        requires
            old(self).wf(),
            old(self).phase == Phase::CollectingParts,
        ensures
            final(self).wf(),
            final(self).name == old(self).name,
            final(self).mode == old(self).mode,
            match r {
                Ok(()) => {
                    &&& final(self).selection@.len() == values@.len()
                    &&& forall|i: int|
                        0 <= i < values@.len() ==> (#[trigger] final(self).selection@[i]).name_spec()
                            == values@[i]@
                    &&& final(self).dual_queue@ == one_handed_kinds(final(self).selection@)
                    &&& final(self).dual_answers@.len() == 0
                    &&& final(self).pieces@.len() == 0
                    &&& (final(self).dual_queue@.len() > 0 ==> final(self).phase
                        == Phase::ExpandingDuplicates)
                    &&& (final(self).dual_queue@.len() == 0 ==> final(self).parts@.to_multiset()
                        == expanded_parts(final(self).selection@, Seq::<bool>::empty()).to_multiset()
                        && sorted_by_order(final(self).parts@) && (final(self).mode
                        == OrderMode::Full ==> final(self).phase == Phase::AwaitingEnchantmentOptIn)
                        && (final(self).mode == OrderMode::Research ==> final(self).phase
                        == Phase::Resolving || (final(self).phase == Phase::AwaitingConfirmation
                        && final(self).parts@.len() == 0)))
                },
                Err(e) => e == OrderError::CatalogNotFound && final(self).phase == Phase::Cancelled
                    && final(self).failure == Some(OrderError::CatalogNotFound) && exists|i: int|
                    0 <= i < values@.len() && no_gear_named(#[trigger] values@[i]@),
            },
    {
        let mut sel: Vec<Gear> = Vec::new();
        let mut i: usize = 0;
        while i < values.len()
            invariant
                i <= values@.len(),
                sel@.len() == i,
                forall|j: int|
                    0 <= j < i ==> (#[trigger] sel@[j]).name_spec() == values@[j]@,
                self == old(self),
                old(self).wf(),
                old(self).phase == Phase::CollectingParts,
            decreases values@.len() - i,
        {
            match Gear::from_name(values[i].as_str()) {
                Ok(g) => {
                    sel.push(g);
                },
                Err(_) => {
                    proof {
                        assert(no_gear_named(values@[i as int]@));
                    }
                    self.phase = Phase::Cancelled;
                    self.failure = Some(OrderError::CatalogNotFound);
                    return Err(OrderError::CatalogNotFound);
                },
            }
            i = i + 1;
        }
        let mut queue: Vec<OneHandedWeapons> = Vec::new();
        let mut j: usize = 0;
        while j < sel.len()
            invariant
                j <= sel@.len(),
                queue@ == one_handed_kinds_upto(sel@, j as int),
                self == old(self),
                old(self).wf(),
                old(self).phase == Phase::CollectingParts,
                sel@.len() == values@.len(),
                forall|jj: int|
                    0 <= jj < values@.len() ==> (#[trigger] sel@[jj]).name_spec() == values@[jj]@,
            decreases sel@.len() - j,
        {
            if let Gear::Weapon(WeaponKind::OneHanded(w)) = sel[j] {
                queue.push(w);
            }
            j = j + 1;
        }
        self.selection = sel;
        self.dual_queue = queue;
        self.dual_answers = Vec::new();
        if self.dual_queue.len() > 0 {
            self.phase = Phase::ExpandingDuplicates;
        } else {
            self.finish_expansion();
        }
        Ok(())
    }

    /// Expands the selection (dual-wield duplicates, then ring pairs), sorts
    /// it into the fixed processing order, and moves on.
    fn finish_expansion(&mut self)
        requires
            old(self).pieces@.len() == 0,
            old(self).research() ==> !old(self).with_enchantments,
            old(self).dual_answers@.len() == one_handed_kinds(old(self).selection@).len(),
        ensures
            final(self).wf(),
            final(self).parts@.to_multiset() == expanded_parts(
                old(self).selection@,
                old(self).dual_answers@,
            ).to_multiset(),
            sorted_by_order(final(self).parts@),
            final(self).pieces@.len() == 0,
            final(self).name == old(self).name,
            final(self).mode == old(self).mode,
            final(self).selection == old(self).selection,
            final(self).dual_queue == old(self).dual_queue,
            final(self).dual_answers == old(self).dual_answers,
            final(self).with_enchantments == old(self).with_enchantments,
            final(self).mode == OrderMode::Full ==> final(self).phase
                == Phase::AwaitingEnchantmentOptIn,
            final(self).mode == OrderMode::Research ==> final(self).phase == Phase::Resolving
                || (final(self).phase == Phase::AwaitingConfirmation && final(self).parts@.len()
                == 0),
    {
        let expanded = expand_parts(&self.selection, &self.dual_answers);
        let sorted = sort_gear(expanded);
        self.parts = sorted;
        self.pieces = Vec::new();
        self.defaults = AttributeChoices::none();
        self.cur = AttributeChoices::none();
        if self.mode == OrderMode::Full {
            self.phase = Phase::AwaitingEnchantmentOptIn;
        } else {
            self.advance();
            proof {
                if self.pieces@.len() > 0 {
                    let p = self.pieces@[0];
                    assert(p == self.pieces@[0]);
                    assert(false);
                }
            }
        }
    }

    /// Receives one dual-wield answer; a yes duplicates that weapon entry.
    /// Once every question is answered the expansion is finalized.
    pub fn answer_dual_wield(&mut self, yes: bool)
        requires
            old(self).wf(),
            old(self).phase == Phase::ExpandingDuplicates,
        ensures
            final(self).wf(),
            final(self).dual_answers@ == old(self).dual_answers@.push(yes),
            final(self).name == old(self).name,
            final(self).mode == old(self).mode,
            final(self).selection == old(self).selection,
            final(self).dual_queue == old(self).dual_queue,
            old(self).dual_answers@.len() + 1 < old(self).dual_queue@.len() ==> final(self).phase
                == Phase::ExpandingDuplicates,
            old(self).dual_answers@.len() + 1 == old(self).dual_queue@.len()
                ==> final(self).parts@.to_multiset() == expanded_parts(
                old(self).selection@,
                old(self).dual_answers@.push(yes),
            ).to_multiset() && sorted_by_order(final(self).parts@) && final(self).pieces@.len()
                == 0 && (final(self).mode == OrderMode::Full ==> final(self).phase
                == Phase::AwaitingEnchantmentOptIn) && (final(self).mode == OrderMode::Research
                ==> final(self).phase == Phase::Resolving || (final(self).phase
                == Phase::AwaitingConfirmation && final(self).parts@.len() == 0)),
    {
        self.dual_answers.push(yes);
        if self.dual_answers.len() == self.dual_queue.len() {
            self.finish_expansion();
        }
    }

    /// Records the once-per-order enchantment opt-in, then starts resolving
    /// the first item.
    pub fn set_enchantment_opt_in(&mut self, yes: bool)
        requires
            old(self).wf(),
            old(self).phase == Phase::AwaitingEnchantmentOptIn,
        ensures
            final(self).wf(),
            final(self).with_enchantments == yes,
            final(self).name == old(self).name,
            final(self).mode == old(self).mode,
            final(self).parts == old(self).parts,
            final(self).pieces@.len() == 0,
            final(self).phase == Phase::Resolving || (final(self).phase == Phase::AwaitingPowerTier
                && final(self).parts@.len() == 0),
    {
        self.with_enchantments = yes;
        self.advance();
        proof {
            if self.pieces@.len() > 0 {
                let p = self.pieces@[0];
                assert(p == self.pieces@[0]);
                assert(false);
            }
        }
    }
}

impl Elicitation {
    /// Receives the catalog display name answering the current attribute
    /// prompt. An unknown name is a transport defect and aborts the order;
    /// a known one is recorded. When it completes the item, the piece is
    /// built and shown; a family's sample item then opens its bulk
    /// questions, and items whose remaining attributes are all defaulted
    /// resolve without further prompting.
    #[verifier::rlimit(80)]
    pub fn supply_attribute(&mut self, value: &str) -> (r: Result<(), OrderError>)
        requires
            old(self).wf(),
            old(self).phase == Phase::Resolving,
        ensures
            final(self).wf(),
            final(self).parts == old(self).parts,
            final(self).name == old(self).name,
            final(self).mode == old(self).mode,
            final(self).with_enchantments == old(self).with_enchantments,
            final(self).pieces@.take(old(self).pieces@.len() as int) == old(self).pieces@,
            ({
                let kind = old(self).parts@[old(self).idx()];
                let attr = next_attr_spec(
                    kind,
                    old(self).cur,
                    old(self).research(),
                    old(self).with_enchantments,
                )->Some_0;
                match r {
                    Ok(()) => exists|c: AttributeChoices|
                        {
                            &&& #[trigger] chosen_attr_name(c, attr, kind) == Some(value@)
                            &&& forall|a: Attribute|
                                a != attr ==> #[trigger] chosen_attr_name(c, a, kind)
                                    == chosen_attr_name(old(self).cur, a, kind)
                            &&& c.extends(old(self).cur)
                            &&& (next_attr_spec(
                                kind,
                                c,
                                old(self).research(),
                                old(self).with_enchantments,
                            ) is Some ==> final(self).phase == Phase::Resolving && final(self).cur
                                == c && final(self).pieces == old(self).pieces)
                            &&& (next_attr_spec(
                                kind,
                                c,
                                old(self).research(),
                                old(self).with_enchantments,
                            ) is None ==> final(self).pieces@.len() > old(self).pieces@.len()
                                && final(self).pieces@[old(self).idx()] == resolved_piece_spec(
                                kind,
                                c,
                                old(self).research(),
                                old(self).with_enchantments,
                            ) && (final(self).phase == Phase::AwaitingBulkConfirm
                                ==> final(self).pending_bulk@ == bulk_attrs_spec(
                                kind,
                                old(self).research(),
                                old(self).with_enchantments,
                            ) && final(self).pieces@.len() == old(self).pieces@.len() + 1) && (
                            forall|i: int|
                                old(self).pieces@.len() < i < final(self).pieces@.len() ==> (
                                #[trigger] final(self).pieces@[i]) == resolved_piece_spec(
                                    old(self).parts@[i],
                                    old(self).defaults,
                                    old(self).research(),
                                    old(self).with_enchantments,
                                )))
                        },
                    Err(e) => e == OrderError::CatalogNotFound && final(self).phase
                        == Phase::Cancelled && final(self).failure == Some(
                        OrderError::CatalogNotFound,
                    ) && final(self).pieces == old(self).pieces && attr_value_unnamed(
                        kind,
                        attr,
                        value@,
                    ),
                }
            }),
    {
        let idx = self.pieces.len();
        let kind = self.parts[idx];
        let research = self.mode == OrderMode::Research;
        let attr = next_attr(&kind, &self.cur, research, self.with_enchantments).unwrap();
        let stored: bool = match attr {
            Attribute::GearTrait => match kind {
                Gear::Weapon(_) => match WeaponTraits::from_name(value) {
                    Ok(t) => {
                        self.cur.weapon_trait = Some(t);
                        true
                    },
                    Err(_) => false,
                },
                Gear::Armour(_) => match ArmourTraits::from_name(value) {
                    Ok(t) => {
                        self.cur.armour_trait = Some(t);
                        true
                    },
                    Err(_) => false,
                },
                Gear::Jewelry(_) => match JewelryTraits::from_name(value) {
                    Ok(t) => {
                        self.cur.jewelry_trait = Some(t);
                        true
                    },
                    Err(_) => false,
                },
            },
            Attribute::Enchantment => match kind {
                Gear::Weapon(_) => match WeaponEnchantments::from_name(value) {
                    Ok(e) => {
                        self.cur.weapon_enchantment = Some(e);
                        true
                    },
                    Err(_) => false,
                },
                Gear::Armour(_) => match ArmourEnchantments::from_name(value) {
                    Ok(e) => {
                        self.cur.armour_enchantment = Some(e);
                        true
                    },
                    Err(_) => false,
                },
                Gear::Jewelry(_) => match JewelryEnchantments::from_name(value) {
                    Ok(e) => {
                        self.cur.jewelry_enchantment = Some(e);
                        true
                    },
                    Err(_) => false,
                },
            },
            Attribute::Quality => match GearQuality::from_name(value) {
                Ok(q) => {
                    self.cur.quality = Some(q);
                    true
                },
                Err(_) => false,
            },
            Attribute::Weight => match ArmourWeights::from_name(value) {
                Ok(w) => {
                    self.cur.weight = Some(w);
                    true
                },
                Err(_) => false,
            },
        };
        if !stored {
            self.phase = Phase::Cancelled;
            self.failure = Some(OrderError::CatalogNotFound);
            proof {
                assert(self.pieces@.take(old(self).pieces@.len() as int) =~= old(self).pieces@);
            }
            return Err(OrderError::CatalogNotFound);
        }
        let ghost attrg = next_attr_spec(
            old(self).parts@[old(self).idx()],
            old(self).cur,
            old(self).research(),
            old(self).with_enchantments,
        )->Some_0;
        proof {
            assert(self.cur.extends(old(self).cur));
            assert(self.cur.extends(self.defaults));
            assert(chosen_attr_name(self.cur, attrg, kind) == Some(value@));
            assert forall|a: Attribute| a != attrg implies #[trigger] chosen_attr_name(
                self.cur,
                a,
                kind,
            ) == chosen_attr_name(old(self).cur, a, kind) by {
                match a {
                    Attribute::GearTrait => {},
                    Attribute::Enchantment => {},
                    Attribute::Quality => {},
                    Attribute::Weight => {},
                }
            }
        }
        let ghost c0 = self.cur;
        match next_attr(&kind, &self.cur, research, self.with_enchantments) {
            Some(_) => {
                proof {
                    assert(self.pieces@.take(old(self).pieces@.len() as int) =~= old(
                        self,
                    ).pieces@);
                }
                Ok(())
            },
            None => {
                proof {
                    lemma_next_attr_none_complete(
                        kind,
                        self.cur,
                        self.research(),
                        self.with_enchantments,
                    );
                }
                let p = resolve_piece(&kind, &self.cur, research, self.with_enchantments);
                let ghost pieces0 = self.pieces@;
                self.pieces.push(p);
                proof {
                    assert(p.kind_spec() == kind);
                    assert(self.pieces@.take(old(self).pieces@.len() as int) =~= pieces0);
                }
                let n = self.parts.len();
                proof {
                    assert(idx < n);
                }
                let first = idx == 0 || family_code(&self.parts[idx - 1]) != family_code(
                    &self.parts[idx],
                );
                let more = idx + 1 < n && family_code(&self.parts[idx + 1]) == family_code(
                    &self.parts[idx],
                );
                if first && more {
                    self.pending_bulk = bulk_attrs(&kind, research, self.with_enchantments);
                    self.phase = Phase::AwaitingBulkConfirm;
                    proof {
                        assert(self.pending_bulk@.len() >= 1);
                    }
                } else {
                    let ghost mid = self.pieces@;
                    self.advance();
                    proof {
                        assert forall|q: int| 0 <= q < old(self).pieces@.len() implies self.pieces@.take(
                            old(self).pieces@.len() as int,
                        )[q] == old(self).pieces@[q] by {
                            assert(self.pieces@.take(mid.len() as int)[q] == mid[q]);
                            assert(mid.take(old(self).pieces@.len() as int)[q] == old(
                                self,
                            ).pieces@[q]);
                        }
                        assert(self.pieces@.take(old(self).pieces@.len() as int) =~= old(
                            self,
                        ).pieces@);
                        assert(self.pieces@.take(mid.len() as int)[mid.len() - 1] == mid[mid.len()
                            - 1]);
                        assert(self.pieces@[old(self).pieces@.len() as int] == resolved_piece_spec(
                            old(self).parts@[old(self).idx()],
                            c0,
                            old(self).research(),
                            old(self).with_enchantments,
                        ));
                    }
                }
                Ok(())
            },
        }
    }

    /// Receives one bulk-confirmation answer. A yes copies the sample's
    /// value for that attribute into the family defaults, so the remaining
    /// items of the family stop asking for it; a no leaves the attribute to
    /// be asked per item. After the last question, resolution continues with
    /// the next item.
    #[verifier::rlimit(80)]
    pub fn answer_bulk(&mut self, yes: bool)
        requires
            old(self).wf(),
            old(self).phase == Phase::AwaitingBulkConfirm,
        ensures
            final(self).wf(),
            final(self).parts == old(self).parts,
            final(self).name == old(self).name,
            final(self).mode == old(self).mode,
            final(self).with_enchantments == old(self).with_enchantments,
            final(self).pending_bulk@ == old(self).pending_bulk@.drop_first(),
            final(self).pieces@.take(old(self).pieces@.len() as int) == old(self).pieces@,
            ({
                let kind = old(self).parts@[old(self).idx() - 1];
                let attr = old(self).pending_bulk@[0];
                let d = defaults_after_bulk(
                    old(self).defaults,
                    old(self).cur,
                    attr,
                    kind,
                    yes,
                );
                &&& (old(self).pending_bulk@.len() > 1 ==> final(self).phase
                    == Phase::AwaitingBulkConfirm && final(self).pieces == old(self).pieces
                    && final(self).defaults == d && final(self).cur == old(self).cur)
                &&& (old(self).pending_bulk@.len() == 1 ==> forall|i: int|
                    old(self).pieces@.len() <= i < final(self).pieces@.len() ==> (
                    #[trigger] final(self).pieces@[i]) == resolved_piece_spec(
                        old(self).parts@[i],
                        d,
                        old(self).research(),
                        old(self).with_enchantments,
                    ))
            }),
    {
        let attr = self.pending_bulk[0];
        let kind = self.parts[self.pieces.len() - 1];
        if yes {
            match attr {
                Attribute::GearTrait => match kind {
                    Gear::Weapon(_) => {
                        self.defaults.weapon_trait = self.cur.weapon_trait;
                    },
                    Gear::Armour(_) => {
                        self.defaults.armour_trait = self.cur.armour_trait;
                    },
                    Gear::Jewelry(_) => {
                        self.defaults.jewelry_trait = self.cur.jewelry_trait;
                    },
                },
                Attribute::Enchantment => match kind {
                    Gear::Weapon(_) => {
                        self.defaults.weapon_enchantment = self.cur.weapon_enchantment;
                    },
                    Gear::Armour(_) => {
                        self.defaults.armour_enchantment = self.cur.armour_enchantment;
                    },
                    Gear::Jewelry(_) => {
                        self.defaults.jewelry_enchantment = self.cur.jewelry_enchantment;
                    },
                },
                Attribute::Quality => {
                    self.defaults.quality = self.cur.quality;
                },
                Attribute::Weight => {
                    self.defaults.weight = self.cur.weight;
                },
            }
        }
        proof {
            assert(self.defaults == defaults_after_bulk(
                old(self).defaults,
                old(self).cur,
                old(self).pending_bulk@[0],
                old(self).parts@[old(self).idx() - 1],
                yes,
            ));
            assert(self.cur.extends(self.defaults));
        }
        self.pending_bulk.remove(0);
        proof {
            assert(self.pending_bulk@ =~= old(self).pending_bulk@.drop_first());
        }
        if self.pending_bulk.len() == 0 {
            self.advance();
        } else {
            proof {
                assert(self.pieces@.take(old(self).pieces@.len() as int) =~= old(self).pieces@);
            }
        }
    }
}

/// The display name of the value a resolved piece carries for an attribute,
/// if it carries that attribute at all.
pub open spec fn piece_attr_name(p: SetPiece, attr: Attribute) -> Option<Seq<char>> {
    match attr {
        Attribute::GearTrait => match p {
            SetPiece::Weapon(w) => Some(w.weapon_trait.name_spec()),
            SetPiece::Armour(a) => Some(a.armour_trait.name_spec()),
            SetPiece::Jewelry(j) => Some(j.jewelry_trait.name_spec()),
        },
        Attribute::Enchantment => match p {
            SetPiece::Weapon(w) => match w.enchantment {
                Some(e) => Some(e.name_spec()),
                None => None,
            },
            SetPiece::Armour(a) => match a.enchantment {
                Some(e) => Some(e.name_spec()),
                None => None,
            },
            SetPiece::Jewelry(j) => match j.enchantment {
                Some(e) => Some(e.name_spec()),
                None => None,
            },
        },
        Attribute::Quality => Some(p.quality_spec().name_spec()),
        Attribute::Weight => match p {
            SetPiece::Armour(a) => Some(a.weight.name_spec()),
            _ => None,
        },
    }
}

/// A resolved piece carries, for every attribute its mode needs, exactly the
/// value chosen for it.
pub proof fn lemma_resolved_piece_attributes(
    kind: Gear,
    c: AttributeChoices,
    attr: Attribute,
    research: bool,
    with_ench: bool,
)
    requires
        choices_complete(kind, c, research, with_ench),
        attr_needed(kind, attr, research, with_ench),
    ensures
        piece_attr_name(resolved_piece_spec(kind, c, research, with_ench), attr)
            == chosen_attr_name(c, attr, kind),
{
    assert(attr_set(kind, attr, c));
}

/// Accepting a bulk default for an attribute makes every item of the family
/// that is resolved under it share the default's value, whatever else each
/// item picked for its other attributes; declining leaves each item its own
/// independent pick.
pub proof fn lemma_bulk_default_applies(
    k1: Gear,
    k2: Gear,
    d: AttributeChoices,
    c1: AttributeChoices,
    c2: AttributeChoices,
    attr: Attribute,
    research: bool,
    with_ench: bool,
)
    requires
        gear_family(k1) == gear_family(k2),
        c1.extends(d),
        c2.extends(d),
        choices_complete(k1, c1, research, with_ench),
        choices_complete(k2, c2, research, with_ench),
        attr_needed(k1, attr, research, with_ench),
    ensures
        attr_set(k1, attr, d) ==> piece_attr_name(
            resolved_piece_spec(k1, c1, research, with_ench),
            attr,
        ) == chosen_attr_name(d, attr, k1) && piece_attr_name(
            resolved_piece_spec(k2, c2, research, with_ench),
            attr,
        ) == chosen_attr_name(d, attr, k1),
        !attr_set(k1, attr, d) ==> piece_attr_name(
            resolved_piece_spec(k1, c1, research, with_ench),
            attr,
        ) == chosen_attr_name(c1, attr, k1) && piece_attr_name(
            resolved_piece_spec(k2, c2, research, with_ench),
            attr,
        ) == chosen_attr_name(c2, attr, k2),
{
    assert(attr_needed(k2, attr, research, with_ench));
    lemma_resolved_piece_attributes(k1, c1, attr, research, with_ench);
    lemma_resolved_piece_attributes(k2, c2, attr, research, with_ench);
}

} // verus!
