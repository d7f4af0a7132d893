//! Characters: who they are, what they can do and what they carry.

use crate::json::{Number, NumberView};
use vstd::prelude::*;

verus! {

#[derive(Debug, Clone, Copy, PartialEq, Eq, Structural, Hash)]
pub enum Gender {
    Male,
    Female,
}

/// The people a character comes from.
#[derive(Debug, PartialEq, Eq)]
pub enum Culture {
    Vlandian,
    Battanian,
    Sturgian,
    Empire,
    Aserai,
    Khuzait,
    Custom(String),
}

/// The six attributes that skills rest on.
#[derive(Debug, Clone, Copy, PartialEq, Eq, Structural)]
pub struct Attributes {
    /// Physical strength and endurance.
    pub vigor: u32,
    /// Precision and dexterity.
    pub control: u32,
    /// Health and stamina.
    pub endurance: u32,
    /// Tactics and cleverness.
    pub cunning: u32,
    /// Charisma and leadership.
    pub social: u32,
    /// Learning and problem-solving.
    pub intelligence: u32,
}

impl Default for Attributes {
    fn default() -> (r: Self)
        ensures
            r == (Attributes {
                vigor: 2,
                control: 2,
                endurance: 2,
                cunning: 2,
                social: 2,
                intelligence: 2,
            }),
    {
        Attributes { vigor: 2, control: 2, endurance: 2, cunning: 2, social: 2, intelligence: 2 }
    }
}

impl Attributes {
    /// The sum of the six attributes.
    pub open spec fn total(self) -> int {
        self.vigor + self.control + self.endurance + self.cunning + self.social
            + self.intelligence
    }
}

/// The eighteen skills: eight of combat, ten of everything else.
#[derive(Debug, Clone, Copy, PartialEq, Eq, Structural, Hash)]
pub enum SkillType {
    OneHanded,
    TwoHanded,
    Polearm,
    Bow,
    Crossbow,
    Throwing,
    Riding,
    Athletics,
    Crafting,
    Tactics,
    Scouting,
    Roguery,
    Charm,
    Leadership,
    Trade,
    Steward,
    Medicine,
    Engineering,
}

/// How many skills there are.
pub const SKILL_COUNT: usize = 18;

impl SkillType {
    /// The place of the skill in a character's list of skills.
    pub open spec fn index(self) -> int {
        match self {
            SkillType::OneHanded => 0,
            SkillType::TwoHanded => 1,
            SkillType::Polearm => 2,
            SkillType::Bow => 3,
            SkillType::Crossbow => 4,
            SkillType::Throwing => 5,
            SkillType::Riding => 6,
            SkillType::Athletics => 7,
            SkillType::Crafting => 8,
            SkillType::Tactics => 9,
            SkillType::Scouting => 10,
            SkillType::Roguery => 11,
            SkillType::Charm => 12,
            SkillType::Leadership => 13,
            SkillType::Trade => 14,
            SkillType::Steward => 15,
            SkillType::Medicine => 16,
            SkillType::Engineering => 17,
        }
    }

    /// The place of the skill in a character's list of skills.
    pub fn ordinal(self) -> (r: usize)
        ensures
            r == self.index(),
            r < SKILL_COUNT,
    {
        match self {
            SkillType::OneHanded => 0,
            SkillType::TwoHanded => 1,
            SkillType::Polearm => 2,
            SkillType::Bow => 3,
            SkillType::Crossbow => 4,
            SkillType::Throwing => 5,
            SkillType::Riding => 6,
            SkillType::Athletics => 7,
            SkillType::Crafting => 8,
            SkillType::Tactics => 9,
            SkillType::Scouting => 10,
            SkillType::Roguery => 11,
            SkillType::Charm => 12,
            SkillType::Leadership => 13,
            SkillType::Trade => 14,
            SkillType::Steward => 15,
            SkillType::Medicine => 16,
            SkillType::Engineering => 17,
        }
    }

    /// The skill that stands at the given place.
    pub fn from_ordinal(place: usize) -> (r: SkillType)
        requires
            place < SKILL_COUNT,
        ensures
            r.index() == place,
    {
        match place {
            0 => SkillType::OneHanded,
            1 => SkillType::TwoHanded,
            2 => SkillType::Polearm,
            3 => SkillType::Bow,
            4 => SkillType::Crossbow,
            5 => SkillType::Throwing,
            6 => SkillType::Riding,
            7 => SkillType::Athletics,
            8 => SkillType::Crafting,
            9 => SkillType::Tactics,
            10 => SkillType::Scouting,
            11 => SkillType::Roguery,
            12 => SkillType::Charm,
            13 => SkillType::Leadership,
            14 => SkillType::Trade,
            15 => SkillType::Steward,
            16 => SkillType::Medicine,
            _ => SkillType::Engineering,
        }
    }

    /// A character's skills at the start: every skill, untrained.
    pub fn default_skills() -> (r: Skills)
        ensures
            r.well_formed(),
            forall|i: int| 0 <= i < SKILL_COUNT ==> (#[trigger] r.skills[i]).is_untrained(),
    {
        let mut skills: Vec<Skill> = Vec::new();
        let mut i: usize = 0;
        while i < SKILL_COUNT
            invariant
                i <= SKILL_COUNT,
                skills.len() == i,
                forall|k: int| 0 <= k < i ==> (#[trigger] skills[k]).is_untrained(),
            decreases SKILL_COUNT - i,
        {
            skills.push(Skill::default());
            i += 1;
        }
        Skills { skills }
    }

    /// The name of the attribute that the skill draws on.
    pub open spec fn attribute(self) -> Seq<char> {
        match self {
            SkillType::OneHanded | SkillType::TwoHanded | SkillType::Polearm => "vigor"@,
            SkillType::Bow | SkillType::Crossbow | SkillType::Throwing => "control"@,
            SkillType::Riding | SkillType::Athletics => "endurance"@,
            SkillType::Tactics | SkillType::Roguery | SkillType::Scouting => "cunning"@,
            SkillType::Charm | SkillType::Leadership | SkillType::Trade => "social"@,
            SkillType::Crafting
            | SkillType::Steward
            | SkillType::Medicine
            | SkillType::Engineering => "intelligence"@,
        }
    }

    /// The name of the attribute that the skill draws on.
    pub fn get_attribute(&self) -> (r: &'static str)
        ensures
            r@ == self.attribute(),
    {
        match self {
            SkillType::OneHanded | SkillType::TwoHanded | SkillType::Polearm => "vigor",
            SkillType::Bow | SkillType::Crossbow | SkillType::Throwing => "control",
            SkillType::Riding | SkillType::Athletics => "endurance",
            SkillType::Tactics | SkillType::Roguery | SkillType::Scouting => "cunning",
            SkillType::Charm | SkillType::Leadership | SkillType::Trade => "social",
            SkillType::Crafting
            | SkillType::Steward
            | SkillType::Medicine
            | SkillType::Engineering => "intelligence",
        }
    }
}

/// How good a character is at one skill.
#[derive(Debug, PartialEq, Eq)]
pub struct Skill {
    pub level: u32,
    pub focus_points: u32,
    pub experience: Number,
}

impl Skill {
    /// Whether nothing has been learned or invested yet.
    pub open spec fn is_untrained(self) -> bool {
        self.level == 0 && self.focus_points == 0 && self.experience.deep_view()
            == NumberView::Decimal("0.0"@)
    }
}

impl Default for Skill {
    fn default() -> (r: Self)
        ensures
            r.is_untrained(),
    {
        Skill { level: 0, focus_points: 0, experience: Number::decimal("0.0") }
    }
}

/// A character's skills, one for every kind, in the order of the kinds.
#[derive(Debug, PartialEq, Eq)]
pub struct Skills {
    pub skills: Vec<Skill>,
}

/// The sum of the levels of a run of skills.
pub open spec fn level_sum(skills: Seq<Skill>) -> nat
    decreases skills.len(),
{
    if skills.len() == 0 {
        0
    } else {
        level_sum(skills.drop_last()) + skills.last().level as nat
    }
}

impl Skills {
    /// Whether there is exactly one skill for every kind.
    pub open spec fn well_formed(&self) -> bool {
        self.skills.len() == SKILL_COUNT
    }

    /// The skill of the given kind.
    pub fn get(&self, kind: SkillType) -> (r: &Skill)
        requires
            self.well_formed(),
        ensures
            *r == self.skills[kind.index()],
    {
        &self.skills[kind.ordinal()]
    }

    /// The level of the given skill, or 0 where the list is too short to
    /// hold it.
    pub open spec fn level_at(&self, kind: SkillType) -> u32 {
        if kind.index() < self.skills.len() {
            self.skills[kind.index()].level
        } else {
            0
        }
    }

    /// The level of the given skill, or 0 where the list is too short to
    /// hold it.
    pub fn level_of(&self, kind: SkillType) -> (r: u32)
        ensures
            r == self.level_at(kind),
    {
        let at = kind.ordinal();
        if at < self.skills.len() {
            self.skills[at].level
        } else {
            0
        }
    }

    /// Sets the level of the given skill and leaves the rest alone.
    pub fn set_level(&mut self, kind: SkillType, level: u32)
        requires
            old(self).well_formed(),
        ensures
            final(self).well_formed(),
            final(self).skills[kind.index()].level == level,
            final(self).skills[kind.index()].focus_points == old(
                self,
            ).skills[kind.index()].focus_points,
            final(self).skills[kind.index()].experience == old(
                self,
            ).skills[kind.index()].experience,
            forall|i: int|
                0 <= i < SKILL_COUNT && i != kind.index() ==> final(self).skills[i] == old(
                    self,
                ).skills[i],
    {
        let at = kind.ordinal();
        self.skills[at].level = level;
    }

    /// The sum of all levels, or `None` where it does not fit in 32 bits.
    pub fn total_level(&self) -> (r: Option<u32>)
        ensures
            r == if level_sum(self.skills@) <= u32::MAX {
                Some(level_sum(self.skills@) as u32)
            } else {
                None
            },
    {
        let mut sum: u128 = 0;
        let mut i: usize = 0;
        assert(self.skills@.take(0) =~= Seq::empty());
        while i < self.skills.len()
            invariant
                i <= self.skills.len(),
                sum == level_sum(self.skills@.take(i as int)),
                sum <= i * 0xffff_ffff,
            decreases self.skills.len() - i,
        {
            proof {
                let next = self.skills@.take(i + 1);
                assert(next.drop_last() =~= self.skills@.take(i as int));
                assert(next.last() == self.skills@[i as int]);
                assert(i * 0xffff_ffff + 0xffff_ffff <= 0xffff_ffff_ffff_ffff * 0x1_0000_0000)
                    by (nonlinear_arith)
                    requires
                        i < 0xffff_ffff_ffff_ffff,
                ;
            }
            sum = sum + self.skills[i].level as u128;
            i += 1;
        }
        assert(self.skills@.take(self.skills.len() as int) =~= self.skills@);
        if sum <= 0xffff_ffff {
            Some(sum as u32)
        } else {
            None
        }
    }
}

#[derive(Debug, Clone, Copy, PartialEq, Eq, Structural, Hash)]
pub enum WeaponType {
    OneHanded,
    TwoHanded,
    Polearm,
    Bow,
    Crossbow,
    Throwing,
}

#[derive(Debug, Clone, Copy, PartialEq, Eq, Structural, Hash)]
pub enum ArmorType {
    Head,
    Body,
    Legs,
    Hands,
}

#[derive(Debug, Clone, Copy, PartialEq, Eq, Structural, Hash)]
pub enum ItemType {
    Weapon(WeaponType),
    Armor(ArmorType),
    Mount,
}

/// What an item does. Each figure is there only for items it applies to.
#[derive(Debug, PartialEq, Eq)]
pub struct ItemStats {
    pub armor: Option<u32>,
    pub damage: Option<u32>,
    pub speed: Option<Number>,
    pub handling: Option<Number>,
    pub accuracy: Option<Number>,
    pub range: Option<u32>,
}

/// Something a character can wear, wield or ride.
#[derive(Debug, PartialEq, Eq)]
pub struct Item {
    pub id: String,
    pub name: String,
    pub item_type: ItemType,
    pub tier: u32,
    pub value: u32,
    pub weight: Number,
    pub stats: ItemStats,
}

/// What a character has on, slot by slot.
#[derive(Debug, PartialEq, Eq)]
pub struct Equipment {
    pub head: Option<Item>,
    pub body: Option<Item>,
    pub legs: Option<Item>,
    pub hands: Option<Item>,
    pub main_weapon: Option<Item>,
    pub secondary_weapon: Option<Item>,
    pub ranged_weapon: Option<Item>,
    pub mount: Option<Item>,
}

impl Equipment {
    /// Whether every slot is empty.
    pub open spec fn is_empty(self) -> bool {
        &&& self.head is None
        &&& self.body is None
        &&& self.legs is None
        &&& self.hands is None
        &&& self.main_weapon is None
        &&& self.secondary_weapon is None
        &&& self.ranged_weapon is None
        &&& self.mount is None
    }
}

impl Default for Equipment {
    fn default() -> (r: Self)
        ensures
            r.is_empty(),
    {
        Equipment {
            head: None,
            body: None,
            legs: None,
            hands: None,
            main_weapon: None,
            secondary_weapon: None,
            ranged_weapon: None,
            mount: None,
        }
    }
}

/// What a trait bears on.
#[derive(Debug, PartialEq, Eq)]
pub enum TraitEffectTarget {
    Attribute(String),
    Skill(SkillType),
    Relationship(String),
    ClanInfluence,
    TradePrice,
    TroopMorale,
}

/// One consequence of a trait.
#[derive(Debug, PartialEq, Eq)]
pub struct TraitEffect {
    pub target: TraitEffectTarget,
    pub modifier: Number,
}

/// A lasting quality of a character.
#[derive(Debug, PartialEq, Eq)]
pub struct Trait {
    pub id: String,
    pub name: String,
    pub description: String,
    pub effects: Vec<TraitEffect>,
}

/// A character.
#[derive(Debug, PartialEq, Eq)]
pub struct Character {
    pub name: String,
    pub gender: Gender,
    pub culture: Culture,
    pub age: u32,
    pub clan_level: u32,
    pub renown: Number,
    pub influence: Number,
    pub gold: u32,
    pub attributes: Attributes,
    pub skills: Skills,
    pub equipment: Equipment,
    pub traits: Vec<Trait>,
}

impl Character {
    /// Whether this is the character that creation starts from: unnamed,
    /// a Vlandian man of 25 with 1000 gold, every attribute at 2, every
    /// skill untrained, nothing worn and no traits.
    pub open spec fn is_blank(self) -> bool {
        &&& self.name@ == "Unnamed"@
        &&& self.gender == Gender::Male
        &&& self.culture == Culture::Vlandian
        &&& self.age == 25
        &&& self.clan_level == 0
        &&& self.renown.deep_view() == NumberView::Decimal("0.0"@)
        &&& self.influence.deep_view() == NumberView::Decimal("0.0"@)
        &&& self.gold == 1000
        &&& self.attributes == (Attributes {
            vigor: 2,
            control: 2,
            endurance: 2,
            cunning: 2,
            social: 2,
            intelligence: 2,
        })
        &&& self.skills.well_formed()
        &&& forall|i: int|
            0 <= i < SKILL_COUNT ==> (#[trigger] self.skills.skills[i]).is_untrained()
        &&& self.equipment.is_empty()
        &&& self.traits.len() == 0
    }

    /// What the character's level comes to: a tenth of the sum of the skill
    /// levels, rounded down, and twice the sum of the attributes.
    pub open spec fn level(self) -> int {
        level_sum(self.skills.skills@) / 10 + self.attributes.total() * 2
    }

    /// What the character brings to a fight: five times vigor, three times
    /// endurance, twice the best of the three melee skills, athletics and
    /// tactics.
    pub open spec fn combat_power(self) -> int {
        let one_handed = self.skills.level_at(SkillType::OneHanded);
        let two_handed = self.skills.level_at(SkillType::TwoHanded);
        let polearm = self.skills.level_at(SkillType::Polearm);
        let weapon_skill = if one_handed >= two_handed && one_handed >= polearm {
            one_handed
        } else if two_handed >= polearm {
            two_handed
        } else {
            polearm
        };
        self.attributes.vigor * 5 + self.attributes.endurance * 3 + weapon_skill * 2
            + self.skills.level_at(SkillType::Athletics) + self.skills.level_at(
            SkillType::Tactics,
        )
    }
}

impl Default for Character {
    fn default() -> (r: Self)
        ensures
            r.is_blank(),
    {
        Character {
            name: String::from_str("Unnamed"),
            gender: Gender::Male,
            culture: Culture::Vlandian,
            age: 25,
            clan_level: 0,
            renown: Number::decimal("0.0"),
            influence: Number::decimal("0.0"),
            gold: 1000,
            attributes: Attributes::default(),
            skills: SkillType::default_skills(),
            equipment: Equipment::default(),
            traits: Vec::new(),
        }
    }
}

/// The level of a character, from its skills and attributes.
pub fn calculate_character_level(character: &Character) -> (r: u32)
    requires
        level_sum(character.skills.skills@) <= u32::MAX,
        character.attributes.total() * 2 <= u32::MAX,
        character.level() <= u32::MAX,
    ensures
        r == character.level(),
{
    let skill_sum = match character.skills.total_level() {
        Some(sum) => sum,
        None => 0,
    };
    let attribute_sum = character.attributes.vigor + character.attributes.control
        + character.attributes.endurance + character.attributes.cunning
        + character.attributes.social + character.attributes.intelligence;
    (skill_sum / 10) + (attribute_sum * 2)
}

/// What there is to show of an item's figures.
#[derive(Debug, PartialEq, Eq)]
pub enum ItemSummary<'a> {
    /// Armour, by its rating.
    Armor(u32),
    /// A weapon, by damage, speed, handling and range.
    Weapon { damage: u32, speed: &'a Number, handling: &'a Number, range: u32 },
    /// Nothing worth a line.
    Plain,
}

/// Picks what to show of an item: its armour if it has any, else its
/// weapon figures if all four are there, else nothing.
pub fn item_summary(stats: &ItemStats) -> (r: ItemSummary<'_>)
    ensures
        r == if stats.armor is Some {
            ItemSummary::Armor(stats.armor->0)
        } else if stats.damage is Some && stats.speed is Some && stats.handling is Some
            && stats.range is Some {
            ItemSummary::Weapon {
                damage: stats.damage->0,
                speed: &stats.speed->0,
                handling: &stats.handling->0,
                range: stats.range->0,
            }
        } else {
            ItemSummary::Plain
        },
{
    if let Some(armor) = stats.armor {
        return ItemSummary::Armor(armor);
    }
    match (&stats.damage, &stats.speed, &stats.handling, &stats.range) {
        (Some(damage), Some(speed), Some(handling), Some(range)) => ItemSummary::Weapon {
            damage: *damage,
            speed,
            handling,
            range: *range,
        },
        _ => ItemSummary::Plain,
    }
}

impl Skills {
    /// How many kinds of skill the list holds an entry for.
    pub open spec fn kinds(&self) -> int {
        if self.skills.len() < SKILL_COUNT {
            self.skills.len() as int
        } else {
            SKILL_COUNT as int
        }
    }

    /// Whether the skill at place `a` ranks before the one at place `b`:
    /// the higher level first, and of two equal levels the earlier kind.
    pub open spec fn ranks_before(&self, a: int, b: int) -> bool {
        self.skills[a].level > self.skills[b].level || (self.skills[a].level
            == self.skills[b].level && a < b)
    }

    /// Whether the skill at `place` is still to come once the one at `last`
    /// has been listed: it ranks after it, or nothing has been listed yet.
    pub open spec fn comes_after(&self, last: Option<usize>, place: int) -> bool {
        last is None || self.ranks_before(last->0 as int, place)
    }

    /// Whether `best` lists the best skills of this list, at most `count` of
    /// them: every entry is a kind the list holds, the entries stand in
    /// ranking order, whatever is left out ranks after every entry, and
    /// nothing is left out while there is room.
    pub open spec fn is_top(&self, best: Seq<SkillType>, count: int) -> bool {
        &&& best.len() <= count
        &&& forall|i: int| 0 <= i < best.len() ==> (#[trigger] best[i]).index() < self.kinds()
        &&& forall|i: int, j: int|
            0 <= i < j < best.len() ==> self.ranks_before(
                (#[trigger] best[i]).index(),
                (#[trigger] best[j]).index(),
            )
        &&& forall|place: int, i: int|
            0 <= place < self.kinds() && 0 <= i < best.len() && !(#[trigger] self.listed(
                best,
                place,
            )) ==> self.ranks_before((#[trigger] best[i]).index(), place)
        &&& best.len() < count ==> forall|place: int|
            0 <= place < self.kinds() ==> self.listed(best, place)
    }

    /// Whether the kind at `place` is among `best`.
    pub open spec fn listed(&self, best: Seq<SkillType>, place: int) -> bool {
        exists|i: int| 0 <= i < best.len() && (#[trigger] best[i]).index() == place
    }

    /// The best skills, at most `count` of them, best first. Of two skills
    /// at the same level the one of the earlier kind comes first.
    pub fn top_skills(&self, count: usize) -> (r: Vec<SkillType>)
        ensures
            self.is_top(r@, count as int),
    {
        let kinds = if self.skills.len() < SKILL_COUNT {
            self.skills.len()
        } else {
            SKILL_COUNT
        };
        let mut best: Vec<SkillType> = Vec::new();
        let mut last: Option<usize> = None;
        let mut exhausted = false;
        while best.len() < count && !exhausted
            invariant
                kinds == self.kinds(),
                best.len() <= count,
                last is None <==> best.len() == 0,
                last is Some ==> last->0 < kinds && best[best.len() - 1].index() == last->0,
                forall|i: int| 0 <= i < best.len() ==> (#[trigger] best[i]).index() < kinds,
                forall|i: int, j: int|
                    0 <= i < j < best.len() ==> self.ranks_before(
                        (#[trigger] best[i]).index(),
                        (#[trigger] best[j]).index(),
                    ),
                forall|place: int|
                    0 <= place < kinds ==> (self.listed(best@, place) <==> (last is Some
                        && !self.ranks_before(last->0 as int, place))),
                exhausted ==> forall|place: int| 0 <= place < kinds ==> self.listed(best@, place),
            decreases (if exhausted { 0int } else { 1int }), count - best.len(),
        {
            let mut pick: Option<usize> = None;
            let mut place: usize = 0;
            while place < kinds
                invariant
                    place <= kinds == self.kinds(),
                    kinds <= self.skills.len(),
                    last is Some ==> last->0 < kinds,
                    pick is Some ==> pick->0 < place && self.comes_after(last, pick->0 as int),
                    forall|other: int|
                        0 <= other < place && #[trigger] self.comes_after(last, other) ==> pick
                            is Some && (pick->0 == other || self.ranks_before(
                            pick->0 as int,
                            other,
                        )),
                decreases kinds - place,
            {
                let after_last = match last {
                    None => true,
                    Some(at) => self.skills[at].level > self.skills[place].level || (
                    self.skills[at].level == self.skills[place].level && at < place),
                };
                if after_last {
                    let better = match pick {
                        None => true,
                        Some(at) => !(self.skills[at].level > self.skills[place].level || (
                        self.skills[at].level == self.skills[place].level && at < place)),
                    };
                    if better {
                        pick = Some(place);
                    }
                }
                place += 1;
            }
            match pick {
                Some(at) => {
                    let ghost before = best@;
                    let kind = SkillType::from_ordinal(at);
                    best.push(kind);
                    proof {
                        assert forall|i: int, j: int|
                            0 <= i < j < best.len() implies self.ranks_before(
                            (#[trigger] best[i]).index(),
                            (#[trigger] best[j]).index(),
                        ) by {
                            if j == best.len() - 1 && last is Some {
                                assert(before[i] == best[i]);
                                if i < before.len() - 1 {
                                    assert(self.ranks_before(
                                        before[i].index(),
                                        before[before.len() - 1].index(),
                                    ));
                                }
                            }
                        }
                        assert forall|spot: int| 0 <= spot < kinds implies (self.listed(
                            best@,
                            spot,
                        ) <==> !self.ranks_before(at as int, spot)) by {
                            // The scan picked the first in rank of what was still to
                            // come, so whatever ranks before the pick was listed.
                            assert(self.comes_after(last, spot) ==> at == spot
                                || self.ranks_before(at as int, spot));
                            if self.listed(best@, spot) {
                                let i = choose|i: int|
                                    0 <= i < best.len() && (#[trigger] best[i]).index() == spot;
                                if i < before.len() {
                                    assert(before[i] == best[i]);
                                    assert(self.listed(before, spot));
                                }
                            }
                            if !self.ranks_before(at as int, spot) {
                                if spot == at {
                                    assert(best[best.len() - 1].index() == spot);
                                } else {
                                    assert(self.listed(before, spot));
                                    let i = choose|i: int|
                                        0 <= i < before.len() && (#[trigger] before[i]).index()
                                            == spot;
                                    assert(best[i] == before[i]);
                                }
                            }
                        }
                    }
                    last = Some(at);
                },
                None => {
                    proof {
                        assert forall|spot: int| 0 <= spot < kinds implies self.listed(
                            best@,
                            spot,
                        ) by {
                            assert(!self.comes_after(last, spot));
                        }
                    }
                    exhausted = true;
                },
            }
        }
        proof {
            assert forall|place: int, i: int|
                0 <= place < self.kinds() && 0 <= i < best.len() && !(#[trigger] self.listed(
                    best@,
                    place,
                )) implies self.ranks_before((#[trigger] best[i]).index(), place) by {
                let end = best.len() - 1;
                if i < end {
                    assert(self.ranks_before(best[i].index(), best[end].index()));
                }
            }
        }
        best
    }
}

} // verus!
