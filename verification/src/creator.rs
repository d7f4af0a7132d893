//! Character creation, stage by stage.
//!
//! The screen draws and reports what was clicked; what the click does to
//! the character being made is decided here.

use crate::character::{Character, Skill, Trait};
use vstd::prelude::*;

verus! {

/// The stages of character creation, in order.
#[derive(Debug, Clone, Copy, PartialEq, Eq, Structural, Hash)]
pub enum CreationStage {
    /// Name, gender, culture.
    Basic,
    /// Allocate attribute points.
    Attributes,
    /// Set skill focus points.
    Skills,
    /// Initial equipment selection.
    Equipment,
    /// Character traits.
    Traits,
    /// Review and finalize.
    Review,
}

impl CreationStage {
    /// The stage after this one; the last stage is followed by itself.
    pub open spec fn following(self) -> CreationStage {
        match self {
            CreationStage::Basic => CreationStage::Attributes,
            CreationStage::Attributes => CreationStage::Skills,
            CreationStage::Skills => CreationStage::Equipment,
            CreationStage::Equipment => CreationStage::Traits,
            CreationStage::Traits => CreationStage::Review,
            CreationStage::Review => CreationStage::Review,
        }
    }

    /// The stage before this one; the first stage is preceded by itself.
    pub open spec fn preceding(self) -> CreationStage {
        match self {
            CreationStage::Basic => CreationStage::Basic,
            CreationStage::Attributes => CreationStage::Basic,
            CreationStage::Skills => CreationStage::Attributes,
            CreationStage::Equipment => CreationStage::Skills,
            CreationStage::Traits => CreationStage::Equipment,
            CreationStage::Review => CreationStage::Traits,
        }
    }

    /// The stage after this one.
    pub fn next(self) -> (r: CreationStage)
        ensures
            r == self.following(),
    {
        match self {
            CreationStage::Basic => CreationStage::Attributes,
            CreationStage::Attributes => CreationStage::Skills,
            CreationStage::Skills => CreationStage::Equipment,
            CreationStage::Equipment => CreationStage::Traits,
            CreationStage::Traits => CreationStage::Review,
            CreationStage::Review => CreationStage::Review,
        }
    }

    /// The stage before this one.
    pub fn previous(self) -> (r: CreationStage)
        ensures
            r == self.preceding(),
    {
        match self {
            CreationStage::Basic => CreationStage::Basic,
            CreationStage::Attributes => CreationStage::Basic,
            CreationStage::Skills => CreationStage::Attributes,
            CreationStage::Equipment => CreationStage::Skills,
            CreationStage::Traits => CreationStage::Equipment,
            CreationStage::Review => CreationStage::Traits,
        }
    }

    /// Whether there is a stage to go back to.
    pub fn has_previous(self) -> (r: bool)
        ensures
            r == (self != CreationStage::Basic),
    {
        self != CreationStage::Basic
    }

    /// Whether there is a stage to go on to. On the last stage the
    /// character is created instead.
    pub fn has_next(self) -> (r: bool)
        ensures
            r == (self != CreationStage::Review),
    {
        self != CreationStage::Review
    }
}

/// Going forward and then back, or back and then forward, returns to the
/// same stage, except where there is nowhere to go.
pub proof fn lemma_stages_are_in_line(stage: CreationStage)
    ensures
        stage != CreationStage::Review ==> stage.following().preceding() == stage,
        stage != CreationStage::Basic ==> stage.preceding().following() == stage,
{
}

/// The points to spend on attributes when creation begins.
pub const STARTING_ATTRIBUTE_POINTS: u32 = 15;

/// The points to spend on skill focus when creation begins.
pub const STARTING_FOCUS_POINTS: u32 = 10;

/// The lowest value an attribute can be brought down to.
pub const MINIMUM_ATTRIBUTE: u32 = 2;

/// The youngest a character can be.
pub const MINIMUM_AGE: u32 = 18;

/// The oldest a character can be.
pub const MAXIMUM_AGE: u32 = 60;

/// The characters that exist, by the ids of their entities.
#[derive(Debug, PartialEq, Eq)]
pub struct CharacterDatabase {
    pub characters: Vec<u64>,
    pub active_character: Option<u64>,
}

impl Default for CharacterDatabase {
    fn default() -> (r: Self)
        ensures
            r.characters@ == Seq::<u64>::empty(),
            r.active_character is None,
    {
        CharacterDatabase { characters: Vec::new(), active_character: None }
    }
}

impl CharacterDatabase {
    /// Enters a newly made character and makes it the active one.
    pub fn add(&mut self, entity: u64)
        ensures
            final(self).characters@ == old(self).characters@.push(entity),
            final(self).active_character == Some(entity),
    {
        self.characters.push(entity);
        self.active_character = Some(entity);
    }
}

/// Where character creation stands.
#[derive(Debug, PartialEq, Eq)]
pub struct CharacterCreatorState {
    pub creation_stage: CreationStage,
    pub temp_character: Character,
    pub attribute_points: u32,
    pub focus_points: u32,
}

impl CharacterCreatorState {
    /// Whether creation is at its very beginning: the first stage, a blank
    /// character and all points still to spend.
    pub open spec fn is_fresh(self) -> bool {
        &&& self.creation_stage == CreationStage::Basic
        &&& self.temp_character.is_blank()
        &&& self.attribute_points == STARTING_ATTRIBUTE_POINTS
        &&& self.focus_points == STARTING_FOCUS_POINTS
    }

    /// Goes back one stage, if there is one to go back to.
    pub fn go_previous(&mut self)
        ensures
            final(self).creation_stage == old(self).creation_stage.preceding(),
            final(self).temp_character == old(self).temp_character,
            final(self).attribute_points == old(self).attribute_points,
            final(self).focus_points == old(self).focus_points,
    {
        self.creation_stage = self.creation_stage.previous();
    }

    /// Goes on one stage, if there is one to go on to.
    pub fn go_next(&mut self)
        ensures
            final(self).creation_stage == old(self).creation_stage.following(),
            final(self).temp_character == old(self).temp_character,
            final(self).attribute_points == old(self).attribute_points,
            final(self).focus_points == old(self).focus_points,
    {
        self.creation_stage = self.creation_stage.next();
    }

    /// Finishes creation: hands out the character that was made and starts
    /// over with a blank one.
    pub fn create_character(&mut self) -> (r: Character)
        ensures
            r == old(self).temp_character,
            final(self).is_fresh(),
    {
        let mut made = CharacterCreatorState::default();
        std::mem::swap(self, &mut made);
        made.temp_character
    }
}

impl Default for CharacterCreatorState {
    fn default() -> (r: Self)
        ensures
            r.is_fresh(),
    {
        CharacterCreatorState {
            creation_stage: CreationStage::Basic,
            temp_character: Character::default(),
            attribute_points: STARTING_ATTRIBUTE_POINTS,
            focus_points: STARTING_FOCUS_POINTS,
        }
    }
}

/// An age brought into the range a character can have.
pub fn clamp_age(age: u32) -> (r: u32)
    ensures
        r == if age < MINIMUM_AGE {
            MINIMUM_AGE
        } else if age > MAXIMUM_AGE {
            MAXIMUM_AGE
        } else {
            age
        },
{
    if age < MINIMUM_AGE {
        MINIMUM_AGE
    } else if age > MAXIMUM_AGE {
        MAXIMUM_AGE
    } else {
        age
    }
}

/// What a click on the minus button does to an attribute: above the
/// minimum, the attribute gives a point back to the pool.
pub open spec fn attribute_lowered(value: u32, points: u32, clicked: bool) -> (u32, u32) {
    if value > MINIMUM_ATTRIBUTE && clicked {
        ((value - 1) as u32, (points + 1) as u32)
    } else {
        (value, points)
    }
}

/// What a click on the plus button does to an attribute: while there are
/// points in the pool, the attribute takes one.
pub open spec fn attribute_raised(value: u32, points: u32, clicked: bool) -> (u32, u32) {
    if points > 0 && clicked {
        ((value + 1) as u32, (points - 1) as u32)
    } else {
        (value, points)
    }
}

/// One attribute's row of the creation screen: the minus button is dealt
/// with first, then the plus button, which sees the pool as the minus
/// button left it.
pub fn attribute_selector(
    value: &mut u32,
    points: &mut u32,
    minus_clicked: bool,
    plus_clicked: bool,
)
    requires
        *old(value) + *old(points) <= u32::MAX,
    ensures
        (*final(value), *final(points)) == ({
            let lowered = attribute_lowered(*old(value), *old(points), minus_clicked);
            attribute_raised(lowered.0, lowered.1, plus_clicked)
        }),
        *final(value) + *final(points) == *old(value) + *old(points),
{
    if *value > MINIMUM_ATTRIBUTE && minus_clicked {
        *value -= 1;
        *points += 1;
    }
    if *points > 0 && plus_clicked {
        *value += 1;
        *points -= 1;
    }
}

/// One skill's row of the creation screen: minus takes a focus point out
/// of the skill if it has one, then plus puts one in if the pool has one.
pub fn skill_selector(
    skill: &mut Skill,
    focus_points: &mut u32,
    minus_clicked: bool,
    plus_clicked: bool,
)
    requires
        old(skill).focus_points + *old(focus_points) <= u32::MAX,
    ensures
        (final(skill).focus_points, *final(focus_points)) == ({
            let lowered = if old(skill).focus_points > 0 && minus_clicked {
                ((old(skill).focus_points - 1) as u32, (*old(focus_points) + 1) as u32)
            } else {
                (old(skill).focus_points, *old(focus_points))
            };
            attribute_raised(lowered.0, lowered.1, plus_clicked)
        }),
        final(skill).focus_points + *final(focus_points) == old(skill).focus_points + *old(
            focus_points,
        ),
        final(skill).level == old(skill).level,
        final(skill).experience == old(skill).experience,
{
    if skill.focus_points > 0 && minus_clicked {
        skill.focus_points -= 1;
        *focus_points += 1;
    }
    if *focus_points > 0 && plus_clicked {
        skill.focus_points += 1;
        *focus_points -= 1;
    }
}

/// Whether a trait has an id other than `id`.
pub open spec fn is_other_trait(id: Seq<char>) -> spec_fn(Trait) -> bool {
    |candidate: Trait| candidate.id@ != id
}

/// Filtering keeps a sequence whole when every element passes.
proof fn lemma_filter_keeps_all<A>(items: Seq<A>, keep: spec_fn(A) -> bool)
    requires
        forall|i: int| 0 <= i < items.len() ==> keep(#[trigger] items[i]),
    ensures
        items.filter(keep) == items,
    decreases items.len(),
{
    reveal(Seq::filter);
    if items.len() > 0 {
        lemma_filter_keeps_all(items.drop_last(), keep);
        assert(items.drop_last().push(items.last()) =~= items);
    }
}

/// Filtering is not affected by taking out an element that does not pass.
proof fn lemma_filter_ignores_removed<A>(items: Seq<A>, keep: spec_fn(A) -> bool, at: int)
    requires
        0 <= at < items.len(),
        !keep(items[at]),
    ensures
        items.remove(at).filter(keep) == items.filter(keep),
{
    let before = items.take(at);
    let one = Seq::empty().push(items[at]);
    let after = items.skip(at + 1);
    assert(items =~= before + one + after);
    assert(items.remove(at) =~= before + after);
    Seq::filter_distributes_over_add(before, one, keep);
    Seq::filter_distributes_over_add(before + one, after, keep);
    Seq::filter_distributes_over_add(before, after, keep);
    reveal_with_fuel(Seq::filter, 2);
    assert(one.drop_last() =~= Seq::empty());
    assert(one.filter(keep) =~= Seq::empty());
    assert(before.filter(keep) + one.filter(keep) =~= before.filter(keep));
}

/// Takes every trait with the given id out of the list. The others stay,
/// in their order.
pub fn remove_trait(traits: &mut Vec<Trait>, id: &str)
    ensures
        final(traits)@ == old(traits)@.filter(is_other_trait(id@)),
{
    let wanted = String::from_str(id);
    let ghost keep = is_other_trait(id@);
    let mut i: usize = 0;
    while i < traits.len()
        invariant
            i <= traits.len(),
            wanted@ == id@,
            keep == is_other_trait(id@),
            traits@.filter(keep) == old(traits)@.filter(keep),
            forall|k: int| 0 <= k < i ==> keep(#[trigger] traits@[k]),
        decreases traits.len() - i,
    {
        if traits[i].id == wanted {
            proof {
                lemma_filter_ignores_removed(traits@, keep, i as int);
            }
            traits.remove(i);
        } else {
            i += 1;
        }
    }
    proof {
        lemma_filter_keeps_all(traits@, keep);
    }
}

/// Whether the list holds a trait with the given id.
pub fn has_trait(traits: &Vec<Trait>, id: &str) -> (r: bool)
    ensures
        r == exists|i: int| 0 <= i < traits.len() && (#[trigger] traits[i]).id@ == id@,
{
    let wanted = String::from_str(id);
    let mut i: usize = 0;
    while i < traits.len()
        invariant
            i <= traits.len(),
            wanted@ == id@,
            forall|k: int| 0 <= k < i ==> (#[trigger] traits[k]).id@ != id@,
        decreases traits.len() - i,
    {
        if traits[i].id == wanted {
            return true;
        }
        i += 1;
    }
    false
}

/// What a change of a trait's checkbox does: with `present` the trait is
/// added at the end, without it every trait of its id is taken out.
pub fn set_trait(traits: &mut Vec<Trait>, toggled: Trait, present: bool)
    ensures
        final(traits)@ == if present {
            old(traits)@.push(toggled)
        } else {
            old(traits)@.filter(is_other_trait(toggled.id@))
        },
{
    if present {
        traits.push(toggled);
    } else {
        remove_trait(traits, toggled.id.as_str());
    }
}

} // verus!
