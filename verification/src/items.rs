//! What the player can carry.

use vstd::prelude::*;

verus! {

/// Bore of a gun and of the ammunition that fits it.
#[derive(Clone, Copy, Debug, PartialEq, Eq, Structural)]
pub enum Caliber {
    Cal31,
    Cal36,
    Cal44,
    Cal50,
    Cal58,
    Cal69,
    Cal577,
}

/// Damage of one bullet of each caliber.
#[derive(Clone, Copy, Debug, PartialEq, Eq)]
pub struct Ballistics {
    pub cal31: i32,
    pub cal36: i32,
    pub cal44: i32,
    pub cal50: i32,
    pub cal58: i32,
    pub cal69: i32,
    pub cal577: i32,
}

impl Ballistics {
    pub open spec fn damage_of(self, caliber: Caliber) -> i32 {
        match caliber {
            Caliber::Cal31 => self.cal31,
            Caliber::Cal36 => self.cal36,
            Caliber::Cal44 => self.cal44,
            Caliber::Cal50 => self.cal50,
            Caliber::Cal58 => self.cal58,
            Caliber::Cal69 => self.cal69,
            Caliber::Cal577 => self.cal577,
        }
    }

    pub fn damage(&self, caliber: Caliber) -> (d: i32)
        ensures
            d == self.damage_of(caliber),
    {
        match caliber {
            Caliber::Cal31 => self.cal31,
            Caliber::Cal36 => self.cal36,
            Caliber::Cal44 => self.cal44,
            Caliber::Cal50 => self.cal50,
            Caliber::Cal58 => self.cal58,
            Caliber::Cal69 => self.cal69,
            Caliber::Cal577 => self.cal577,
        }
    }
}

/// What an item is, with the numbers that matter when it is used. Guns carry a name of type
/// `N`.
#[derive(Clone, Debug, PartialEq, Eq)]
pub enum ItemKind<N> {
    Gun {
        loaded: i32,
        capacity: i32,
        caliber: Caliber,
        attack: i32,
        name: N,
        blunt_damage: i32,
    },
    Knife { attack: i32, blunt_damage: i32 },
    Tomahawk { attack: i32, blunt_damage: i32 },
    Grenade { damage: i32, radius: i32, blunt_damage: i32 },
    Molotov { damage: i32, radius: i32, blunt_damage: i32 },
    Whiskey { heal: i32, blunt_damage: i32 },
    Beer { heal: i32, blunt_damage: i32 },
    Ale { heal: i32, blunt_damage: i32 },
    Stout { heal: i32, blunt_damage: i32 },
    Wine { heal: i32, blunt_damage: i32 },
    Rum { heal: i32, blunt_damage: i32 },
}

/// Whether `needle` occurs as a contiguous piece of `text`.
pub open spec fn occurs_in(needle: Seq<char>, text: Seq<char>) -> bool {
    exists|i: int|
        0 <= i && i + needle.len() <= text.len() && #[trigger] text.subrange(i, i + needle.len())
            == needle
}

/// Calls `str::contains` with a string as the pattern.
///
/// The claim is that of the documentation: the call answers whether the pattern matches a
/// sub-slice of the text. Both being valid UTF-8, a run of equal bytes is a run of equal
/// characters, so the claim is made on characters.
#[verifier::external_body]
fn text_contains(text: &str, needle: &str) -> (found: bool)
    ensures
        found == occurs_in(needle@, text@),
{
    text.contains(needle)
}

/// Whether a gun's name is that of a double-action revolver, which fires in a single tick.
pub open spec fn double_action_name(name: Seq<char>) -> bool {
    occurs_in("Starr"@, name)
}

pub fn is_double_action(name: &str) -> (found: bool)
    ensures
        found == double_action_name(name@),
{
    text_contains(name, "Starr")
}

/// `n / 2`, rounded toward zero.
pub open spec fn half(n: int) -> int {
    if n >= 0 {
        n / 2
    } else {
        -((-n) / 2)
    }
}

/// Damage that an item does when it is snatched from the inventory and thrown: a blade cuts
/// with its full attack, a gun hits with half of its attack, and anything else (an item of
/// no known kind too) does 2.
pub open spec fn improvised_damage(kind: Option<ItemKind<String>>) -> int {
    match kind {
        Some(ItemKind::Knife { attack, .. }) => attack as int,
        Some(ItemKind::Tomahawk { attack, .. }) => attack as int,
        Some(ItemKind::Gun { attack, .. }) => half(attack as int),
        _ => 2,
    }
}

pub fn thrown_damage(kind: &Option<ItemKind<String>>) -> (d: i32)
    ensures
        d == improvised_damage(*kind),
{
    match kind {
        Some(ItemKind::Knife { attack, .. }) => *attack,
        Some(ItemKind::Tomahawk { attack, .. }) => *attack,
        Some(ItemKind::Gun { attack, .. }) => *attack / 2,
        _ => 2,
    }
}

/// A text is found in another exactly if the other is made of the text and whatever is around
/// it.
pub proof fn texts_are_found_with_their_surroundings(needle: Seq<char>, text: Seq<char>)
    ensures
        occurs_in(needle, text) <==> exists|front: Seq<char>, back: Seq<char>|
            text == #[trigger] (front + needle + back),
{
    if occurs_in(needle, text) {
        let i = choose|i: int|
            0 <= i && i + needle.len() <= text.len() && #[trigger] text.subrange(
                i,
                i + needle.len(),
            ) == needle;
        let piece = text.subrange(i, i + needle.len());
        let front = text.take(i);
        let back = text.skip(i + needle.len());
        assert(text =~= front + piece + back);
    }
    if exists|front: Seq<char>, back: Seq<char>| text == #[trigger] (front + needle + back) {
        let (front, back) = choose|front: Seq<char>, back: Seq<char>|
            text == #[trigger] (front + needle + back);
        let i = front.len() as int;
        assert(text.subrange(i, i + needle.len()) =~= needle);
    }
}

/// Half of a number, rounded toward zero, leaves out at most one, and never changes sides.
pub proof fn halves_are_rounded_toward_zero(n: int)
    ensures
        n >= 0 ==> half(n) >= 0 && (n == half(n) + half(n) || n == half(n) + half(n) + 1),
        n <= 0 ==> half(n) <= 0 && (n == half(n) + half(n) || n == half(n) + half(n) - 1),
{
}

/// Thrown blades do their attack, thrown guns about half of theirs, and everything else 2.
pub proof fn thrown_items_do_their_damage(kind: ItemKind<String>)
    ensures
        kind is Knife ==> improvised_damage(Some(kind)) == kind->Knife_attack,
        kind is Tomahawk ==> improvised_damage(Some(kind)) == kind->Tomahawk_attack,
        kind is Gun ==> {
            let damage = improvised_damage(Some(kind));
            let attack = kind->Gun_attack;
            &&& attack >= 0 ==> 0 <= attack - 2 * damage <= 1
            &&& attack < 0 ==> -1 <= attack - 2 * damage <= 0
        },
        kind !is Knife && kind !is Tomahawk && kind !is Gun ==> improvised_damage(Some(kind)) == 2,
        improvised_damage(None) == 2,
{
}

/// A bullet does the damage of its own caliber, whatever those of the others are.
pub proof fn bullets_do_the_damage_of_their_caliber(ballistics: Ballistics)
    ensures
        ballistics.damage_of(Caliber::Cal31) == ballistics.cal31,
        ballistics.damage_of(Caliber::Cal36) == ballistics.cal36,
        ballistics.damage_of(Caliber::Cal44) == ballistics.cal44,
        ballistics.damage_of(Caliber::Cal50) == ballistics.cal50,
        ballistics.damage_of(Caliber::Cal58) == ballistics.cal58,
        ballistics.damage_of(Caliber::Cal69) == ballistics.cal69,
        ballistics.damage_of(Caliber::Cal577) == ballistics.cal577,
{
}

} // verus!
