use rand::RngExt;
use vstd::prelude::*;
use vstd::string::StringExecFns;

verus! {

/// The three kinds of enemy: worms crawl along the ground, phantoms (the game's ghosts) float in
/// from the right in waves, spiders drop from the top on a thread.
#[derive(Debug, Clone, Copy, PartialEq, Eq, Structural)]
pub enum EnemyKind {
    Worm,
    Phantom,
    Spider,
}

/// The enemy kind a roll of the spawner's die stands for.
pub open spec fn kind_of_roll(roll: u32) -> Option<EnemyKind> {
    if roll == 0 {
        Some(EnemyKind::Worm)
    } else if roll == 1 {
        Some(EnemyKind::Phantom)
    } else if roll == 2 {
        Some(EnemyKind::Spider)
    } else {
        None
    }
}

/// The start of an enemy's name, which tells its kind.
pub open spec fn name_prefix(kind: EnemyKind) -> Seq<char> {
    match kind {
        EnemyKind::Worm => "Worm_"@,
        EnemyKind::Phantom => "Ghost_"@,
        EnemyKind::Spider => "Spider_"@,
    }
}

pub open spec fn is_lower_hex(c: char) -> bool {
    ('0' <= c && c <= '9') || ('a' <= c && c <= 'f')
}

/// A random (version 4) UUID written as a URN: `urn:uuid:` and then the
/// 36-character hyphenated form in lower-case hex, whose version digit is 4
/// and whose variant digit is one of 8, 9, a, b.
pub open spec fn is_v4_urn(s: Seq<char>) -> bool {
    &&& s.len() == 45
    &&& s.subrange(0, 9) == "urn:uuid:"@
    &&& forall|i: int|
        9 <= i < 45 ==> if i == 17 || i == 22 || i == 27 || i == 32 {
            s[i] == '-'
        } else {
            is_lower_hex(#[trigger] s[i])
        }
    &&& s[23] == '4'
    &&& (s[28] == '8' || s[28] == '9' || s[28] == 'a' || s[28] == 'b')
}

/// Draws a number from `low..high` with the thread's random generator:
/// `rand::rng()` and then `RngExt::random_range`, whose documentation gives a
/// value in the half-open range (and a panic on an empty one, which
/// `requires` rules out). Which value comes back is left open. `rand::rng()`
/// panics if the system generator fails during the thread's first seeding;
/// nothing here can rule that out.
#[verifier::external_body]
fn random_in_range(low: u32, high: u32) -> (r: u32)
    requires
        low < high,
    ensures
        low <= r < high,
{
    rand::rng().random_range(low..high)
}

/// A fresh random UUID as a URN string: `uuid::Uuid::new_v4()`, its `urn()`
/// formatter, and its `Display` output. The source sets the version nibble to
/// 4 and the variant bits to `10`, and writes `urn:uuid:` followed by the
/// lower-case hyphenated form. Which UUID comes back is left open.
#[verifier::external_body]
fn new_v4_urn() -> (r: String)
    ensures
        is_v4_urn(r@),
{
    uuid::Uuid::new_v4().urn().to_string()
}

impl EnemyKind {
    /// The enemy kind a roll of the spawner's die stands for, if any.
    pub fn from_roll(roll: u32) -> (r: Option<EnemyKind>)
        ensures
            r == kind_of_roll(roll),
    {
        match roll {
            0 => Some(EnemyKind::Worm),
            1 => Some(EnemyKind::Phantom),
            2 => Some(EnemyKind::Spider),
            _ => None,
        }
    }

    /// Picks the kind of the next enemy by a roll of a three-sided die.
    pub fn pick_random() -> (r: EnemyKind)
        ensures
            exists|roll: u32| roll < 3 && kind_of_roll(roll) == Some(r),
    {
        let roll = random_in_range(0, 3);
        EnemyKind::from_roll(roll).unwrap()
    }

    /// The start of the names of enemies of this kind.
    pub fn name_prefix(&self) -> (r: &'static str)
        ensures
            r@ == name_prefix(*self),
    {
        match self {
            EnemyKind::Worm => "Worm_",
            EnemyKind::Phantom => "Ghost_",
            EnemyKind::Spider => "Spider_",
        }
    }
}

/// The name of an enemy of `kind` with the given unique tag.
pub fn enemy_name(kind: EnemyKind, tag: &str) -> (r: String)
    ensures
        r@ == name_prefix(kind) + tag@,
{
    let mut name = String::from_str(kind.name_prefix());
    name.append(tag);
    name
}

/// A new, unique name for an enemy of `kind`: its kind's prefix followed by
/// a random UUID as a URN.
pub fn new_enemy_name(kind: EnemyKind) -> (r: String)
    ensures
        exists|urn: Seq<char>| is_v4_urn(urn) && r@ == name_prefix(kind) + urn,
{
    let urn = new_v4_urn();
    let name = enemy_name(kind, urn.as_str());
    assert(is_v4_urn(urn@) && name@ == name_prefix(kind) + urn@);
    name
}

/// The frame that follows `frame_index` in an enemy animation of
/// `max_frames + 1` frames, wrapping back to frame 0.
pub fn next_enemy_frame(frame_index: usize, max_frames: usize) -> (r: usize)
    requires
        frame_index < usize::MAX,
        max_frames < usize::MAX,
    ensures
        r == (frame_index + 1) % (max_frames + 1),
        r <= max_frames,
        frame_index < max_frames ==> r == frame_index + 1,
        frame_index == max_frames ==> r == 0,
{
    proof {
        if frame_index < max_frames {
            vstd::arithmetic::div_mod::lemma_small_mod(
                (frame_index + 1) as nat,
                (max_frames + 1) as nat,
            );
        }
        if frame_index == max_frames {
            vstd::arithmetic::div_mod::lemma_mod_self_0((max_frames + 1) as int);
        }
    }
    (frame_index + 1) % (max_frames + 1)
}

} // verus!
