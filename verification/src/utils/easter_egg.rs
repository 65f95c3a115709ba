//! Little Crab, the companion hidden in the app: how it is found (triple
//! clicks, the Konami code, the secret word "crab", idling, streaks), how it
//! reacts, what it says and the treasures it digs up.
//!
//! Energy is kept in thousandths of a percent. The crab's position on
//! screen and its movement are floating-point geometry and live with the
//! drawing code; the decisions they feed are made here.

use vstd::prelude::*;
use crate::chance::{chance, random_below};
use crate::clock::{utc_hour, utc_month_day, utc_now_millis, MAX_TIMESTAMP_MS};
use crate::state::StruggleState;
use crate::text::{decimal, lower, owned, u64_to_string};

verus! {

/// The crab's character, which shapes how it behaves and talks.
#[derive(Debug, Clone, Copy, PartialEq, Eq, Structural)]
pub enum CrabPersonality {
    /// Hides quickly, peeks out occasionally.
    Shy,
    /// Dances and moves around frequently.
    Playful,
    /// Gives more hints and encouragement.
    Helpful,
    /// Sometimes covers answers or UI elements.
    Mischievous,
    /// Shares learning wisdom and quotes.
    Wise,
    /// Always bouncing around with high energy.
    Energetic,
    /// Often napping, low energy.
    Sleepy,
    /// Investigates everything.
    Curious,
}

/// What the crab is doing on screen.
#[derive(Debug, Clone, Copy, PartialEq, Eq, Structural)]
pub enum AnimationPhase {
    Hidden,
    Peeking,
    Crawling,
    Dancing,
    Helping,
    Sleeping,
    Excited,
    Curious,
    Waving,
    Swimming,
    Digging,
    Sunbathing,
    Reading,
    Cheering,
    Thinking,
    Celebrating,
}

/// What brought the crab out.
#[derive(Debug, Clone, Copy, PartialEq, Eq, Structural)]
pub enum CrabTrigger {
    TripleClick,
    LongPress,
    PerfectStreak,
    IdleTime,
    SecretWord,
    KonamiCode,
    TimeOfDay,
    ScreenEdgeHover,
    EasterEggHunt,
    BirthdayMode,
    AchievementUnlock,
    SpecialDate,
}

/// The crab's mood.
#[derive(Debug, Clone, Copy, PartialEq, Eq, Structural)]
pub enum CrabMood {
    Happy,
    Excited,
    Neutral,
    Sleepy,
    Playful,
    Proud,
    Encouraging,
    Curious,
    Celebratory,
    Philosophical,
}

/// How rare a treasure is.
#[derive(Debug, Clone, Copy, PartialEq, Eq, Structural)]
pub enum TreasureRarity {
    Common,
    Uncommon,
    Rare,
    Epic,
    Legendary,
}

/// A treasure the crab dug up, found at a time in milliseconds since the
/// epoch.
#[derive(Debug)]
pub struct CrabTreasure {
    pub name: String,
    pub emoji: String,
    pub found_at: i64,
    pub rarity: TreasureRarity,
}

/// The moment at which the crab acts: the time in milliseconds since the
/// epoch and its UTC month, day of the month and hour.
#[derive(Debug, Clone, Copy, PartialEq, Eq, Structural)]
pub struct CrabClock {
    pub now_ms: i64,
    pub month: u32,
    pub day: u32,
    pub hour: u32,
}

/// Full energy: one hundred percent, in thousandths of a percent.
pub const FULL_ENERGY: u32 = 100_000;

/// The phase the crab takes when found by `trigger`.
pub open spec fn activation_phase(trigger: CrabTrigger, p: CrabPersonality) -> AnimationPhase {
    match trigger {
        CrabTrigger::TripleClick => if p == CrabPersonality::Shy {
            AnimationPhase::Peeking
        } else {
            AnimationPhase::Excited
        },
        CrabTrigger::PerfectStreak => AnimationPhase::Cheering,
        CrabTrigger::IdleTime => if p == CrabPersonality::Sleepy {
            AnimationPhase::Sleeping
        } else {
            AnimationPhase::Curious
        },
        CrabTrigger::SecretWord => AnimationPhase::Dancing,
        CrabTrigger::KonamiCode => AnimationPhase::Celebrating,
        CrabTrigger::AchievementUnlock => AnimationPhase::Cheering,
        CrabTrigger::BirthdayMode => AnimationPhase::Celebrating,
        _ => AnimationPhase::Peeking,
    }
}

/// The mood the crab takes when found by `trigger`.
pub open spec fn activation_mood(trigger: CrabTrigger, p: CrabPersonality) -> CrabMood {
    match trigger {
        CrabTrigger::PerfectStreak | CrabTrigger::AchievementUnlock => CrabMood::Proud,
        CrabTrigger::SecretWord | CrabTrigger::KonamiCode => CrabMood::Playful,
        CrabTrigger::BirthdayMode => CrabMood::Celebratory,
        CrabTrigger::IdleTime => if p == CrabPersonality::Sleepy {
            CrabMood::Sleepy
        } else {
            CrabMood::Happy
        },
        _ => CrabMood::Happy,
    }
}

fn phase_on_activation(trigger: CrabTrigger, p: CrabPersonality) -> (r: AnimationPhase)
    ensures
        r == activation_phase(trigger, p),
{
    match trigger {
        CrabTrigger::TripleClick => if p == CrabPersonality::Shy {
            AnimationPhase::Peeking
        } else {
            AnimationPhase::Excited
        },
        CrabTrigger::PerfectStreak => AnimationPhase::Cheering,
        CrabTrigger::IdleTime => if p == CrabPersonality::Sleepy {
            AnimationPhase::Sleeping
        } else {
            AnimationPhase::Curious
        },
        CrabTrigger::SecretWord => AnimationPhase::Dancing,
        CrabTrigger::KonamiCode => AnimationPhase::Celebrating,
        CrabTrigger::AchievementUnlock => AnimationPhase::Cheering,
        CrabTrigger::BirthdayMode => AnimationPhase::Celebrating,
        _ => AnimationPhase::Peeking,
    }
}

fn mood_on_activation(trigger: CrabTrigger, p: CrabPersonality) -> (r: CrabMood)
    ensures
        r == activation_mood(trigger, p),
{
    match trigger {
        CrabTrigger::PerfectStreak | CrabTrigger::AchievementUnlock => CrabMood::Proud,
        CrabTrigger::SecretWord | CrabTrigger::KonamiCode => CrabMood::Playful,
        CrabTrigger::BirthdayMode => CrabMood::Celebratory,
        CrabTrigger::IdleTime => if p == CrabPersonality::Sleepy {
            CrabMood::Sleepy
        } else {
            CrabMood::Happy
        },
        _ => CrabMood::Happy,
    }
}

/// The greeting for the hour of the day.
pub open spec fn time_message(hour: u32) -> Seq<char> {
    if 5 <= hour <= 11 {
        "🦀 Good morning! Ready to learn?"@
    } else if 12 <= hour <= 16 {
        "🦀 Afternoon learning session!"@
    } else if 17 <= hour <= 20 {
        "🦀 Evening practice time!"@
    } else {
        "🦀 Late night learning? Impressive!"@
    }
}

fn time_based_message(hour: u32) -> (r: &'static str)
    ensures
        r@ == time_message(hour),
{
    if 5 <= hour && hour <= 11 {
        "🦀 Good morning! Ready to learn?"
    } else if 12 <= hour && hour <= 16 {
        "🦀 Afternoon learning session!"
    } else if 17 <= hour && hour <= 20 {
        "🦀 Evening practice time!"
    } else {
        "🦀 Late night learning? Impressive!"
    }
}

/// The greeting for a special date.
pub open spec fn special_date_message(month: u32, day: u32) -> Seq<char> {
    if month == 1 && day == 1 {
        "🦀 Happy New Year! New year, new learning!"@
    } else if month == 2 && day == 14 {
        "🦀 Happy Valentine's! I ❤️ learning!"@
    } else if month == 3 && day == 14 {
        "🦀 Happy Pi Day! 3.14159..."@
    } else if month == 4 && day == 1 {
        "🦀 No fooling - you're doing great!"@
    } else if month == 10 && day == 31 {
        "🦀 Boo! Happy Halloween! 👻"@
    } else if month == 12 && day == 25 {
        "🦀 Merry Christmas! 🎄"@
    } else {
        "🦀 Today is special because you're learning!"@
    }
}

fn date_message(month: u32, day: u32) -> (r: &'static str)
    ensures
        r@ == special_date_message(month, day),
{
    if month == 1 && day == 1 {
        "🦀 Happy New Year! New year, new learning!"
    } else if month == 2 && day == 14 {
        "🦀 Happy Valentine's! I ❤️ learning!"
    } else if month == 3 && day == 14 {
        "🦀 Happy Pi Day! 3.14159..."
    } else if month == 4 && day == 1 {
        "🦀 No fooling - you're doing great!"
    } else if month == 10 && day == 31 {
        "🦀 Boo! Happy Halloween! 👻"
    } else if month == 12 && day == 25 {
        "🦀 Merry Christmas! 🎄"
    } else {
        "🦀 Today is special because you're learning!"
    }
}

/// The outfit the crab wears on a date, if any.
pub open spec fn seasonal_outfit_for(month: u32, day: u32) -> Option<Seq<char>> {
    if month == 12 && 20 <= day <= 26 {
        Some("🎅 Santa Hat"@)
    } else if month == 10 && 25 <= day <= 31 {
        Some("🎃 Pumpkin Costume"@)
    } else if month == 7 && 1 <= day <= 7 {
        Some("🎆 Fireworks Hat"@)
    } else if month == 2 && day == 14 {
        Some("💝 Heart Antenna"@)
    } else if month == 3 && day == 17 {
        Some("☘️ Lucky Clover"@)
    } else if month == 4 && day == 1 {
        Some("🤡 Jester Hat"@)
    } else if month == 5 && day <= 7 {
        Some("🌸 Spring Flowers"@)
    } else if month == 6 && day >= 21 {
        Some("☀️ Sunglasses"@)
    } else if month == 9 && day >= 22 {
        Some("🍂 Autumn Leaves"@)
    } else if month == 11 && 24 <= day <= 30 {
        Some("🦃 Pilgrim Hat"@)
    } else {
        None
    }
}

/// The outfit the crab wears on a date, if any.
pub fn seasonal_outfit(month: u32, day: u32) -> (r: Option<&'static str>)
    ensures
        match r {
            Some(o) => seasonal_outfit_for(month, day) == Some(o@),
            None => seasonal_outfit_for(month, day) is None,
        },
{
    if month == 12 && 20 <= day && day <= 26 {
        Some("🎅 Santa Hat")
    } else if month == 10 && 25 <= day && day <= 31 {
        Some("🎃 Pumpkin Costume")
    } else if month == 7 && 1 <= day && day <= 7 {
        Some("🎆 Fireworks Hat")
    } else if month == 2 && day == 14 {
        Some("💝 Heart Antenna")
    } else if month == 3 && day == 17 {
        Some("☘️ Lucky Clover")
    } else if month == 4 && day == 1 {
        Some("🤡 Jester Hat")
    } else if month == 5 && day <= 7 {
        Some("🌸 Spring Flowers")
    } else if month == 6 && day >= 21 {
        Some("☀️ Sunglasses")
    } else if month == 9 && day >= 22 {
        Some("🍂 Autumn Leaves")
    } else if month == 11 && 24 <= day && day <= 30 {
        Some("🦃 Pilgrim Hat")
    } else {
        None
    }
}

/// What the crab says when found by `trigger` for the `count`-th time.
pub open spec fn discovery_message(trigger: CrabTrigger, count: u32, clock: CrabClock) -> Seq<char> {
    match trigger {
        CrabTrigger::TripleClick => if count == 1 {
            "🦀 *peek* You found me! I'm Little Crab!"@
        } else if count == 2 {
            "🦀 Back again? You must really like crabs!"@
        } else {
            "🦀 We're old friends now! (Found "@ + decimal(count as nat) + " times!)"@
        },
        CrabTrigger::PerfectStreak => "🦀 Wow! Perfect streak! You're amazing!"@,
        CrabTrigger::LongPress => "🦀 That was a long press! You must really want to see me!"@,
        CrabTrigger::IdleTime => "🦀 *yawn* Were you taking a break? Me too!"@,
        CrabTrigger::SecretWord => "🦀 You know the secret word! 🎉"@,
        CrabTrigger::KonamiCode => "🦀 ↑↑↓↓←→←→BA! Classic gamer move!"@,
        CrabTrigger::TimeOfDay => time_message(clock.hour),
        CrabTrigger::SpecialDate => special_date_message(clock.month, clock.day),
        CrabTrigger::ScreenEdgeHover => "🦀 Peeking from the edge? I see you!"@,
        CrabTrigger::EasterEggHunt => "🐰🦀 Easter Crab has treasures for you!"@,
        CrabTrigger::BirthdayMode => "🎂🦀 HAPPY BIRTHDAY! Special crab dance!"@,
        CrabTrigger::AchievementUnlock => "🏆🦀 Achievement! I'm so proud of you!"@,
    }
}

/// What the crab says when found by `trigger` for the `count`-th time.
pub fn get_discovery_message(trigger: CrabTrigger, count: u32, clock: CrabClock) -> (r: String)
    ensures
        r@ == discovery_message(trigger, count, clock),
{
    match trigger {
        CrabTrigger::TripleClick => if count == 1 {
            owned("🦀 *peek* You found me! I'm Little Crab!")
        } else if count == 2 {
            owned("🦀 Back again? You must really like crabs!")
        } else {
            let mut s = owned("🦀 We're old friends now! (Found ");
            s.append(u64_to_string(count as u64).as_str());
            s.append(" times!)");
            s
        },
        CrabTrigger::PerfectStreak => owned("🦀 Wow! Perfect streak! You're amazing!"),
        CrabTrigger::LongPress => owned("🦀 That was a long press! You must really want to see me!"),
        CrabTrigger::IdleTime => owned("🦀 *yawn* Were you taking a break? Me too!"),
        CrabTrigger::SecretWord => owned("🦀 You know the secret word! 🎉"),
        CrabTrigger::KonamiCode => owned("🦀 ↑↑↓↓←→←→BA! Classic gamer move!"),
        CrabTrigger::TimeOfDay => owned(time_based_message(clock.hour)),
        CrabTrigger::SpecialDate => owned(date_message(clock.month, clock.day)),
        CrabTrigger::ScreenEdgeHover => owned("🦀 Peeking from the edge? I see you!"),
        CrabTrigger::EasterEggHunt => owned("🐰🦀 Easter Crab has treasures for you!"),
        CrabTrigger::BirthdayMode => owned("🎂🦀 HAPPY BIRTHDAY! Special crab dance!"),
        CrabTrigger::AchievementUnlock => owned("🏆🦀 Achievement! I'm so proud of you!"),
    }
}

/// The personality drawn by a roll below five: shy, playful, helpful,
/// mischievous, and wise for the rest.
pub open spec fn personality_for_roll(roll: u32) -> CrabPersonality {
    if roll == 0 {
        CrabPersonality::Shy
    } else if roll == 1 {
        CrabPersonality::Playful
    } else if roll == 2 {
        CrabPersonality::Helpful
    } else if roll == 3 {
        CrabPersonality::Mischievous
    } else {
        CrabPersonality::Wise
    }
}

/// The moment `now_ms` with its calendar fields.
pub open spec fn clock_at(now_ms: i64) -> CrabClock {
    CrabClock {
        now_ms,
        month: crate::clock::utc_month_day_of(now_ms).0,
        day: crate::clock::utc_month_day_of(now_ms).1,
        hour: crate::clock::utc_hour_of(now_ms as int) as u32,
    }
}

/// The moment `now_ms` (a valid timestamp) with its UTC month, day and
/// hour.
pub fn crab_clock_at(now_ms: i64) -> (r: CrabClock)
    requires
        0 <= now_ms <= MAX_TIMESTAMP_MS,
    ensures
        r == clock_at(now_ms),
        1 <= r.month <= 12,
        1 <= r.day <= 31,
        r.hour < 24,
{
    let (month, day) = utc_month_day(now_ms);
    CrabClock { now_ms, month, day, hour: utc_hour(now_ms) }
}

/// The moment now.
pub fn crab_clock_now() -> (r: CrabClock)
    ensures
        0 <= r.now_ms <= MAX_TIMESTAMP_MS,
        r == clock_at(r.now_ms),
{
    crab_clock_at(utc_now_millis())
}

/// What the crab says to celebrate a streak of `streak` and an accuracy
/// of `accuracy_bp` basis points.
pub open spec fn celebration_message(p: CrabPersonality, streak: u32, accuracy_bp: u32) -> Seq<char> {
    if streak >= 20 {
        "🎉🦀 LEGENDARY STREAK! You're unstoppable! 🦀🎉"@
    } else if streak >= 10 {
        "🌟🦀 Double digits! Amazing consistency! 🦀🌟"@
    } else if accuracy_bp >= 10000 {
        "💯🦀 PERFECT! You're a learning machine! 🦀💯"@
    } else {
        match p {
            CrabPersonality::Shy => "🦀 *happy dance* You did so well! 🦀"@,
            CrabPersonality::Playful => "🎊🦀 WOOHOO! Let's celebrate! 🦀🎊"@,
            CrabPersonality::Helpful => "🦀 I knew you could do it! Great job! 🦀"@,
            CrabPersonality::Mischievous => "🦀 Hehe, you're getting too good at this! 🦀"@,
            CrabPersonality::Wise => "🦀 'Excellence is a habit.' - You're proving it! 🦀"@,
            CrabPersonality::Energetic => "⚡🦀 BOOM! That was AMAZING! ⚡🦀"@,
            CrabPersonality::Sleepy => "😊🦀 *yawn* Even I'm awake for this success! 🦀😊"@,
            CrabPersonality::Curious => "🤔🦀 Fascinating! Your learning pattern is impressive! 🦀🤔"@,
        }
    }
}

fn celebration_line(p: CrabPersonality, streak: u32, accuracy_bp: u32) -> (r: &'static str)
    ensures
        r@ == celebration_message(p, streak, accuracy_bp),
{
    if streak >= 20 {
        "🎉🦀 LEGENDARY STREAK! You're unstoppable! 🦀🎉"
    } else if streak >= 10 {
        "🌟🦀 Double digits! Amazing consistency! 🦀🌟"
    } else if accuracy_bp >= 10000 {
        "💯🦀 PERFECT! You're a learning machine! 🦀💯"
    } else {
        match p {
            CrabPersonality::Shy => "🦀 *happy dance* You did so well! 🦀",
            CrabPersonality::Playful => "🎊🦀 WOOHOO! Let's celebrate! 🦀🎊",
            CrabPersonality::Helpful => "🦀 I knew you could do it! Great job! 🦀",
            CrabPersonality::Mischievous => "🦀 Hehe, you're getting too good at this! 🦀",
            CrabPersonality::Wise => "🦀 'Excellence is a habit.' - You're proving it! 🦀",
            CrabPersonality::Energetic => "⚡🦀 BOOM! That was AMAZING! ⚡🦀",
            CrabPersonality::Sleepy => "😊🦀 *yawn* Even I'm awake for this success! 🦀😊",
            CrabPersonality::Curious => "🤔🦀 Fascinating! Your learning pattern is impressive! 🦀🤔",
        }
    }
}

/// What the crab says to a learner who tried `attempts` times.
pub open spec fn encouragement_message(p: CrabPersonality, attempts: u32) -> Seq<char> {
    if attempts > 5 {
        "🦀 Learning takes time. Every attempt makes you stronger! 🦀"@
    } else {
        match p {
            CrabPersonality::Shy => "🦀 *whispers* Don't give up... you can do it... 🦀"@,
            CrabPersonality::Playful => "🦀 Mistakes are just practice in disguise! Keep going! 🦀"@,
            CrabPersonality::Helpful => "🦀 Let me help! Try breaking it down into smaller steps! 🦀"@,
            CrabPersonality::Mischievous => "🦀 Tricky one, huh? Even I'd struggle with that! 🦀"@,
            CrabPersonality::Wise => "🦀 'The master has failed more times than the beginner has tried.' 🦀"@,
            CrabPersonality::Energetic => "💪🦀 You've GOT this! One more try! 💪🦀"@,
            CrabPersonality::Sleepy => "😴🦀 Maybe a little break would help? Rest refreshes the mind! 🦀😴"@,
            CrabPersonality::Curious => "🤔🦀 Hmm, what if you tried a different approach? 🦀🤔"@,
        }
    }
}

fn encouragement_line(p: CrabPersonality, attempts: u32) -> (r: &'static str)
    ensures
        r@ == encouragement_message(p, attempts),
{
    if attempts > 5 {
        "🦀 Learning takes time. Every attempt makes you stronger! 🦀"
    } else {
        match p {
            CrabPersonality::Shy => "🦀 *whispers* Don't give up... you can do it... 🦀",
            CrabPersonality::Playful => "🦀 Mistakes are just practice in disguise! Keep going! 🦀",
            CrabPersonality::Helpful => "🦀 Let me help! Try breaking it down into smaller steps! 🦀",
            CrabPersonality::Mischievous => "🦀 Tricky one, huh? Even I'd struggle with that! 🦀",
            CrabPersonality::Wise => "🦀 'The master has failed more times than the beginner has tried.' 🦀",
            CrabPersonality::Energetic => "💪🦀 You've GOT this! One more try! 💪🦀",
            CrabPersonality::Sleepy => "😴🦀 Maybe a little break would help? Rest refreshes the mind! 🦀😴",
            CrabPersonality::Curious => "🤔🦀 Hmm, what if you tried a different approach? 🦀🤔",
        }
    }
}

/// The dice thrown for a treasure: one chance for each rarity from the
/// rarest down, and which of the three treasures of the rarity is found.
#[derive(Debug, Clone, Copy, PartialEq, Eq, Structural)]
pub struct TreasureDraw {
    pub legendary: bool,
    pub epic: bool,
    pub rare: bool,
    pub uncommon: bool,
    pub pick: u32,
}

/// The rarity a draw gives a crab with the given friendship: the rarer
/// kinds need more friendship.
pub open spec fn treasure_rarity(friendship: u32, draw: TreasureDraw) -> TreasureRarity {
    if friendship > 50 && draw.legendary {
        TreasureRarity::Legendary
    } else if friendship > 30 && draw.epic {
        TreasureRarity::Epic
    } else if friendship > 15 && draw.rare {
        TreasureRarity::Rare
    } else if draw.uncommon {
        TreasureRarity::Uncommon
    } else {
        TreasureRarity::Common
    }
}

/// The name and emoji of the `pick`-th treasure of a rarity.
pub open spec fn treasure_item(rarity: TreasureRarity, pick: u32) -> (Seq<char>, Seq<char>) {
    match rarity {
        TreasureRarity::Common => if pick == 0 {
            ("Seashell"@, "🐚"@)
        } else if pick == 1 {
            ("Pebble"@, "🪨"@)
        } else {
            ("Seaweed"@, "🌿"@)
        },
        TreasureRarity::Uncommon => if pick == 0 {
            ("Starfish"@, "⭐"@)
        } else if pick == 1 {
            ("Pearl"@, "🦪"@)
        } else {
            ("Coral"@, "🪸"@)
        },
        TreasureRarity::Rare => if pick == 0 {
            ("Golden Shell"@, "🏆"@)
        } else if pick == 1 {
            ("Crystal"@, "💎"@)
        } else {
            ("Ancient Coin"@, "🪙"@)
        },
        TreasureRarity::Epic => if pick == 0 {
            ("Magic Conch"@, "🐚✨"@)
        } else if pick == 1 {
            ("Mermaid Scale"@, "🧜‍♀️"@)
        } else {
            ("Neptune's Fork"@, "🔱"@)
        },
        TreasureRarity::Legendary => if pick == 0 {
            ("Crab Crown"@, "👑🦀"@)
        } else if pick == 1 {
            ("Ocean Heart"@, "💙🌊"@)
        } else {
            ("Wisdom Pearl"@, "🧠🦪"@)
        },
    }
}

fn rarity_of(friendship: u32, draw: TreasureDraw) -> (r: TreasureRarity)
    ensures
        r == treasure_rarity(friendship, draw),
{
    if friendship > 50 && draw.legendary {
        TreasureRarity::Legendary
    } else if friendship > 30 && draw.epic {
        TreasureRarity::Epic
    } else if friendship > 15 && draw.rare {
        TreasureRarity::Rare
    } else if draw.uncommon {
        TreasureRarity::Uncommon
    } else {
        TreasureRarity::Common
    }
}

fn item_of(rarity: TreasureRarity, pick: u32) -> (r: (&'static str, &'static str))
    ensures
        (r.0@, r.1@) == treasure_item(rarity, pick),
{
    match rarity {
        TreasureRarity::Common => if pick == 0 {
            ("Seashell", "🐚")
        } else if pick == 1 {
            ("Pebble", "🪨")
        } else {
            ("Seaweed", "🌿")
        },
        TreasureRarity::Uncommon => if pick == 0 {
            ("Starfish", "⭐")
        } else if pick == 1 {
            ("Pearl", "🦪")
        } else {
            ("Coral", "🪸")
        },
        TreasureRarity::Rare => if pick == 0 {
            ("Golden Shell", "🏆")
        } else if pick == 1 {
            ("Crystal", "💎")
        } else {
            ("Ancient Coin", "🪙")
        },
        TreasureRarity::Epic => if pick == 0 {
            ("Magic Conch", "🐚✨")
        } else if pick == 1 {
            ("Mermaid Scale", "🧜‍♀️")
        } else {
            ("Neptune's Fork", "🔱")
        },
        TreasureRarity::Legendary => if pick == 0 {
            ("Crab Crown", "👑🦀")
        } else if pick == 1 {
            ("Ocean Heart", "💙🌊")
        } else {
            ("Wisdom Pearl", "🧠🦪")
        },
    }
}

/// The announcement of a treasure.
pub open spec fn found_message(name: Seq<char>, emoji: Seq<char>) -> Seq<char> {
    "🦀 Found a "@ + emoji + " "@ + name + "! 🦀"@
}

/// Throws the dice for a treasure.
fn draw_treasure() -> (r: TreasureDraw)
    ensures
        r.pick < 3,
{
    let legendary = chance(1, 10);
    let epic = chance(3, 20);
    let rare = chance(1, 4);
    let uncommon = chance(2, 5);
    let pick = random_below(3);
    TreasureDraw { legendary, epic, rare, uncommon, pick }
}

/// The emoji shown for a phase; nothing while hidden.
pub open spec fn phase_emoji(phase: AnimationPhase) -> Seq<char> {
    match phase {
        AnimationPhase::Hidden => ""@,
        AnimationPhase::Peeking => "👀"@,
        AnimationPhase::Crawling => "🦀"@,
        AnimationPhase::Dancing => "💃🦀"@,
        AnimationPhase::Helping => "🦀💪"@,
        AnimationPhase::Sleeping => "😴🦀"@,
        AnimationPhase::Excited => "🎉🦀"@,
        AnimationPhase::Curious => "🤔🦀"@,
        AnimationPhase::Waving => "👋🦀"@,
        AnimationPhase::Swimming => "🏊🦀"@,
        AnimationPhase::Digging => "⛏️🦀"@,
        AnimationPhase::Sunbathing => "☀️🦀"@,
        AnimationPhase::Reading => "📚🦀"@,
        AnimationPhase::Cheering => "📣🦀"@,
        AnimationPhase::Thinking => "💭🦀"@,
        AnimationPhase::Celebrating => "🎊🦀🎊"@,
    }
}

fn phase_emoji_str(phase: AnimationPhase) -> (r: &'static str)
    ensures
        r@ == phase_emoji(phase),
{
    match phase {
        AnimationPhase::Hidden => "",
        AnimationPhase::Peeking => "👀",
        AnimationPhase::Crawling => "🦀",
        AnimationPhase::Dancing => "💃🦀",
        AnimationPhase::Helping => "🦀💪",
        AnimationPhase::Sleeping => "😴🦀",
        AnimationPhase::Excited => "🎉🦀",
        AnimationPhase::Curious => "🤔🦀",
        AnimationPhase::Waving => "👋🦀",
        AnimationPhase::Swimming => "🏊🦀",
        AnimationPhase::Digging => "⛏️🦀",
        AnimationPhase::Sunbathing => "☀️🦀",
        AnimationPhase::Reading => "📚🦀",
        AnimationPhase::Cheering => "📣🦀",
        AnimationPhase::Thinking => "💭🦀",
        AnimationPhase::Celebrating => "🎊🦀🎊",
    }
}

/// What the crab says about a learning domain it has not seen before.
pub open spec fn domain_message(domain: Seq<char>) -> Seq<char> {
    if domain == "alphabet"@ {
        "🦀 A-B-C... I love the alphabet! 26 friends to learn! 🦀"@
    } else if domain == "numbers"@ {
        "🦀 1, 2, 3... Numbers are like counting my legs! (8!) 🦀"@
    } else if domain == "shapes"@ {
        "🦀 Circles, squares... My shell is a dome shape! 🦀"@
    } else if domain == "colors"@ {
        "🦀 Red like me when I'm cooked- wait, let's not think about that! 🦀"@
    } else if domain == "music"@ {
        "🦀 ♪♫ Time for the crab rave! ♫♪ 🦀"@
    } else {
        "🦀 Ooh, something new to explore! 🦀"@
    }
}

fn domain_line(domain: &str) -> (r: &'static str)
    ensures
        r@ == domain_message(domain@),
{
    if crate::text::str_eq(domain, "alphabet") {
        "🦀 A-B-C... I love the alphabet! 26 friends to learn! 🦀"
    } else if crate::text::str_eq(domain, "numbers") {
        "🦀 1, 2, 3... Numbers are like counting my legs! (8!) 🦀"
    } else if crate::text::str_eq(domain, "shapes") {
        "🦀 Circles, squares... My shell is a dome shape! 🦀"
    } else if crate::text::str_eq(domain, "colors") {
        "🦀 Red like me when I'm cooked- wait, let's not think about that! 🦀"
    } else if crate::text::str_eq(domain, "music") {
        "🦀 ♪♫ Time for the crab rave! ♫♪ 🦀"
    } else {
        "🦀 Ooh, something new to explore! 🦀"
    }
}

/// The name of a personality.
pub open spec fn personality_name(p: CrabPersonality) -> Seq<char> {
    match p {
        CrabPersonality::Shy => "Shy"@,
        CrabPersonality::Playful => "Playful"@,
        CrabPersonality::Helpful => "Helpful"@,
        CrabPersonality::Mischievous => "Mischievous"@,
        CrabPersonality::Wise => "Wise"@,
        CrabPersonality::Energetic => "Energetic"@,
        CrabPersonality::Sleepy => "Sleepy"@,
        CrabPersonality::Curious => "Curious"@,
    }
}

fn personality_str(p: CrabPersonality) -> (r: &'static str)
    ensures
        r@ == personality_name(p),
{
    match p {
        CrabPersonality::Shy => "Shy",
        CrabPersonality::Playful => "Playful",
        CrabPersonality::Helpful => "Helpful",
        CrabPersonality::Mischievous => "Mischievous",
        CrabPersonality::Wise => "Wise",
        CrabPersonality::Energetic => "Energetic",
        CrabPersonality::Sleepy => "Sleepy",
        CrabPersonality::Curious => "Curious",
    }
}

/// The name of a mood.
pub open spec fn mood_name(m: CrabMood) -> Seq<char> {
    match m {
        CrabMood::Happy => "Happy"@,
        CrabMood::Excited => "Excited"@,
        CrabMood::Neutral => "Neutral"@,
        CrabMood::Sleepy => "Sleepy"@,
        CrabMood::Playful => "Playful"@,
        CrabMood::Proud => "Proud"@,
        CrabMood::Encouraging => "Encouraging"@,
        CrabMood::Curious => "Curious"@,
        CrabMood::Celebratory => "Celebratory"@,
        CrabMood::Philosophical => "Philosophical"@,
    }
}

fn mood_str(m: CrabMood) -> (r: &'static str)
    ensures
        r@ == mood_name(m),
{
    match m {
        CrabMood::Happy => "Happy",
        CrabMood::Excited => "Excited",
        CrabMood::Neutral => "Neutral",
        CrabMood::Sleepy => "Sleepy",
        CrabMood::Playful => "Playful",
        CrabMood::Proud => "Proud",
        CrabMood::Encouraging => "Encouraging",
        CrabMood::Curious => "Curious",
        CrabMood::Celebratory => "Celebratory",
        CrabMood::Philosophical => "Philosophical",
    }
}

/// The phase the crab takes when the learner pokes it.
pub open spec fn interaction_phase(p: CrabPersonality) -> AnimationPhase {
    match p {
        CrabPersonality::Shy => AnimationPhase::Peeking,
        CrabPersonality::Playful => AnimationPhase::Dancing,
        CrabPersonality::Helpful => AnimationPhase::Helping,
        CrabPersonality::Mischievous => AnimationPhase::Excited,
        CrabPersonality::Wise => AnimationPhase::Waving,
        CrabPersonality::Energetic => AnimationPhase::Excited,
        CrabPersonality::Sleepy => AnimationPhase::Sleeping,
        CrabPersonality::Curious => AnimationPhase::Curious,
    }
}

/// What the crab says when the learner pokes it.
pub open spec fn interaction_message(p: CrabPersonality) -> Seq<char> {
    match p {
        CrabPersonality::Shy => "🦀 *blushes* Oh, you clicked me..."@,
        CrabPersonality::Playful => "🦀 Wheee! That tickles!"@,
        CrabPersonality::Helpful => "🦀 Need help? I'm here for you!"@,
        CrabPersonality::Mischievous => "🦀 Hehe, can't catch me!"@,
        CrabPersonality::Wise => "🦀 'The journey of learning begins with curiosity.'"@,
        CrabPersonality::Energetic => "⚡ ENERGY CRAB IS HERE! Let's GO!"@,
        CrabPersonality::Sleepy => "😴 *yawn* Five more minutes..."@,
        CrabPersonality::Curious => "🤔 Hmm, what happens if I click this?"@,
    }
}

fn interaction_line(p: CrabPersonality) -> (r: &'static str)
    ensures
        r@ == interaction_message(p),
{
    match p {
        CrabPersonality::Shy => "🦀 *blushes* Oh, you clicked me...",
        CrabPersonality::Playful => "🦀 Wheee! That tickles!",
        CrabPersonality::Helpful => "🦀 Need help? I'm here for you!",
        CrabPersonality::Mischievous => "🦀 Hehe, can't catch me!",
        CrabPersonality::Wise => "🦀 'The journey of learning begins with curiosity.'",
        CrabPersonality::Energetic => "⚡ ENERGY CRAB IS HERE! Let's GO!",
        CrabPersonality::Sleepy => "😴 *yawn* Five more minutes...",
        CrabPersonality::Curious => "🤔 Hmm, what happens if I click this?",
    }
}

/// The phase the crab settles into when it stops crawling.
pub open spec fn idle_phase(p: CrabPersonality) -> AnimationPhase {
    match p {
        CrabPersonality::Shy => AnimationPhase::Peeking,
        CrabPersonality::Playful => AnimationPhase::Dancing,
        CrabPersonality::Helpful => AnimationPhase::Waving,
        CrabPersonality::Mischievous => AnimationPhase::Curious,
        CrabPersonality::Wise => AnimationPhase::Reading,
        CrabPersonality::Energetic => AnimationPhase::Excited,
        CrabPersonality::Sleepy => AnimationPhase::Sleeping,
        CrabPersonality::Curious => AnimationPhase::Thinking,
    }
}

fn idle_phase_of(p: CrabPersonality) -> (r: AnimationPhase)
    ensures
        r == idle_phase(p),
{
    match p {
        CrabPersonality::Shy => AnimationPhase::Peeking,
        CrabPersonality::Playful => AnimationPhase::Dancing,
        CrabPersonality::Helpful => AnimationPhase::Waving,
        CrabPersonality::Mischievous => AnimationPhase::Curious,
        CrabPersonality::Wise => AnimationPhase::Reading,
        CrabPersonality::Energetic => AnimationPhase::Excited,
        CrabPersonality::Sleepy => AnimationPhase::Sleeping,
        CrabPersonality::Curious => AnimationPhase::Thinking,
    }
}

/// What the crab says when it stops to encourage a struggling learner.
pub open spec fn encourage_message(p: CrabPersonality) -> Seq<char> {
    match p {
        CrabPersonality::Helpful => "🦀 Don't give up! You've got this!"@,
        CrabPersonality::Wise => "🦀 'Every expert was once a beginner.'"@,
        CrabPersonality::Playful => "🦀 Oopsie! Try again - you can do it!"@,
        CrabPersonality::Shy => "🦀 *whispers* I believe in you..."@,
        CrabPersonality::Mischievous => "🦀 That was tricky! Even I got confused!"@,
        CrabPersonality::Energetic => "💪🦀 You've GOT this! Full power! 💪🦀"@,
        CrabPersonality::Sleepy => "😴🦀 *yawn* Maybe after a little rest? 🦀😴"@,
        CrabPersonality::Curious => "🤔🦀 Hmm, what if we try differently? 🦀🤔"@,
    }
}

fn encourage_line(p: CrabPersonality) -> (r: &'static str)
    ensures
        r@ == encourage_message(p),
{
    match p {
        CrabPersonality::Helpful => "🦀 Don't give up! You've got this!",
        CrabPersonality::Wise => "🦀 'Every expert was once a beginner.'",
        CrabPersonality::Playful => "🦀 Oopsie! Try again - you can do it!",
        CrabPersonality::Shy => "🦀 *whispers* I believe in you...",
        CrabPersonality::Mischievous => "🦀 That was tricky! Even I got confused!",
        CrabPersonality::Energetic => "💪🦀 You've GOT this! Full power! 💪🦀",
        CrabPersonality::Sleepy => "😴🦀 *yawn* Maybe after a little rest? 🦀😴",
        CrabPersonality::Curious => "🤔🦀 Hmm, what if we try differently? 🦀🤔",
    }
}

/// The energy shown in whole percent, rounded half up.
pub open spec fn energy_percent(energy_milli: u32) -> nat {
    ((energy_milli + 500) / 1000) as nat
}

/// The crab's stats card.
pub open spec fn stats_text(
    p: CrabPersonality,
    m: CrabMood,
    energy_milli: u32,
    friendship: u32,
    treasures: nat,
    found: u32,
) -> Seq<char> {
    "🦀 Little Crab Stats:\nPersonality: "@ + personality_name(p) + "\nMood: "@ + mood_name(m) + "\nEnergy: "@
        + decimal(energy_percent(energy_milli)) + "%\nFriendship: Level "@ + decimal(friendship as nat)
        + "\nTreasures: "@ + decimal(treasures) + "\nTimes Found: "@ + decimal(found as nat)
}

/// How many learning tips a crab of each personality knows.
pub open spec fn tip_count(p: CrabPersonality) -> u32 {
    match p {
        CrabPersonality::Helpful => 7,
        CrabPersonality::Wise => 4,
        CrabPersonality::Playful => 4,
        _ => 3,
    }
}

/// The `pick`-th learning tip of a crab of personality `p`.
pub open spec fn random_tip(p: CrabPersonality, pick: u32) -> Seq<char> {
    match p {
        CrabPersonality::Helpful => if pick == 0 {
            "🦀 Tip: Take breaks to improve retention! 🦀"@
        } else if pick == 1 {
            "🦀 Tip: Practice a little every day! 🦀"@
        } else if pick == 2 {
            "🦀 Tip: Mistakes help you learn faster! 🦀"@
        } else if pick == 3 {
            "🦀 Tip: Teaching others reinforces learning! 🦀"@
        } else if pick == 4 {
            "🦀 Tip: Sleep helps consolidate memories! 🦀"@
        } else if pick == 5 {
            "🦀 Tip: Celebrate small victories! 🦀"@
        } else {
            "🦀 Tip: Use multiple senses when learning! 🦀"@
        },
        CrabPersonality::Wise => if pick == 0 {
            "🦀 'Learning is the tide that lifts all boats.' 🦀"@
        } else if pick == 1 {
            "🦀 'Knowledge flows like water - let it find its way.' 🦀"@
        } else if pick == 2 {
            "🦀 'The deepest learning happens in calm waters.' 🦀"@
        } else {
            "🦀 'Every expert was once a curious beginner.' 🦀"@
        },
        CrabPersonality::Playful => if pick == 0 {
            "🦀 Learning is more fun with friends! 🦀"@
        } else if pick == 1 {
            "🦀 Turn practice into a game! 🦀"@
        } else if pick == 2 {
            "🦀 Dance breaks boost brain power! 🦀"@
        } else {
            "🦀 Silly mnemonics stick better! 🦀"@
        },
        _ => if pick == 0 {
            "🦀 You're doing great! 🦀"@
        } else if pick == 1 {
            "🦀 Keep going! 🦀"@
        } else {
            "🦀 I believe in you! 🦀"@
        },
    }
}

fn tip_line(p: CrabPersonality, pick: u32) -> (r: &'static str)
    ensures
        r@ == random_tip(p, pick),
{
    match p {
        CrabPersonality::Helpful => if pick == 0 {
            "🦀 Tip: Take breaks to improve retention! 🦀"
        } else if pick == 1 {
            "🦀 Tip: Practice a little every day! 🦀"
        } else if pick == 2 {
            "🦀 Tip: Mistakes help you learn faster! 🦀"
        } else if pick == 3 {
            "🦀 Tip: Teaching others reinforces learning! 🦀"
        } else if pick == 4 {
            "🦀 Tip: Sleep helps consolidate memories! 🦀"
        } else if pick == 5 {
            "🦀 Tip: Celebrate small victories! 🦀"
        } else {
            "🦀 Tip: Use multiple senses when learning! 🦀"
        },
        CrabPersonality::Wise => if pick == 0 {
            "🦀 'Learning is the tide that lifts all boats.' 🦀"
        } else if pick == 1 {
            "🦀 'Knowledge flows like water - let it find its way.' 🦀"
        } else if pick == 2 {
            "🦀 'The deepest learning happens in calm waters.' 🦀"
        } else {
            "🦀 'Every expert was once a curious beginner.' 🦀"
        },
        CrabPersonality::Playful => if pick == 0 {
            "🦀 Learning is more fun with friends! 🦀"
        } else if pick == 1 {
            "🦀 Turn practice into a game! 🦀"
        } else if pick == 2 {
            "🦀 Dance breaks boost brain power! 🦀"
        } else {
            "🦀 Silly mnemonics stick better! 🦀"
        },
        _ => if pick == 0 {
            "🦀 You're doing great! 🦀"
        } else if pick == 1 {
            "🦀 Keep going! 🦀"
        } else {
            "🦀 I believe in you! 🦀"
        },
    }
}

/// How many different lines a crab of personality `p` has for it.
pub open spec fn behavior_choices(p: CrabPersonality) -> u32 {
    match p {
        CrabPersonality::Playful => 4,
        CrabPersonality::Mischievous => 4,
        CrabPersonality::Helpful => tip_count(CrabPersonality::Helpful),
        CrabPersonality::Energetic => 4,
        CrabPersonality::Sleepy => 4,
        CrabPersonality::Curious => 5,
        CrabPersonality::Shy => 1,
        CrabPersonality::Wise => 5,
    }
}

/// The odds, as numerator and denominator, that a crab of personality `p`
/// does its own thing when asked: three in ten for the playful and the
/// curious crab, one in five for the mischievous, one in ten for the helpful
/// and the shy, two in five for the energetic, one in two for the sleepy and
/// three in twenty for the wise crab.
pub open spec fn behavior_odds_of(p: CrabPersonality) -> (u32, u32) {
    match p {
        CrabPersonality::Playful => (3, 10),
        CrabPersonality::Mischievous => (1, 5),
        CrabPersonality::Helpful => (1, 10),
        CrabPersonality::Energetic => (2, 5),
        CrabPersonality::Sleepy => (1, 2),
        CrabPersonality::Curious => (3, 10),
        CrabPersonality::Shy => (1, 10),
        CrabPersonality::Wise => (3, 20),
    }
}

/// The odds that a crab of personality `p` does its own thing.
pub fn behavior_odds(p: CrabPersonality) -> (r: (u32, u32))
    ensures
        r == behavior_odds_of(p),
        0 < r.0 < r.1,
{
    match p {
        CrabPersonality::Playful => (3, 10),
        CrabPersonality::Mischievous => (1, 5),
        CrabPersonality::Helpful => (1, 10),
        CrabPersonality::Energetic => (2, 5),
        CrabPersonality::Sleepy => (1, 2),
        CrabPersonality::Curious => (3, 10),
        CrabPersonality::Shy => (1, 10),
        CrabPersonality::Wise => (3, 20),
    }
}

/// How many things a crab of personality `p` can do on its own.
pub fn behavior_choice_count(p: CrabPersonality) -> (r: u32)
    ensures
        r == behavior_choices(p),
        r > 0,
{
    match p {
        CrabPersonality::Playful => 4,
        CrabPersonality::Mischievous => 4,
        CrabPersonality::Helpful => 7,
        CrabPersonality::Energetic => 4,
        CrabPersonality::Sleepy => 4,
        CrabPersonality::Curious => 5,
        CrabPersonality::Shy => 1,
        CrabPersonality::Wise => 5,
    }
}

/// The `pick`-th line a crab of personality `p` says when it does its own
/// thing (the shy crab's lines depend on whether it is peeking).
pub open spec fn behavior_line(p: CrabPersonality, pick: u32) -> Seq<char> {
    match p {
        CrabPersonality::Playful => if pick == 0 {
            "🦀 *does the crab shuffle* 🦀"@
        } else if pick == 1 {
            "🦀 *spins in circles* 🦀"@
        } else if pick == 2 {
            "🦀 *waves claws to the beat* 🦀"@
        } else {
            "🦀 *moonwalks sideways* 🦀"@
        },
        CrabPersonality::Mischievous => if pick == 0 {
            "🦀 *sneakily moves your cursor* 🦀"@
        } else if pick == 1 {
            "🦀 *hides behind a button* 🦀"@
        } else if pick == 2 {
            "🦀 Catch me if you can! 🦀"@
        } else {
            "🦀 *giggles mischievously* 🦀"@
        },
        CrabPersonality::Helpful => random_tip(CrabPersonality::Helpful, pick),
        CrabPersonality::Energetic => if pick == 0 {
            "⚡🦀 ZOOM ZOOM! ⚡🦀"@
        } else if pick == 1 {
            "🏃‍♂️🦀 SPEEDY CRAB! 🏃‍♂️🦀"@
        } else if pick == 2 {
            "🚀🦀 TURBO MODE! 🚀🦀"@
        } else {
            "💨🦀 WHOOSH! 💨🦀"@
        },
        CrabPersonality::Sleepy => if pick == 0 {
            "😴🦀 *zzz* 🦀😴"@
        } else if pick == 1 {
            "🦀 *snores softly* 🦀"@
        } else if pick == 2 {
            "💤🦀 *dreams of kelp* 💤🦀"@
        } else {
            "🦀 *mumbles about shells* 🦀"@
        },
        CrabPersonality::Curious => if pick == 0 {
            "🤔🦀 I wonder what happens if... 🦀🤔"@
        } else if pick == 1 {
            "🦀 Hmm, interesting pattern here... 🦀"@
        } else if pick == 2 {
            "🦀 Let me analyze this... 🦀"@
        } else if pick == 3 {
            "🔍🦀 *investigates closely* 🔍🦀"@
        } else {
            "🦀 But why does it work that way? 🦀"@
        },
        CrabPersonality::Wise => if pick == 0 {
            "🦀 'The ocean teaches patience.' 🦀"@
        } else if pick == 1 {
            "🦀 'Every tide brings new opportunities.' 🦀"@
        } else if pick == 2 {
            "🦀 'Small steps sideways still move forward.' 🦀"@
        } else if pick == 3 {
            "🦀 'The shell protects, but also limits.' 🦀"@
        } else {
            "🦀 'In stillness, we find clarity.' 🦀"@
        },
        CrabPersonality::Shy => ""@,
    }
}

fn behavior_text(p: CrabPersonality, pick: u32) -> (r: &'static str)
    ensures
        r@ == behavior_line(p, pick),
{
    match p {
        CrabPersonality::Playful => if pick == 0 {
            "🦀 *does the crab shuffle* 🦀"
        } else if pick == 1 {
            "🦀 *spins in circles* 🦀"
        } else if pick == 2 {
            "🦀 *waves claws to the beat* 🦀"
        } else {
            "🦀 *moonwalks sideways* 🦀"
        },
        CrabPersonality::Mischievous => if pick == 0 {
            "🦀 *sneakily moves your cursor* 🦀"
        } else if pick == 1 {
            "🦀 *hides behind a button* 🦀"
        } else if pick == 2 {
            "🦀 Catch me if you can! 🦀"
        } else {
            "🦀 *giggles mischievously* 🦀"
        },
        CrabPersonality::Helpful => tip_line(CrabPersonality::Helpful, pick),
        CrabPersonality::Energetic => if pick == 0 {
            "⚡🦀 ZOOM ZOOM! ⚡🦀"
        } else if pick == 1 {
            "🏃‍♂️🦀 SPEEDY CRAB! 🏃‍♂️🦀"
        } else if pick == 2 {
            "🚀🦀 TURBO MODE! 🚀🦀"
        } else {
            "💨🦀 WHOOSH! 💨🦀"
        },
        CrabPersonality::Sleepy => if pick == 0 {
            "😴🦀 *zzz* 🦀😴"
        } else if pick == 1 {
            "🦀 *snores softly* 🦀"
        } else if pick == 2 {
            "💤🦀 *dreams of kelp* 💤🦀"
        } else {
            "🦀 *mumbles about shells* 🦀"
        },
        CrabPersonality::Curious => if pick == 0 {
            "🤔🦀 I wonder what happens if... 🦀🤔"
        } else if pick == 1 {
            "🦀 Hmm, interesting pattern here... 🦀"
        } else if pick == 2 {
            "🦀 Let me analyze this... 🦀"
        } else if pick == 3 {
            "🔍🦀 *investigates closely* 🔍🦀"
        } else {
            "🦀 But why does it work that way? 🦀"
        },
        CrabPersonality::Wise => if pick == 0 {
            "🦀 'The ocean teaches patience.' 🦀"
        } else if pick == 1 {
            "🦀 'Every tide brings new opportunities.' 🦀"
        } else if pick == 2 {
            "🦀 'Small steps sideways still move forward.' 🦀"
        } else if pick == 3 {
            "🦀 'The shell protects, but also limits.' 🦀"
        } else {
            "🦀 'In stillness, we find clarity.' 🦀"
        },
        CrabPersonality::Shy => "",
    }
}

/// The phase a crab of personality `p` takes when it does its own thing
/// (the mischievous crab keeps its phase; the shy one toggles).
pub open spec fn behavior_phase(p: CrabPersonality, current: AnimationPhase) -> AnimationPhase {
    match p {
        CrabPersonality::Playful => AnimationPhase::Dancing,
        CrabPersonality::Mischievous => current,
        CrabPersonality::Helpful => AnimationPhase::Helping,
        CrabPersonality::Energetic => AnimationPhase::Excited,
        CrabPersonality::Sleepy => AnimationPhase::Sleeping,
        CrabPersonality::Curious => AnimationPhase::Thinking,
        CrabPersonality::Wise => AnimationPhase::Reading,
        CrabPersonality::Shy => if current == AnimationPhase::Peeking {
            AnimationPhase::Hidden
        } else {
            AnimationPhase::Peeking
        },
    }
}

/// What the crab says when it does its own thing.
pub open spec fn behavior_message(p: CrabPersonality, current: AnimationPhase, pick: u32) -> Seq<char> {
    if p == CrabPersonality::Shy {
        if current == AnimationPhase::Peeking {
            "🦀 *hides* 🦀"@
        } else {
            "👀 *peeks out nervously* 👀"@
        }
    } else {
        behavior_line(p, pick)
    }
}

/// One moment of the crab's life, measured by the drawing code: whether it
/// is still on its way to where it is going, whether that is more than ten
/// pixels off, and how many milliseconds passed.
#[derive(Debug, Clone, Copy, PartialEq, Eq, Structural)]
pub struct CrabStep {
    pub moving: bool,
    pub far: bool,
    pub delta_ms: u32,
}

/// The energy left after `delta_ms` milliseconds: half a percent per
/// second drains away.
pub open spec fn drained(energy: u32, delta_ms: u32) -> u32 {
    if energy > delta_ms / 2 {
        (energy - delta_ms / 2) as u32
    } else {
        0
    }
}

/// Every trigger is counted in one entry at most.
pub open spec fn stats_unique(s: Seq<(CrabTrigger, u32)>) -> bool {
    forall|a: int, b: int| 0 <= a < b < s.len() ==> s[a].0 != s[b].0
}

/// Whether `t` has an entry among the counts.
pub open spec fn has_stat(s: Seq<(CrabTrigger, u32)>, t: CrabTrigger) -> bool {
    exists|i: int| 0 <= i < s.len() && #[trigger] s[i].0 == t
}

/// How many times `t` brought the crab out.
pub open spec fn trigger_count(s: Seq<(CrabTrigger, u32)>, t: CrabTrigger) -> nat {
    if has_stat(s, t) {
        s[choose|i: int| 0 <= i < s.len() && #[trigger] s[i].0 == t].1 as nat
    } else {
        0
    }
}

/// `new` counts `t` once more than `old`, and every other trigger as often.
pub open spec fn counted_once_more(old: Seq<(CrabTrigger, u32)>, new: Seq<(CrabTrigger, u32)>, t: CrabTrigger) -> bool {
    &&& stats_unique(new)
    &&& trigger_count(new, t) == trigger_count(old, t) + 1
    &&& forall|u: CrabTrigger| u != t ==> #[trigger] trigger_count(new, u) == trigger_count(old, u)
}

proof fn lemma_count_at(s: Seq<(CrabTrigger, u32)>, t: CrabTrigger, i: int)
    requires
        stats_unique(s),
        0 <= i < s.len(),
        s[i].0 == t,
    ensures
        trigger_count(s, t) == s[i].1,
{
    assert(has_stat(s, t));
    let j = choose|j: int| 0 <= j < s.len() && #[trigger] s[j].0 == t;
    if j < i {
        assert(s[j].0 != s[i].0);
    } else if i < j {
        assert(s[i].0 != s[j].0);
    }
}

/// A text option by its characters.
pub open spec fn opt_text(o: Option<String>) -> Option<Seq<char>> {
    match o {
        Some(s) => Some(s@),
        None => None,
    }
}

/// Energy raised by `by`, up to full.
pub open spec fn boosted(energy: u32, by: u32) -> u32 {
    if energy + by > FULL_ENERGY {
        FULL_ENERGY
    } else {
        (energy + by) as u32
    }
}

fn boost(energy: u32, by: u32) -> (r: u32)
    requires
        energy <= FULL_ENERGY,
        by <= FULL_ENERGY,
    ensures
        r == boosted(energy, by),
{
    if energy + by > FULL_ENERGY {
        FULL_ENERGY
    } else {
        energy + by
    }
}

/// The crab companion.
#[derive(Debug)]
pub struct LittleCrab {
    pub active: bool,
    pub personality: CrabPersonality,
    pub phase: AnimationPhase,
    /// Energy in thousandths of a percent, at most `FULL_ENERGY`.
    pub energy_milli: u32,
    pub messages: Vec<String>,
    pub discovery_count: u32,
    /// The last interaction, in milliseconds since the epoch.
    pub last_interaction: Option<i64>,
    /// How often each trigger brought the crab out, in the order first seen.
    pub trigger_stats: Vec<(CrabTrigger, u32)>,
    pub mood: CrabMood,
    pub friendship_level: u32,
    pub collected_treasures: Vec<CrabTreasure>,
    pub seasonal_outfit: Option<String>,
    pub favorite_domain: Option<String>,
}

impl LittleCrab {
    /// Energy is at most full, and each trigger is counted once.
    pub open spec fn wf(&self) -> bool {
        &&& self.energy_milli <= FULL_ENERGY
        &&& stats_unique(self.trigger_stats@)
    }

    /// A crab that was never found: hidden, neutral, full of energy.
    pub open spec fn is_fresh(&self, p: CrabPersonality) -> bool {
        &&& !self.active
        &&& self.personality == p
        &&& self.phase == AnimationPhase::Hidden
        &&& self.energy_milli == FULL_ENERGY
        &&& self.messages@.len() == 0
        &&& self.discovery_count == 0
        &&& self.last_interaction is None
        &&& self.trigger_stats@.len() == 0
        &&& self.mood == CrabMood::Neutral
        &&& self.friendship_level == 0
        &&& self.collected_treasures@.len() == 0
        &&& self.seasonal_outfit is None
        &&& self.favorite_domain is None
    }

    /// `new` is `self` found by `trigger` at `clock`: a hidden crab comes
    /// out with full energy, the phase, mood and greeting of the trigger and
    /// the outfit of the date, counting the discovery; a crab already out
    /// only gains twenty percent energy. Either way friendship grows by one
    /// and the interaction is stamped.
    pub open spec fn activated(&self, new: &LittleCrab, trigger: CrabTrigger, clock: CrabClock) -> bool {
        &&& new.friendship_level == self.friendship_level + 1
        &&& new.last_interaction == Some(clock.now_ms)
        &&& new.personality == self.personality
        &&& new.collected_treasures == self.collected_treasures
        &&& new.favorite_domain == self.favorite_domain
        &&& new.active
        &&& if !self.active {
            &&& new.discovery_count == self.discovery_count + 1
            &&& new.energy_milli == FULL_ENERGY
            &&& counted_once_more(self.trigger_stats@, new.trigger_stats@, trigger)
            &&& new.phase == activation_phase(trigger, self.personality)
            &&& new.mood == activation_mood(trigger, self.personality)
            &&& new.messages@.len() == self.messages@.len() + 1
            &&& new.messages@.drop_last() == self.messages@
            &&& new.messages@.last()@ == discovery_message(trigger, new.discovery_count, clock)
            &&& opt_text(new.seasonal_outfit) == seasonal_outfit_for(clock.month, clock.day)
        } else {
            &&& new.discovery_count == self.discovery_count
            &&& new.energy_milli == boosted(self.energy_milli, 20_000)
            &&& new.trigger_stats == self.trigger_stats
            &&& new.phase == self.phase
            &&& new.mood == self.mood
            &&& new.messages == self.messages
            &&& new.seasonal_outfit == self.seasonal_outfit
        }
    }

    /// The counts that activation raises have room.
    pub open spec fn can_activate(&self, trigger: CrabTrigger) -> bool {
        &&& self.friendship_level < u32::MAX
        &&& !self.active ==> self.discovery_count < u32::MAX && trigger_count(self.trigger_stats@, trigger)
            < u32::MAX
    }

    /// A crab of the given personality that was never found.
    pub fn with_personality(personality: CrabPersonality) -> (r: Self)
        ensures
            r.wf(),
            r.is_fresh(personality),
    {
        LittleCrab {
            active: false,
            personality,
            phase: AnimationPhase::Hidden,
            energy_milli: FULL_ENERGY,
            messages: Vec::new(),
            discovery_count: 0,
            last_interaction: None,
            trigger_stats: Vec::new(),
            mood: CrabMood::Neutral,
            friendship_level: 0,
            collected_treasures: Vec::new(),
            seasonal_outfit: None,
            favorite_domain: None,
        }
    }

    /// A fresh crab whose personality is drawn by `roll` (below five).
    pub fn from_roll(roll: u32) -> (r: Self)
        requires
            roll < 5,
        ensures
            r.wf(),
            r.is_fresh(personality_for_roll(roll)),
    {
        let p = if roll == 0 {
            CrabPersonality::Shy
        } else if roll == 1 {
            CrabPersonality::Playful
        } else if roll == 2 {
            CrabPersonality::Helpful
        } else if roll == 3 {
            CrabPersonality::Mischievous
        } else {
            CrabPersonality::Wise
        };
        LittleCrab::with_personality(p)
    }

    /// A fresh crab with a random personality among the first five.
    pub fn new() -> (r: Self)
        ensures
            r.wf(),
            exists|roll: u32| roll < 5 && #[trigger] r.is_fresh(personality_for_roll(roll)),
    {
        let roll = random_below(5);
        let r = LittleCrab::from_roll(roll);
        assert(r.is_fresh(personality_for_roll(roll)));
        r
    }

    /// Counts one more appearance brought by `trigger`.
    fn count_trigger(&mut self, trigger: CrabTrigger)
        requires
            stats_unique(old(self).trigger_stats@),
            trigger_count(old(self).trigger_stats@, trigger) < u32::MAX,
        ensures
            counted_once_more(old(self).trigger_stats@, final(self).trigger_stats@, trigger),
            *final(self) == (LittleCrab { trigger_stats: final(self).trigger_stats, ..*old(self) }),
    {
        let ghost s = self.trigger_stats@;
        let mut i: usize = 0;
        while i < self.trigger_stats.len()
            invariant
                *self == *old(self),
                s == old(self).trigger_stats@,
                stats_unique(s),
                trigger_count(s, trigger) < u32::MAX,
                i <= s.len(),
                forall|j: int| 0 <= j < i ==> s[j].0 != trigger,
            decreases s.len() - i,
        {
            if self.trigger_stats[i].0 == trigger {
                let c = self.trigger_stats[i].1;
                proof {
                    lemma_count_at(s, trigger, i as int);
                }
                self.trigger_stats.set(i, (trigger, c + 1));
                let ghost n = self.trigger_stats@;
                proof {
                    assert(stats_unique(n)) by {
                        assert forall|a: int, b: int| 0 <= a < b < n.len() implies n[a].0 != n[b].0 by {
                            assert(n[a].0 == s[a].0);
                            assert(n[b].0 == s[b].0);
                        }
                    }
                    lemma_count_at(n, trigger, i as int);
                    assert forall|u: CrabTrigger| u != trigger implies #[trigger] trigger_count(n, u) == trigger_count(
                        s,
                        u,
                    ) by {
                        if has_stat(s, u) {
                            let k = choose|k: int| 0 <= k < s.len() && #[trigger] s[k].0 == u;
                            lemma_count_at(s, u, k);
                            assert(n[k] == s[k]);
                            lemma_count_at(n, u, k);
                        } else {
                            if has_stat(n, u) {
                                let k = choose|k: int| 0 <= k < n.len() && #[trigger] n[k].0 == u;
                                assert(s[k].0 == u);
                            }
                        }
                    }
                }
                return;
            }
            i = i + 1;
        }
        self.trigger_stats.push((trigger, 1));
        let ghost n = self.trigger_stats@;
        proof {
            assert(!has_stat(s, trigger));
            assert(stats_unique(n)) by {
                assert forall|a: int, b: int| 0 <= a < b < n.len() implies n[a].0 != n[b].0 by {
                    if b == s.len() {
                        assert(n[a] == s[a]);
                    } else {
                        assert(n[a] == s[a] && n[b] == s[b]);
                    }
                }
            }
            lemma_count_at(n, trigger, s.len() as int);
            assert forall|u: CrabTrigger| u != trigger implies #[trigger] trigger_count(n, u) == trigger_count(s, u) by {
                if has_stat(s, u) {
                    let k = choose|k: int| 0 <= k < s.len() && #[trigger] s[k].0 == u;
                    lemma_count_at(s, u, k);
                    assert(n[k] == s[k]);
                    lemma_count_at(n, u, k);
                } else {
                    if has_stat(n, u) {
                        let k = choose|k: int| 0 <= k < n.len() && #[trigger] n[k].0 == u;
                        if k < s.len() {
                            assert(n[k] == s[k]);
                        }
                    }
                }
            }
        }
    }

    /// Brings the crab out by `trigger` at `clock`; see `activated`.
    pub fn activate_at(&mut self, trigger: CrabTrigger, clock: CrabClock)
        requires
            old(self).wf(),
            old(self).can_activate(trigger),
        ensures
            final(self).wf(),
            old(self).activated(&*final(self), trigger, clock),
    {
        if !self.active {
            self.active = true;
            self.discovery_count = self.discovery_count + 1;
            self.energy_milli = FULL_ENERGY;
            self.count_trigger(trigger);
            self.phase = phase_on_activation(trigger, self.personality);
            self.mood = mood_on_activation(trigger, self.personality);
            let message = get_discovery_message(trigger, self.discovery_count, clock);
            self.messages.push(message);
            self.seasonal_outfit = match seasonal_outfit(clock.month, clock.day) {
                Some(o) => Some(owned(o)),
                None => None,
            };
            self.friendship_level = self.friendship_level + 1;
        } else {
            self.friendship_level = self.friendship_level + 1;
            self.energy_milli = boost(self.energy_milli, 20_000);
        }
        self.last_interaction = Some(clock.now_ms);
        assert(self.messages@.drop_last() =~= old(self).messages@ || old(self).active);
    }

    /// Brings the crab out by `trigger` now.
    pub fn activate(&mut self, trigger: CrabTrigger)
        requires
            old(self).wf(),
            old(self).can_activate(trigger),
        ensures
            final(self).wf(),
            exists|now: i64| #[trigger] old(self).activated(&*final(self), trigger, clock_at(now)),
    {
        let clock = crab_clock_now();
        self.activate_at(trigger, clock);
        assert(old(self).activated(&*self, trigger, clock_at(clock.now_ms)));
    }

    /// Hides the crab and forgets what it said.
    pub fn deactivate(&mut self)
        ensures
            *final(self) == (LittleCrab {
                active: false,
                phase: AnimationPhase::Hidden,
                messages: final(self).messages,
                ..*old(self)
            }),
            final(self).messages@.len() == 0,
    {
        self.active = false;
        self.phase = AnimationPhase::Hidden;
        self.messages.clear();
    }
}

impl LittleCrab {
    /// `new` is `self` after digging up the treasure of `draw` at `now`:
    /// the crab digs, announces the treasure and keeps it.
    pub open spec fn dug_up(&self, new: &LittleCrab, draw: TreasureDraw, now: i64) -> bool {
        let rarity = treasure_rarity(self.friendship_level, draw);
        let item = treasure_item(rarity, draw.pick);
        &&& new.messages@.len() == self.messages@.len() + 1
        &&& new.messages@.drop_last() == self.messages@
        &&& new.messages@.last()@ == found_message(item.0, item.1)
        &&& new.collected_treasures@.len() == self.collected_treasures@.len() + 1
        &&& new.collected_treasures@.drop_last() == self.collected_treasures@
        &&& new.collected_treasures@.last().name@ == item.0
        &&& new.collected_treasures@.last().emoji@ == item.1
        &&& new.collected_treasures@.last().found_at == now
        &&& new.collected_treasures@.last().rarity == rarity
        &&& *new == (LittleCrab {
            phase: AnimationPhase::Digging,
            messages: new.messages,
            collected_treasures: new.collected_treasures,
            ..*self
        })
    }

    /// Digs up the treasure of `draw` at `now`.
    pub fn find_treasure_at(&mut self, draw: TreasureDraw, now: i64)
        ensures
            old(self).dug_up(&*final(self), draw, now),
    {
        let rarity = rarity_of(self.friendship_level, draw);
        let (name, emoji) = item_of(rarity, draw.pick);
        let treasure = CrabTreasure { name: owned(name), emoji: owned(emoji), found_at: now, rarity };
        self.phase = AnimationPhase::Digging;
        let mut message = owned("🦀 Found a ");
        message.append(emoji);
        message.append(" ");
        message.append(name);
        message.append("! 🦀");
        self.messages.push(message);
        self.collected_treasures.push(treasure);
        assert(self.messages@.drop_last() =~= old(self).messages@);
        assert(self.collected_treasures@.drop_last() =~= old(self).collected_treasures@);
    }

    /// Digs up a treasure now, its rarity and kind thrown with dice.
    pub fn find_treasure(&mut self)
        ensures
            exists|draw: TreasureDraw, now: i64| #[trigger] old(self).dug_up(&*final(self), draw, now),
    {
        let draw = draw_treasure();
        let now = utc_now_millis();
        self.find_treasure_at(draw, now);
        assert(old(self).dug_up(&*self, draw, now));
    }

    /// `new` is `self` after celebrating a streak of `streak` days and an
    /// accuracy of `accuracy_bp` basis points: celebratory, thirty percent
    /// more energy, two friendship levels more, the celebration said, and
    /// the treasure of `treasure` dug up when there is one.
    pub open spec fn celebrated(
        &self,
        new: &LittleCrab,
        streak: u32,
        accuracy_bp: u32,
        treasure: Option<TreasureDraw>,
        now: i64,
    ) -> bool {
        let n = self.messages@.len();
        &&& new.mood == CrabMood::Celebratory
        &&& new.energy_milli == boosted(self.energy_milli, 30_000)
        &&& new.friendship_level == self.friendship_level + 2
        &&& new.messages@.len() > n
        &&& new.messages@.take(n as int) == self.messages@
        &&& new.messages@[n as int]@ == celebration_message(self.personality, streak, accuracy_bp)
        &&& match treasure {
            None => {
                &&& new.messages@.len() == n + 1
                &&& *new == (LittleCrab {
                    mood: CrabMood::Celebratory,
                    energy_milli: new.energy_milli,
                    friendship_level: new.friendship_level,
                    phase: AnimationPhase::Celebrating,
                    messages: new.messages,
                    ..*self
                })
            },
            Some(draw) => {
                let rarity = treasure_rarity(new.friendship_level, draw);
                let item = treasure_item(rarity, draw.pick);
                &&& new.messages@.len() == n + 2
                &&& new.messages@[n + 1int]@ == found_message(item.0, item.1)
                &&& new.collected_treasures@.len() == self.collected_treasures@.len() + 1
                &&& new.collected_treasures@.drop_last() == self.collected_treasures@
                &&& new.collected_treasures@.last().name@ == item.0
                &&& new.collected_treasures@.last().emoji@ == item.1
                &&& new.collected_treasures@.last().found_at == now
                &&& new.collected_treasures@.last().rarity == rarity
                &&& *new == (LittleCrab {
                    mood: CrabMood::Celebratory,
                    energy_milli: new.energy_milli,
                    friendship_level: new.friendship_level,
                    phase: AnimationPhase::Digging,
                    messages: new.messages,
                    collected_treasures: new.collected_treasures,
                    ..*self
                })
            },
        }
    }

    /// Celebrates the learner's success at `now`; `treasure` holds the dice
    /// for a treasure when the crab finds one.
    pub fn celebrate_success_at(&mut self, streak: u32, accuracy_bp: u32, treasure: Option<TreasureDraw>, now: i64)
        requires
            old(self).wf(),
            old(self).friendship_level + 2 <= u32::MAX,
        ensures
            final(self).wf(),
            old(self).celebrated(&*final(self), streak, accuracy_bp, treasure, now),
    {
        self.mood = CrabMood::Celebratory;
        self.energy_milli = boost(self.energy_milli, 30_000);
        self.friendship_level = self.friendship_level + 2;
        self.phase = AnimationPhase::Celebrating;
        self.messages.push(owned(celebration_line(self.personality, streak, accuracy_bp)));
        let ghost mid = *self;
        assert(mid.messages@.drop_last() =~= old(self).messages@);
        match treasure {
            Some(draw) => {
                self.find_treasure_at(draw, now);
                let ghost n = old(self).messages@.len() as int;
                assert(self.messages@.drop_last() == mid.messages@);
                assert(self.messages@[n] == mid.messages@[n]);
                assert(self.messages@.take(n) =~= old(self).messages@);
                assert(self.friendship_level == mid.friendship_level);
                assert(self.messages@[n + 1] == self.messages@.last());
            },
            None => {
                assert(self.messages@.take(old(self).messages@.len() as int) =~= old(self).messages@);
            },
        }
    }

    /// Celebrates the learner's success now; three times in ten the crab
    /// also digs up a treasure.
    pub fn celebrate_success(&mut self, streak: u32, accuracy_bp: u32)
        requires
            old(self).wf(),
            old(self).friendship_level + 2 <= u32::MAX,
        ensures
            final(self).wf(),
            exists|treasure: Option<TreasureDraw>, now: i64| #[trigger] old(self).celebrated(
                &*final(self),
                streak,
                accuracy_bp,
                treasure,
                now,
            ),
    {
        let lucky = chance(3, 10);
        let treasure = if lucky {
            Some(draw_treasure())
        } else {
            None
        };
        let now = utc_now_millis();
        self.celebrate_success_at(streak, accuracy_bp, treasure, now);
        assert(old(self).celebrated(&*self, streak, accuracy_bp, treasure, now));
    }

    /// `new` is `self` after encouraging a learner who tried `attempts`
    /// times: encouraging and helping, one friendship level closer, with the
    /// encouragement said.
    pub open spec fn encouraged(&self, new: &LittleCrab, attempts: u32) -> bool {
        &&& new.messages@.len() == self.messages@.len() + 1
        &&& new.messages@.drop_last() == self.messages@
        &&& new.messages@.last()@ == encouragement_message(self.personality, attempts)
        &&& *new == (LittleCrab {
            mood: CrabMood::Encouraging,
            phase: AnimationPhase::Helping,
            friendship_level: (self.friendship_level + 1) as u32,
            messages: new.messages,
            ..*self
        })
    }

    /// Encourages a learner who tried `attempts` times.
    pub fn offer_encouragement(&mut self, attempts: u32)
        requires
            old(self).friendship_level < u32::MAX,
        ensures
            old(self).encouraged(&*final(self), attempts),
    {
        self.mood = CrabMood::Encouraging;
        self.phase = AnimationPhase::Helping;
        self.friendship_level = self.friendship_level + 1;
        self.messages.push(owned(encouragement_line(self.personality, attempts)));
        assert(self.messages@.drop_last() =~= old(self).messages@);
    }

    /// The emoji of the crab's phase, with its outfit after a space; nothing
    /// while it hides.
    pub fn get_emoji(&self) -> (r: String)
        ensures
            r@ == if self.phase == AnimationPhase::Hidden {
                Seq::<char>::empty()
            } else {
                match self.seasonal_outfit {
                    Some(o) => phase_emoji(self.phase) + " "@ + o@,
                    None => phase_emoji(self.phase),
                }
            },
    {
        if self.phase == AnimationPhase::Hidden {
            return String::new();
        }
        let base = phase_emoji_str(self.phase);
        match &self.seasonal_outfit {
            Some(o) => {
                let mut s = owned(base);
                s.append(" ");
                s.append(o.as_str());
                s
            },
            None => owned(base),
        }
    }

    /// `new` is `self` after taking note of `domain`: a domain other than
    /// the favourite becomes the favourite, and the crab gets curious and
    /// talks about it; the favourite changes nothing.
    pub open spec fn domain_noted(&self, new: &LittleCrab, domain: Seq<char>) -> bool {
        if opt_text(self.favorite_domain) == Some(domain) {
            *new == *self
        } else {
            &&& opt_text(new.favorite_domain) == Some(domain)
            &&& new.messages@.len() == self.messages@.len() + 1
            &&& new.messages@.drop_last() == self.messages@
            &&& new.messages@.last()@ == domain_message(domain)
            &&& *new == (LittleCrab {
                favorite_domain: new.favorite_domain,
                phase: AnimationPhase::Curious,
                messages: new.messages,
                ..*self
            })
        }
    }

    /// Takes note of the learning domain: a domain other than the favourite
    /// becomes the favourite, and the crab gets curious and talks about it.
    pub fn react_to_domain(&mut self, domain: &str)
        ensures
            old(self).domain_noted(&*final(self), domain@),
    {
        let same = match &self.favorite_domain {
            Some(f) => crate::text::str_eq(f.as_str(), domain),
            None => false,
        };
        if !same {
            self.favorite_domain = Some(owned(domain));
            self.phase = AnimationPhase::Curious;
            self.messages.push(owned(domain_line(domain)));
            assert(self.messages@.drop_last() =~= old(self).messages@);
        }
    }

    /// `new` is `self` after an answer, passing through `woken` (after a
    /// run of ten right answers may have brought it out) and `reacted`
    /// (after it celebrated or encouraged). `runs` are the learner's runs
    /// counting this answer, `accuracy_bp` the accuracy of the answers before
    /// it and `domain` the session's domain.
    pub open spec fn answered_via(
        &self,
        new: &LittleCrab,
        woken: LittleCrab,
        reacted: LittleCrab,
        correct: bool,
        runs: StruggleState,
        accuracy_bp: u32,
        domain: Option<Seq<char>>,
        treasure: Option<TreasureDraw>,
        clock: CrabClock,
    ) -> bool {
        let wakes = correct && runs.consecutive_correct >= 10 && !self.active;
        &&& wakes ==> self.activated(&woken, CrabTrigger::PerfectStreak, clock)
        &&& !wakes ==> woken == *self
        &&& if correct && woken.active {
            woken.celebrated(&reacted, runs.consecutive_correct, accuracy_bp, treasure, clock.now_ms)
        } else if !correct && woken.active && runs.consecutive_errors >= 3 {
            woken.encouraged(&reacted, runs.consecutive_errors)
        } else {
            reacted == woken
        }
        &&& if reacted.active && domain is Some {
            reacted.domain_noted(new, domain.unwrap())
        } else {
            *new == reacted
        }
    }

    /// The crab's part in an answer at `clock`: a run of ten right answers
    /// brings a hidden crab out; a crab that is out then celebrates a right
    /// answer (finding `treasure` when the dice gave one), encourages from
    /// the third wrong answer in a row, and takes note of the session's
    /// domain. `runs` are the learner's runs counting this answer and
    /// `accuracy_bp` the accuracy of the answers before it.
    pub fn respond_to_answer_at(
        &mut self,
        correct: bool,
        runs: StruggleState,
        accuracy_bp: u32,
        domain: &Option<String>,
        treasure: Option<TreasureDraw>,
        clock: CrabClock,
    )
        requires
            old(self).wf(),
            old(self).can_activate(CrabTrigger::PerfectStreak),
            old(self).friendship_level + 3 <= u32::MAX,
        ensures
            final(self).wf(),
            exists|woken: LittleCrab, reacted: LittleCrab|
                #[trigger] old(self).answered_via(
                    &*final(self),
                    woken,
                    reacted,
                    correct,
                    runs,
                    accuracy_bp,
                    opt_text(*domain),
                    treasure,
                    clock,
                ),
    {
        if correct && runs.consecutive_correct >= 10 && !self.active {
            self.activate_at(CrabTrigger::PerfectStreak, clock);
        }
        let ghost woken = *self;
        if correct {
            if self.active {
                self.celebrate_success_at(runs.consecutive_correct, accuracy_bp, treasure, clock.now_ms);
            }
        } else if self.active && runs.consecutive_errors >= 3 {
            self.offer_encouragement(runs.consecutive_errors);
        }
        let ghost reacted = *self;
        if self.active {
            match domain {
                Some(d) => self.react_to_domain(d.as_str()),
                None => {},
            }
        }
        assert(old(self).answered_via(
            &*self,
            woken,
            reacted,
            correct,
            runs,
            accuracy_bp,
            opt_text(*domain),
            treasure,
            clock,
        ));
    }

    /// The crab's part in an answer now, the dice for a treasure thrown as
    /// in `celebrate_success`; see `respond_to_answer_at`.
    pub fn respond_to_answer(&mut self, correct: bool, runs: StruggleState, accuracy_bp: u32, domain: &Option<String>)
        requires
            old(self).wf(),
            old(self).can_activate(CrabTrigger::PerfectStreak),
            old(self).friendship_level + 3 <= u32::MAX,
        ensures
            final(self).wf(),
            exists|treasure: Option<TreasureDraw>, clock: CrabClock, woken: LittleCrab, reacted: LittleCrab|
                #[trigger] old(self).answered_via(
                    &*final(self),
                    woken,
                    reacted,
                    correct,
                    runs,
                    accuracy_bp,
                    opt_text(*domain),
                    treasure,
                    clock,
                ),
    {
        let clock = crab_clock_now();
        let treasure = if chance(3, 10) {
            Some(draw_treasure())
        } else {
            None
        };
        self.respond_to_answer_at(correct, runs, accuracy_bp, domain, treasure, clock);
    }

    /// The crab's stats card: personality, mood, energy in whole percent,
    /// friendship level, treasures and how often it was found.
    pub fn get_stats_summary(&self) -> (r: String)
        ensures
            r@ == stats_text(
                self.personality,
                self.mood,
                self.energy_milli,
                self.friendship_level,
                self.collected_treasures@.len(),
                self.discovery_count,
            ),
    {
        let energy: u64 = (self.energy_milli as u64 + 500) / 1000;
        let mut s = owned("🦀 Little Crab Stats:\nPersonality: ");
        s.append(personality_str(self.personality));
        s.append("\nMood: ");
        s.append(mood_str(self.mood));
        s.append("\nEnergy: ");
        s.append(u64_to_string(energy).as_str());
        s.append("%\nFriendship: Level ");
        s.append(u64_to_string(self.friendship_level as u64).as_str());
        s.append("\nTreasures: ");
        s.append(u64_to_string(self.collected_treasures.len() as u64).as_str());
        s.append("\nTimes Found: ");
        s.append(u64_to_string(self.discovery_count as u64).as_str());
        s
    }

    /// Reacts to the learner poking the crab at `now`: twenty percent more
    /// energy and the phase and line of its personality.
    pub fn interact_at(&mut self, now: i64) -> (r: String)
        requires
            old(self).wf(),
        ensures
            final(self).wf(),
            r@ == interaction_message(old(self).personality),
            *final(self) == (LittleCrab {
                energy_milli: boosted(old(self).energy_milli, 20_000),
                last_interaction: Some(now),
                phase: interaction_phase(old(self).personality),
                ..*old(self)
            }),
    {
        self.energy_milli = boost(self.energy_milli, 20_000);
        self.last_interaction = Some(now);
        self.phase = match self.personality {
            CrabPersonality::Shy => AnimationPhase::Peeking,
            CrabPersonality::Playful => AnimationPhase::Dancing,
            CrabPersonality::Helpful => AnimationPhase::Helping,
            CrabPersonality::Mischievous => AnimationPhase::Excited,
            CrabPersonality::Wise => AnimationPhase::Waving,
            CrabPersonality::Energetic => AnimationPhase::Excited,
            CrabPersonality::Sleepy => AnimationPhase::Sleeping,
            CrabPersonality::Curious => AnimationPhase::Curious,
        };
        owned(interaction_line(self.personality))
    }

    /// Reacts to the learner poking the crab now.
    pub fn interact(&mut self) -> (r: String)
        requires
            old(self).wf(),
        ensures
            final(self).wf(),
            r@ == interaction_message(old(self).personality),
            final(self).phase == interaction_phase(old(self).personality),
            final(self).energy_milli == boosted(old(self).energy_milli, 20_000),
            final(self).last_interaction is Some,
    {
        let now = utc_now_millis();
        self.interact_at(now)
    }

    /// `new` is `self` after the crab did its own thing with the dice
    /// `hit` and `pick`: when the dice say so (and, for the sleepy crab,
    /// its energy is below half), it takes its phase and says its line;
    /// otherwise nothing changes.
    pub open spec fn behaved(&self, new: &LittleCrab, hit: bool, pick: u32) -> bool {
        let acts = hit && (self.personality != CrabPersonality::Sleepy || self.energy_milli < 50_000);
        if acts {
            &&& new.messages@.len() == self.messages@.len() + 1
            &&& new.messages@.drop_last() == self.messages@
            &&& new.messages@.last()@ == behavior_message(self.personality, self.phase, pick)
            &&& *new == (LittleCrab {
                phase: behavior_phase(self.personality, self.phase),
                messages: new.messages,
                ..*self
            })
        } else {
            *new == *self
        }
    }

    /// Lets the crab do its own thing with the dice `hit` and `pick`; see
    /// `behaved`. Answers whether the crab also wants to wander off (the
    /// mischievous and the energetic crab do, when they act).
    pub fn perform_random_behavior_with(&mut self, hit: bool, pick: u32) -> (wander: bool)
        requires
            pick < behavior_choices(old(self).personality),
        ensures
            old(self).behaved(&*final(self), hit, pick),
            wander == (hit && (old(self).personality == CrabPersonality::Mischievous || old(self).personality
                == CrabPersonality::Energetic)),
    {
        let acts = hit && (self.personality != CrabPersonality::Sleepy || self.energy_milli < 50_000);
        if !acts {
            return false;
        }
        let line: &str = match self.personality {
            CrabPersonality::Shy => if self.phase == AnimationPhase::Peeking {
                self.phase = AnimationPhase::Hidden;
                "🦀 *hides* 🦀"
            } else {
                self.phase = AnimationPhase::Peeking;
                "👀 *peeks out nervously* 👀"
            },
            CrabPersonality::Playful => {
                self.phase = AnimationPhase::Dancing;
                behavior_text(CrabPersonality::Playful, pick)
            },
            CrabPersonality::Mischievous => behavior_text(CrabPersonality::Mischievous, pick),
            CrabPersonality::Helpful => {
                self.phase = AnimationPhase::Helping;
                behavior_text(CrabPersonality::Helpful, pick)
            },
            CrabPersonality::Energetic => {
                self.phase = AnimationPhase::Excited;
                behavior_text(CrabPersonality::Energetic, pick)
            },
            CrabPersonality::Sleepy => {
                self.phase = AnimationPhase::Sleeping;
                behavior_text(CrabPersonality::Sleepy, pick)
            },
            CrabPersonality::Curious => {
                self.phase = AnimationPhase::Thinking;
                behavior_text(CrabPersonality::Curious, pick)
            },
            CrabPersonality::Wise => {
                self.phase = AnimationPhase::Reading;
                behavior_text(CrabPersonality::Wise, pick)
            },
        };
        self.messages.push(owned(line));
        assert(self.messages@.drop_last() =~= old(self).messages@);
        self.personality == CrabPersonality::Mischievous || self.personality == CrabPersonality::Energetic
    }

    /// Lets the crab do its own thing now, with the odds of its
    /// personality; see `perform_random_behavior_with`.
    pub fn perform_random_behavior(&mut self) -> (wander: bool)
        ensures
            exists|hit: bool, pick: u32|
                pick < behavior_choices(old(self).personality) && #[trigger] old(self).behaved(&*final(self), hit, pick)
                    && wander == (hit && (old(self).personality == CrabPersonality::Mischievous || old(
                    self,
                ).personality == CrabPersonality::Energetic)),
    {
        let (num, den) = behavior_odds(self.personality);
        let choices = behavior_choice_count(self.personality);
        let hit = chance(num, den);
        let pick = random_below(choices);
        let wander = self.perform_random_behavior_with(hit, pick);
        assert(old(self).behaved(&*self, hit, pick));
        wander
    }

    /// `new` is `self` after seeing the learner's performance at `clock`: a
    /// hidden crab comes out for a streak of ten or more and cheers it; a
    /// crab already out gets excited by an accuracy above 90%; otherwise
    /// nothing changes.
    pub open spec fn performance_checked(
        &self,
        new: &LittleCrab,
        accuracy_bp: u32,
        streak: u32,
        clock: CrabClock,
    ) -> bool {
        if streak >= 10 && !self.active {
            exists|mid: LittleCrab|
                #[trigger] self.activated(&mid, CrabTrigger::PerfectStreak, clock) && mid.messages@
                    == new.messages@.drop_last() && new.messages@.len() > 0 && new.messages@.last()@ == "🦀 "@
                    + decimal(streak as nat) + " in a row! Incredible!"@ && *new == (LittleCrab {
                    messages: new.messages,
                    ..mid
                })
        } else if self.active && accuracy_bp > 9000 {
            &&& new.messages@.len() == self.messages@.len() + 1
            &&& new.messages@.drop_last() == self.messages@
            &&& new.messages@.last()@ == "🦀 You're on fire! 🔥"@
            &&& *new == (LittleCrab { phase: AnimationPhase::Excited, messages: new.messages, ..*self })
        } else {
            *new == *self
        }
    }

    /// Reacts to the learner's performance at `clock`: a hidden crab comes
    /// out for a streak of ten or more and cheers it; a crab already out
    /// gets excited by an accuracy above 90%.
    pub fn check_performance_trigger_at(&mut self, accuracy_bp: u32, streak: u32, clock: CrabClock)
        requires
            old(self).wf(),
            streak >= 10 && !old(self).active ==> old(self).can_activate(CrabTrigger::PerfectStreak),
        ensures
            final(self).wf(),
            old(self).performance_checked(&*final(self), accuracy_bp, streak, clock),
    {
        if streak >= 10 && !self.active {
            self.activate_at(CrabTrigger::PerfectStreak, clock);
            let ghost mid = *self;
            let mut line = owned("🦀 ");
            line.append(u64_to_string(streak as u64).as_str());
            line.append(" in a row! Incredible!");
            self.messages.push(line);
            assert(self.messages@.drop_last() =~= mid.messages@);
            assert(old(self).activated(&mid, CrabTrigger::PerfectStreak, clock));
        } else if self.active && accuracy_bp > 9000 {
            self.phase = AnimationPhase::Excited;
            self.messages.push(owned("🦀 You're on fire! 🔥"));
            assert(self.messages@.drop_last() =~= old(self).messages@);
        }
    }

    /// Reacts to the learner's performance now.
    pub fn check_performance_trigger(&mut self, accuracy_bp: u32, streak: u32)
        requires
            old(self).wf(),
            streak >= 10 && !old(self).active ==> old(self).can_activate(CrabTrigger::PerfectStreak),
        ensures
            final(self).wf(),
            exists|clock: CrabClock| #[trigger] old(self).performance_checked(&*final(self), accuracy_bp, streak, clock),
    {
        let clock = crab_clock_now();
        self.check_performance_trigger_at(accuracy_bp, streak, clock);
    }

    /// Encourages a struggling learner, when the crab is out.
    pub fn encourage(&mut self)
        ensures
            !old(self).active ==> *final(self) == *old(self),
            old(self).active ==> {
                &&& final(self).messages@.len() == old(self).messages@.len() + 1
                &&& final(self).messages@.drop_last() == old(self).messages@
                &&& final(self).messages@.last()@ == encourage_message(old(self).personality)
                &&& *final(self) == (LittleCrab {
                    phase: AnimationPhase::Helping,
                    messages: final(self).messages,
                    ..*old(self)
                })
            },
    {
        if self.active {
            self.phase = AnimationPhase::Helping;
            self.messages.push(owned(encourage_line(self.personality)));
            assert(self.messages@.drop_last() =~= old(self).messages@);
        }
    }

    /// `new` is `self` after one step: a crab that is out crawls while it
    /// heads somewhere more than ten pixels off, settles into its idle
    /// phase on arrival, loses half a percent of energy per second and falls
    /// asleep when none is left; a hidden crab does not change.
    pub open spec fn stepped(&self, new: &LittleCrab, step: CrabStep) -> bool {
        if !self.active {
            *new == *self
        } else {
            let moved = if step.moving {
                if self.phase != AnimationPhase::Crawling && step.far {
                    AnimationPhase::Crawling
                } else {
                    self.phase
                }
            } else if self.phase == AnimationPhase::Crawling {
                idle_phase(self.personality)
            } else {
                self.phase
            };
            let energy = drained(self.energy_milli, step.delta_ms);
            *new == (LittleCrab {
                energy_milli: energy,
                phase: if energy == 0 {
                    AnimationPhase::Sleeping
                } else {
                    moved
                },
                ..*self
            })
        }
    }

    /// Advances a crab that is out by one step: it crawls while it heads
    /// somewhere more than ten pixels off, settles into its idle phase on
    /// arrival, loses half a percent of energy per second and falls asleep
    /// when none is left. A hidden crab does not change.
    pub fn update_at(&mut self, step: CrabStep)
        requires
            old(self).wf(),
        ensures
            final(self).wf(),
            old(self).stepped(&*final(self), step),
    {
        if !self.active {
            return;
        }
        if step.moving {
            if self.phase != AnimationPhase::Crawling && step.far {
                self.phase = AnimationPhase::Crawling;
            }
        } else if self.phase == AnimationPhase::Crawling {
            self.phase = idle_phase_of(self.personality);
        }
        let cost = step.delta_ms / 2;
        self.energy_milli = if self.energy_milli > cost {
            self.energy_milli - cost
        } else {
            0
        };
        if self.energy_milli == 0 {
            self.phase = AnimationPhase::Sleeping;
        }
    }
}

impl Default for LittleCrab {
    fn default() -> (r: Self)
        ensures
            r.wf(),
            r.is_fresh(CrabPersonality::Playful),
    {
        LittleCrab::with_personality(CrabPersonality::Playful)
    }
}

/// A key of the Konami code.
#[derive(Debug, Clone, Copy, PartialEq, Eq, Structural)]
pub enum KonamiKey {
    Up,
    Down,
    Left,
    Right,
    B,
    A,
}

/// The Konami code: up, up, down, down, left, right, left, right, B, A.
pub open spec fn konami_code() -> Seq<KonamiKey> {
    seq![
        KonamiKey::Up,
        KonamiKey::Up,
        KonamiKey::Down,
        KonamiKey::Down,
        KonamiKey::Left,
        KonamiKey::Right,
        KonamiKey::Left,
        KonamiKey::Right,
        KonamiKey::B,
        KonamiKey::A,
    ]
}

/// The Konami key a key name stands for, if any: the arrow keys, and B and
/// A in either case.
pub open spec fn konami_key_for(key: Seq<char>) -> Option<KonamiKey> {
    if key == "ArrowUp"@ {
        Some(KonamiKey::Up)
    } else if key == "ArrowDown"@ {
        Some(KonamiKey::Down)
    } else if key == "ArrowLeft"@ {
        Some(KonamiKey::Left)
    } else if key == "ArrowRight"@ {
        Some(KonamiKey::Right)
    } else if key == "b"@ || key == "B"@ {
        Some(KonamiKey::B)
    } else if key == "a"@ || key == "A"@ {
        Some(KonamiKey::A)
    } else {
        None
    }
}

fn konami_key(key: &str) -> (r: Option<KonamiKey>)
    ensures
        r == konami_key_for(key@),
{
    if crate::text::str_eq(key, "ArrowUp") {
        Some(KonamiKey::Up)
    } else if crate::text::str_eq(key, "ArrowDown") {
        Some(KonamiKey::Down)
    } else if crate::text::str_eq(key, "ArrowLeft") {
        Some(KonamiKey::Left)
    } else if crate::text::str_eq(key, "ArrowRight") {
        Some(KonamiKey::Right)
    } else if crate::text::str_eq(key, "b") || crate::text::str_eq(key, "B") {
        Some(KonamiKey::B)
    } else if crate::text::str_eq(key, "a") || crate::text::str_eq(key, "A") {
        Some(KonamiKey::A)
    } else {
        None
    }
}

/// The last ten keys of a buffer that grew by one.
pub open spec fn last_ten<T>(s: Seq<T>) -> Seq<T> {
    if s.len() > 10 {
        s.drop_first()
    } else {
        s
    }
}

/// The buffer ends with the Konami code.
pub open spec fn konami_entered(keys: Seq<KonamiKey>) -> bool {
    keys.len() >= 10 && keys.skip(keys.len() - 10) == konami_code()
}

/// A key name of one byte, that is one ASCII character.
pub open spec fn single_ascii(key: Seq<char>) -> bool {
    key.len() == 1 && vstd::utf8::is_ascii_chars(key)
}

/// The typed characters spell "crab" somewhere, in any case.
pub open spec fn mentions_crab(typed: Seq<char>) -> bool {
    exists|i: int| 0 <= i && i + 4 <= typed.len() && #[trigger] lower(typed.subrange(i, i + 4)) == "crab"@
}

/// The clicks of `clicks` less than half a second before `now`, in order.
pub open spec fn recent_clicks(clicks: Seq<i64>, now: i64) -> Seq<i64>
    decreases clicks.len(),
{
    if clicks.len() == 0 {
        seq![]
    } else {
        let rest = recent_clicks(clicks.drop_last(), now);
        if now - clicks.last() < 500 {
            rest.push(clicks.last())
        } else {
            rest
        }
    }
}

proof fn lemma_recent_clicks_len(clicks: Seq<i64>, now: i64)
    ensures
        recent_clicks(clicks, now).len() <= clicks.len(),
    decreases clicks.len(),
{
    if clicks.len() > 0 {
        lemma_recent_clicks_len(clicks.drop_last(), now);
    }
}

/// Watches for the ways to find Little Crab: triple clicks, the Konami
/// code, the secret word "crab", and idling.
#[derive(Debug)]
pub struct EasterEggManager {
    pub crab: LittleCrab,
    pub konami_buffer: Vec<KonamiKey>,
    /// Times of recent clicks, in milliseconds since the epoch.
    pub click_times: Vec<i64>,
    /// When a key was last pressed, in milliseconds since the epoch.
    pub last_activity: i64,
    pub secret_word_buffer: String,
}

impl EasterEggManager {
    /// The last Konami keys pressed, at most ten.
    pub open spec fn konami_keys(&self) -> Seq<KonamiKey> {
        self.konami_buffer@
    }

    /// The times of the recent clicks, in milliseconds since the epoch.
    pub open spec fn clicks(&self) -> Seq<i64> {
        self.click_times@
    }

    /// When a key was last pressed, in milliseconds since the epoch.
    pub open spec fn last_active(&self) -> i64 {
        self.last_activity
    }

    /// The last characters typed, at most ten.
    pub open spec fn typed(&self) -> Seq<char> {
        self.secret_word_buffer@
    }

    /// The crab is well formed; the key buffers hold at most ten entries,
    /// the typed ones ASCII; every time is a valid timestamp.
    pub open spec fn wf(&self) -> bool {
        &&& self.crab.wf()
        &&& self.konami_keys().len() <= 10
        &&& self.typed().len() <= 10
        &&& vstd::utf8::is_ascii_chars(self.typed())
        &&& 0 <= self.last_active() <= MAX_TIMESTAMP_MS
        &&& forall|i: int| 0 <= i < self.click_times@.len() ==> 0 <= #[trigger] self.click_times@[i] <= MAX_TIMESTAMP_MS
    }

    /// A manager around `crab` that has seen nothing yet, last active at
    /// `now`.
    pub fn with_crab(crab: LittleCrab, now: i64) -> (r: Self)
        requires
            crab.wf(),
            0 <= now <= MAX_TIMESTAMP_MS,
        ensures
            r.wf(),
            r.crab == crab,
            r.konami_keys().len() == 0,
            r.clicks().len() == 0,
            r.typed().len() == 0,
            r.last_active() == now,
    {
        EasterEggManager {
            crab,
            konami_buffer: Vec::new(),
            click_times: Vec::new(),
            last_activity: now,
            secret_word_buffer: String::new(),
        }
    }

    /// A manager with a new crab of random personality, active now.
    pub fn new() -> (r: Self)
        ensures
            r.wf(),
            r.konami_keys().len() == 0,
            r.clicks().len() == 0,
            r.typed().len() == 0,
            exists|roll: u32| roll < 5 && #[trigger] r.crab.is_fresh(personality_for_roll(roll)),
    {
        let crab = LittleCrab::new();
        let now = utc_now_millis();
        EasterEggManager::with_crab(crab, now)
    }

    /// `new` is `self` after a click at `clock`: the clicks of the last
    /// half second, with this one, make a triple click when there are three
    /// or more; then the crab comes out and the clicks are forgotten, and
    /// otherwise they are kept. Answers whether the crab came out.
    pub open spec fn click_handled(&self, new: &EasterEggManager, clock: CrabClock, found: bool) -> bool {
        let kept = recent_clicks(self.clicks(), clock.now_ms).push(clock.now_ms);
        &&& new.konami_keys() == self.konami_keys()
        &&& new.typed() == self.typed()
        &&& new.last_active() == self.last_active()
        &&& found == (kept.len() >= 3)
        &&& found ==> new.clicks().len() == 0 && self.crab.activated(&new.crab, CrabTrigger::TripleClick, clock)
        &&& !found ==> new.clicks() == kept && new.crab == self.crab
    }

    /// `new` is `self` after checking for idling at `clock`: a hidden crab
    /// comes out when no key was pressed for more than thirty whole seconds.
    pub open spec fn idle_checked(&self, new: &EasterEggManager, clock: CrabClock, found: bool) -> bool {
        &&& found == (clock.now_ms - self.last_active() >= 31_000 && !self.crab.active)
        &&& found ==> self.crab.activated(&new.crab, CrabTrigger::IdleTime, clock)
        &&& !found ==> new.crab == self.crab
        &&& new.konami_keys() == self.konami_keys()
        &&& new.clicks() == self.clicks()
        &&& new.typed() == self.typed()
        &&& new.last_active() == self.last_active()
    }

    /// Counts a click at `clock`: the clicks of the last half second, with
    /// this one, make a triple click when there are three or more; then the
    /// crab comes out and the clicks are forgotten. Answers whether that
    /// happened (the drawing code then moves the crab to the click).
    pub fn handle_click_at(&mut self, clock: CrabClock) -> (found: bool)
        requires
            old(self).wf(),
            0 <= clock.now_ms <= MAX_TIMESTAMP_MS,
            old(self).crab.can_activate(CrabTrigger::TripleClick),
        ensures
            final(self).wf(),
            old(self).click_handled(&*final(self), clock, found),
    {
        let now = clock.now_ms;
        let ghost old_clicks = self.click_times@;
        let mut kept: Vec<i64> = Vec::new();
        let mut i: usize = 0;
        while i < self.click_times.len()
            invariant
                self.click_times@ == old_clicks,
                i <= old_clicks.len(),
                kept@ == recent_clicks(old_clicks.take(i as int), now),
                0 <= now <= MAX_TIMESTAMP_MS,
                forall|j: int| 0 <= j < old_clicks.len() ==> 0 <= #[trigger] old_clicks[j] <= MAX_TIMESTAMP_MS,
                forall|j: int| 0 <= j < kept@.len() ==> 0 <= #[trigger] kept@[j] <= MAX_TIMESTAMP_MS,
            decreases old_clicks.len() - i,
        {
            let t = self.click_times[i];
            assert(old_clicks.take(i + 1).drop_last() =~= old_clicks.take(i as int));
            if now - t < 500 {
                kept.push(t);
            }
            i = i + 1;
        }
        assert(old_clicks.take(old_clicks.len() as int) =~= old_clicks);
        kept.push(now);
        if kept.len() >= 3 {
            self.crab.activate_at(CrabTrigger::TripleClick, clock);
            self.click_times = Vec::new();
            true
        } else {
            self.click_times = kept;
            false
        }
    }

    /// Counts a click now; see `handle_click_at`.
    pub fn handle_click(&mut self) -> (found: bool)
        requires
            old(self).wf(),
            old(self).crab.can_activate(CrabTrigger::TripleClick),
        ensures
            final(self).wf(),
            exists|clock: CrabClock| #[trigger] old(self).click_handled(&*final(self), clock, found),
    {
        let clock = crab_clock_now();
        self.handle_click_at(clock)
    }

    /// `new` is `self` after the key `key` was pressed at `clock`: a
    /// Konami key joins the last ten, and when they spell the code the crab
    /// comes out and they are forgotten; otherwise a key of one ASCII
    /// character joins the last ten typed, and when those spell "crab" in
    /// any case the crab comes out and they are forgotten. Answers whether
    /// the crab came out.
    pub open spec fn key_handled(&self, new: &EasterEggManager, key: Seq<char>, clock: CrabClock, found: bool) -> bool {
        let keys = match konami_key_for(key) {
            Some(k) => last_ten(self.konami_keys().push(k)),
            None => self.konami_keys(),
        };
        let typed = last_ten(self.typed() + key);
        &&& new.last_active() == clock.now_ms
        &&& new.clicks() == self.clicks()
        &&& if konami_key_for(key) is Some && konami_entered(keys) {
            &&& found
            &&& new.konami_keys().len() == 0
            &&& new.typed() == self.typed()
            &&& self.crab.activated(&new.crab, CrabTrigger::KonamiCode, clock)
        } else if single_ascii(key) && mentions_crab(typed) {
            &&& found
            &&& new.konami_keys() == keys
            &&& new.typed().len() == 0
            &&& self.crab.activated(&new.crab, CrabTrigger::SecretWord, clock)
        } else {
            &&& !found
            &&& new.konami_keys() == keys
            &&& new.typed() == if single_ascii(key) {
                typed
            } else {
                self.typed()
            }
            &&& new.crab == self.crab
        }
    }

    fn konami_complete(&self) -> (r: bool)
        ensures
            r == konami_entered(self.konami_keys()),
    {
        let n = self.konami_buffer.len();
        if n < 10 {
            return false;
        }
        let code: [KonamiKey; 10] = [
            KonamiKey::Up,
            KonamiKey::Up,
            KonamiKey::Down,
            KonamiKey::Down,
            KonamiKey::Left,
            KonamiKey::Right,
            KonamiKey::Left,
            KonamiKey::Right,
            KonamiKey::B,
            KonamiKey::A,
        ];
        assert(code@ =~= konami_code());
        let start = n - 10;
        let mut k: usize = 0;
        while k < 10
            invariant
                n == self.konami_buffer@.len(),
                n >= 10,
                start == n - 10,
                code@ == konami_code(),
                k <= 10,
                forall|j: int| 0 <= j < k ==> self.konami_buffer@[start + j] == konami_code()[j],
            decreases 10 - k,
        {
            if self.konami_buffer[start + k] != code[k] {
                assert(self.konami_buffer@.skip(start as int)[k as int] != konami_code()[k as int]);
                return false;
            }
            k = k + 1;
        }
        assert(self.konami_buffer@.skip(start as int) =~= konami_code());
        true
    }

    fn typed_mentions_crab(&self) -> (r: bool)
        ensures
            r == mentions_crab(self.typed()),
    {
        let s = self.secret_word_buffer.as_str();
        let n = s.unicode_len();
        if n < 4 {
            return false;
        }
        let mut i: usize = 0;
        while i <= n - 4
            invariant
                n == s@.len(),
                s@ == self.typed(),
                n >= 4,
                forall|j: int| 0 <= j < i ==> lower(#[trigger] s@.subrange(j, j + 4)) != "crab"@,
            decreases n - i,
        {
            let a = crate::text::ascii_lower(s.get_char(i));
            let b = crate::text::ascii_lower(s.get_char(i + 1));
            let c = crate::text::ascii_lower(s.get_char(i + 2));
            let d = crate::text::ascii_lower(s.get_char(i + 3));
            proof {
                reveal_strlit("crab");
            }
            if a == 'c' && b == 'r' && c == 'a' && d == 'b' {
                assert(lower(s@.subrange(i as int, i + 4)) =~= "crab"@);
                return true;
            }
            assert(lower(s@.subrange(i as int, i + 4))[0] == a);
            assert(lower(s@.subrange(i as int, i + 4))[1] == b);
            assert(lower(s@.subrange(i as int, i + 4))[2] == c);
            assert(lower(s@.subrange(i as int, i + 4))[3] == d);
            i = i + 1;
        }
        false
    }

    /// Handles the key `key` pressed at `clock`; see `key_handled`.
    pub fn handle_key_at(&mut self, key: &str, clock: CrabClock) -> (found: bool)
        requires
            old(self).wf(),
            0 <= clock.now_ms <= MAX_TIMESTAMP_MS,
            old(self).crab.can_activate(CrabTrigger::KonamiCode),
            old(self).crab.can_activate(CrabTrigger::SecretWord),
        ensures
            final(self).wf(),
            old(self).key_handled(&*final(self), key@, clock, found),
    {
        self.last_activity = clock.now_ms;
        let ghost keys0 = self.konami_buffer@;
        match konami_key(key) {
            Some(k) => {
                self.konami_buffer.push(k);
                if self.konami_buffer.len() > 10 {
                    self.konami_buffer.remove(0);
                }
                assert(self.konami_buffer@ =~= last_ten(keys0.push(k)));
                if self.konami_complete() {
                    self.crab.activate_at(CrabTrigger::KonamiCode, clock);
                    self.konami_buffer.clear();
                    return true;
                }
            },
            None => {},
        }
        if key.is_ascii() && key.unicode_len() == 1 {
            let ghost typed0 = self.secret_word_buffer@;
            self.secret_word_buffer.append(key);
            if self.secret_word_buffer.as_str().unicode_len() > 10 {
                let n = self.secret_word_buffer.as_str().unicode_len();
                proof {
                    assert(vstd::utf8::is_ascii_chars(self.secret_word_buffer@)) by {
                        assert forall|i: int| 0 <= i < self.secret_word_buffer@.len() implies '\0'
                            <= #[trigger] self.secret_word_buffer@[i] <= '\u{7f}' by {
                            if i < typed0.len() {
                                assert(self.secret_word_buffer@[i] == typed0[i]);
                            } else {
                                assert(self.secret_word_buffer@[i] == key@[i - typed0.len()]);
                            }
                        }
                    }
                }
                let rest = owned(self.secret_word_buffer.as_str().substring_ascii(1, n));
                self.secret_word_buffer = rest;
            }
            assert(self.secret_word_buffer@ =~= last_ten(typed0 + key@));
            proof {
                assert forall|i: int| 0 <= i < self.secret_word_buffer@.len() implies '\0'
                    <= #[trigger] self.secret_word_buffer@[i] <= '\u{7f}' by {
                    let all = typed0 + key@;
                    if all.len() > 10 {
                        assert(self.secret_word_buffer@[i] == all[i + 1]);
                        if i + 1 < typed0.len() {
                            assert(all[i + 1] == typed0[i + 1]);
                        } else {
                            assert(all[i + 1] == key@[i + 1 - typed0.len()]);
                        }
                    } else {
                        if i < typed0.len() {
                            assert(all[i] == typed0[i]);
                        } else {
                            assert(all[i] == key@[i - typed0.len()]);
                        }
                    }
                }
            }
            if self.typed_mentions_crab() {
                self.crab.activate_at(CrabTrigger::SecretWord, clock);
                self.secret_word_buffer = String::new();
                return true;
            }
        }
        false
    }

    /// Handles the key `key` pressed now.
    pub fn handle_key(&mut self, key: &str) -> (found: bool)
        requires
            old(self).wf(),
            old(self).crab.can_activate(CrabTrigger::KonamiCode),
            old(self).crab.can_activate(CrabTrigger::SecretWord),
        ensures
            final(self).wf(),
            exists|clock: CrabClock| #[trigger] old(self).key_handled(&*final(self), key@, clock, found),
    {
        let clock = crab_clock_now();
        self.handle_key_at(key, clock)
    }

    /// Brings the crab out at `clock` when no key was pressed for more than
    /// thirty whole seconds and it is hidden. Answers whether it did.
    pub fn check_idle_at(&mut self, clock: CrabClock) -> (found: bool)
        requires
            old(self).wf(),
            0 <= clock.now_ms <= MAX_TIMESTAMP_MS,
            old(self).crab.can_activate(CrabTrigger::IdleTime),
        ensures
            final(self).wf(),
            old(self).idle_checked(&*final(self), clock, found),
    {
        let idle_seconds: i64 = (clock.now_ms - self.last_activity) / 1000;
        if idle_seconds > 30 && !self.crab.active {
            self.crab.activate_at(CrabTrigger::IdleTime, clock);
            true
        } else {
            false
        }
    }

    /// Checks for idling now; see `check_idle_at`.
    pub fn check_idle(&mut self) -> (found: bool)
        requires
            old(self).wf(),
            old(self).crab.can_activate(CrabTrigger::IdleTime),
        ensures
            final(self).wf(),
            exists|clock: CrabClock| #[trigger] old(self).idle_checked(&*final(self), clock, found),
    {
        let clock = crab_clock_now();
        self.check_idle_at(clock)
    }

    /// `new` is `self` after one moment, passing through `stepped` (the crab
    /// after its step) and `checked` (after the idle check): the idle check
    /// runs when `idle_roll` says so, and a hidden crab comes out at 1 PM and
    /// 11 PM (UTC) when `time_roll` says so.
    pub open spec fn moment_via(
        &self,
        new: &EasterEggManager,
        stepped: LittleCrab,
        checked: LittleCrab,
        step: CrabStep,
        idle_roll: bool,
        time_roll: bool,
        clock: CrabClock,
    ) -> bool {
        let idle = idle_roll && clock.now_ms - self.last_active() >= 31_000 && !stepped.active;
        let visit = time_roll && !checked.active && (clock.hour == 13 || clock.hour == 23);
        &&& self.crab.stepped(&stepped, step)
        &&& idle ==> stepped.activated(&checked, CrabTrigger::IdleTime, clock)
        &&& !idle ==> checked == stepped
        &&& visit ==> checked.activated(&new.crab, CrabTrigger::TimeOfDay, clock)
        &&& !visit ==> new.crab == checked
    }

    /// One moment of the companion: the crab takes its step; when the
    /// `idle_roll` dice say so the idle check runs; and when the
    /// `time_roll` dice say so a hidden crab comes out at 1 PM and 11 PM
    /// (UTC).
    pub fn update_at(&mut self, step: CrabStep, idle_roll: bool, time_roll: bool, clock: CrabClock)
        requires
            old(self).wf(),
            0 <= clock.now_ms <= MAX_TIMESTAMP_MS,
            old(self).crab.can_activate(CrabTrigger::IdleTime),
            old(self).crab.can_activate(CrabTrigger::TimeOfDay),
        ensures
            final(self).wf(),
            final(self).konami_keys() == old(self).konami_keys(),
            final(self).clicks() == old(self).clicks(),
            final(self).typed() == old(self).typed(),
            final(self).last_active() == old(self).last_active(),
            exists|stepped: LittleCrab, checked: LittleCrab|
                #[trigger] old(self).moment_via(&*final(self), stepped, checked, step, idle_roll, time_roll, clock),
    {
        self.crab.update_at(step);
        let ghost stepped = self.crab;
        if idle_roll {
            self.check_idle_at(clock);
        }
        let ghost checked = self.crab;
        if !self.crab.active && time_roll {
            if clock.hour == 13 || clock.hour == 23 {
                self.crab.activate_at(CrabTrigger::TimeOfDay, clock);
            }
        }
        assert(old(self).moment_via(&*self, stepped, checked, step, idle_roll, time_roll, clock));
    }
}

impl Default for EasterEggManager {
    fn default() -> (r: Self)
        ensures
            r.wf(),
            r.konami_keys().len() == 0,
            r.clicks().len() == 0,
            r.typed().len() == 0,
    {
        EasterEggManager::new()
    }
}

/// The clicks that count towards a triple click are exactly those less
/// than half a second old, in the order they came.
pub proof fn lemma_recent_clicks_window(clicks: Seq<i64>, now: i64)
    ensures
        forall|t: i64| recent_clicks(clicks, now).contains(t) <==> clicks.contains(t) && now - t < 500,
        recent_clicks(clicks, now).len() <= clicks.len(),
    decreases clicks.len(),
{
    if clicks.len() > 0 {
        let rest = clicks.drop_last();
        let last = clicks.last();
        let r = recent_clicks(rest, now);
        let all = recent_clicks(clicks, now);
        lemma_recent_clicks_window(rest, now);
        assert(all == if now - last < 500 { r.push(last) } else { r });
        assert forall|t: i64| all.contains(t) <==> clicks.contains(t) && now - t < 500 by {
            assert(r.contains(t) <==> rest.contains(t) && now - t < 500);
            if clicks.contains(t) && now - t < 500 {
                let k = choose|k: int| 0 <= k < clicks.len() && clicks[k] == t;
                if k < clicks.len() - 1 {
                    assert(rest[k] == t);
                    assert(rest.contains(t));
                    let j = choose|j: int| 0 <= j < r.len() && r[j] == t;
                    if now - last < 500 {
                        assert(all[j] == t);
                    }
                } else {
                    assert(all[all.len() - 1] == t);
                }
            }
            if all.contains(t) {
                let j = choose|j: int| 0 <= j < all.len() && all[j] == t;
                if now - last < 500 && j == all.len() - 1 {
                    assert(clicks[clicks.len() - 1] == t);
                } else {
                    assert(r[j] == t);
                    assert(r.contains(t));
                    let k = choose|k: int| 0 <= k < rest.len() && rest[k] == t;
                    assert(clicks[k] == t);
                }
            }
        }
    }
}

/// A hidden crab comes out on the idle check once no key was pressed for
/// more than thirty whole seconds, and only then; a crab already out stays
/// as it is.
pub proof fn lemma_idle_after_thirty_seconds(
    m: EasterEggManager,
    new: EasterEggManager,
    clock: CrabClock,
    found: bool,
)
    requires
        m.idle_checked(&new, clock, found),
    ensures
        found <==> (clock.now_ms - m.last_active()) / 1000 > 30 && !m.crab.active,
        !found ==> new.crab == m.crab,
{
}

} // verus!
