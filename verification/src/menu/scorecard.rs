use vstd::prelude::*;
use crate::play::lvsets::{LevelEntry, TrophyValues};
use crate::menu::text::{padded2, push_int, push_int_padded2, signed_decimal};
use crate::play::savedata::{SaveData, level_slot};

verus! {

/// A trophy a run can earn, from the best down.
#[derive(Copy, Clone, Debug, PartialEq, Eq, Structural)]
pub enum Trophy {
    Author,
    Gold,
    Silver,
    Bronze,
}

/// The score card of a finished run.
#[derive(Copy, Clone, Debug, PartialEq, Eq, Structural)]
pub struct DrawScoreCard {
    pub attempts: i32,
    pub time: i32,
    pub steps: i32,
    pub bonks: i32,
}

/// `a / b` rounded toward zero, as Rust's integer division does.
pub open spec fn trunc_div(a: int, b: int) -> int {
    if a >= 0 { a / b } else { -((-a) / b) }
}

/// The remainder of `a / b` rounded toward zero; it has the sign of `a`.
pub open spec fn trunc_rem(a: int, b: int) -> int {
    a - b * trunc_div(a, b)
}

impl DrawScoreCard {
    /// The run's time in ticks, at sixty a second, as minutes, seconds and
    /// ticks, with Rust's division and remainder; the minutes are shown only
    /// when there are any.
    pub fn time_parts(&self) -> (r: (i32, i32, i32))
        ensures
            r.0 == trunc_div(self.time as int, 3600),
            r.1 == trunc_rem(trunc_div(self.time as int, 60), 60),
            r.2 == trunc_rem(self.time as int, 60),
            r.0 * 3600 + r.1 * 60 + r.2 == self.time,
    {
        let t: i64 = self.time as i64;
        let neg = t < 0;
        let a: i64 = if neg { -t } else { t };
        let frames_a = a % 60;
        let seconds_a = (a / 60) % 60;
        let minutes_a = a / 3600;
        assert(minutes_a * 3600 + seconds_a * 60 + frames_a == a) by (nonlinear_arith)
            requires
                a >= 0,
                frames_a == a % 60,
                seconds_a == (a / 60) % 60,
                minutes_a == a / 3600,
        {
            assert(a / 3600 == (a / 60) / 60);
        }
        assert(0 <= minutes_a <= a && 0 <= seconds_a < 60 && 0 <= frames_a < 60) by (nonlinear_arith)
            requires
                a >= 0,
                frames_a == a % 60,
                seconds_a == (a / 60) % 60,
                minutes_a == a / 3600,
        ;
        assert(a <= 0x8000_0000);
        if neg {
            assert((a / 60) % 60 == trunc_rem(a / 60, 60));
            (-(minutes_a as i32), -(seconds_a as i32), -(frames_a as i32))
        } else {
            (minutes_a as i32, seconds_a as i32, frames_a as i32)
        }
    }
}

/// The values column of a score card: attempts, the time as
/// `minutes:seconds.ticks` (or `seconds.ticks` without whole minutes), steps
/// and bonks, one per line.
pub open spec fn score_card_text(card: DrawScoreCard) -> Seq<char> {
    let minutes = trunc_div(card.time as int, 3600);
    let seconds = trunc_rem(trunc_div(card.time as int, 60), 60);
    let ticks = trunc_rem(card.time as int, 60);
    let time = if minutes > 0 {
        signed_decimal(minutes) + seq![':'] + padded2(seconds) + seq!['.'] + padded2(ticks)
    } else {
        signed_decimal(seconds) + seq!['.'] + padded2(ticks)
    };
    signed_decimal(card.attempts as int) + seq!['\n'] + time + seq!['\n'] + signed_decimal(card.steps as int)
        + seq!['\n'] + signed_decimal(card.bonks as int)
}

impl DrawScoreCard {
    /// The values column of the score card.
    pub fn text(&self) -> (r: String)
        ensures
            r@ == score_card_text(*self),
    {
        let (minutes, seconds, ticks) = self.time_parts();
        let mut out = String::new();
        proof {
            reveal_strlit("\n");
            reveal_strlit(":");
            reveal_strlit(".");
        }
        push_int(&mut out, self.attempts);
        out.append("\n");
        if minutes > 0 {
            push_int(&mut out, minutes);
            out.append(":");
            push_int_padded2(&mut out, seconds);
        } else {
            push_int(&mut out, seconds);
        }
        out.append(".");
        push_int_padded2(&mut out, ticks);
        out.append("\n");
        push_int(&mut out, self.steps);
        out.append("\n");
        push_int(&mut out, self.bonks);
        assert(out@ =~= score_card_text(*self));
        out
    }
}

/// The trophy a record earns: the best trophy whose threshold (where it is
/// awarded) the record does not exceed; none without a record.
pub open spec fn spec_trophy(high_score: int, v: TrophyValues) -> Option<Trophy> {
    if high_score < 0 {
        None
    } else if high_score <= v.author && v.author >= 0 {
        Some(Trophy::Author)
    } else if high_score <= v.gold && v.gold >= 0 {
        Some(Trophy::Gold)
    } else if high_score <= v.silver && v.silver >= 0 {
        Some(Trophy::Silver)
    } else if high_score <= v.bronze && v.bronze >= 0 {
        Some(Trophy::Bronze)
    } else {
        None
    }
}

/// The next trophy to aim for and its threshold: the lowest awarded
/// trophy whose threshold the record exceeds.
pub open spec fn spec_next_trophy(high_score: int, v: TrophyValues) -> Option<(Trophy, i32)> {
    if v.bronze >= 0 && high_score > v.bronze {
        Some((Trophy::Bronze, v.bronze))
    } else if v.silver >= 0 && high_score > v.silver {
        Some((Trophy::Silver, v.silver))
    } else if v.gold >= 0 && high_score > v.gold {
        Some((Trophy::Gold, v.gold))
    } else if v.author >= 0 && high_score > v.author {
        Some((Trophy::Author, v.author))
    } else {
        None
    }
}

/// A record of one metric, the trophy it earned and the next one to aim
/// for.
#[derive(Copy, Clone, Debug)]
pub struct DrawTrophyValues {
    pub high_score: i32,
    pub trophy: Option<Trophy>,
    pub next: Option<(Trophy, i32)>,
}

impl DrawTrophyValues {
    /// The trophies of a record against a level's thresholds; with no
    /// thresholds there are none.
    pub fn new(high_score: i32, values: Option<&TrophyValues>) -> (r: DrawTrophyValues)
        ensures
            r.high_score == high_score,
            match values {
                None => r.trophy is None && r.next is None,
                Some(v) => r.trophy == spec_trophy(high_score as int, *v)
                    && r.next == spec_next_trophy(high_score as int, *v),
            },
    {
        let values = match values {
            Some(v) => v,
            None => {
                return DrawTrophyValues { high_score, trophy: None, next: None };
            },
        };

        let trophy = if high_score < 0 {
            None
        } else if high_score <= values.author && values.author >= 0 {
            Some(Trophy::Author)
        } else if high_score <= values.gold && values.gold >= 0 {
            Some(Trophy::Gold)
        } else if high_score <= values.silver && values.silver >= 0 {
            Some(Trophy::Silver)
        } else if high_score <= values.bronze && values.bronze >= 0 {
            Some(Trophy::Bronze)
        } else {
            None
        };

        let next = if values.bronze >= 0 && high_score > values.bronze {
            Some((Trophy::Bronze, values.bronze))
        } else if values.silver >= 0 && high_score > values.silver {
            Some((Trophy::Silver, values.silver))
        } else if values.gold >= 0 && high_score > values.gold {
            Some((Trophy::Gold, values.gold))
        } else if values.author >= 0 && high_score > values.author {
            Some((Trophy::Author, values.author))
        } else {
            None
        };
        DrawTrophyValues { high_score, trophy, next }
    }
}

/// With thresholds that get stricter from bronze to author, a record that
/// earns a trophy has no next trophy below it: the next one to aim for is
/// better than the one earned.
pub proof fn law_next_trophy_is_better(high_score: int, v: TrophyValues)
    requires
        high_score >= 0,
        0 <= v.author <= v.gold <= v.silver <= v.bronze,
    ensures
        spec_trophy(high_score, v) is Some <==> high_score <= v.bronze,
        spec_next_trophy(high_score, v) is None <==> high_score <= v.author,
        spec_trophy(high_score, v) == Some(Trophy::Author) ==> spec_next_trophy(high_score, v) is None,
        spec_trophy(high_score, v) == Some(Trophy::Gold) ==> spec_next_trophy(high_score, v) == Some(
            (Trophy::Author, v.author),
        ),
        spec_trophy(high_score, v) == Some(Trophy::Silver) ==> spec_next_trophy(high_score, v) == Some(
            (Trophy::Gold, v.gold),
        ),
        spec_trophy(high_score, v) == Some(Trophy::Bronze) ==> spec_next_trophy(high_score, v) == Some(
            (Trophy::Silver, v.silver),
        ),
{
}

/// What the trophy panel of a level shows: the level, the attempts made,
/// and the time and steps records with their trophies.
pub struct DrawTrophies {
    pub level_number: i32,
    pub level_name: String,
    pub attempts: i32,
    pub tick: DrawTrophyValues,
    pub steps: DrawTrophyValues,
}

/// The entry of `v` for a level number, or `missing` when there is none.
pub open spec fn level_value(v: Seq<i32>, level_number: int, missing: i32) -> i32 {
    match level_slot(level_number, v.len()) {
        Some(i) => v[i],
        None => missing,
    }
}

impl DrawTrophies {
    /// The trophy panel of level `level_number`, described by `level`.
    pub fn new(level_number: i32, level: &LevelEntry, save_data: &SaveData) -> (r: DrawTrophies)
        requires
            level_number > i32::MIN,
        ensures
            r.level_number == level_number,
            r.level_name@ == level.name@,
            r.attempts == level_value(save_data.high_scores.attempts@, level_number as int, 0),
            r.tick.high_score == level_value(save_data.high_scores.ticks@, level_number as int, -1i32),
            r.steps.high_score == level_value(save_data.high_scores.steps@, level_number as int, -1i32),
            match level.trophies {
                None => r.tick.trophy is None && r.tick.next is None && r.steps.trophy is None
                    && r.steps.next is None,
                Some(t) => {
                    &&& r.tick.trophy == spec_trophy(r.tick.high_score as int, t.ticks)
                    &&& r.tick.next == spec_next_trophy(r.tick.high_score as int, t.ticks)
                    &&& r.steps.trophy == spec_trophy(r.steps.high_score as int, t.steps)
                    &&& r.steps.next == spec_next_trophy(r.steps.high_score as int, t.steps)
                },
            },
    {
        let tick_high_score = save_data.get_time_high_score(level_number);
        let steps_high_score = save_data.get_steps_high_score(level_number);
        let tick_values = match &level.trophies {
            Some(t) => Some(&t.ticks),
            None => None,
        };
        let steps_values = match &level.trophies {
            Some(t) => Some(&t.steps),
            None => None,
        };
        let attempts = save_data.get_attempts(level_number);
        DrawTrophies {
            level_number,
            level_name: level.name.clone(),
            attempts,
            tick: DrawTrophyValues::new(tick_high_score, tick_values),
            steps: DrawTrophyValues::new(steps_high_score, steps_values),
        }
    }
}

/// The title block of a level: its number, its name and a line under them.
pub struct DrawPlayTitle {
    pub level_number: i32,
    pub level_name: String,
    pub subtitle: Option<String>,
}

/// The lines of a title block: `~ Level <number> ~`, the name in yellow,
/// and the line under them if there is one.
pub open spec fn play_title_lines(level_number: i32, level_name: Seq<char>, subtitle: Option<Seq<char>>) -> Seq<Seq<char>> {
    let head = seq![
        "~ Level "@ + signed_decimal(level_number as int) + " ~"@,
        "\x1b[color=#ff0]"@ + level_name,
    ];
    match subtitle {
        Some(s) => head.push(s),
        None => head,
    }
}

impl DrawPlayTitle {
    /// The lines of the title block.
    pub fn lines(&self) -> (r: Vec<String>)
        ensures
            r@.map_values(|l: String| l@) == play_title_lines(
                self.level_number,
                self.level_name@,
                match self.subtitle {
                    Some(s) => Some(s@),
                    None => None,
                },
            ),
    {
        let mut first = String::from_str("~ Level ");
        push_int(&mut first, self.level_number);
        first.append(" ~");
        let mut second = String::from_str("\x1b[color=#ff0]");
        second.append(self.level_name.as_str());
        let mut r: Vec<String> = Vec::new();
        r.push(first);
        r.push(second);
        match &self.subtitle {
            Some(s) => {
                r.push(s.clone());
            },
            None => {},
        }
        assert(r@.map_values(|l: String| l@) =~= play_title_lines(
            self.level_number,
            self.level_name@,
            match self.subtitle {
                Some(s) => Some(s@),
                None => None,
            },
        ));
        r
    }
}

/// A column of menu entries with the chosen one highlighted.
pub struct DrawMenuItems {
    pub items_text: Vec<String>,
    pub selected_index: usize,
}

impl DrawMenuItems {
    /// Brightness of entry `i`: full for the chosen entry, half for the
    /// others.
    pub fn item_brightness(&self, i: usize) -> (r: u8)
        ensures
            r == if i == self.selected_index { 255u8 } else { 128u8 },
    {
        if i == self.selected_index { 255 } else { 128 }
    }
}

} // verus!
