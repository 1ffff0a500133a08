use vstd::prelude::*;
use crate::play::lvsets::LevelSet;

verus! {

/// Scores of one completed play of a level.
#[derive(Copy, Clone, Debug, PartialEq, Eq, Structural)]
pub struct Scores {
    pub ticks: i32,
    pub steps: i32,
}

/// Per level records: best time (ticks), least steps (negative when there is
/// no record) and the number of attempts.
pub struct HighScores {
    pub ticks: Vec<i32>,
    pub steps: Vec<i32>,
    pub attempts: Vec<i32>,
}

/// Player options kept with the save data.
#[derive(Copy, Clone, Debug, PartialEq, Eq, Structural)]
pub struct OptionsDto {
    pub background_music: bool,
    pub sound_effects: bool,
    pub perspective: bool,
    pub assist_mode: bool,
    pub step_mode: bool,
    pub auto_save_replay: bool,
    pub speedrun_mode: bool,
    pub developer_mode: bool,
}

impl Default for OptionsDto {
    /// Every option off.
    fn default() -> (r: OptionsDto)
        ensures
            r == default_options(),
    {
        OptionsDto {
            background_music: false,
            sound_effects: false,
            perspective: false,
            assist_mode: false,
            step_mode: false,
            auto_save_replay: false,
            speedrun_mode: false,
            developer_mode: false,
        }
    }
}

/// Every option off.
pub open spec fn default_options() -> OptionsDto {
    OptionsDto {
        background_music: false,
        sound_effects: false,
        perspective: false,
        assist_mode: false,
        step_mode: false,
        auto_save_replay: false,
        speedrun_mode: false,
        developer_mode: false,
    }
}

/// How far the player has come with a level.
#[derive(Copy, Clone, Debug, PartialEq, Eq, Structural)]
pub enum LevelProgress {
    Locked,
    Unlocked,
    Completed,
}

/// Records of a save file, keyed by level name.
pub struct HighScoresDto {
    pub ticks: Vec<(String, i32)>,
    pub steps: Vec<(String, i32)>,
    pub attempts: Vec<(String, i32)>,
}

/// The save file of a level set: levels are named, not numbered.
pub struct SaveFileDto {
    pub current_level: Option<String>,
    pub unlocked_levels: Vec<String>,
    pub completed_levels: Vec<String>,
    pub high_scores: HighScoresDto,
    pub options: OptionsDto,
}

/// Progress of the player through the selected level set.
pub struct SaveData {
    pub current_level: i32,
    pub unlocked_levels: Vec<bool>,
    pub completed_levels: Vec<bool>,
    pub high_scores: HighScores,
    pub show_hidden_levels: bool,
    pub segmented_speedrun: bool,
    pub options: OptionsDto,
}

/// The 0-based index of level `level_number` in a list of `len` levels, if
/// the level is in the list.
pub open spec fn level_slot(level_number: int, len: nat) -> Option<int> {
    if 1 <= level_number <= len {
        Some(level_number - 1)
    } else {
        None
    }
}

/// Sets the flag of level `level_number`, if it is in the list.
pub open spec fn set_flag(flags: Seq<bool>, level_number: int) -> Seq<bool> {
    match level_slot(level_number, flags.len()) {
        Some(i) => flags.update(i, true),
        None => flags,
    }
}

/// The record after a play scoring `score`: the score replaces a missing
/// (negative) or worse record.
pub open spec fn better_record(record: i32, score: i32) -> i32 {
    if record < 0 || record > score {
        score
    } else {
        record
    }
}

/// Records after a play of level `level_number` scoring `score`.
pub open spec fn record_score(records: Seq<i32>, level_number: int, score: i32) -> Seq<i32> {
    match level_slot(level_number, records.len()) {
        Some(i) => records.update(i, better_record(records[i], score)),
        None => records,
    }
}

/// Current level after unlocking `level_number`: it becomes the current
/// level when it is in the list.
pub open spec fn unlock_current(current: int, level_number: int, len: nat) -> int {
    match level_slot(level_number, len) {
        Some(_) => level_number,
        None => current,
    }
}

/// Names of the first `k` levels whose flag is set, in order.
pub open spec fn flagged_names(flags: Seq<bool>, names: Seq<Seq<char>>, k: nat) -> Seq<Seq<char>>
    decreases k,
{
    if k == 0 {
        Seq::empty()
    } else {
        let prev = flagged_names(flags, names, (k - 1) as nat);
        if flags[k - 1] {
            prev.push(names[k - 1])
        } else {
            prev
        }
    }
}

/// Names and values of the first `k` records that are at least `min`, in
/// level order.
pub open spec fn kept_records(values: Seq<i32>, names: Seq<Seq<char>>, min: i32, k: nat) -> Seq<(Seq<char>, i32)>
    decreases k,
{
    if k == 0 {
        Seq::empty()
    } else {
        let prev = kept_records(values, names, min, (k - 1) as nat);
        if values[k - 1] >= min {
            prev.push((names[k - 1], values[k - 1]))
        } else {
            prev
        }
    }
}

/// Flags after setting the flag of each named level, in turn.
pub open spec fn apply_names(flags: Seq<bool>, list: Seq<Seq<char>>, names: Seq<Seq<char>>) -> Seq<bool>
    decreases list.len(),
{
    if list.len() == 0 {
        flags
    } else {
        let prev = apply_names(flags, list.drop_last(), names);
        match names.index_of_first(list.last()) {
            Some(i) => if i < prev.len() { prev.update(i, true) } else { prev },
            None => prev,
        }
    }
}

/// Records after storing each named record, in turn.
pub open spec fn apply_records(records: Seq<i32>, list: Seq<(Seq<char>, i32)>, names: Seq<Seq<char>>) -> Seq<i32>
    decreases list.len(),
{
    if list.len() == 0 {
        records
    } else {
        let prev = apply_records(records, list.drop_last(), names);
        match names.index_of_first(list.last().0) {
            Some(i) => if i < prev.len() { prev.update(i, list.last().1) } else { prev },
            None => prev,
        }
    }
}

/// The view of a list of strings.
pub open spec fn string_views(v: Seq<String>) -> Seq<Seq<char>> {
    v.map_values(|s: String| s@)
}

/// The view of a list of named records.
pub open spec fn record_views(v: Seq<(String, i32)>) -> Seq<(Seq<char>, i32)> {
    v.map_values(|e: (String, i32)| (e.0@, e.1))
}

/// Flags of a freshly started level set: only the first level is set.
pub open spec fn fresh_flags(n: nat, first: bool) -> Seq<bool> {
    Seq::new(n, |i: int| i == 0 && first)
}

impl SaveData {
    /// Every per level list has one entry for each of `n` levels.
    pub open spec fn sized(&self, n: nat) -> bool {
        &&& self.unlocked_levels@.len() == n
        &&& self.completed_levels@.len() == n
        &&& self.high_scores.ticks@.len() == n
        &&& self.high_scores.steps@.len() == n
        &&& self.high_scores.attempts@.len() == n
    }

    /// Unlocks the level and sets it as the current level.
    ///
    /// When the previous level was completed or if the correct level password was entered.
    pub fn unlock_level(&mut self, level_number: i32)
        requires
            level_number > i32::MIN,
        ensures
            final(self).unlocked_levels@ == set_flag(old(self).unlocked_levels@, level_number as int),
            final(self).current_level == unlock_current(
                old(self).current_level as int,
                level_number as int,
                old(self).unlocked_levels@.len(),
            ),
            final(self).completed_levels@ == old(self).completed_levels@,
            final(self).high_scores.ticks@ == old(self).high_scores.ticks@,
            final(self).high_scores.steps@ == old(self).high_scores.steps@,
            final(self).high_scores.attempts@ == old(self).high_scores.attempts@,
            final(self).show_hidden_levels == old(self).show_hidden_levels,
            final(self).segmented_speedrun == old(self).segmented_speedrun,
            final(self).options == old(self).options,
    {
        if 1 <= level_number && ((level_number - 1) as usize) < self.unlocked_levels.len() {
            let level_index = (level_number - 1) as usize;
            self.unlocked_levels.set(level_index, true);
            self.current_level = level_number;
        }
    }

    /// Completes the level, unlocks the next level and saves the scores.
    pub fn complete_level(&mut self, level_number: i32, scores: Option<Scores>)
        requires
            i32::MIN < level_number <= i32::MAX - 2,
        ensures
            final(self).completed_levels@ == set_flag(old(self).completed_levels@, level_number as int),
            final(self).unlocked_levels@ == set_flag(
                set_flag(old(self).unlocked_levels@, level_number + 2),
                level_number + 1,
            ),
            final(self).current_level == unlock_current(
                unlock_current(
                    old(self).current_level as int,
                    level_number + 2,
                    old(self).unlocked_levels@.len(),
                ),
                level_number + 1,
                old(self).unlocked_levels@.len(),
            ),
            final(self).high_scores.ticks@ == match scores {
                Some(s) => record_score(old(self).high_scores.ticks@, level_number as int, s.ticks),
                None => old(self).high_scores.ticks@,
            },
            final(self).high_scores.steps@ == match scores {
                Some(s) => record_score(old(self).high_scores.steps@, level_number as int, s.steps),
                None => old(self).high_scores.steps@,
            },
            final(self).high_scores.attempts@ == old(self).high_scores.attempts@,
            final(self).show_hidden_levels == old(self).show_hidden_levels,
            final(self).segmented_speedrun == old(self).segmented_speedrun,
            final(self).options == old(self).options,
    {
        if 1 <= level_number && ((level_number - 1) as usize) < self.completed_levels.len() {
            let level_index = (level_number - 1) as usize;
            self.completed_levels.set(level_index, true);
        }

        // Allow skipping up to one level
        self.unlock_level(level_number + 2);
        self.unlock_level(level_number + 1);

        // Save high scores if enabled
        if let Some(scores) = scores {
            if 1 <= level_number && ((level_number - 1) as usize) < self.high_scores.ticks.len() {
                let level_index = (level_number - 1) as usize;
                let entry = self.high_scores.ticks[level_index];
                if entry < 0 || entry > scores.ticks {
                    self.high_scores.ticks.set(level_index, scores.ticks);
                }
            }
            if 1 <= level_number && ((level_number - 1) as usize) < self.high_scores.steps.len() {
                let level_index = (level_number - 1) as usize;
                let entry = self.high_scores.steps[level_index];
                if entry < 0 || entry > scores.steps {
                    self.high_scores.steps.set(level_index, scores.steps);
                }
            }
        }
    }

    /// Increases and returns the current attempt for this level.
    pub fn increase_level_attempts(&mut self) -> (r: i32)
        requires
            old(self).current_level > i32::MIN,
            match level_slot(old(self).current_level as int, old(self).high_scores.attempts@.len()) {
                Some(i) => old(self).high_scores.attempts@[i] < i32::MAX,
                None => true,
            },
        ensures
            match level_slot(old(self).current_level as int, old(self).high_scores.attempts@.len()) {
                Some(i) => {
                    &&& r == old(self).high_scores.attempts@[i] + 1
                    &&& final(self).high_scores.attempts@ == old(self).high_scores.attempts@.update(i, r)
                },
                None => {
                    &&& r == 0
                    &&& final(self).high_scores.attempts@ == old(self).high_scores.attempts@
                },
            },
            final(self).current_level == old(self).current_level,
            final(self).unlocked_levels@ == old(self).unlocked_levels@,
            final(self).completed_levels@ == old(self).completed_levels@,
            final(self).high_scores.ticks@ == old(self).high_scores.ticks@,
            final(self).high_scores.steps@ == old(self).high_scores.steps@,
            final(self).show_hidden_levels == old(self).show_hidden_levels,
            final(self).segmented_speedrun == old(self).segmented_speedrun,
            final(self).options == old(self).options,
    {
        let current_level = self.current_level;
        if 1 <= current_level && ((current_level - 1) as usize) < self.high_scores.attempts.len() {
            let level_index = (current_level - 1) as usize;
            let attempts = self.high_scores.attempts[level_index] + 1;
            self.high_scores.attempts.set(level_index, attempts);
            attempts
        } else {
            0
        }
    }

    /// Progress of a level; hidden levels are reported only when hidden
    /// levels are shown.
    pub fn get_level_progress(&self, level_number: i32) -> (r: Option<LevelProgress>)
        requires
            level_number > i32::MIN,
        ensures
            r == (if level_slot(level_number as int, self.completed_levels@.len()) matches Some(i)
                && self.completed_levels@[i] {
                Some(LevelProgress::Completed)
            } else if level_slot(level_number as int, self.unlocked_levels@.len()) matches Some(i)
                && self.unlocked_levels@[i] {
                Some(LevelProgress::Unlocked)
            } else if self.show_hidden_levels {
                Some(LevelProgress::Locked)
            } else {
                None
            }),
    {
        if 1 <= level_number && ((level_number - 1) as usize) < self.completed_levels.len()
            && self.completed_levels[(level_number - 1) as usize] {
            return Some(LevelProgress::Completed);
        }
        if 1 <= level_number && ((level_number - 1) as usize) < self.unlocked_levels.len()
            && self.unlocked_levels[(level_number - 1) as usize] {
            return Some(LevelProgress::Unlocked);
        }
        if self.show_hidden_levels {
            return Some(LevelProgress::Locked);
        }
        None
    }

    /// Best time of a level, or `-1` without a record.
    pub fn get_time_high_score(&self, level_number: i32) -> (r: i32)
        requires
            level_number > i32::MIN,
        ensures
            r == match level_slot(level_number as int, self.high_scores.ticks@.len()) {
                Some(i) => self.high_scores.ticks@[i],
                None => -1i32,
            },
    {
        if 1 <= level_number && ((level_number - 1) as usize) < self.high_scores.ticks.len() {
            self.high_scores.ticks[(level_number - 1) as usize]
        } else {
            -1
        }
    }

    /// Least steps of a level, or `-1` without a record.
    pub fn get_steps_high_score(&self, level_number: i32) -> (r: i32)
        requires
            level_number > i32::MIN,
        ensures
            r == match level_slot(level_number as int, self.high_scores.steps@.len()) {
                Some(i) => self.high_scores.steps@[i],
                None => -1i32,
            },
    {
        if 1 <= level_number && ((level_number - 1) as usize) < self.high_scores.steps.len() {
            self.high_scores.steps[(level_number - 1) as usize]
        } else {
            -1
        }
    }

    /// Attempts made at a level, or `0` when the level is unknown.
    pub fn get_attempts(&self, level_number: i32) -> (r: i32)
        requires
            level_number > i32::MIN,
        ensures
            r == match level_slot(level_number as int, self.high_scores.attempts@.len()) {
                Some(i) => self.high_scores.attempts@[i],
                None => 0,
            },
    {
        if 1 <= level_number && ((level_number - 1) as usize) < self.high_scores.attempts.len() {
            self.high_scores.attempts[(level_number - 1) as usize]
        } else {
            0
        }
    }
}

/// The save data read for `level_set` from a save file (`None`: no file):
/// sized for the set, with the file's levels and records found by name;
/// without a file the first levels are open and nothing else is done.
pub open spec fn loaded_from(level_set: &LevelSet, dto: Option<&SaveFileDto>, r: SaveData) -> bool {
    &&& r.sized(level_set.levels@.len())
    &&& !r.show_hidden_levels
    &&& !r.segmented_speedrun
    &&& match dto {
        None => {
            &&& r.current_level == 0
            &&& r.options == default_options()
            &&& r.unlocked_levels@ == fresh_flags(level_set.levels@.len(), true)
            &&& r.completed_levels@ == fresh_flags(level_set.levels@.len(), false)
            &&& r.high_scores.ticks@ == Seq::new(level_set.levels@.len(), |i: int| -1i32)
            &&& r.high_scores.steps@ == Seq::new(level_set.levels@.len(), |i: int| -1i32)
            &&& r.high_scores.attempts@ == Seq::new(level_set.levels@.len(), |i: int| 0i32)
        },
        Some(d) => {
            &&& r.current_level == match d.current_level {
                Some(name) => match level_set.level_names().index_of_first(name@) {
                    Some(i) => i + 1,
                    None => 0,
                },
                None => 0,
            }
            &&& r.options == d.options
            &&& r.unlocked_levels@ == apply_names(
                fresh_flags(level_set.levels@.len(), true),
                string_views(d.unlocked_levels@),
                level_set.level_names(),
            )
            &&& r.completed_levels@ == apply_names(
                fresh_flags(level_set.levels@.len(), false),
                string_views(d.completed_levels@),
                level_set.level_names(),
            )
            &&& r.high_scores.ticks@ == apply_records(
                Seq::new(level_set.levels@.len(), |i: int| -1i32),
                record_views(d.high_scores.ticks@),
                level_set.level_names(),
            )
            &&& r.high_scores.steps@ == apply_records(
                Seq::new(level_set.levels@.len(), |i: int| -1i32),
                record_views(d.high_scores.steps@),
                level_set.level_names(),
            )
            &&& r.high_scores.attempts@ == apply_records(
                Seq::new(level_set.levels@.len(), |i: int| 0i32),
                record_views(d.high_scores.attempts@),
                level_set.level_names(),
            )
        },
    }
}

impl SaveData {
    /// The save file of this progress through `level_set`: levels are
    /// written by name, records only where there is one (non-negative times
    /// and steps, positive attempts).
    pub fn save_dto(&self, level_set: &LevelSet) -> (r: SaveFileDto)
        requires
            self.current_level > i32::MIN,
            self.unlocked_levels@.len() >= level_set.levels@.len(),
            self.completed_levels@.len() >= level_set.levels@.len(),
            forall|i: int| 0 <= i < self.high_scores.ticks@.len() && self.high_scores.ticks@[i] >= 0
                ==> i < level_set.levels@.len(),
            forall|i: int| 0 <= i < self.high_scores.steps@.len() && self.high_scores.steps@[i] >= 0
                ==> i < level_set.levels@.len(),
            forall|i: int| 0 <= i < self.high_scores.attempts@.len() && self.high_scores.attempts@[i] >= 1
                ==> i < level_set.levels@.len(),
        ensures
            match level_slot(self.current_level as int, level_set.levels@.len()) {
                Some(i) => r.current_level matches Some(name) && name@ == level_set.level_names()[i],
                None => r.current_level is None,
            },
            string_views(r.unlocked_levels@) == flagged_names(
                self.unlocked_levels@,
                level_set.level_names(),
                level_set.levels@.len(),
            ),
            string_views(r.completed_levels@) == flagged_names(
                self.completed_levels@,
                level_set.level_names(),
                level_set.levels@.len(),
            ),
            record_views(r.high_scores.ticks@) == kept_records(
                self.high_scores.ticks@,
                level_set.level_names(),
                0,
                self.high_scores.ticks@.len(),
            ),
            record_views(r.high_scores.steps@) == kept_records(
                self.high_scores.steps@,
                level_set.level_names(),
                0,
                self.high_scores.steps@.len(),
            ),
            record_views(r.high_scores.attempts@) == kept_records(
                self.high_scores.attempts@,
                level_set.level_names(),
                1,
                self.high_scores.attempts@.len(),
            ),
            r.options == self.options,
    {
        let ghost names = level_set.level_names();
        let n = level_set.levels.len();
        let current_level = if 1 <= self.current_level && ((self.current_level - 1) as usize) < n {
            Some(level_set.levels[(self.current_level - 1) as usize].name.clone())
        } else {
            None
        };
        let unlocked_levels = flagged_level_names(level_set, &self.unlocked_levels);
        let completed_levels = flagged_level_names(level_set, &self.completed_levels);
        let ticks = kept_level_records(level_set, &self.high_scores.ticks, 0);
        let steps = kept_level_records(level_set, &self.high_scores.steps, 0);
        let attempts = kept_level_records(level_set, &self.high_scores.attempts, 1);
        SaveFileDto {
            current_level,
            unlocked_levels,
            completed_levels,
            high_scores: HighScoresDto { ticks, steps, attempts },
            options: self.options,
        }
    }

    /// Progress through `level_set` restored from its save file; without a
    /// save file only the first level is unlocked and there are no records.
    pub fn load_refactored(level_set: &LevelSet, dto: Option<&SaveFileDto>) -> (r: SaveData)
        requires
            1 <= level_set.levels@.len() < i32::MAX,
        ensures
            loaded_from(level_set, dto, r),
    {
        let n = level_set.levels.len();
        let mut unlocked_levels = vec![false; n];
        unlocked_levels.set(0, true);
        let mut this = SaveData {
            current_level: 0,
            unlocked_levels,
            completed_levels: vec![false; n],
            high_scores: HighScores {
                ticks: vec![-1i32; n],
                steps: vec![-1i32; n],
                attempts: vec![0i32; n],
            },
            show_hidden_levels: false,
            segmented_speedrun: false,
            options: OptionsDto::default(),
        };
        assert(this.unlocked_levels@ == fresh_flags(n as nat, true));
        assert(this.completed_levels@ == fresh_flags(n as nat, false));
        assert(this.high_scores.ticks@ == Seq::new(n as nat, |i: int| -1i32));
        assert(this.high_scores.steps@ == Seq::new(n as nat, |i: int| -1i32));
        assert(this.high_scores.attempts@ == Seq::new(n as nat, |i: int| 0i32));

        let dto = match dto {
            Some(dto) => dto,
            None => return this,
        };

        if let Some(current_level) = &dto.current_level {
            if let Some(level_number) = level_set.get_level_number(current_level) {
                this.current_level = level_number;
            }
        }

        this.options = dto.options;

        load_level_names(level_set, &dto.unlocked_levels, &mut this.unlocked_levels);
        load_level_names(level_set, &dto.completed_levels, &mut this.completed_levels);
        load_high_scores(level_set, &dto.high_scores.ticks, &mut this.high_scores.ticks);
        load_high_scores(level_set, &dto.high_scores.steps, &mut this.high_scores.steps);
        load_high_scores(level_set, &dto.high_scores.attempts, &mut this.high_scores.attempts);

        this
    }
}

/// Names of the levels whose flag is set, in level order.
fn flagged_level_names(level_set: &LevelSet, flags: &Vec<bool>) -> (r: Vec<String>)
    requires
        flags@.len() >= level_set.levels@.len(),
    ensures
        string_views(r@) == flagged_names(flags@, level_set.level_names(), level_set.levels@.len()),
{
    let ghost names = level_set.level_names();
    let mut r: Vec<String> = Vec::new();
    let mut i: usize = 0;
    while i < level_set.levels.len()
        invariant
            i <= level_set.levels@.len(),
            flags@.len() >= level_set.levels@.len(),
            names == level_set.level_names(),
            string_views(r@) == flagged_names(flags@, names, i as nat),
        decreases level_set.levels@.len() - i,
    {
        let ghost prev = r@;
        if flags[i] {
            r.push(level_set.levels[i].name.clone());
            assert(string_views(r@) =~= string_views(prev).push(names[i as int]));
        }
        i += 1;
    }
    r
}

/// Names and values of the records that are at least `min`, in level order.
fn kept_level_records(level_set: &LevelSet, values: &Vec<i32>, min: i32) -> (r: Vec<(String, i32)>)
    requires
        forall|i: int| 0 <= i < values@.len() && values@[i] >= min ==> i < level_set.levels@.len(),
    ensures
        record_views(r@) == kept_records(values@, level_set.level_names(), min, values@.len()),
{
    let ghost names = level_set.level_names();
    let mut r: Vec<(String, i32)> = Vec::new();
    let mut i: usize = 0;
    while i < values.len()
        invariant
            i <= values@.len(),
            forall|j: int| 0 <= j < values@.len() && values@[j] >= min ==> j < level_set.levels@.len(),
            names == level_set.level_names(),
            record_views(r@) == kept_records(values@, names, min, i as nat),
        decreases values@.len() - i,
    {
        let ghost prev = r@;
        let v = values[i];
        if v >= min {
            r.push((level_set.levels[i].name.clone(), v));
            assert(record_views(r@) =~= record_views(prev).push((names[i as int], v)));
        }
        i += 1;
    }
    r
}

/// Sets the flag of each named level of `list`, in turn.
fn load_level_names(level_set: &LevelSet, list: &Vec<String>, flags: &mut Vec<bool>)
    requires
        old(flags)@.len() == level_set.levels@.len(),
    ensures
        final(flags)@ == apply_names(old(flags)@, string_views(list@), level_set.level_names()),
        final(flags)@.len() == old(flags)@.len(),
{
    let ghost names = level_set.level_names();
    let ghost init = flags@;
    let mut k: usize = 0;
    while k < list.len()
        invariant
            k <= list@.len(),
            names == level_set.level_names(),
            init.len() == level_set.levels@.len(),
            flags@ == apply_names(init, string_views(list@).take(k as int), names),
            flags@.len() == init.len(),
        decreases list@.len() - k,
    {
        let ghost views = string_views(list@);
        assert(views.take(k + 1).drop_last() =~= views.take(k as int));
        assert(views.take(k + 1).last() == list@[k as int]@);
        if let Some(i) = level_set.get_level_index(&list[k]) {
            flags.set(i, true);
        }
        k += 1;
    }
    assert(string_views(list@).take(list@.len() as int) =~= string_views(list@));
}

/// Stores each named record of `saved_data`, in turn.
fn load_high_scores(level_set: &LevelSet, saved_data: &Vec<(String, i32)>, scores: &mut Vec<i32>)
    requires
        old(scores)@.len() == level_set.levels@.len(),
    ensures
        final(scores)@ == apply_records(old(scores)@, record_views(saved_data@), level_set.level_names()),
        final(scores)@.len() == old(scores)@.len(),
{
    let ghost names = level_set.level_names();
    let ghost init = scores@;
    let mut k: usize = 0;
    while k < saved_data.len()
        invariant
            k <= saved_data@.len(),
            names == level_set.level_names(),
            init.len() == level_set.levels@.len(),
            scores@ == apply_records(init, record_views(saved_data@).take(k as int), names),
            scores@.len() == init.len(),
        decreases saved_data@.len() - k,
    {
        let ghost views = record_views(saved_data@);
        assert(views.take(k + 1).drop_last() =~= views.take(k as int));
        assert(views.take(k + 1).last() == (saved_data@[k as int].0@, saved_data@[k as int].1));
        let entry = &saved_data[k];
        if let Some(i) = level_set.get_level_index(&entry.0) {
            scores.set(i, entry.1);
        }
        k += 1;
    }
    assert(record_views(saved_data@).take(saved_data@.len() as int) =~= record_views(saved_data@));
}

/// No two levels share a name.
pub open spec fn distinct_names(names: Seq<Seq<char>>) -> bool {
    forall|i: int, j: int| 0 <= i < names.len() && 0 <= j < names.len() && i != j ==> names[i] != names[j]
}

proof fn lemma_index_of_distinct(names: Seq<Seq<char>>, k: int)
    requires
        distinct_names(names),
        0 <= k < names.len(),
    ensures
        names.index_of_first(names[k]) == Some(k),
{
    names.index_of_first_ensures(names[k]);
    assert(names.contains(names[k]));
}

proof fn lemma_apply_flagged(init: Seq<bool>, flags: Seq<bool>, names: Seq<Seq<char>>, k: nat)
    requires
        distinct_names(names),
        init.len() == names.len(),
        flags.len() == names.len(),
        k <= names.len(),
    ensures
        apply_names(init, flagged_names(flags, names, k), names)
            == Seq::new(init.len(), |i: int| init[i] || (i < k && flags[i])),
    decreases k,
{
    if k == 0 {
        assert(apply_names(init, flagged_names(flags, names, k), names) =~= Seq::new(
            init.len(),
            |i: int| init[i] || (i < k && flags[i]),
        ));
    } else {
        let k1 = (k - 1) as nat;
        lemma_apply_flagged(init, flags, names, k1);
        let prev = flagged_names(flags, names, k1);
        if flags[k1 as int] {
            lemma_index_of_distinct(names, k1 as int);
            assert(prev.push(names[k1 as int]).drop_last() =~= prev);
        }
        assert(apply_names(init, flagged_names(flags, names, k), names) =~= Seq::new(
            init.len(),
            |i: int| init[i] || (i < k && flags[i]),
        ));
    }
}

proof fn lemma_apply_kept(init: Seq<i32>, values: Seq<i32>, names: Seq<Seq<char>>, min: i32, k: nat)
    requires
        distinct_names(names),
        init.len() == names.len(),
        values.len() == names.len(),
        k <= names.len(),
    ensures
        apply_records(init, kept_records(values, names, min, k), names)
            == Seq::new(init.len(), |i: int| if i < k && values[i] >= min { values[i] } else { init[i] }),
    decreases k,
{
    if k == 0 {
        assert(apply_records(init, kept_records(values, names, min, k), names) =~= Seq::new(
            init.len(),
            |i: int| if i < k && values[i] >= min { values[i] } else { init[i] },
        ));
    } else {
        let k1 = (k - 1) as nat;
        lemma_apply_kept(init, values, names, min, k1);
        let prev = kept_records(values, names, min, k1);
        if values[k1 as int] >= min {
            lemma_index_of_distinct(names, k1 as int);
            assert(prev.push((names[k1 as int], values[k1 as int])).drop_last() =~= prev);
        }
        assert(apply_records(init, kept_records(values, names, min, k), names) =~= Seq::new(
            init.len(),
            |i: int| if i < k && values[i] >= min { values[i] } else { init[i] },
        ));
    }
}

/// Saving and loading gives back the progress: with distinct level names,
/// the unlocked and completed levels, the records and the current level
/// read from a save file equal those it was written from (the first level
/// is always unlocked, a missing record reads as `-1` time or steps and `0`
/// attempts, and a current level outside the set reads as `0`).
pub proof fn law_save_then_load(
    names: Seq<Seq<char>>,
    current_level: int,
    unlocked: Seq<bool>,
    completed: Seq<bool>,
    ticks: Seq<i32>,
    steps: Seq<i32>,
    attempts: Seq<i32>,
)
    requires
        distinct_names(names),
        names.len() >= 1,
        unlocked.len() == names.len(),
        completed.len() == names.len(),
        ticks.len() == names.len(),
        steps.len() == names.len(),
        attempts.len() == names.len(),
        unlocked[0],
        0 <= current_level <= names.len(),
        forall|i: int| 0 <= i < names.len() ==> ticks[i] >= -1 && steps[i] >= -1 && attempts[i] >= 0,
    ensures
        apply_names(fresh_flags(names.len(), true), flagged_names(unlocked, names, names.len()), names)
            == unlocked,
        apply_names(fresh_flags(names.len(), false), flagged_names(completed, names, names.len()), names)
            == completed,
        apply_records(Seq::new(names.len(), |i: int| -1i32), kept_records(ticks, names, 0, names.len()), names)
            == ticks,
        apply_records(Seq::new(names.len(), |i: int| -1i32), kept_records(steps, names, 0, names.len()), names)
            == steps,
        apply_records(Seq::new(names.len(), |i: int| 0i32), kept_records(attempts, names, 1, names.len()), names)
            == attempts,
        match level_slot(current_level, names.len()) {
            Some(i) => names.index_of_first(names[i]) == Some(current_level - 1),
            None => current_level == 0,
        },
{
    let n = names.len();
    lemma_apply_flagged(fresh_flags(n, true), unlocked, names, n);
    lemma_apply_flagged(fresh_flags(n, false), completed, names, n);
    lemma_apply_kept(Seq::new(n, |i: int| -1i32), ticks, names, 0, n);
    lemma_apply_kept(Seq::new(n, |i: int| -1i32), steps, names, 0, n);
    lemma_apply_kept(Seq::new(n, |i: int| 0i32), attempts, names, 1, n);
    assert(Seq::new(n, |i: int| fresh_flags(n, true)[i] || (i < n && unlocked[i])) =~= unlocked);
    assert(Seq::new(n, |i: int| fresh_flags(n, false)[i] || (i < n && completed[i])) =~= completed);
    assert(Seq::new(n, |i: int| if i < n && ticks[i] >= 0 { ticks[i] } else { Seq::new(n, |i: int| -1i32)[i] }) =~= ticks);
    assert(Seq::new(n, |i: int| if i < n && steps[i] >= 0 { steps[i] } else { Seq::new(n, |i: int| -1i32)[i] }) =~= steps);
    assert(Seq::new(n, |i: int| if i < n && attempts[i] >= 1 { attempts[i] } else { Seq::new(n, |i: int| 0i32)[i] }) =~= attempts);
    if 1 <= current_level <= n {
        lemma_index_of_distinct(names, current_level - 1);
    }
}

/// Completing, unlocking and counting attempts never lose progress: a level
/// that was unlocked or completed stays so, and the lists keep their length.
pub proof fn law_progress_is_kept(flags: Seq<bool>, level_number: int)
    ensures
        set_flag(flags, level_number).len() == flags.len(),
        forall|i: int| 0 <= i < flags.len() && flags[i] ==> set_flag(flags, level_number)[i],
        level_slot(level_number, flags.len()) matches Some(i) ==> set_flag(flags, level_number)[i],
{
}

/// Records only improve: a play scoring `score` leaves a record that is no
/// worse than before and no worse than the score, and other levels' records
/// unchanged.
pub proof fn law_records_only_improve(records: Seq<i32>, level_number: int, score: i32)
    requires
        score >= 0,
    ensures
        record_score(records, level_number, score).len() == records.len(),
        forall|i: int| 0 <= i < records.len() && level_slot(level_number, records.len()) != Some(i)
            ==> record_score(records, level_number, score)[i] == records[i],
        level_slot(level_number, records.len()) matches Some(i) ==> {
            let r = record_score(records, level_number, score)[i];
            &&& 0 <= r <= score
            &&& records[i] >= 0 ==> r <= records[i]
        },
{
}

/// Completing a level unlocks the next one and makes it the current level,
/// when there is a next level.
pub proof fn law_complete_unlocks_next(unlocked: Seq<bool>, current: int, level_number: int)
    requires
        1 <= level_number < unlocked.len(),
    ensures
        set_flag(set_flag(unlocked, level_number + 2), level_number + 1)[level_number],
        unlock_current(unlock_current(current, level_number + 2, unlocked.len()), level_number + 1, unlocked.len())
            == level_number + 1,
{
}

} // verus!
