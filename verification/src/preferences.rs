//! The preferences of the user. Nothing takes effect in the shell before the
//! preference service has reported it as applied.

use crate::ports::{
    report_of, Base, EffectivePreference, PreferencePoll, PreferenceReads, PreferenceValue,
    ReportModel, ValueModel,
};
use crate::state::{
    Comfort, ComfortModel, DisplayPreference, PreferenceModel, Presentation, SessionStateModel,
    ShellCore, ShellModel,
};
use crate::text::{
    cat3, number_in, parse_number, same_text, signed_decimal, signed_text, trim_percent,
    without_percent, Text,
};
use vstd::prelude::*;
use vstd::string::*;

verus! {

broadcast use crate::state::group_state_models;

/// The size of the text, in percent, that a preference's text asks for: a
/// number from 100 to 200, and 100 for what is no number.
pub open spec fn scale_of(text: Text) -> int {
    match number_in(without_percent(text)) {
        Some(number) => if number < 100 {
            100
        } else if number > 200 {
            200
        } else {
            number as int
        },
        None => 100,
    }
}

/// Reads the size of the text.
pub fn read_scale(text: &str) -> (scale: u16)
    ensures
        scale == scale_of(text@),
        100 <= scale <= 200,
{
    match parse_number(trim_percent(text).as_str()) {
        Some(number) => if number < 100 {
            100
        } else if number > 200 {
            200
        } else {
            number
        },
        None => 100,
    }
}

/// The preferences in effect once one of them has a value. Motion is reduced
/// where the preference or the environment asks for it. A value of the wrong
/// type and an unknown preference change nothing.
#[verifier::opaque]
pub open spec fn comfort_with(comfort: ComfortModel, key: Text, value: ValueModel) -> ComfortModel {
    if key == "highContrast"@ {
        match value {
            ValueModel::Bool(on) => ComfortModel { high_contrast: on, ..comfort },
            _ => comfort,
        }
    } else if key == "reduceMotion"@ {
        match value {
            ValueModel::Bool(on) => ComfortModel {
                reduced_motion: comfort.env_reduced_motion || on,
                motion_ms: if comfort.env_reduced_motion || on {
                    0
                } else {
                    comfort.normal_motion_ms
                },
                ..comfort
            },
            _ => comfort,
        }
    } else if key == "reduceFlashing"@ {
        match value {
            ValueModel::Bool(on) => ComfortModel { reduce_flashing: on, ..comfort },
            _ => comfort,
        }
    } else if key == "textScale"@ {
        match value {
            ValueModel::Text(text) => ComfortModel { text_scale: scale_of(text), ..comfort },
            _ => comfort,
        }
    } else if key == "appearance"@ {
        match value {
            ValueModel::Text(text) => ComfortModel { appearance_day: text == "Day"@, ..comfort },
            _ => comfort,
        }
    } else {
        comfort
    }
}

/// The preferences with one more row shown: what the service reported, or the
/// default, and whether it can be changed.
pub open spec fn comfort_reading(
    comfort: ComfortModel,
    key: Text,
    label: Text,
    default: ValueModel,
    report: Option<ReportModel>,
) -> ComfortModel {
    let effective = match report {
        Some(report) => report.effective,
        None => default,
    };
    let row = PreferenceModel {
        key,
        label,
        effective,
        interactive: report matches Some(report) && report.applied,
    };
    let applied = comfort_with(comfort, key, effective);
    ComfortModel { display_preferences: applied.display_preferences.push(row), ..applied }
}

/// The preferences once the last of them, the appearance, is read.
pub open spec fn comfort_read(
    comfort: ComfortModel,
    appearance: Option<ReportModel>,
    first_run_complete: bool,
) -> ComfortModel {
    let applied = match appearance {
        Some(report) => comfort_with(comfort, "appearance"@, report.effective),
        None => comfort,
    };
    ComfortModel { first_run_complete, ..applied }
}

/// The place of the first row of a preference.
pub open spec fn row_place(rows: Seq<PreferenceModel>, key: Text, from: int) -> Option<int>
    decreases rows.len() - from,
{
    if from < 0 || from >= rows.len() {
        None
    } else if rows[from].key == key {
        Some(from)
    } else {
        row_place(rows, key, from + 1)
    }
}

pub proof fn lemma_row_place(rows: Seq<PreferenceModel>, key: Text, from: int)
    requires
        0 <= from,
    ensures
        row_place(rows, key, from) matches Some(place) ==> from <= place < rows.len()
            && rows[place].key == key,
    decreases rows.len() - from,
{
    if from < rows.len() && rows[from].key != key {
        lemma_row_place(rows, key, from + 1);
    }
}

/// The rows once a preference has a value that was applied.
pub open spec fn rows_with(rows: Seq<PreferenceModel>, key: Text, value: ValueModel) -> Seq<
    PreferenceModel,
> {
    match row_place(rows, key, 0) {
        Some(place) => rows.update(
            place,
            PreferenceModel { effective: value, interactive: true, ..rows[place] },
        ),
        None => rows,
    }
}

/// The model of what was read of a preference.
pub open spec fn read_model(read: Result<Option<EffectivePreference>, String>) -> Result<
    Option<ReportModel>,
    Text,
> {
    match read {
        Ok(report) => Ok(report_of(report)),
        Err(failure) => Err(failure@),
    }
}

impl ShellModel {
    /// The state with other preferences in effect.
    pub open spec fn with_comfort(self, comfort: ComfortModel) -> ShellModel {
        ShellModel { comfort, ..self }
    }

    /// The state once a preference was reported. Only an applied one counts.
    pub open spec fn with_preference(self, report: ReportModel) -> ShellModel {
        if !report.applied {
            self
        } else {
            let applied = comfort_with(self.comfort, report.key, report.effective);
            self.bumped().with_comfort(
                ComfortModel {
                    display_preferences: rows_with(
                        applied.display_preferences,
                        report.key,
                        report.effective,
                    ),
                    ..applied
                },
            )
        }
    }

    /// The state before the preferences are read.
    pub open spec fn before_reading(self) -> ShellModel {
        self.bumped().with_comfort(
            ComfortModel { display_preferences: Seq::empty(), ..self.comfort },
        )
    }

    /// The state with one more preference read.
    pub open spec fn reading(
        self,
        key: Text,
        label: Text,
        default: ValueModel,
        report: Option<ReportModel>,
    ) -> ShellModel {
        self.with_comfort(comfort_reading(self.comfort, key, label, default, report))
    }

    /// The state once all preferences are read: the first run is presented
    /// unless it was completed.
    pub open spec fn after_reading(
        self,
        appearance: Option<ReportModel>,
        first_run_complete: bool,
    ) -> ShellModel {
        let known = self.with_comfort(
            comfort_read(self.comfort, appearance, first_run_complete),
        );
        if first_run_complete {
            known
        } else {
            known.in_first_run()
        }
    }

    /// The state that presents the first run.
    pub open spec fn in_first_run(self) -> ShellModel {
        ShellModel {
            session: SessionStateModel { presentation: Presentation::FirstRun, ..self.session },
            ..self
        }.focusing(0)
    }

    /// The state after the preferences were read one after the other, up to the
    /// first that could not be read, and that failure.
    pub open spec fn loading_preferences(
        self,
        reads: PreferenceReads,
        first_run_complete: bool,
    ) -> (ShellModel, Result<(), Text>) {
        let before = self.before_reading();
        match read_model(reads.text_scale) {
            Err(failure) => (before, Err(failure)),
            Ok(text_scale) => {
                let first = before.reading(
                    "textScale"@,
                    "Text size"@,
                    ValueModel::Text("100%"@),
                    text_scale,
                );
                match read_model(reads.high_contrast) {
                    Err(failure) => (first, Err(failure)),
                    Ok(high_contrast) => {
                        let second = first.reading(
                            "highContrast"@,
                            "High contrast"@,
                            ValueModel::Bool(false),
                            high_contrast,
                        );
                        match read_model(reads.reduce_motion) {
                            Err(failure) => (second, Err(failure)),
                            Ok(reduce_motion) => {
                                let third = second.reading(
                                    "reduceMotion"@,
                                    "Reduce motion"@,
                                    ValueModel::Bool(false),
                                    reduce_motion,
                                );
                                match read_model(reads.reduce_flashing) {
                                    Err(failure) => (third, Err(failure)),
                                    Ok(reduce_flashing) => {
                                        let fourth = third.reading(
                                            "reduceFlashing"@,
                                            "Reduce flashing"@,
                                            ValueModel::Bool(false),
                                            reduce_flashing,
                                        );
                                        match read_model(reads.appearance) {
                                            Err(failure) => (fourth, Err(failure)),
                                            Ok(appearance) => (
                                                fourth.after_reading(
                                                    appearance,
                                                    first_run_complete,
                                                ),
                                                Ok(()),
                                            ),
                                        }
                                    },
                                }
                            },
                        }
                    },
                }
            },
        }
    }

    pub proof fn lemma_with_comfort_ok(self, comfort: ComfortModel)
        requires
            self.ok(),
            comfort.display_preferences.len() <= 4,
        ensures
            self.with_comfort(comfort).ok(),
    {
        reveal(ShellModel::ok);
    }

    pub proof fn lemma_preference_count(self)
        requires
            self.ok(),
        ensures
            self.comfort.display_preferences.len() <= 4,
    {
        reveal(ShellModel::ok);
    }

    pub proof fn lemma_in_first_run_ok(self)
        requires
            self.ok(),
        ensures
            self.in_first_run().ok(),
    {
        reveal(ShellModel::ok);
    }

    /// The palette: High Contrast comes before Day, and Day before Dusk.
    pub open spec fn base(self) -> Base {
        if self.comfort.high_contrast {
            Base::HighContrast
        } else if self.comfort.appearance_day {
            Base::Day
        } else {
            Base::Dusk
        }
    }
}

/// A report that was not applied changes nothing at all.
pub proof fn law_stored_preferences_take_no_effect(shell: ShellModel, report: ReportModel)
    requires
        !report.applied,
    ensures
        shell.with_preference(report) == shell,
{
}

/// While the environment asks for reduced motion, no preference brings motion
/// back.
pub proof fn law_environment_keeps_motion_reduced(
    comfort: ComfortModel,
    key: Text,
    value: ValueModel,
)
    requires
        comfort.env_reduced_motion,
        comfort.reduced_motion,
    ensures
        comfort_with(comfort, key, value).reduced_motion,
        comfort_with(comfort, key, value).env_reduced_motion,
{
    reveal(comfort_with);
}

/// The size of the text stays between 100 and 200 percent.
pub proof fn law_text_scale_stays_in_range(text: Text)
    ensures
        100 <= scale_of(text) <= 200,
{
}

/// Whether the shell paints by a preference.
pub open spec fn is_painted(key: Text) -> bool {
    key == "textScale"@ || key == "highContrast"@ || key == "reduceMotion"@ || key == "appearance"@
}

/// Whether the shell paints by a preference.
pub fn preference_is_applied(key: &str) -> (answer: bool)
    ensures
        answer == is_painted(key@),
{
    same_text(key, "textScale") || same_text(key, "highContrast") || same_text(key, "reduceMotion")
        || same_text(key, "appearance")
}

/// A preference's value in a sentence.
pub open spec fn spoken_value(value: ValueModel) -> Text {
    match value {
        ValueModel::Bool(on) => if on {
            "On"@
        } else {
            "Off"@
        },
        ValueModel::Text(text) => text,
        ValueModel::Integer(number) => signed_text(number),
    }
}

/// The label of a preference; it says where the shell does not paint by it.
pub open spec fn preference_words(row: PreferenceModel) -> Text {
    let plain = row.label + " · "@ + spoken_value(row.effective);
    if is_painted(row.key) {
        plain
    } else {
        plain + " · not applied on this build"@
    }
}

/// Labels a preference.
pub fn preference_label(row: &DisplayPreference) -> (label: String)
    ensures
        label@ == preference_words(row@),
{
    let value = match &row.effective {
        PreferenceValue::Bool(on) => if *on {
            "On".to_owned()
        } else {
            "Off".to_owned()
        },
        PreferenceValue::Text(text) => text.clone(),
        PreferenceValue::Integer(number) => signed_decimal(*number),
    };
    let plain = cat3(row.label, " · ", value.as_str());
    if preference_is_applied(row.key) {
        plain
    } else {
        plain.concat(" · not applied on this build")
    }
}

impl Comfort {
    fn apply_effective(&mut self, key: &str, value: &PreferenceValue)
        ensures
            final(self)@ == comfort_with(old(self)@, key@, value@),
            final(self).display_preferences == old(self).display_preferences,
    {
        proof {
            reveal(comfort_with);
        }
        if same_text(key, "highContrast") {
            if let PreferenceValue::Bool(on) = value {
                self.high_contrast = *on;
            }
        } else if same_text(key, "reduceMotion") {
            if let PreferenceValue::Bool(on) = value {
                self.reduced_motion = self.env_reduced_motion || *on;
                self.motion_ms = if self.reduced_motion {
                    0
                } else {
                    self.normal_motion_ms
                };
            }
        } else if same_text(key, "reduceFlashing") {
            if let PreferenceValue::Bool(on) = value {
                self.reduce_flashing = *on;
            }
        } else if same_text(key, "textScale") {
            if let PreferenceValue::Text(text) = value {
                self.text_scale = read_scale(text.as_str());
            }
        } else if same_text(key, "appearance") {
            if let PreferenceValue::Text(text) = value {
                self.appearance_day = same_text(text.as_str(), "Day");
            }
        }
    }

    fn read_preference(
        &mut self,
        key: &'static str,
        label: &'static str,
        default: PreferenceValue,
        report: &Option<EffectivePreference>,
    )
        ensures
            final(self)@ == comfort_reading(
                old(self)@,
                key@,
                label@,
                default@,
                report_of(*report),
            ),
            final(self).display_preferences@.len() == old(self).display_preferences@.len() + 1,
    {
        let effective = match report {
            Some(report) => report.effective.copy(),
            None => default,
        };
        let interactive = match report {
            Some(report) => report.applied,
            None => false,
        };
        self.apply_effective(key, &effective);
        let ghost before = self.display_preferences@;
        self.display_preferences.push(DisplayPreference { key, label, effective, interactive });
        proof {
            let after = self.display_preferences@;
            assert(crate::state::preference_models(after) =~= crate::state::preference_models(
                before,
            ).push(after.last()@));
        }
    }

    fn read_appearance(
        &mut self,
        appearance: &Option<EffectivePreference>,
        first_run_complete: bool,
    )
        ensures
            final(self)@ == comfort_read(old(self)@, report_of(*appearance), first_run_complete),
            final(self).display_preferences == old(self).display_preferences,
    {
        if let Some(report) = appearance {
            self.apply_effective("appearance", &report.effective);
        }
        self.first_run_complete = first_run_complete;
    }

    fn change_row(&mut self, key: &str, value: &PreferenceValue)
        ensures
            final(self)@ == (ComfortModel {
                display_preferences: rows_with(old(self)@.display_preferences, key@, value@),
                ..old(self)@
            }),
            final(self).display_preferences@.len() == old(self).display_preferences@.len(),
    {
        let ghost rows = self@.display_preferences;
        let mut next: usize = 0;
        while next < self.display_preferences.len()
            invariant
                next <= self.display_preferences@.len(),
                *self == *old(self),
                rows == self@.display_preferences,
                row_place(rows, key@, 0) == row_place(rows, key@, next as int),
            decreases self.display_preferences@.len() - next,
        {
            if same_text(self.display_preferences[next].key, key) {
                self.display_preferences[next].effective = value.copy();
                self.display_preferences[next].interactive = true;
                proof {
                    assert(self@.display_preferences =~= rows_with(rows, key@, value@));
                }
                return;
            }
            next += 1;
        }
    }
}

/// The failure of a read.
fn failure_of(failure: &String) -> (copy: Result<(), String>)
    ensures
        copy matches Err(text) && text@ == failure@,
{
    Err(failure.clone())
}

/// The model of an outcome that may have failed.
pub open spec fn outcome_of(outcome: Result<(), String>) -> Result<(), Text> {
    match outcome {
        Ok(()) => Ok(()),
        Err(failure) => Err(failure@),
    }
}

impl ShellCore {
    fn read_row(
        &mut self,
        key: &'static str,
        label: &'static str,
        default: PreferenceValue,
        report: &Option<EffectivePreference>,
    )
        requires
            old(self).wf(),
            old(self)@.comfort.display_preferences.len() < 4,
        ensures
            final(self)@ == old(self)@.reading(key@, label@, default@, report_of(*report)),
            final(self).wf(),
            final(self)@.comfort.display_preferences.len()
                == old(self)@.comfort.display_preferences.len() + 1,
    {
        self.comfort.read_preference(key, label, default, report);
        proof {
            old(self)@.lemma_with_comfort_ok(self@.comfort);
        }
    }

    fn start_reading(&mut self)
        requires
            old(self).wf(),
        ensures
            final(self)@ == old(self)@.before_reading(),
            final(self).wf(),
            final(self)@.comfort.display_preferences.len() == 0,
    {
        self.bump_revision();
        let ghost bumped = self@;
        self.comfort.display_preferences = Vec::new();
        proof {
            assert(self@.comfort.display_preferences =~= Seq::empty());
            bumped.lemma_with_comfort_ok(self@.comfort);
        }
    }

    fn present_first_run(&mut self)
        requires
            old(self).wf(),
        ensures
            final(self)@ == old(self)@.in_first_run(),
            final(self).wf(),
    {
        self.session.presentation = Presentation::FirstRun;
        self.nav.focus = 0;
        proof {
            old(self)@.lemma_in_first_run_ok();
        }
    }

    fn finish_reading(&mut self, appearance: &Option<EffectivePreference>, first_run_complete: bool)
        requires
            old(self).wf(),
        ensures
            final(self)@ == old(self)@.after_reading(report_of(*appearance), first_run_complete),
            final(self).wf(),
    {
        proof {
            self@.lemma_preference_count();
        }
        self.comfort.read_appearance(appearance, first_run_complete);
        proof {
            old(self)@.lemma_with_comfort_ok(self@.comfort);
        }
        if !first_run_complete {
            self.present_first_run();
        }
    }

    /// Takes in what was read of the preferences, one after the other. A read
    /// that failed ends it there.
    pub fn load_preferences(
        &mut self,
        reads: &PreferenceReads,
        first_run_complete: bool,
    ) -> (outcome: Result<(), String>)
        requires
            old(self).wf(),
        ensures
            (final(self)@, outcome_of(outcome)) == old(self)@.loading_preferences(
                *reads,
                first_run_complete,
            ),
            final(self).wf(),
    {
        self.start_reading();
        match &reads.text_scale {
            Ok(report) => self.read_row(
                "textScale",
                "Text size",
                PreferenceValue::Text("100%".to_owned()),
                report,
            ),
            Err(failure) => {
                return failure_of(failure);
            },
        }
        match &reads.high_contrast {
            Ok(report) => self.read_row(
                "highContrast",
                "High contrast",
                PreferenceValue::Bool(false),
                report,
            ),
            Err(failure) => {
                return failure_of(failure);
            },
        }
        match &reads.reduce_motion {
            Ok(report) => self.read_row(
                "reduceMotion",
                "Reduce motion",
                PreferenceValue::Bool(false),
                report,
            ),
            Err(failure) => {
                return failure_of(failure);
            },
        }
        match &reads.reduce_flashing {
            Ok(report) => self.read_row(
                "reduceFlashing",
                "Reduce flashing",
                PreferenceValue::Bool(false),
                report,
            ),
            Err(failure) => {
                return failure_of(failure);
            },
        }
        match &reads.appearance {
            Ok(report) => self.finish_reading(report, first_run_complete),
            Err(failure) => {
                return failure_of(failure);
            },
        }
        Ok(())
    }

    /// Takes in a preference that the service reported.
    pub fn preference_changed(&mut self, change: &EffectivePreference)
        requires
            old(self).wf(),
        ensures
            final(self)@ == old(self)@.with_preference(change@),
            final(self).wf(),
    {
        if !change.applied {
            return;
        }
        self.bump_revision();
        let ghost bumped = self@;
        proof {
            bumped.lemma_preference_count();
        }
        self.comfort.apply_effective(change.key.0.as_str(), &change.effective);
        self.comfort.change_row(change.key.0.as_str(), &change.effective);
        proof {
            bumped.lemma_with_comfort_ok(self@.comfort);
        }
    }

    /// Takes in one answer of the preference service. Tells whether it is to be
    /// asked again.
    pub fn drive_preferences(&mut self, poll: Result<PreferencePoll, String>) -> (again: Result<
        bool,
        String,
    >)
        requires
            old(self).wf(),
        ensures
            match poll {
                Ok(PreferencePoll::Changed(change)) => again == Ok::<bool, String>(true)
                    && final(self)@ == old(self)@.with_preference(change@),
                Ok(PreferencePoll::Idle) => again == Ok::<bool, String>(false) && final(self)@
                    == old(self)@,
                Err(failure) => again == Err::<bool, String>(failure) && final(self)@
                    == old(self)@,
            },
            final(self).wf(),
    {
        match poll {
            Ok(PreferencePoll::Changed(change)) => {
                self.preference_changed(&change);
                Ok(true)
            },
            Ok(PreferencePoll::Idle) => Ok(false),
            Err(failure) => Err(failure),
        }
    }

    /// Presents the first run again.
    pub fn reset_first_run(&mut self)
        requires
            old(self).wf(),
        ensures
            final(self)@ == old(self)@.bumped().with_comfort(
                ComfortModel { first_run_complete: false, ..old(self)@.comfort },
            ).in_first_run(),
            final(self)@.session.presentation == Presentation::FirstRun,
            !final(self)@.comfort.first_run_complete,
            final(self)@.nav.focus == 0,
            final(self).wf(),
    {
        self.bump_revision();
        let ghost bumped = self@;
        proof {
            bumped.lemma_preference_count();
        }
        self.comfort.first_run_complete = false;
        proof {
            bumped.lemma_with_comfort_ok(self@.comfort);
        }
        self.present_first_run();
    }

    /// The size of the text, in percent.
    #[must_use]
    pub fn text_scale(&self) -> (scale: u16)
        ensures
            scale == self@.comfort.text_scale,
    {
        self.comfort.text_scale
    }

    /// Whether High Contrast is in effect.
    #[must_use]
    pub fn high_contrast(&self) -> (on: bool)
        ensures
            on == self@.comfort.high_contrast,
    {
        self.comfort.high_contrast
    }

    /// The palette.
    #[must_use]
    pub fn theme_base(&self) -> (base: Base)
        ensures
            base == self@.base(),
    {
        if self.comfort.high_contrast {
            Base::HighContrast
        } else if self.comfort.appearance_day {
            Base::Day
        } else {
            Base::Dusk
        }
    }

    /// Whether flashing is reduced.
    #[must_use]
    pub fn reduce_flashing(&self) -> (on: bool)
        ensures
            on == self@.comfort.reduce_flashing,
    {
        self.comfort.reduce_flashing
    }

    /// How long the launch motion lasts, in milliseconds.
    #[must_use]
    pub fn motion_duration_ms(&self) -> (duration: u32)
        ensures
            duration == self@.comfort.motion_ms,
    {
        self.comfort.motion_ms
    }

    /// Whether motion is reduced.
    #[must_use]
    pub fn reduced_motion(&self) -> (on: bool)
        ensures
            on == self@.comfort.reduced_motion,
    {
        self.comfort.reduced_motion
    }
}

} // verus!
