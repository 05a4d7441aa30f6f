//! The per-application vibrance settings.

use crate::names::{first_named, first_named_from, lemma_first_named_from};
use vstd::prelude::*;

verus! {

/// A display mode.
#[derive(Debug, Clone, Copy, PartialEq, Eq, Structural)]
pub struct VideoMode {
    /// Screen pixel width
    pub width: u32,
    /// Screen pixel height
    pub height: u32,
    /// Refresh rate
    pub freq: u32,
}

/// The settings of one program.
#[derive(Debug, Clone, PartialEq, Eq)]
pub struct Program {
    /// Name of the program to react on
    pub exe_name: String,
    /// Vibrance value in percentage to apply when this program comes to foreground.
    pub vibrance: u8,
    /// Only apply settings when the program comes to foreground in full-screen mode
    pub fullscreen_only: Option<bool>,
    /// Only apply this video mode when this program starts
    pub resolution: Option<VideoMode>,
}

/// A program's settings as mathematical values.
pub struct ProgramView {
    pub exe_name: Seq<char>,
    pub vibrance: u8,
    pub fullscreen_only: Option<bool>,
    pub resolution: Option<VideoMode>,
}

impl View for Program {
    type V = ProgramView;

    open spec fn view(&self) -> ProgramView {
        ProgramView {
            exe_name: self.exe_name@,
            vibrance: self.vibrance,
            fullscreen_only: self.fullscreen_only,
            resolution: self.resolution,
        }
    }
}

impl ProgramView {
    /// The vibrance the program asks for, and whether it asks for it in
    /// full-screen mode only. A program that does not say is not restricted
    /// to full-screen mode.
    pub open spec fn setting(self) -> (u8, bool) {
        (
            self.vibrance,
            match self.fullscreen_only {
                Some(gate) => gate,
                None => false,
            },
        )
    }
}

/// The settings of the service. They are read once and never change.
#[derive(Debug, Clone, PartialEq, Eq)]
pub struct Config {
    /// Vibrance to restore when any non-selected program comes to foreground, included explorer.exe
    desktop_vibrance: u8,
    /// Default desktop resolution
    resolution: Option<VideoMode>,
    /// Program-specific settings
    program_settings: Vec<Program>,
}

/// The settings as mathematical values. The order of `program_settings` counts:
/// of two entries for the same program the earlier one is used.
pub struct ConfigView {
    pub desktop_vibrance: u8,
    pub resolution: Option<VideoMode>,
    pub program_settings: Seq<ProgramView>,
}

impl View for Config {
    type V = ConfigView;

    closed spec fn view(&self) -> ConfigView {
        ConfigView {
            desktop_vibrance: self.desktop_vibrance,
            resolution: self.resolution,
            program_settings: self.program_settings@.map_values(|p: Program| p@),
        }
    }
}

impl ConfigView {
    /// The names of the programs that have an entry, in the order of the
    /// entries.
    pub open spec fn names(self) -> Seq<Seq<char>> {
        self.program_settings.map_values(|p: ProgramView| p.exe_name)
    }

    /// The index of the first entry that is named `exe`. Names are compared
    /// exactly, letter case included.
    pub open spec fn first_match(self, exe: Seq<char>) -> Option<int> {
        first_named(self.names(), exe)
    }

    /// The setting of the program named `exe`, if it has an entry.
    pub open spec fn vibrance_for_program(self, exe: Seq<char>) -> Option<(u8, bool)> {
        match self.first_match(exe) {
            Some(i) => Some(self.program_settings[i].setting()),
            None => None,
        }
    }

    /// The vibrance that a foreground program named `exe` calls for, and whether
    /// it calls for it in full-screen mode only. A program without an entry gets
    /// the desktop's vibrance, which is never restricted to full-screen mode.
    pub open spec fn policy(self, exe: Seq<char>) -> (u8, bool) {
        match self.vibrance_for_program(exe) {
            Some(setting) => setting,
            None => (self.desktop_vibrance, false),
        }
    }
}

/// The first match is an entry with that name, and no entry before it has the
/// name; there is none exactly when no entry has the name.
pub proof fn lemma_first_match_wins(config: ConfigView, exe: Seq<char>)
    ensures
        match config.first_match(exe) {
            Some(i) => {
                &&& 0 <= i < config.program_settings.len()
                &&& config.program_settings[i].exe_name == exe
                &&& forall|j: int| 0 <= j < i ==> config.program_settings[j].exe_name != exe
            },
            None => forall|j: int|
                0 <= j < config.program_settings.len() ==> config.program_settings[j].exe_name
                    != exe,
        },
{
    let names = config.names();
    let programs = config.program_settings;
    lemma_first_named_from(names, exe, 0);
    match first_named(names, exe) {
        Some(i) => {
            assert(names[i] == programs[i].exe_name);
            assert forall|j: int| 0 <= j < i implies programs[j].exe_name != exe by {
                assert(names[j] == programs[j].exe_name);
            }
        },
        None => {
            assert forall|j: int| 0 <= j < programs.len() implies programs[j].exe_name != exe by {
                assert(names[j] == programs[j].exe_name);
            }
        },
    }
}

impl Default for Config {
    fn default() -> (config: Self)
        ensures
            config@.desktop_vibrance == 50,
            config@.resolution is None,
            config@.program_settings == Seq::<ProgramView>::empty(),
    {
        Self { desktop_vibrance: 50, resolution: None, program_settings: Vec::new() }
    }
}

impl Config {
    /// Settings made of the given parts.
    pub fn new(
        desktop_vibrance: u8,
        resolution: Option<VideoMode>,
        program_settings: Vec<Program>,
    ) -> (config: Self)
        ensures
            config@.desktop_vibrance == desktop_vibrance,
            config@.resolution == resolution,
            config@.program_settings == program_settings@.map_values(|p: Program| p@),
    {
        Self { desktop_vibrance, resolution, program_settings }
    }

    /// The settings written to a new configuration file: the desktop keeps the
    /// vibrance `vibrance` that the display has now, and one sample entry shows
    /// how a program is set up.
    pub fn sample(vibrance: u8) -> (config: Self)
        ensures
            config@.desktop_vibrance == vibrance,
            config@.resolution is None,
            config@.program_settings.len() == 1,
            config@.program_settings[0] == (ProgramView {
                exe_name: "sample_program.exe"@,
                vibrance,
                fullscreen_only: Some(false),
                resolution: None,
            }),
    {
        let mut program_settings: Vec<Program> = Vec::new();
        program_settings.push(
            Program {
                exe_name: "sample_program.exe".to_owned(),
                vibrance,
                fullscreen_only: Some(false),
                resolution: None,
            },
        );
        Self { desktop_vibrance: vibrance, resolution: None, program_settings }
    }

    /// The setting of the program named `program_exe`: its vibrance, and
    /// whether it applies in full-screen mode only. Of several entries with
    /// that name the first one counts.
    pub fn vibrance_for_program(&self, program_exe: &str) -> (setting: Option<(u8, bool)>)
        ensures
            setting == self@.vibrance_for_program(program_exe@),
    {
        let wanted = program_exe.to_owned();
        let ghost programs = self@.program_settings;
        let mut i: usize = 0;
        while i < self.program_settings.len()
            invariant
                i <= self.program_settings@.len(),
                wanted@ == program_exe@,
                programs == self@.program_settings,
                programs.len() == self.program_settings@.len(),
                first_named(self@.names(), wanted@) == first_named_from(
                    self@.names(),
                    wanted@,
                    i as int,
                ),
            decreases self.program_settings@.len() - i,
        {
            let program = &self.program_settings[i];
            assert(programs[i as int] == program@);
            if program.exe_name == wanted {
                let gate = match program.fullscreen_only {
                    Some(gate) => gate,
                    None => false,
                };
                return Some((program.vibrance, gate));
            }
            i = i + 1;
        }
        None
    }

    /// The vibrance of the desktop, for every program without an entry.
    pub fn default_vibrance(&self) -> (vibrance: u8)
        ensures
            vibrance == self@.desktop_vibrance,
    {
        self.desktop_vibrance
    }

    /// The default desktop resolution.
    pub fn resolution(&self) -> (resolution: Option<VideoMode>)
        ensures
            resolution == self@.resolution,
    {
        self.resolution
    }

    /// The settings of the programs, in the order that counts.
    pub fn program_settings(&self) -> (programs: &Vec<Program>)
        ensures
            programs@.map_values(|p: Program| p@) == self@.program_settings,
    {
        &self.program_settings
    }

    /// The vibrance that a foreground program named `program_exe` calls for,
    /// and whether it calls for it in full-screen mode only.
    pub fn policy(&self, program_exe: &str) -> (policy: (u8, bool))
        ensures
            policy == self@.policy(program_exe@),
    {
        match self.vibrance_for_program(program_exe) {
            Some(setting) => setting,
            None => (self.default_vibrance(), false),
        }
    }
}

} // verus!
