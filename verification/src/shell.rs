//! What the command line configures: the program to run and the shift quirk.

use crate::signal::KillSignal;
use vstd::prelude::*;
use vstd::string::StringExecFns;

verus! {

/// What a session is configured with.
pub struct ShellConfig {
    /// The path of the program image, as text.
    pub rom: Seq<char>,
    /// Whether `8XY6` and `8XYE` shift VX in place.
    pub shiftquirk: bool,
}

/// The caption of the window for the program titled `title`.
pub open spec fn caption_of(title: Seq<char>) -> Seq<char> {
    "[Chip8-RS] "@ + title
}

/// The configuration of one session, together with its shutdown signal.
pub struct GameShell {
    /// The path of the program image, as text.
    pub rom: String,
    /// Whether `8XY6` and `8XYE` shift VX in place.
    pub shiftquirk: bool,
    killsignal_internal: KillSignal,
}

impl View for GameShell {
    type V = ShellConfig;

    closed spec fn view(&self) -> ShellConfig {
        ShellConfig { rom: self.rom@, shiftquirk: self.shiftquirk }
    }
}

impl GameShell {
    /// The shutdown signal of this session.
    pub closed spec fn killsignal(&self) -> KillSignal {
        self.killsignal_internal
    }

    /// A session for the program at `rom`, with a fresh shutdown signal.
    pub fn new(rom: String, shiftquirk: bool) -> (shell: GameShell)
        ensures
            shell@.rom == rom@,
            shell@.shiftquirk == shiftquirk,
            shell.killsignal().well_formed(),
    {
        GameShell { rom, shiftquirk, killsignal_internal: KillSignal::new() }
    }

    /// The path of the program image.
    pub fn rom_path(&self) -> (path: &String)
        ensures
            path@ == self@.rom,
    {
        &self.rom
    }

    /// The title under which the program is shown: its path.
    pub fn print_rom_title(&self) -> (title: String)
        ensures
            title@ == self@.rom,
    {
        self.rom.clone()
    }

    /// Whether the session runs with the shift quirk.
    pub fn shiftquirk(&self) -> (enabled: bool)
        ensures
            enabled == self@.shiftquirk,
    {
        self.shiftquirk
    }

    /// The caption of the window: the name of the emulator, then the title
    /// of the program.
    pub fn window_title(&self) -> (caption: String)
        ensures
            caption@ == caption_of(self@.rom),
    {
        String::from_str("[Chip8-RS] ").concat(self.rom.as_str())
    }

    /// Another handle on the shutdown signal of this session.
    pub fn clone_killsignal(&self) -> (signal: KillSignal)
        ensures
            signal.shares_with(&self.killsignal()),
    {
        self.killsignal_internal.clone()
    }
}

} // verus!
