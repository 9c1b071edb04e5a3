//! Settings the controller is started with.

use vstd::prelude::*;

verus! {

/// Command-line settings.
#[derive(Clone)]
pub struct CliConfig {
    /// Path of the configuration file.
    pub config: String,
}

/// The side the controller works for.
#[derive(Clone, Copy, Debug, PartialEq, Eq, Structural)]
pub enum Coalition {
    Blue,
    Red,
}

impl Coalition {
    /// The opposing side.
    pub open spec fn flipped(self) -> Coalition {
        match self {
            Coalition::Blue => Coalition::Red,
            Coalition::Red => Coalition::Blue,
        }
    }

    /// The label under which the telemetry stream files this side's units.
    pub open spec fn telemetry_label(self) -> Seq<char> {
        match self {
            Coalition::Blue => "Enemies"@,
            Coalition::Red => "Allies"@,
        }
    }

    pub fn flip(&self) -> (other: Self)
        ensures
            other == self.flipped(),
    {
        match self {
            Self::Blue => Self::Red,
            Self::Red => Self::Blue,
        }
    }

    pub fn as_tacview_coalition(&self) -> (label: &'static str)
        ensures
            label@ == self.telemetry_label(),
    {
        match self {
            Self::Blue => "Enemies",
            Self::Red => "Allies",
        }
    }
}

/// What every task needs to know about the controller itself.
#[derive(Clone)]
pub struct CommonConfig {
    pub callsign: String,
    pub coalition: Coalition,
}

/// The mathematical content of a [`CommonConfig`].
pub struct CommonView {
    pub callsign: Seq<char>,
    pub coalition: Coalition,
}

impl View for CommonConfig {
    type V = CommonView;

    open spec fn view(&self) -> CommonView {
        CommonView { callsign: self.callsign@, coalition: self.coalition }
    }
}

/// Where the telemetry server is and how to log in.
#[derive(Clone)]
pub struct TacviewConfig {
    pub host: String,
    pub port: u16,
    pub username: String,
    pub password: Option<String>,
}

/// The side declared to the voice-radio server.
#[derive(Clone, Copy, Debug, PartialEq, Eq, Structural)]
pub enum SrsConfigCoalition {
    Spectator,
    Blue,
    Red,
}

/// Where the voice-radio server is and how to join it.
#[derive(Clone)]
pub struct SrsConfig {
    pub host: String,
    pub port: u16,
    pub username: String,
    pub coalition: SrsConfigCoalition,
    pub frequency: u64,
}

} // verus!
