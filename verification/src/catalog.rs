//! The channel catalog: the fixed enumeration of symbolic channel and kind
//! identifiers, together with the table mapping each symbol to the integer
//! wire code the native control surface expects.
//!
//! The mapping is declared explicitly, entry by entry, rather than being
//! derived from a symbol's position in the declaration: inserting or
//! reordering symbols can therefore never silently shift another symbol's
//! code.

use vstd::prelude::*;

verus! {

/// The value you wish to target for an operation.
#[derive(Clone, Copy, Debug, PartialEq, Eq, Structural)]
pub enum Value {
    /// The current reverser setting (F/N/R).
    /// Usually:
    /// - `1`: F
    /// - `0`: N
    /// - `-1`: R
    Reverser,
    /// The current throttle setting, usually between `0` and `100`. For locomotives and units with
    /// a separate throttle and brake control.
    Throttle,
    /// The current combined throttle/brake setting, usually between `-100` and `100`. For
    /// locomotives and units with a combined throttle and brake.
    CombinedThrottle,
    /// The current gear, for trains fitted.
    GearLever,
    /// The train brake lever. Usually between `0` and `100`.
    TrainBrake,
    /// The locomotive brake lever. Usually between `0` and `100`.
    LocomotiveBrake,
    /// The dynamic brake lever. Usually between `0` and `100`.
    DynamicBrake,
    /// The emergency brake button. Usually operated by setting to `1`.
    EmergencyBrake,
    /// The hand brake. Usually operated by setting to `1`.
    HandBrake,
    /// The warning system reset button. Usually operated by setting to `1`.
    WarningSystemReset,
    /// The engine start/stop button. Usually operated by setting to `1`.
    StartStopEngine,
    /// The horn lever. Usually operated by setting to `1`.
    Horn,
    /// The wipers switch. Usually operated by setting to `1`.
    Wipers,
    /// The sander. Usually operated by setting to `1`.
    Sander,
    /// The headlights. Often operated by setting to `1`.
    Headlights,
    /// The pantograph switch. Usually raised by setting to `1`.
    Pantograph,
    /// The firebox door. Usually opened by setting to `1`.
    FireboxDoor,
    /// The exhaust-based steam injector. Usually between `0` and `100`.
    ExhaustInjectorSteam,
    /// The exhaust-based water injector. Usually between `0` and `100`.
    ExhaustInjectorWater,
    /// The live steam injector. Usually between `0` and `100`.
    LiveInjectorSteam,
    /// The live water injector. Usually between `0` and `100`.
    LiveInjectorWater,
    /// The damper. Usually actuated between `0` and `100`.
    Damper,
    /// The blower valve. Usually opened between `0` and `100`.
    Blower,
    /// Stoking. Usually stoking when set to `1`.
    Stoking,
    /// The cylinder cocks. Usually opened when set to `1`.
    CylinderCock,
    /// The waterscoop. Usually operated when set to `1`.
    Waterscoop,
    /// Currently undocumented.
    SmallCompressor,
    /// Get only: The state of the AWS.
    AWS,
    /// Set only: The AWS reset button, depressed when set to `1`.
    AWSReset,
    /// Whether the unit is in startup.
    Startup,
    /// Get only: The current speed of the unit.
    Speedometer,
    /// The save event, usually triggered by `F2`, triggered when set to `1`.
    PromptSave,
    /// Toggle labels, triggered when set to `1`.
    ToggleLabels,
    /// The 2D Map, usually triggered by `9`, triggered when set to `1`.
    Toggle2DMap,
    /// Toggle the HUD visibilty, usually triggered by `F3` or `F4`, triggered when set to `1`.
    ToggleHud,
    /// Currently undocumented.
    ToggleQut,
    /// Pause the game, triggered when set to `1`.
    Pause,
    /// Currently undocumented.
    DriverGuide,
    /// Show the rail vehicle number, enabled when set to `1`.
    ToggleRvNumber,
    /// Close the dialog given to you by an assignment in a scenario.
    DialogAssignment,
    /// Switch the set of points to the front of the train, triggered when set to `1`.
    SwitchJunctionAhead,
    /// Switch the set of points to the rear of the train, triggered when set to `1`.
    SwitchJunctionBehind,
    /// The load cargo event, triggered when set to `1`.
    LoadCargo,
    /// The unload cargo action, triggered when set to `1`.
    UnloadCargo,
    /// Request to pass a signal at danger to the front of the train, usually triggered by `Tab`,
    /// triggered when set to `1`.
    PassAtDangerAhead,
    /// Request to pass a signal at danger to the rear of the train, usually triggered by
    /// `Shift Tab`, triggered when set to `1`.
    PassAtDangerBehind,
    /// Manual coupling, triggered when set to `1`.
    ManualCouple,
    /// The cab camera, usually operated by pressing `1`, switched to by setting to `1`.
    CabCamera,
    /// The follow camera, usually operated by pressing `2`, switched to by setting to `1`.
    FollowCamera,
    /// The head-out-window camera, usually operated by pressing `Shift 2`, switched to by setting
    /// to `1`.
    HeadOutCamera,
    /// The rear camera, usually operated by pressing `3`, switched to by setting to `1`.
    RearCamera,
    /// The track-side camera, usually operated by pressing `4`, switched to by setting to `1`.
    TrackSideCamera,
    /// The passenger-view (carriage) camera, usually operated by pressing `5`, switched to by
    /// setting to `1`.
    CarriageCamera,
    /// The coupling camera, usually operated by pressing `6`, switched to by setting to `1`.
    CouplingCamera,
    /// The yard camera, usually operated by pressing `7`, switched to by setting to `1`.
    YardCamera,
    /// Cab camera switch, usually operated by pressing `Ctrl +`, switched to by setting to `1`.
    SwitchToNextFrontCab,
    /// Cab camera switch, usually operated by pressing `Ctrl -`, switched to by setting to `1`.
    SwitchToNextRearCab,
    /// The free camera, usually operated by pressing `8`, switched to by setting to `1`.
    FreeCamera,
}

impl Value {
    /// The wire-code table for channels, fixed by the native protocol.
    pub open spec fn wire_code_spec(self) -> i32 {
        match self {
            Value::Reverser => 0,
            Value::Throttle => 1,
            Value::CombinedThrottle => 2,
            Value::GearLever => 3,
            Value::TrainBrake => 4,
            Value::LocomotiveBrake => 5,
            Value::DynamicBrake => 6,
            Value::EmergencyBrake => 7,
            Value::HandBrake => 8,
            Value::WarningSystemReset => 9,
            Value::StartStopEngine => 10,
            Value::Horn => 11,
            Value::Wipers => 12,
            Value::Sander => 13,
            Value::Headlights => 14,
            Value::Pantograph => 15,
            Value::FireboxDoor => 16,
            Value::ExhaustInjectorSteam => 17,
            Value::ExhaustInjectorWater => 18,
            Value::LiveInjectorSteam => 19,
            Value::LiveInjectorWater => 20,
            Value::Damper => 21,
            Value::Blower => 22,
            Value::Stoking => 23,
            Value::CylinderCock => 24,
            Value::Waterscoop => 25,
            Value::SmallCompressor => 26,
            Value::AWS => 27,
            Value::AWSReset => 28,
            Value::Startup => 29,
            Value::Speedometer => 30,
            Value::PromptSave => 31,
            Value::ToggleLabels => 32,
            Value::Toggle2DMap => 33,
            Value::ToggleHud => 34,
            Value::ToggleQut => 35,
            Value::Pause => 36,
            Value::DriverGuide => 37,
            Value::ToggleRvNumber => 38,
            Value::DialogAssignment => 39,
            Value::SwitchJunctionAhead => 40,
            Value::SwitchJunctionBehind => 41,
            Value::LoadCargo => 42,
            Value::UnloadCargo => 43,
            Value::PassAtDangerAhead => 44,
            Value::PassAtDangerBehind => 45,
            Value::ManualCouple => 46,
            Value::CabCamera => 47,
            Value::FollowCamera => 48,
            Value::HeadOutCamera => 49,
            Value::RearCamera => 50,
            Value::TrackSideCamera => 51,
            Value::CarriageCamera => 52,
            Value::CouplingCamera => 53,
            Value::YardCamera => 54,
            Value::SwitchToNextFrontCab => 55,
            Value::SwitchToNextRearCab => 56,
            Value::FreeCamera => 57,
        }
    }

    /// The integer wire code the native surface expects for this channel.
    pub fn wire_code(self) -> (code: i32)
        ensures
            code == self.wire_code_spec(),
    {
        match self {
            Value::Reverser => 0,
            Value::Throttle => 1,
            Value::CombinedThrottle => 2,
            Value::GearLever => 3,
            Value::TrainBrake => 4,
            Value::LocomotiveBrake => 5,
            Value::DynamicBrake => 6,
            Value::EmergencyBrake => 7,
            Value::HandBrake => 8,
            Value::WarningSystemReset => 9,
            Value::StartStopEngine => 10,
            Value::Horn => 11,
            Value::Wipers => 12,
            Value::Sander => 13,
            Value::Headlights => 14,
            Value::Pantograph => 15,
            Value::FireboxDoor => 16,
            Value::ExhaustInjectorSteam => 17,
            Value::ExhaustInjectorWater => 18,
            Value::LiveInjectorSteam => 19,
            Value::LiveInjectorWater => 20,
            Value::Damper => 21,
            Value::Blower => 22,
            Value::Stoking => 23,
            Value::CylinderCock => 24,
            Value::Waterscoop => 25,
            Value::SmallCompressor => 26,
            Value::AWS => 27,
            Value::AWSReset => 28,
            Value::Startup => 29,
            Value::Speedometer => 30,
            Value::PromptSave => 31,
            Value::ToggleLabels => 32,
            Value::Toggle2DMap => 33,
            Value::ToggleHud => 34,
            Value::ToggleQut => 35,
            Value::Pause => 36,
            Value::DriverGuide => 37,
            Value::ToggleRvNumber => 38,
            Value::DialogAssignment => 39,
            Value::SwitchJunctionAhead => 40,
            Value::SwitchJunctionBehind => 41,
            Value::LoadCargo => 42,
            Value::UnloadCargo => 43,
            Value::PassAtDangerAhead => 44,
            Value::PassAtDangerBehind => 45,
            Value::ManualCouple => 46,
            Value::CabCamera => 47,
            Value::FollowCamera => 48,
            Value::HeadOutCamera => 49,
            Value::RearCamera => 50,
            Value::TrackSideCamera => 51,
            Value::CarriageCamera => 52,
            Value::CouplingCamera => 53,
            Value::YardCamera => 54,
            Value::SwitchToNextFrontCab => 55,
            Value::SwitchToNextRearCab => 56,
            Value::FreeCamera => 57,
        }
    }
}

/// The kind of value that is required.
#[derive(Clone, Copy, Debug, PartialEq, Eq, Structural)]
pub enum Kind {
    /// The current value.
    Current,
    /// The minimum value.
    Min,
    /// The maximum value.
    Max,
}

impl Kind {
    /// The wire-code table for kinds, fixed by the native protocol.
    pub open spec fn wire_code_spec(self) -> i32 {
        match self {
            Kind::Current => 0,
            Kind::Min => 1,
            Kind::Max => 2,
        }
    }

    /// The integer wire code the native surface expects for this kind.
    pub fn wire_code(self) -> (code: i32)
        ensures
            code == self.wire_code_spec(),
    {
        match self {
            Kind::Current => 0,
            Kind::Min => 1,
            Kind::Max => 2,
        }
    }
}

/// The channel table is injective: no two distinct channels share a wire
/// code, so a wire code sent to the native surface identifies exactly one
/// symbolic channel.
pub proof fn lemma_value_wire_code_injective(a: Value, b: Value)
    ensures
        a.wire_code_spec() == b.wire_code_spec() ==> a == b,
{
}

/// The kind table is injective: no two distinct kinds share a wire code.
pub proof fn lemma_kind_wire_code_injective(a: Kind, b: Kind)
    ensures
        a.wire_code_spec() == b.wire_code_spec() ==> a == b,
{
}

} // verus!
