use libraildriver::Kind;
use libraildriver::Value;

const ALL_VALUES: [Value; 58] = [
    Value::Reverser,
    Value::Throttle,
    Value::CombinedThrottle,
    Value::GearLever,
    Value::TrainBrake,
    Value::LocomotiveBrake,
    Value::DynamicBrake,
    Value::EmergencyBrake,
    Value::HandBrake,
    Value::WarningSystemReset,
    Value::StartStopEngine,
    Value::Horn,
    Value::Wipers,
    Value::Sander,
    Value::Headlights,
    Value::Pantograph,
    Value::FireboxDoor,
    Value::ExhaustInjectorSteam,
    Value::ExhaustInjectorWater,
    Value::LiveInjectorSteam,
    Value::LiveInjectorWater,
    Value::Damper,
    Value::Blower,
    Value::Stoking,
    Value::CylinderCock,
    Value::Waterscoop,
    Value::SmallCompressor,
    Value::AWS,
    Value::AWSReset,
    Value::Startup,
    Value::Speedometer,
    Value::PromptSave,
    Value::ToggleLabels,
    Value::Toggle2DMap,
    Value::ToggleHud,
    Value::ToggleQut,
    Value::Pause,
    Value::DriverGuide,
    Value::ToggleRvNumber,
    Value::DialogAssignment,
    Value::SwitchJunctionAhead,
    Value::SwitchJunctionBehind,
    Value::LoadCargo,
    Value::UnloadCargo,
    Value::PassAtDangerAhead,
    Value::PassAtDangerBehind,
    Value::ManualCouple,
    Value::CabCamera,
    Value::FollowCamera,
    Value::HeadOutCamera,
    Value::RearCamera,
    Value::TrackSideCamera,
    Value::CarriageCamera,
    Value::CouplingCamera,
    Value::YardCamera,
    Value::SwitchToNextFrontCab,
    Value::SwitchToNextRearCab,
    Value::FreeCamera,
];

#[test]
fn value_wire_codes_match_reference_table() {
    for (expected, value) in ALL_VALUES.iter().enumerate() {
        assert_eq!(value.wire_code(), expected as i32);
    }
}

#[test]
fn value_wire_codes_spot_checks() {
    assert_eq!(Value::Reverser.wire_code(), 0);
    assert_eq!(Value::Throttle.wire_code(), 1);
    assert_eq!(Value::EmergencyBrake.wire_code(), 7);
    assert_eq!(Value::Horn.wire_code(), 11);
    assert_eq!(Value::Speedometer.wire_code(), 30);
    assert_eq!(Value::PromptSave.wire_code(), 31);
    assert_eq!(Value::CabCamera.wire_code(), 47);
    assert_eq!(Value::FreeCamera.wire_code(), 57);
}

#[test]
fn value_wire_codes_are_pairwise_distinct() {
    for (i, a) in ALL_VALUES.iter().enumerate() {
        for (j, b) in ALL_VALUES.iter().enumerate() {
            if i != j {
                assert_ne!(a.wire_code(), b.wire_code());
            }
        }
    }
}

#[test]
fn kind_wire_codes_match_reference_table() {
    assert_eq!(Kind::Current.wire_code(), 0);
    assert_eq!(Kind::Min.wire_code(), 1);
    assert_eq!(Kind::Max.wire_code(), 2);
}

#[test]
fn kind_wire_codes_are_pairwise_distinct() {
    let kinds = [Kind::Current, Kind::Min, Kind::Max];
    for (i, a) in kinds.iter().enumerate() {
        for (j, b) in kinds.iter().enumerate() {
            if i != j {
                assert_ne!(a.wire_code(), b.wire_code());
            }
        }
    }
}
