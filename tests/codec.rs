use lego_powered_up::codes::{
    AlertOperation, AlertPayload, AlertType, CompletionInfo, DatasetType, EndState, ErrorCode,
    HubAction, HubPropertyOperation, HubPropertyRef, InformationType, ModeInformationType,
    StartupInfo,
};
use lego_powered_up::error::Error;
use lego_powered_up::notifications::{
    decode, AttachedIo, ErrorMessageFormat, HubActionRequest, HubAlert, HubProperty,
    InformationRequest, InputSetupSingle, IoAttachEvent, ModeInformationRequest, NetworkCommand,
    NotificationMessage, PortInformationType, PortInformationValue, PortModeInformationType,
    PortModeInformationValue, PortOutputCommandFeedbackFormat, PortOutputCommandFormat,
    PortOutputSubcommand, PortValueCombinedFormat, PortValueSingleFormat, ValueFormatType,
};

fn round_trip(m: NotificationMessage) {
    let bytes = m.encode();
    assert_eq!(bytes[0] as usize, bytes.len());
    assert_eq!(decode(&bytes), Ok(m));
}

fn all_messages() -> Vec<NotificationMessage> {
    vec![
        NotificationMessage::HubProperties(HubProperty {
            reference: HubPropertyRef::BatteryVoltage,
            operation: HubPropertyOperation::Update,
            payload: vec![87],
        }),
        NotificationMessage::HubActions(HubActionRequest { action_type: HubAction::HubWillSwitchOff }),
        NotificationMessage::HubAlerts(HubAlert {
            alert_type: AlertType::LowVoltage,
            operation: AlertOperation::Update,
            payload: AlertPayload::Alert,
        }),
        NotificationMessage::HubAlerts(HubAlert {
            alert_type: AlertType::HighCurrent,
            operation: AlertOperation::EnableUpdates,
            payload: AlertPayload::StatusOk,
        }),
        NotificationMessage::HubAttachedIo(AttachedIo {
            port: 1,
            event: IoAttachEvent::AttachedIo { io_type_id: 0x0001, hw_rev: 0x1000_0000, fw_rev: 0x0200_0001 },
        }),
        NotificationMessage::HubAttachedIo(AttachedIo { port: 2, event: IoAttachEvent::DetachedIo }),
        NotificationMessage::HubAttachedIo(AttachedIo {
            port: 0x10,
            event: IoAttachEvent::AttachedVirtualIo { io_type_id: 0x002E, port_a: 0, port_b: 1 },
        }),
        NotificationMessage::GenericErrorMessages(ErrorMessageFormat {
            command_type: 0x81,
            error_code: ErrorCode::InvalidUse,
        }),
        NotificationMessage::HwNetworkCommands(NetworkCommand { payload: vec![0x02, 0x01] }),
        NotificationMessage::PortInformationRequest(InformationRequest {
            port_id: 3,
            information_type: InformationType::PossibleModeCombinations,
        }),
        NotificationMessage::PortModeInformationRequest(ModeInformationRequest {
            port_id: 3,
            mode: 2,
            information_type: ModeInformationType::ValueFormat,
        }),
        NotificationMessage::PortInputFormatSetupSingle(InputSetupSingle {
            port_id: 0,
            mode: 2,
            delta: 5,
            notification_enabled: true,
        }),
        NotificationMessage::PortInformation(PortInformationValue {
            port_id: 0,
            information_type: PortInformationType::ModeInfo {
                capabilities: 0x0F,
                mode_count: 6,
                input_modes: 0x001E,
                output_modes: 0x0001,
            },
        }),
        NotificationMessage::PortInformation(PortInformationValue {
            port_id: 0,
            information_type: PortInformationType::PossibleModeCombinations(vec![0x000E, 0x0003]),
        }),
        NotificationMessage::PortModeInformation(PortModeInformationValue {
            port_id: 0,
            mode: 1,
            information_type: PortModeInformationType::Name(b"SPEED".to_vec()),
        }),
        NotificationMessage::PortModeInformation(PortModeInformationValue {
            port_id: 0,
            mode: 2,
            information_type: PortModeInformationType::RawRange {
                min: (-360.0f32).to_bits(),
                max: 360.0f32.to_bits(),
            },
        }),
        NotificationMessage::PortModeInformation(PortModeInformationValue {
            port_id: 0,
            mode: 2,
            information_type: PortModeInformationType::PctRange { min: 0, max: 100.0f32.to_bits() },
        }),
        NotificationMessage::PortModeInformation(PortModeInformationValue {
            port_id: 0,
            mode: 2,
            information_type: PortModeInformationType::SiRange { min: 1, max: 2 },
        }),
        NotificationMessage::PortModeInformation(PortModeInformationValue {
            port_id: 0,
            mode: 2,
            information_type: PortModeInformationType::Symbol(b"DEG".to_vec()),
        }),
        NotificationMessage::PortModeInformation(PortModeInformationValue {
            port_id: 0,
            mode: 2,
            information_type: PortModeInformationType::Mapping { input: 0x08, output: 0x08 },
        }),
        NotificationMessage::PortModeInformation(PortModeInformationValue {
            port_id: 0,
            mode: 2,
            information_type: PortModeInformationType::MotorBias(20),
        }),
        NotificationMessage::PortModeInformation(PortModeInformationValue {
            port_id: 0,
            mode: 2,
            information_type: PortModeInformationType::ValueFormat(ValueFormatType {
                number_of_datasets: 1,
                dataset_type: DatasetType::Bits32,
                total_figures: 4,
                decimals: 0,
            }),
        }),
        NotificationMessage::PortValueSingle(PortValueSingleFormat { port_id: 1, data: vec![0x2A, 0, 0, 0] }),
        NotificationMessage::PortValueCombined(PortValueCombinedFormat {
            port_id: 1,
            mode_pointers: 0x0006,
            data: vec![1, 2, 3],
        }),
        NotificationMessage::PortInputFormatSingle(InputSetupSingle {
            port_id: 1,
            mode: 2,
            delta: 1,
            notification_enabled: false,
        }),
        NotificationMessage::PortOutputCommand(PortOutputCommandFormat {
            port_id: 0,
            startup_info: StartupInfo::ExecuteImmediately,
            completion_info: CompletionInfo::CommandFeedback,
            subcommand: PortOutputSubcommand::StartSpeed {
                speed: -50,
                max_power: 100,
                use_acc_profile: true,
                use_dec_profile: false,
            },
        }),
        NotificationMessage::PortOutputCommand(PortOutputCommandFormat {
            port_id: 0,
            startup_info: StartupInfo::BufferIfNecessary,
            completion_info: CompletionInfo::NoAction,
            subcommand: PortOutputSubcommand::GotoAbsolutePosition {
                abs_pos: -90,
                speed: 30,
                max_power: 80,
                end_state: EndState::Hold,
                use_acc_profile: false,
                use_dec_profile: true,
            },
        }),
        NotificationMessage::PortOutputCommand(PortOutputCommandFormat {
            port_id: 0x32,
            startup_info: StartupInfo::ExecuteImmediately,
            completion_info: CompletionInfo::NoAction,
            subcommand: PortOutputSubcommand::WriteDirectModeData { mode: 1, payload: vec![0, 0xFF, 0] },
        }),
        NotificationMessage::PortOutputCommandFeedback(PortOutputCommandFeedbackFormat {
            port_id: 0,
            feedback: 0x0A,
        }),
    ]
}

#[test]
fn every_variant_round_trips() {
    for m in all_messages() {
        round_trip(m);
    }
}

#[test]
fn encoding_is_stable() {
    for m in all_messages() {
        assert_eq!(m.encode(), m.clone().encode());
    }
}

#[test]
fn attach_frame_layout() {
    let m = NotificationMessage::HubAttachedIo(AttachedIo {
        port: 1,
        event: IoAttachEvent::AttachedIo { io_type_id: 0x0001, hw_rev: 0x04030201, fw_rev: 0x08070605 },
    });
    assert_eq!(
        m.encode(),
        vec![0x0F, 0x00, 0x04, 0x01, 0x01, 0x01, 0x00, 1, 2, 3, 4, 5, 6, 7, 8]
    );
}

#[test]
fn start_speed_frame_layout() {
    let m = NotificationMessage::PortOutputCommand(PortOutputCommandFormat {
        port_id: 2,
        startup_info: StartupInfo::ExecuteImmediately,
        completion_info: CompletionInfo::NoAction,
        subcommand: PortOutputSubcommand::StartSpeed {
            speed: -1,
            max_power: 100,
            use_acc_profile: true,
            use_dec_profile: true,
        },
    });
    assert_eq!(m.encode(), vec![0x09, 0x00, 0x81, 0x02, 0x10, 0x07, 0xFF, 0x64, 0x03]);
}

#[test]
fn goto_position_frame_layout() {
    let m = NotificationMessage::PortOutputCommand(PortOutputCommandFormat {
        port_id: 0,
        startup_info: StartupInfo::ExecuteImmediately,
        completion_info: CompletionInfo::NoAction,
        subcommand: PortOutputSubcommand::GotoAbsolutePosition {
            abs_pos: -2,
            speed: 10,
            max_power: 50,
            end_state: EndState::Brake,
            use_acc_profile: false,
            use_dec_profile: false,
        },
    });
    assert_eq!(
        m.encode(),
        vec![0x0E, 0x00, 0x81, 0x00, 0x10, 0x0D, 0xFE, 0xFF, 0xFF, 0xFF, 10, 50, 0x7F, 0x00]
    );
}

#[test]
fn long_frame_uses_two_byte_length() {
    let m = NotificationMessage::HwNetworkCommands(NetworkCommand { payload: vec![7; 125] });
    let bytes = m.encode();
    assert_eq!(bytes.len(), 129);
    assert_eq!(&bytes[0..4], &[0x81, 0x01, 0x00, 0x08]);
    assert_eq!(decode(&bytes), Ok(m));
}

#[test]
fn longest_one_byte_frame() {
    let m = NotificationMessage::HwNetworkCommands(NetworkCommand { payload: vec![1; 124] });
    let bytes = m.encode();
    assert_eq!(bytes.len(), 127);
    assert_eq!(bytes[0], 127);
    assert_eq!(decode(&bytes), Ok(m));
}

#[test]
fn decode_empty_is_malformed() {
    assert_eq!(decode(&[]), Err(Error::Malformed));
}

#[test]
fn decode_truncated_is_malformed() {
    let bytes = all_messages()[4].encode();
    for n in 0..bytes.len() {
        assert_eq!(decode(&bytes[..n]), Err(Error::Malformed));
    }
}

#[test]
fn decode_unknown_type_is_malformed() {
    assert_eq!(decode(&[0x04, 0x00, 0x7A, 0x00]), Err(Error::Malformed));
}

#[test]
fn decode_wrong_hub_id_is_malformed() {
    assert_eq!(decode(&[0x05, 0x01, 0x21, 0x01, 0x01]), Err(Error::Malformed));
}

#[test]
fn decode_non_canonical_length_is_malformed() {
    // A two-byte prefix declaring a length that fits in one byte.
    assert_eq!(decode(&[0x85, 0x00, 0x00, 0x21, 0x01]), Err(Error::Malformed));
}

#[test]
fn decode_bad_payload_length_is_malformed() {
    // A port-information request with a byte too many.
    assert_eq!(decode(&[0x06, 0x00, 0x21, 0x01, 0x01, 0x00]), Err(Error::Malformed));
    // An unknown per-mode reply kind.
    assert_eq!(decode(&[0x07, 0x00, 0x44, 0x01, 0x00, 0x09, 0x00]), Err(Error::Malformed));
}

#[test]
fn decode_garbage_never_panics() {
    let mut seed: u32 = 12345;
    for len in 0..64usize {
        let mut buf = Vec::new();
        for _ in 0..len {
            seed = seed.wrapping_mul(1103515245).wrapping_add(12345);
            buf.push((seed >> 16) as u8);
        }
        if let Ok(m) = decode(&buf) {
            let n = m.encode().len();
            assert_eq!(m.encode()[..], buf[..n]);
        }
    }
}

#[test]
fn decode_ignores_bytes_after_the_frame() {
    let bytes = [0x05, 0x00, 0x21, 0x01, 0x01, 0xAA, 0xBB];
    assert_eq!(
        decode(&bytes),
        Ok(NotificationMessage::PortInformationRequest(InformationRequest {
            port_id: 1,
            information_type: InformationType::ModeInfo,
        }))
    );
}

#[test]
fn decode_alert_payload_only_on_update() {
    // An alert request must not carry alert state.
    assert_eq!(decode(&[0x06, 0x00, 0x03, 0x01, 0x01, 0x00]), Err(Error::Malformed));
    assert_eq!(
        decode(&[0x06, 0x00, 0x03, 0x01, 0x04, 0xFF]),
        Ok(NotificationMessage::HubAlerts(HubAlert {
            alert_type: AlertType::LowVoltage,
            operation: AlertOperation::Update,
            payload: AlertPayload::Alert,
        }))
    );
}
