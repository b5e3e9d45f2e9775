use lego_powered_up::codes::{
    AlertOperation, AlertType, DatasetType, EndState, HubAction, HubPropertyOperation,
    HubPropertyRef, InformationType, ModeInformationType,
};
use lego_powered_up::consts::{Color, HubType, IoTypeId};
use lego_powered_up::devices::light::HubLedMode;
use lego_powered_up::devices::{Device, Power};
use lego_powered_up::error::Error;
use lego_powered_up::hubs::feedback::{decode_float_bits, decode_samples, port_samples};
use lego_powered_up::hubs::io_event::{dispatch_frame, dispatch_message, Publication};
use lego_powered_up::hubs::remote::{RemoteControl, RemotePort};
use lego_powered_up::hubs::{HubProperties, HubSession};
use lego_powered_up::iodevice::ModeRange;
use lego_powered_up::notifications::{
    AttachedIo, IoAttachEvent, NotificationMessage, PortModeInformationType,
    PortModeInformationValue, PortValueSingleFormat, ValueFormatType,
};

fn session() -> HubSession {
    HubSession::new(HubType::TechnicMediumHub, HubProperties::default())
}

const ATTACH_MOTOR_PORT_1: [u8; 15] =
    [0x0F, 0x00, 0x04, 0x01, 0x01, 0x01, 0x00, 0, 0, 0, 0x10, 0, 0, 0, 0x10];

const MODE_INFO_PORT_1_THREE_MODES: [u8; 11] =
    [0x0B, 0x00, 0x43, 0x01, 0x01, 0x0F, 0x03, 0x06, 0x00, 0x01, 0x00];

fn mode_reply(port: u8, mode: u8, t: PortModeInformationType) -> NotificationMessage {
    NotificationMessage::PortModeInformation(PortModeInformationValue {
        port_id: port,
        mode,
        information_type: t,
    })
}

fn eight_replies() -> Vec<PortModeInformationType> {
    vec![
        PortModeInformationType::Name(b"POS".to_vec()),
        PortModeInformationType::RawRange { min: 1, max: 2 },
        PortModeInformationType::PctRange { min: 3, max: 4 },
        PortModeInformationType::SiRange { min: 5, max: 6 },
        PortModeInformationType::Symbol(b"DEG".to_vec()),
        PortModeInformationType::Mapping { input: 0x08, output: 0x08 },
        PortModeInformationType::MotorBias(7),
        PortModeInformationType::ValueFormat(ValueFormatType {
            number_of_datasets: 1,
            dataset_type: DatasetType::Bits32,
            total_figures: 4,
            decimals: 0,
        }),
    ]
}

#[test]
fn attach_creates_record_and_two_requests() {
    let mut s = session();
    let d = dispatch_frame(&mut s, &ATTACH_MOTOR_PORT_1);
    let rec = s.io_from_port(1).unwrap();
    assert_eq!(rec.kind, IoTypeId::Motor);
    assert_eq!(rec.port, 1);
    assert_eq!(rec.mode_count, 0);
    assert!(rec.modes.is_empty());
    assert_eq!(d.requests, vec![vec![0x05, 0x00, 0x21, 0x01, 0x01], vec![0x05, 0x00, 0x21, 0x01, 0x02]]);
    assert!(d.publication.is_none());
}

#[test]
fn mode_info_reply_issues_eight_requests_per_mode() {
    let mut s = session();
    dispatch_frame(&mut s, &ATTACH_MOTOR_PORT_1);
    let d = dispatch_frame(&mut s, &MODE_INFO_PORT_1_THREE_MODES);
    assert_eq!(d.requests.len(), 24);
    let kinds = [0x00u8, 0x01, 0x02, 0x03, 0x04, 0x05, 0x07, 0x80];
    for mode in 0..3u8 {
        for (k, kind) in kinds.iter().enumerate() {
            assert_eq!(d.requests[mode as usize * 8 + k], vec![0x06, 0x00, 0x22, 0x01, mode, *kind]);
        }
    }
    let rec = s.io_from_port(1).unwrap();
    assert_eq!(rec.mode_count, 3);
    assert_eq!(rec.capabilities, 0x0F);
    assert_eq!(rec.input_modes, 0x0006);
    assert_eq!(rec.output_modes, 0x0001);
}

#[test]
fn handshake_issues_two_plus_eight_n_distinct_requests() {
    let mut s = session();
    let mut all = dispatch_frame(&mut s, &ATTACH_MOTOR_PORT_1).requests;
    all.extend(dispatch_frame(&mut s, &MODE_INFO_PORT_1_THREE_MODES).requests);
    assert_eq!(all.len(), 2 + 8 * 3);
    for i in 0..all.len() {
        for j in i + 1..all.len() {
            assert_ne!(all[i], all[j]);
        }
    }
}

#[test]
fn mode_combinations_reply_is_stored() {
    let mut s = session();
    dispatch_frame(&mut s, &ATTACH_MOTOR_PORT_1);
    let d = dispatch_frame(&mut s, &[0x09, 0x00, 0x43, 0x01, 0x02, 0x06, 0x00, 0x0E, 0x00]);
    assert!(d.requests.is_empty());
    assert_eq!(s.io_from_port(1).unwrap().valid_combos, vec![0x0006, 0x000E]);
}

#[test]
fn per_mode_replies_in_reverse_order_give_same_record() {
    let mut a = session();
    let mut b = session();
    dispatch_frame(&mut a, &ATTACH_MOTOR_PORT_1);
    dispatch_frame(&mut b, &ATTACH_MOTOR_PORT_1);
    for t in eight_replies() {
        dispatch_message(&mut a, mode_reply(1, 2, t));
    }
    for t in eight_replies().into_iter().rev() {
        dispatch_message(&mut b, mode_reply(1, 2, t));
    }
    let ma = &a.io_from_port(1).unwrap().modes[&2];
    let mb = &b.io_from_port(1).unwrap().modes[&2];
    assert_eq!(format!("{:?}", ma), format!("{:?}", mb));
    assert_eq!(ma.name, Some(b"POS".to_vec()));
    assert_eq!(ma.raw, Some(ModeRange { min: 1, max: 2 }));
    assert_eq!(ma.symbol, Some(b"DEG".to_vec()));
    assert_eq!(ma.motor_bias, Some(7));
}

#[test]
fn repeated_reply_overwrites() {
    let mut s = session();
    dispatch_frame(&mut s, &ATTACH_MOTOR_PORT_1);
    dispatch_message(&mut s, mode_reply(1, 0, PortModeInformationType::MotorBias(3)));
    dispatch_message(&mut s, mode_reply(1, 0, PortModeInformationType::MotorBias(9)));
    assert_eq!(s.io_from_port(1).unwrap().modes[&0].motor_bias, Some(9));
    assert_eq!(s.io_from_port(1).unwrap().modes.len(), 1);
}

#[test]
fn reply_after_detach_is_discarded() {
    let mut s = session();
    dispatch_frame(&mut s, &ATTACH_MOTOR_PORT_1);
    let d = dispatch_frame(&mut s, &[0x05, 0x00, 0x04, 0x01, 0x00]);
    assert!(d.requests.is_empty());
    assert_eq!(s.io_from_port(1).err(), Some(Error::NotFound));
    let d = dispatch_message(&mut s, mode_reply(1, 0, PortModeInformationType::MotorBias(3)));
    assert!(d.requests.is_empty());
    let d = dispatch_frame(&mut s, &MODE_INFO_PORT_1_THREE_MODES);
    assert!(d.requests.is_empty());
    assert_eq!(s.io_from_port(1).err(), Some(Error::NotFound));
}

#[test]
fn virtual_attach_keeps_physical_records() {
    let mut s = session();
    dispatch_frame(&mut s, &ATTACH_MOTOR_PORT_1);
    dispatch_frame(&mut s, &[0x0F, 0x00, 0x04, 0x00, 0x01, 0x01, 0x00, 0, 0, 0, 0, 0, 0, 0, 0]);
    let d = dispatch_frame(&mut s, &[0x09, 0x00, 0x04, 0x10, 0x02, 0x01, 0x00, 0x00, 0x01]);
    assert_eq!(d.requests.len(), 2);
    assert_eq!(s.io_from_port(0x10).unwrap().virtual_ports, Some((0, 1)));
    assert!(s.io_from_port(0).is_ok());
    assert!(s.io_from_port(1).is_ok());
}

#[test]
fn malformed_frame_changes_nothing() {
    let mut s = session();
    dispatch_frame(&mut s, &ATTACH_MOTOR_PORT_1);
    let d = dispatch_frame(&mut s, &[0x03, 0x00]);
    assert!(d.requests.is_empty());
    assert!(d.publication.is_none());
    assert!(s.io_from_port(1).is_ok());
    assert!(s.is_connected());
}

#[test]
fn single_value_telemetry_for_port_decodes_to_42() {
    let mut s = session();
    let d = dispatch_frame(&mut s, &[0x08, 0x00, 0x45, 0x01, 0x2A, 0x00, 0x00, 0x00]);
    assert!(d.requests.is_empty());
    match d.publication {
        Some(Publication::SingleValue(PortValueSingleFormat { port_id, data })) => {
            assert_eq!(port_id, 1);
            assert_eq!(decode_samples(DatasetType::Bits32, 1, &data), Ok(vec![42]));
        }
        other => panic!("unexpected publication {:?}", other),
    }
}

#[test]
fn telemetry_with_no_record_is_published_without_change() {
    let mut s = session();
    let d = dispatch_frame(&mut s, &[0x06, 0x00, 0x46, 0x01, 0x01, 0x00]);
    assert!(d.requests.is_empty());
    assert!(matches!(d.publication, Some(Publication::CombinedValue(_))));
    assert_eq!(s.io_from_port(1).err(), Some(Error::NotFound));
}

#[test]
fn hub_notices_are_published() {
    let mut s = session();
    let d = dispatch_frame(&mut s, &[0x04, 0x00, 0x02, 0x31]);
    match d.publication {
        Some(Publication::Hub(n)) => {
            assert!(n.hub_action.is_some());
            assert!(n.hub_property.is_none() && n.hub_alert.is_none() && n.hub_error.is_none());
        }
        other => panic!("unexpected publication {:?}", other),
    }
    let d = dispatch_frame(&mut s, &[0x05, 0x00, 0x05, 0x81, 0x06]);
    assert!(matches!(d.publication, Some(Publication::Hub(ref n)) if n.hub_error.is_some()));
}

#[test]
fn feedback_is_discarded() {
    let mut s = session();
    let d = dispatch_frame(&mut s, &[0x05, 0x00, 0x82, 0x00, 0x0A]);
    assert!(d.requests.is_empty());
    assert!(d.publication.is_none());
}

#[test]
fn command_after_stream_end_is_disconnected() {
    let mut s = session();
    dispatch_frame(&mut s, &ATTACH_MOTOR_PORT_1);
    let motor = s.device(1).unwrap();
    assert!(motor.start_speed(s.is_connected(), 50, 100).is_ok());
    s.close();
    assert_eq!(motor.start_speed(s.is_connected(), 50, 100), Err(Error::Disconnected));
    assert_eq!(motor.set_port_mode(s.is_connected(), 2, 1, true), Err(Error::Disconnected));
}

#[test]
fn commands_to_two_ports_are_independent() {
    let mut s = session();
    dispatch_frame(&mut s, &ATTACH_MOTOR_PORT_1);
    dispatch_frame(&mut s, &[0x0F, 0x00, 0x04, 0x00, 0x01, 0x01, 0x00, 0, 0, 0, 0, 0, 0, 0, 0]);
    let a = s.device(0).unwrap();
    let b = s.device(1).unwrap();
    let fa = a.start_speed(true, 20, 100).unwrap();
    let fb = b.start_speed(true, -20, 100).unwrap();
    assert_eq!(fa, vec![0x09, 0x00, 0x81, 0x00, 0x10, 0x07, 20, 100, 0x03]);
    assert_eq!(fb, vec![0x09, 0x00, 0x81, 0x01, 0x10, 0x07, 0xEC, 100, 0x03]);
}

#[test]
fn device_for_missing_port_is_not_found() {
    let s = session();
    assert_eq!(s.device(3), Err(Error::NotFound));
}

#[test]
fn led_command_on_motor_is_unsupported() {
    let motor = Device::new(IoTypeId::TechnicLargeLinearMotor, 0);
    assert_eq!(motor.set_hubled_rgb(true, &[1, 2, 3]), Err(Error::Unsupported));
    assert_eq!(motor.set_hubled_color(true, Color::Red), Err(Error::Unsupported));
    assert_eq!(motor.set_hubled_mode(true, HubLedMode::Rgb), Err(Error::Unsupported));
}

#[test]
fn motor_command_on_led_is_unsupported() {
    let led = Device::new(IoTypeId::HubLed, 0x32);
    assert_eq!(led.start_speed(true, 10, 100), Err(Error::Unsupported));
    assert_eq!(led.start_power(true, Power::Brake), Err(Error::Unsupported));
    assert_eq!(led.goto_absolute_position(true, 0, 10, 100, EndState::Hold), Err(Error::Unsupported));
}

#[test]
fn led_command_frames() {
    let led = Device::new(IoTypeId::HubLed, 0x32);
    assert_eq!(
        led.set_hubled_rgb(true, &[0x00, 0xFF, 0x00]),
        Ok(vec![0x0A, 0x00, 0x81, 0x32, 0x10, 0x51, 0x01, 0x00, 0xFF, 0x00])
    );
    assert_eq!(
        led.set_hubled_color(true, Color::Green),
        Ok(vec![0x08, 0x00, 0x81, 0x32, 0x10, 0x51, 0x00, 0x06])
    );
    assert_eq!(
        led.set_hubled_mode(true, HubLedMode::Colour),
        Ok(vec![0x0A, 0x00, 0x41, 0x32, 0x00, 0x01, 0x00, 0x00, 0x00, 0x01])
    );
}

#[test]
fn power_frames() {
    let m = Device::new(IoTypeId::Motor, 2);
    assert_eq!(m.start_power(true, Power::Cw(50)), Ok(vec![0x08, 0x00, 0x81, 0x02, 0x10, 0x51, 0x00, 50]));
    assert_eq!(m.start_power(true, Power::Ccw(50)), Ok(vec![0x08, 0x00, 0x81, 0x02, 0x10, 0x51, 0x00, 0xCE]));
    assert_eq!(m.start_power(true, Power::Brake), Ok(vec![0x08, 0x00, 0x81, 0x02, 0x10, 0x51, 0x00, 0x7F]));
    assert_eq!(m.start_power(true, Power::Float), Ok(vec![0x08, 0x00, 0x81, 0x02, 0x10, 0x51, 0x00, 0x00]));
    assert_eq!(Power::Cw(200).value(), 100);
    assert_eq!(Power::Ccw(200).value(), -100);
}

#[test]
fn samples_by_format() {
    assert_eq!(decode_samples(DatasetType::Bits8, 2, &[0x05, 0xFB]), Ok(vec![5, -5]));
    assert_eq!(decode_samples(DatasetType::Bits16, 1, &[0x18, 0xFC]), Ok(vec![-1000]));
    assert_eq!(decode_samples(DatasetType::Bits32, 1, &[0xFF, 0xFF, 0xFF, 0xFF]), Ok(vec![-1]));
    assert_eq!(decode_samples(DatasetType::Bits32, 2, &[0x2A, 0, 0, 0]), Err(Error::Malformed));
    assert_eq!(decode_samples(DatasetType::Float, 1, &[0, 0, 0x80, 0x3F]), Err(Error::Unsupported));
    assert_eq!(decode_float_bits(1, &[0, 0, 0x80, 0x3F]), Ok(vec![1.0f32.to_bits()]));
    assert_eq!(decode_samples(DatasetType::Bits8, 0, &[]), Ok(vec![]));
}

#[test]
fn device_of_kind_finds_lowest_port() {
    let mut s = session();
    assert_eq!(s.device_of_kind(IoTypeId::Motor), Err(Error::NotFound));
    dispatch_frame(&mut s, &[0x0F, 0x00, 0x04, 0x03, 0x01, 0x01, 0x00, 0, 0, 0, 0, 0, 0, 0, 0]);
    dispatch_frame(&mut s, &ATTACH_MOTOR_PORT_1);
    dispatch_frame(&mut s, &[0x0F, 0x00, 0x04, 0x32, 0x01, 0x17, 0x00, 0, 0, 0, 0, 0, 0, 0, 0]);
    assert_eq!(s.device_of_kind(IoTypeId::Motor).unwrap().port(), 1);
    assert_eq!(s.device_of_kind(IoTypeId::HubLed).unwrap().port(), 0x32);
    assert!(matches!(s.device_of_kind(IoTypeId::HubLed), Ok(Device::HubLed(_))));
    assert_eq!(s.device_of_kind(IoTypeId::VisionSensor), Err(Error::NotFound));
}

#[test]
fn other_kinds_get_generic_handles() {
    let d = Device::new(IoTypeId::VisionSensor, 4);
    assert!(matches!(d, Device::Other { .. }));
    assert_eq!(d.start_speed(true, 1, 1), Err(Error::Unsupported));
    assert_eq!(
        d.set_port_mode(true, 8, 1, false),
        Ok(vec![0x0A, 0x00, 0x41, 0x04, 0x08, 0x01, 0x00, 0x00, 0x00, 0x00])
    );
}

#[test]
fn hub_level_requests() {
    let mut s = session();
    assert_eq!(s.request_port_info(2, InformationType::ModeInfo), Ok(vec![0x05, 0x00, 0x21, 0x02, 0x01]));
    assert_eq!(
        s.req_mode_info(2, 1, ModeInformationType::ValueFormat),
        Ok(vec![0x06, 0x00, 0x22, 0x02, 0x01, 0x80])
    );
    assert_eq!(
        s.hub_props(HubPropertyRef::BatteryVoltage, HubPropertyOperation::EnableUpdates),
        Ok(vec![0x05, 0x00, 0x01, 0x06, 0x02])
    );
    assert_eq!(s.hub_action(HubAction::SwitchOffHub), Ok(vec![0x04, 0x00, 0x02, 0x01]));
    assert_eq!(
        s.hub_alerts(AlertType::LowVoltage, AlertOperation::EnableUpdates),
        Ok(vec![0x05, 0x00, 0x03, 0x01, 0x01])
    );
    s.close();
    assert_eq!(s.request_port_info(2, InformationType::ModeInfo), Err(Error::Disconnected));
    assert_eq!(s.hub_action(HubAction::Disconnect), Err(Error::Disconnected));
}

#[test]
fn subscriber_filters_by_port_and_recorded_format() {
    let mut s = session();
    dispatch_frame(&mut s, &ATTACH_MOTOR_PORT_1);
    assert_eq!(s.mode_value_format(1, 2), None);
    // Value format of mode 2: one 32-bit dataset.
    dispatch_frame(&mut s, &[0x0A, 0x00, 0x44, 0x01, 0x02, 0x80, 0x01, 0x02, 0x04, 0x00]);
    let format = s.mode_value_format(1, 2).unwrap();
    assert_eq!(format.dataset_type, DatasetType::Bits32);
    let here = PortValueSingleFormat { port_id: 1, data: vec![0x2A, 0x00, 0x00, 0x00] };
    let elsewhere = PortValueSingleFormat { port_id: 2, data: vec![0x2A, 0x00, 0x00, 0x00] };
    assert_eq!(port_samples(&here, 1, format), Some(Ok(vec![42])));
    assert_eq!(port_samples(&elsewhere, 1, format), None);
    let short = PortValueSingleFormat { port_id: 1, data: vec![0x2A] };
    assert_eq!(port_samples(&short, 1, format), Some(Err(Error::Malformed)));
}

#[test]
fn attached_io_lists_ports_ascending() {
    let mut s = session();
    assert!(s.attached_io().is_empty());
    dispatch_frame(&mut s, &[0x0F, 0x00, 0x04, 0x32, 0x01, 0x17, 0x00, 0, 0, 0, 0, 0, 0, 0, 0]);
    dispatch_frame(&mut s, &ATTACH_MOTOR_PORT_1);
    dispatch_frame(&mut s, &[0x0F, 0x00, 0x04, 0x00, 0x01, 0x01, 0x00, 0, 0, 0, 0, 0, 0, 0, 0]);
    assert_eq!(s.attached_io(), vec![0, 1, 0x32]);
    dispatch_frame(&mut s, &[0x05, 0x00, 0x04, 0x01, 0x00]);
    assert_eq!(s.attached_io(), vec![0, 0x32]);
}

#[test]
fn remote_control_named_ports() {
    let mut rc = RemoteControl::init(HubProperties::default());
    assert_eq!(rc.port(RemotePort::A), Err(Error::NotFound));
    dispatch_frame(rc.session_mut(), &[0x0F, 0x00, 0x04, 0x00, 0x01, 0x37, 0x00, 0, 0, 0, 0, 0, 0, 0, 0]);
    dispatch_frame(rc.session_mut(), &[0x0F, 0x00, 0x04, 0x34, 0x01, 0x17, 0x00, 0, 0, 0, 0, 0, 0, 0, 0]);
    assert_eq!(
        rc.port(RemotePort::A),
        Ok(Device::Other { kind: IoTypeId::RemoteControlButton, port_id: 0 })
    );
    assert!(matches!(rc.port(RemotePort::HubLed), Ok(Device::HubLed(_))));
    assert_eq!(rc.port(RemotePort::B), Err(Error::NotFound));
    assert_eq!(rc.session().kind(), HubType::RemoteControl);
    assert_eq!(RemotePort::Rssi.id(), 0x3C);
}

#[test]
fn property_reports_fill_identity() {
    let mut s = session();
    assert_eq!(s.properties().battery_level, 0);
    assert_eq!(s.properties().rssi, 0);
    // Battery level update: 87 percent.
    let d = dispatch_frame(&mut s, &[0x06, 0x00, 0x01, 0x06, 0x06, 87]);
    assert!(matches!(d.publication, Some(Publication::Hub(ref n)) if n.hub_property.is_some()));
    assert_eq!(s.properties().battery_level, 87);
    // Signal strength update: -60.
    dispatch_frame(&mut s, &[0x06, 0x00, 0x01, 0x05, 0x06, 0xC4]);
    assert_eq!(s.properties().rssi, -60);
    // A request is not a report.
    dispatch_frame(&mut s, &[0x06, 0x00, 0x01, 0x06, 0x05, 10]);
    assert_eq!(s.properties().battery_level, 87);
}

#[test]
fn identity_reports_fill_name_versions_and_mac() {
    let mut s = session();
    // Name "Technic".
    dispatch_frame(&mut s, &[0x0C, 0x00, 0x01, 0x01, 0x06, b'T', b'e', b'c', b'h', b'n', b'i', b'c']);
    assert_eq!(s.properties().name, "Technic");
    // Firmware 1.1.00.0004 as the hub lays it out.
    dispatch_frame(&mut s, &[0x09, 0x00, 0x01, 0x03, 0x06, 0x04, 0x00, 0x00, 0x11]);
    assert_eq!(s.properties().fw_version, "1.1.00.0004");
    dispatch_frame(&mut s, &[0x09, 0x00, 0x01, 0x04, 0x06, 0x00, 0x00, 0x00, 0x07]);
    assert_eq!(s.properties().hw_version, "0.7.00.0000");
    dispatch_frame(&mut s, &[0x0B, 0x00, 0x01, 0x0D, 0x06, 0x90, 0x84, 0x2B, 0x60, 0x3C, 0xB8]);
    assert_eq!(s.properties().mac_address, "90:84:2B:60:3C:B8");
    // A name that is not UTF-8 leaves the name as it was.
    dispatch_frame(&mut s, &[0x07, 0x00, 0x01, 0x01, 0x06, 0xFF, 0xFE]);
    assert_eq!(s.properties().name, "Technic");
    // A version report too short for its field is ignored.
    dispatch_frame(&mut s, &[0x07, 0x00, 0x01, 0x03, 0x06, 0x01, 0x02]);
    assert_eq!(s.properties().fw_version, "1.1.00.0004");
}

#[test]
fn remote_control_keeps_its_properties() {
    let mut props = HubProperties::default();
    props.name = "Handset".to_string();
    props.mac_address = "90:84:2B:60:3A:6C".to_string();
    props.rssi = -42;
    let rc = RemoteControl::init(props);
    assert_eq!(rc.properties().name, "Handset");
    assert_eq!(rc.properties().mac_address, "90:84:2B:60:3A:6C");
    assert_eq!(rc.properties().rssi, -42);
    assert_eq!(rc.properties().battery_level, 0);
    assert!(rc.properties().fw_version.is_empty());
    assert!(rc.session().attached_io().is_empty());
    assert!(rc.session().is_connected());
}

#[test]
fn handshake_with_other_ports_interleaved() {
    let mut s = session();
    let mut for_port_1: Vec<Vec<u8>> = Vec::new();
    let mut collect = |reqs: Vec<Vec<u8>>, out: &mut Vec<Vec<u8>>| {
        for r in reqs {
            if r[3] == 1 {
                out.push(r);
            }
        }
    };
    collect(dispatch_frame(&mut s, &ATTACH_MOTOR_PORT_1).requests, &mut for_port_1);
    // Port 0 attaches and reports its modes between port 1's attach and its reply.
    collect(
        dispatch_frame(&mut s, &[0x0F, 0x00, 0x04, 0x00, 0x01, 0x01, 0x00, 0, 0, 0, 0, 0, 0, 0, 0]).requests,
        &mut for_port_1,
    );
    collect(
        dispatch_frame(&mut s, &[0x0B, 0x00, 0x43, 0x00, 0x01, 0x0F, 0x02, 0x06, 0x00, 0x01, 0x00]).requests,
        &mut for_port_1,
    );
    collect(dispatch_frame(&mut s, &MODE_INFO_PORT_1_THREE_MODES).requests, &mut for_port_1);
    collect(
        dispatch_frame(&mut s, &[0x0F, 0x00, 0x04, 0x02, 0x01, 0x01, 0x00, 0, 0, 0, 0, 0, 0, 0, 0]).requests,
        &mut for_port_1,
    );
    assert_eq!(for_port_1.len(), 2 + 8 * 3);
    assert_eq!(for_port_1[0], vec![0x05, 0x00, 0x21, 0x01, 0x01]);
    assert_eq!(for_port_1[1], vec![0x05, 0x00, 0x21, 0x01, 0x02]);
    assert_eq!(for_port_1[2], vec![0x06, 0x00, 0x22, 0x01, 0x00, 0x00]);
    assert_eq!(for_port_1[25], vec![0x06, 0x00, 0x22, 0x01, 0x02, 0x80]);
}
