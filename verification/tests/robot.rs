//! The robot's own parts: identity, anchors, sensors, drive and user interface.

use dropbot::robot::anchors::{resolve_from_config as resolve_anchors, AnchorEntry, Layout};
use dropbot::robot::attitude::{finish, AttitudeSeeds, AttitudeStart, AttitudeUpdate};
use dropbot::robot::configuration::{is_authority, OtaConfiguration};
use dropbot::robot::device;
use dropbot::robot::events::{BrokerStatus, MenuPage, OtaStatus};
use dropbot::robot::heading::VisitedSectors;
use dropbot::robot::imu::{
    check_product_id, check_upload, inertial_init_step, magnetic_init_step, probe, read_inertial,
    read_magnetic, upload_chunk, word, Bmi270Error, Imu9Axis, ImuError, InertialCounts, InitStep,
    MagneticCounts, Mmc5983maError, UploadChunk,
};
use dropbot::robot::messages::default_capture_seconds;
use dropbot::robot::motor::{
    drive, set_motor_outputs, set_speed, stop, Direction, MotorAction, MotorCommand,
    MotorDriverError, MotorDriverErrorSource, MotorDriverOperation, MotorOutputs, Side,
};
use dropbot::robot::pose::{BiasVariance, PoseStage, RangeCheck, RangeVerdict};
use dropbot::robot::tag_id::{
    resolve_from_config as resolve_tag, str_eq, tag_index, TagAssignment,
};
use dropbot::uwb::ranging::RangeBias;
use dropbot::uwb::schedule::ANCHOR_IDS;

fn entry(anchor_id: u16, offset_mm: i32, scale_ppm: i32) -> AnchorEntry {
    AnchorEntry { anchor_id, position_usable: true, offset_mm, scale_ppm }
}

fn assignment(device_id: &str, tag_index: u8) -> TagAssignment {
    TagAssignment { device_id: device_id.to_string(), tag_index }
}

#[test]
fn without_a_configuration_nothing_is_known() {
    let layout = resolve_anchors(&[]);
    assert_eq!(layout, Layout::default());
    assert_eq!(layout.positions, [None; 4]);
    assert_eq!(layout.biases, [RangeBias::none(); 4]);
    assert_eq!(layout.known_count(), 0);
    assert!(!layout.is_solvable());
}

#[test]
fn anchors_are_matched_by_identifier() {
    let mut unusable = entry(ANCHOR_IDS[1], 1, 1);
    unusable.position_usable = false;
    let layout = resolve_anchors(&[
        entry(ANCHOR_IDS[3], 30, -40),
        entry(0x1234, 5, 5),
        unusable,
        entry(ANCHOR_IDS[0], 2_001, 100_001),
        entry(ANCHOR_IDS[3], -5_000, -200_000),
    ]);
    assert_eq!(layout.positions, [Some(3), None, None, Some(4)]);
    assert_eq!(layout.biases[0], RangeBias { offset_mm: 2_000, scale_ppm: 100_000 });
    assert_eq!(layout.biases[1], RangeBias::none());
    assert_eq!(layout.biases[3], RangeBias { offset_mm: -2_000, scale_ppm: -100_000 });
    assert_eq!(layout.known_count(), 2);
    assert!(!layout.is_solvable());
    let three: Vec<AnchorEntry> = ANCHOR_IDS[..3].iter().map(|id| entry(*id, 0, 0)).collect();
    assert!(resolve_anchors(&three).is_solvable());
}

#[test]
fn a_device_gets_its_tag_index_or_none() {
    assert_eq!(tag_index("508040"), Some(0));
    assert_eq!(tag_index("508041"), None);
    assert_eq!(tag_index("50804"), None);
    assert!(str_eq("508040", "508040"));
    assert!(!str_eq("508040", "508O40"));
}

#[test]
fn an_inconsistent_assignment_list_is_refused_as_a_whole() {
    let list = [assignment("AAAAAA", 3), assignment("BBBBBB", 4)];
    assert_eq!(resolve_tag("AAAAAA", &list), Some(3));
    assert_eq!(resolve_tag("BBBBBB", &list), Some(4));
    assert_eq!(resolve_tag("CCCCCC", &list), None);
    let shared = [assignment("AAAAAA", 3), assignment("BBBBBB", 4), assignment("CCCCCC", 4)];
    assert_eq!(resolve_tag("AAAAAA", &shared), None);
    let twice = [assignment("AAAAAA", 3), assignment("BBBBBB", 4), assignment("BBBBBB", 5)];
    assert_eq!(resolve_tag("AAAAAA", &twice), None);
    assert_eq!(resolve_tag("AAAAAA", &[]), None);
}

#[test]
fn the_device_id_is_the_low_half_of_the_address() {
    assert_eq!(&device::init([1, 2, 3, 0x50, 0x80, 0x40]), b"508040");
    assert_eq!(&device::init([0, 0, 0, 0xAB, 0x0F, 0xF0]), b"AB0FF0");
}

#[test]
fn an_ota_server_is_an_http_authority() {
    let valid = |server: &str| {
        OtaConfiguration { server: heapless::String::try_from(server).unwrap() }.is_valid()
    };
    assert!(valid("192.168.8.1"));
    assert!(valid("ota.local:8787"));
    assert!(!valid(""));
    for bad in ["a b", "a\tb", "a\nb", "a\rb", "a\x0cb", "a/b", "a#b", "a?b", "http://a"] {
        assert!(!valid(bad));
    }
    assert!(is_authority(b"a"));
    assert!(!is_authority(b""));
}

#[test]
fn the_menu_cycles() {
    assert_eq!(MenuPage::default(), MenuPage::Network);
    assert_eq!(MenuPage::Network.next(), MenuPage::Battery);
    assert_eq!(MenuPage::Battery.next(), MenuPage::Network);
    assert_eq!(MenuPage::ALL, [MenuPage::Network, MenuPage::Battery]);
    assert_eq!(MenuPage::ALL.len(), MenuPage::COUNT);
    for (place, page) in MenuPage::ALL.into_iter().enumerate() {
        let mut shown = page;
        for press in 1..=7 {
            shown = shown.next();
            assert_eq!(shown, MenuPage::ALL[(place + press) % MenuPage::COUNT]);
        }
    }
    assert_eq!(BrokerStatus::default().label(), "OFFLINE");
    assert_eq!(BrokerStatus::Connected.label(), "ONLINE");
    assert_eq!(default_capture_seconds(), 60);
}

#[test]
fn download_progress_is_in_whole_percent() {
    let percent = |written, total| OtaStatus::Downloading { written, total }.percent();
    assert_eq!(percent(0, 0), None);
    assert_eq!(percent(0, 1_000), Some(0));
    assert_eq!(percent(999, 1_000), Some(99));
    assert_eq!(percent(1_000, 1_000), Some(100));
    assert_eq!(percent(u32::MAX, 1), Some(100));
    assert_eq!(percent(u32::MAX - 1, u32::MAX), Some(99));
    assert_eq!(OtaStatus::Idle.percent(), None);
    assert_eq!(OtaStatus::Preparing.percent(), None);
    assert_eq!(OtaStatus::Applying.percent(), Some(100));
    assert!(!OtaStatus::Idle.is_active());
    assert!(OtaStatus::Preparing.is_active());
    assert!(OtaStatus::Applying.is_active());
}

#[test]
fn a_heading_needs_most_of_the_circle() {
    let mut sectors = VisitedSectors::new();
    for sector in 0..7 {
        sectors.observe(sector);
        sectors.observe(sector);
    }
    assert!(!sectors.is_usable());
    // Past the last sector is the last sector.
    sectors.observe(99);
    assert!(sectors.visited[11]);
    assert!(sectors.is_usable());
}

#[test]
fn an_attitude_starts_from_gravity_and_then_north() {
    let mut seeds = AttitudeSeeds::new();
    assert_eq!(seeds.begin(false, true), AttitudeStart::Wait);
    assert_eq!(seeds.begin(true, true), AttitudeStart::SeedFromGravity);
    assert_eq!(seeds.begin(true, false), AttitudeStart::Go { snap_heading: false });
    assert_eq!(seeds.begin(false, true), AttitudeStart::Go { snap_heading: true });
    assert_eq!(seeds.begin(true, true), AttitudeStart::Go { snap_heading: false });
    assert_eq!(finish(true, true, true), AttitudeUpdate::SnapToGravity);
    assert_eq!(
        finish(false, true, true),
        AttitudeUpdate::Integrate { gravity: false, heading: true }
    );
    assert_eq!(
        finish(true, false, false),
        AttitudeUpdate::Integrate { gravity: true, heading: false }
    );
}

#[test]
fn the_inertial_part_is_found_on_either_address() {
    assert_eq!(probe::<()>(Some(0x24), Some(0x24)), Ok(0x68));
    assert_eq!(probe::<()>(None, Some(0x24)), Ok(0x69));
    assert_eq!(probe::<()>(Some(0x11), Some(0x24)), Ok(0x69));
    assert_eq!(probe::<()>(Some(0x11), None), Err(Bmi270Error::WrongChipId(0x11)));
    assert_eq!(probe::<()>(Some(0x11), Some(0x12)), Err(Bmi270Error::WrongChipId(0x12)));
    assert_eq!(probe::<()>(None, None), Err(Bmi270Error::NotFound));
    let imu = Imu9Axis::new("inertial", "magnetic");
    assert_eq!(imu.inertial.address, 0x68);
    assert_eq!((imu.inertial.i2c, imu.magnetic.i2c), ("inertial", "magnetic"));
}

#[test]
fn sensor_failures_keep_their_cause() {
    assert_eq!(check_upload::<()>(0xF1), Ok(()));
    assert_eq!(check_upload::<()>(0x02), Err(Bmi270Error::InitFailed(0x02)));
    assert_eq!(check_product_id::<()>(0x30), Ok(()));
    assert_eq!(check_product_id::<()>(0x31), Err(Mmc5983maError::WrongProductId(0x31)));
    assert_eq!(
        ImuError::from(Bmi270Error::Bus(7)),
        ImuError::Inertial(Bmi270Error::Bus(7))
    );
    assert_eq!(
        ImuError::from(Mmc5983maError::Bus(7)),
        ImuError::Magnetic(Mmc5983maError::Bus(7))
    );
}

#[test]
fn the_parts_are_brought_up_in_order() {
    assert_eq!(inertial_init_step(0), Some(InitStep::Write { register: 0x7E, value: 0xB6 }));
    assert_eq!(inertial_init_step(5), Some(InitStep::Upload));
    assert_eq!(inertial_init_step(8), Some(InitStep::CheckUpload));
    assert_eq!(inertial_init_step(15), Some(InitStep::Wait { us: 50_000 }));
    assert_eq!(inertial_init_step(16), None);
    assert_eq!(magnetic_init_step(0), Some(InitStep::Write { register: 0x0A, value: 0x80 }));
    assert_eq!(magnetic_init_step(5), Some(InitStep::Wait { us: 20_000 }));
    assert_eq!(magnetic_init_step(6), None);
}

#[test]
fn the_image_is_pushed_in_bursts() {
    assert_eq!(
        upload_chunk(8_192, 1),
        Some(UploadChunk { address_low: 0, address_high: 4, start: 128, end: 256 })
    );
    assert_eq!(
        upload_chunk(300, 2),
        Some(UploadChunk { address_low: 0, address_high: 8, start: 256, end: 300 })
    );
    assert_eq!(upload_chunk(300, 3), None);
    assert_eq!(upload_chunk(256, 2), None);
    assert_eq!(upload_chunk(0, 0), None);
    let mut next = 0;
    let mut index = 0;
    while let Some(chunk) = upload_chunk(8_192, index) {
        assert_eq!(chunk.start, next);
        let place = usize::from(chunk.address_low) + 16 * usize::from(chunk.address_high);
        assert_eq!(place, chunk.start / 2);
        next = chunk.end;
        index += 1;
    }
    assert_eq!(next, 8_192);
}

#[test]
fn bursts_are_decoded() {
    assert_eq!(word(&[0xFF, 0x34, 0x12], 1), 0x1234);
    assert_eq!(word(&[0xFE, 0xFF], 0), -2);
    let mut burst = [0u8; 24];
    burst[0] = 1;
    burst[3] = 0x80;
    burst[10] = 0xFF;
    burst[11] = 0xFF;
    burst[22] = 0x00;
    burst[23] = 0x02;
    let counts = InertialCounts {
        accel_x: 1,
        accel_y: -32_768,
        accel_z: 0,
        gyro_x: 0,
        gyro_y: 0,
        gyro_z: -1,
        temperature: Some(512),
    };
    assert_eq!(read_inertial(&burst), counts);
    burst[23] = 0x80;
    assert_eq!(read_inertial(&burst), InertialCounts { temperature: None, ..counts });
    assert_eq!(
        read_magnetic(&[0x80, 0, 0xFF, 0xFF, 1, 2, 0b11_01_10_00]),
        MagneticCounts { x: 131_072 + 3, y: 262_140 + 1, z: 1_024 + 8 + 2 }
    );
}

#[test]
fn a_motor_is_driven_one_way() {
    assert_eq!(
        set_motor_outputs(Side::Left, Direction::Forward, 500),
        MotorOutputs {
            forward: 500,
            reverse: 0,
            forward_operation: MotorDriverOperation::LeftForwardPwm,
            reverse_operation: MotorDriverOperation::LeftReversePwm,
        }
    );
    assert_eq!(
        set_motor_outputs(Side::Right, Direction::Reverse, 500),
        MotorOutputs {
            forward: 0,
            reverse: 500,
            forward_operation: MotorDriverOperation::RightForwardPwm,
            reverse_operation: MotorDriverOperation::RightReversePwm,
        }
    );
    let off = set_motor_outputs(Side::Right, Direction::Stopped, 500);
    assert_eq!((off.forward, off.reverse), (0, 0));
}

#[test]
fn the_bridge_sleeps_only_when_stopped() {
    let still = MotorCommand { direction: Direction::Stopped, duty: 0 };
    let ahead = MotorCommand { direction: Direction::Forward, duty: 9 };
    let left_off = MotorAction::Drive(set_motor_outputs(Side::Left, Direction::Stopped, 0));
    let right_off = MotorAction::Drive(set_motor_outputs(Side::Right, Direction::Stopped, 0));
    assert_eq!(stop(), [left_off, right_off, MotorAction::Sleep]);
    assert_eq!(set_speed(still, still), stop());
    assert_eq!(
        set_speed(ahead, still),
        [
            MotorAction::Wake,
            MotorAction::Drive(set_motor_outputs(Side::Left, Direction::Forward, 9)),
            right_off,
        ]
    );
}

#[test]
fn a_bridge_can_be_left_awake_at_standstill() {
    let still = MotorCommand { direction: Direction::Stopped, duty: 0 };
    let back = MotorCommand { direction: Direction::Reverse, duty: 40 };
    let left_off = MotorAction::Drive(set_motor_outputs(Side::Left, Direction::Stopped, 0));
    let right_off = MotorAction::Drive(set_motor_outputs(Side::Right, Direction::Stopped, 0));
    assert_eq!(drive(still, still), [MotorAction::Wake, left_off, right_off]);
    assert_eq!(drive(still, back), set_speed(still, back));
}

#[test]
fn a_pose_needs_three_ranges_to_start() {
    let mut stage = PoseStage::new();
    assert_eq!(stage.bootstrap(2, true), None);
    assert_eq!(stage.bootstrap(3, false), None);
    assert!(!stage.predicts(true));
    assert_eq!(stage.bootstrap(3, true), Some(BiasVariance::Fresh));
    assert!(stage.predicts(true));
    assert!(!stage.predicts(false));
    assert_eq!(stage.bootstrap(4, true), Some(BiasVariance::Carried));
    assert_eq!(stage.bootstrap(4, false), None);
    assert!(stage.initialized);
}

#[test]
fn ranges_that_read_long_are_limited_more_tightly() {
    let check = RangeCheck {
        beneath_anchor: false,
        no_variance: false,
        reads_long: true,
        past_long_limit: true,
        past_short_limit: false,
    };
    let unset = PoseStage::new();
    assert_eq!(unset.judge(check), RangeVerdict::NotInitialized);
    let stage = PoseStage { initialized: true };
    assert_eq!(stage.judge(check), RangeVerdict::TooFarOut);
    let short = RangeCheck { reads_long: false, ..check };
    assert_eq!(stage.judge(short), RangeVerdict::Accept);
    let far = RangeCheck { past_short_limit: true, ..short };
    assert_eq!(stage.judge(far), RangeVerdict::TooFarOut);
    let beneath = RangeCheck { beneath_anchor: true, ..short };
    assert_eq!(stage.judge(beneath), RangeVerdict::Meaningless);
    let singular = RangeCheck { no_variance: true, ..short };
    assert_eq!(stage.judge(singular), RangeVerdict::Meaningless);
}

#[test]
fn motor_failures_say_what_was_being_done() {
    let error: MotorDriverError<u8, u16> =
        MotorDriverError::pwm(MotorDriverOperation::LeftForwardPwm, 1);
    assert_eq!(error.operation, MotorDriverOperation::LeftForwardPwm);
    assert_eq!(error.source, MotorDriverErrorSource::Pwm(1));
    let error: MotorDriverError<u8, u16> = MotorDriverError::sleep(MotorDriverOperation::Wake, 2);
    assert_eq!(error.operation, MotorDriverOperation::Wake);
    assert_eq!(error.source, MotorDriverErrorSource::Sleep(2));
}
